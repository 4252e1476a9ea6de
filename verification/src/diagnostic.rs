//! Error values produced by the rules, with the location they were found at.

use vstd::prelude::*;

verus! {

/// One error message, with the attribute path it was reported under,
/// outermost location first.
pub struct Diagnostic {
    pub message: String,
    pub location: Vec<String>,
}

impl Diagnostic {
    /// A new error with the given message and no location.
    pub fn custom(message: &str) -> (d: Diagnostic)
        ensures
            d.message@ == message@,
            d.location@.len() == 0,
    {
        Diagnostic { message: String::from_str(message), location: Vec::new() }
    }

    /// An error whose message was built elsewhere.
    pub fn from_message(message: String) -> (d: Diagnostic)
        ensures
            d.message@ == message@,
            d.location@.len() == 0,
    {
        Diagnostic { message, location: Vec::new() }
    }

    /// The same error, reported one level further out, under `location`.
    pub fn at(self, location: String) -> (d: Diagnostic)
        ensures
            d.message@ == self.message@,
            d.location@ == seq![location] + self.location@,
    {
        let mut loc: Vec<String> = Vec::new();
        loc.push(location);
        let mut rest = self.location;
        let ghost l0 = loc@;
        let ghost r0 = rest@;
        loc.append(&mut rest);
        assert(loc@ == l0 + r0);
        assert(loc.deep_view() =~= seq![location@] + self.location.deep_view());
        Diagnostic { message: self.message, location: loc }
    }
}

/// A value that was produced even though some errors were found on the way.
pub struct Caveat<T>(pub T, pub Vec<Diagnostic>);

impl<T> Caveat<T> {
    /// The value when no error was found, else the errors.
    pub fn into_result(self) -> (r: Result<T, Vec<Diagnostic>>)
        ensures
            self.1@.len() == 0 ==> r == Ok::<T, Vec<Diagnostic>>(self.0),
            self.1@.len() != 0 ==> (r matches Err(e) && e@ == self.1@),
    {
        if self.1.len() == 0 {
            Ok(self.0)
        } else {
            Err(self.1)
        }
    }

    /// The value; its errors are added to `errors`.
    pub fn and_recover(self, errors: &mut Vec<Diagnostic>) -> (r: T)
        ensures
            r == self.0,
            final(errors)@ == old(errors)@ + self.1@,
    {
        let Caveat(value, mut errs) = self;
        errors.append(&mut errs);
        value
    }
}

/// Reports every error of `errs` under the location `location`.
pub fn all_at(errs: Vec<Diagnostic>, location: &str) -> (r: Vec<Diagnostic>)
    ensures
        r@.len() == errs@.len(),
        forall|i: int|
            0 <= i < errs@.len() ==> {
                &&& (#[trigger] r@[i]).message@ == errs@[i].message@
                &&& r@[i].location.deep_view() == seq![location@] + errs@[i].location.deep_view()
            },
{
    let mut out: Vec<Diagnostic> = Vec::new();
    let mut errs = errs;
    let ghost orig = errs@;
    let n = errs.len();
    let mut rev: Vec<Diagnostic> = Vec::new();
    // take the errors out from the back, then restore the order
    while errs.len() > 0
        invariant
            errs@.len() + rev@.len() == n,
            n == orig.len(),
            forall|j: int| 0 <= j < errs@.len() ==> errs@[j] == orig[j],
            forall|j: int|
                0 <= j < rev@.len() ==> {
                    &&& (#[trigger] rev@[j]).message@ == orig[n - 1 - j].message@
                    &&& rev@[j].location.deep_view() == seq![location@] + orig[n - 1 - j].location.deep_view()
                },
        decreases errs@.len(),
    {
        let d = errs.pop().unwrap();
        let d = d.at(String::from_str(location));
        rev.push(d);
    }
    while rev.len() > 0
        invariant
            rev@.len() + out@.len() == n,
            n == orig.len(),
            forall|j: int|
                0 <= j < rev@.len() ==> {
                    &&& (#[trigger] rev@[j]).message@ == orig[n - 1 - j].message@
                    &&& rev@[j].location.deep_view() == seq![location@] + orig[n - 1 - j].location.deep_view()
                },
            forall|j: int|
                0 <= j < out@.len() ==> {
                    &&& (#[trigger] out@[j]).message@ == orig[j].message@
                    &&& out@[j].location.deep_view() == seq![location@] + orig[j].location.deep_view()
                },
        decreases rev@.len(),
    {
        let d = rev.pop().unwrap();
        out.push(d);
    }
    out
}

} // verus!
