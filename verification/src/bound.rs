//! The arguments handed to `Function.prototype.bind`, and the older call
//! helpers, which bind the function's own arguments only.

use vstd::prelude::*;

use crate::call::{source_view, BindFunction, FunctionLength, FunctionSource, ThisSlot};
use crate::property::{PropertyKey, PropertyKeyView};
use crate::text::concat2;

verus! {

/// One value handed to `bind`.
#[derive(Clone, Copy, PartialEq, Eq, Structural)]
pub enum BoundSlot {
    /// The object the method is called on.
    This,
    /// `undefined`.
    Undefined,
    /// The argument at that index.
    Arg(usize),
}

/// What is handed to `bind` before the arguments.
pub open spec fn spec_this_prefix(this: ThisSlot) -> Seq<BoundSlot> {
    match this {
        ThisSlot::Object => seq![BoundSlot::This],
        ThisSlot::Undefined => seq![BoundSlot::Undefined],
        ThisSlot::Absent => seq![],
    }
}

/// The values handed to `bind` for `n` fixed arguments: `this` when it is
/// bound, then each argument in its order.
pub open spec fn spec_slots(this: ThisSlot, n: nat) -> Seq<BoundSlot> {
    spec_this_prefix(this) + Seq::new(n, |i: int| BoundSlot::Arg(i as usize))
}

impl BindFunction {
    /// The values handed to `bind` when the number of arguments is fixed;
    /// none when it is variadic (the arguments are then collected at run
    /// time, after `this`).
    pub fn bound_slots(&self) -> (r: Option<Vec<BoundSlot>>)
        ensures
            self.length is Variadic ==> r is None,
            self.length matches FunctionLength::Fixed(n) ==> (r matches Some(v) && v@ == spec_slots(
                self.this,
                n as nat,
            )),
    {
        match self.length {
            FunctionLength::Variadic => None,
            FunctionLength::Fixed(n) => {
                let mut v: Vec<BoundSlot> = Vec::new();
                match self.this {
                    ThisSlot::Object => v.push(BoundSlot::This),
                    ThisSlot::Undefined => v.push(BoundSlot::Undefined),
                    ThisSlot::Absent => {},
                }
                let ghost prefix = v@;
                assert(prefix == spec_this_prefix(self.this));
                let mut i: usize = 0;
                while i < n
                    invariant
                        i <= n,
                        v@ == prefix + Seq::new(i as nat, |k: int| BoundSlot::Arg(k as usize)),
                    decreases n - i,
                {
                    v.push(BoundSlot::Arg(i));
                    assert(v@ =~= prefix + Seq::new((i + 1) as nat, |k: int| BoundSlot::Arg(k as usize)));
                    i = i + 1;
                }
                Some(v)
            },
        }
    }
}

/// The error when a value that V8 returned is empty: `{name} is None`.
pub fn none_message(name: &str) -> (r: String)
    ensures
        r@ == name@ + " is None"@,
{
    concat2(name, " is None")
}

/// How many arguments the older call helper passes.
#[derive(Clone, Copy, PartialEq, Eq, Structural)]
pub enum Arity {
    /// A fixed number, in an array.
    Fixed(usize),
    /// Any number, in a `Vec`.
    Variadic,
}

/// How many arguments a bound function passes.
#[derive(Clone, Copy, PartialEq, Eq, Structural)]
pub enum FuncArity {
    Fixed(usize),
    Variadic,
}

/// A call of the function found under `name`, with only its own arguments
/// bound.
pub struct Call {
    pub name: PropertyKey,
    pub ctor: bool,
    pub arity: Arity,
}

/// A call of the function found under `name`, with only its own arguments
/// bound.
pub struct BoundFunc {
    pub name: PropertyKey,
    pub ctor: bool,
    pub arity: FuncArity,
}

/// The number of arguments as the call helper takes it.
pub open spec fn arity_length(a: Arity) -> FunctionLength {
    match a {
        Arity::Fixed(n) => FunctionLength::Fixed(n),
        Arity::Variadic => FunctionLength::Variadic,
    }
}

/// The number of arguments as the call helper takes it.
pub open spec fn func_arity_length(a: FuncArity) -> FunctionLength {
    match a {
        FuncArity::Fixed(n) => FunctionLength::Fixed(n),
        FuncArity::Variadic => FunctionLength::Variadic,
    }
}

impl Call {
    /// The call helper it renders: the function is the property `name`,
    /// nothing is bound before the arguments.
    pub fn to_bind_function(&self) -> (b: BindFunction)
        ensures
            source_view(b.source) == Some(self.name@),
            b.this == ThisSlot::Absent,
            b.ctor == self.ctor,
            b.length == arity_length(self.arity),
    {
        let length = match self.arity {
            Arity::Fixed(n) => FunctionLength::Fixed(n),
            Arity::Variadic => FunctionLength::Variadic,
        };
        BindFunction {
            source: FunctionSource::Prop(self.name.duplicate()),
            this: ThisSlot::Absent,
            ctor: self.ctor,
            length,
        }
    }
}

impl BoundFunc {
    /// The call helper it renders: the function is the property `name`,
    /// nothing is bound before the arguments.
    pub fn to_bind_function(&self) -> (b: BindFunction)
        ensures
            source_view(b.source) == Some(self.name@),
            b.this == ThisSlot::Absent,
            b.ctor == self.ctor,
            b.length == func_arity_length(self.arity),
    {
        let length = match self.arity {
            FuncArity::Fixed(n) => FunctionLength::Fixed(n),
            FuncArity::Variadic => FunctionLength::Variadic,
        };
        BindFunction {
            source: FunctionSource::Prop(self.name.duplicate()),
            this: ThisSlot::Absent,
            ctor: self.ctor,
            length,
        }
    }
}

/// The key `bind` is looked up under on the function.
pub fn bind_key() -> (k: PropertyKey)
    ensures
        k@ == PropertyKeyView::String("bind"@),
{
    PropertyKey::from_str("bind")
}

/// How the arguments bound by the older call helper are gathered.
#[derive(Clone, Copy, PartialEq, Eq, Structural)]
pub enum BoundArgs {
    /// In a `Vec`, when some argument is a spread.
    Vec,
    /// In an array of that length: `this` and each argument.
    Array(usize),
}

/// `Vec` when some argument is a spread, else an array holding `this` and
/// each argument.
pub fn bound_args(spreads: &Vec<bool>) -> (r: BoundArgs)
    requires
        spreads@.len() < usize::MAX,
    ensures
        (exists|i: int| 0 <= i < spreads@.len() && spreads@[i]) ==> r == BoundArgs::Vec,
        (forall|i: int| 0 <= i < spreads@.len() ==> !spreads@[i]) ==> r == BoundArgs::Array(
            (spreads@.len() + 1) as usize,
        ),
{
    let n = spreads.len();
    let mut i: usize = 0;
    while i < n
        invariant
            n == spreads@.len(),
            i <= n,
            forall|j: int| 0 <= j < i ==> !spreads@[j],
        decreases n - i,
    {
        if spreads[i] {
            return BoundArgs::Vec;
        }
        i = i + 1;
    }
    BoundArgs::Array(n + 1)
}

} // verus!
