//! Calling a JavaScript function from a Rust method: how the method's
//! signature decides the call, and the plan of the generated call.

use vstd::prelude::*;

use crate::diagnostic::{Caveat, Diagnostic};
use crate::property::{spec_key_description, PropertyKey, PropertyKeyView};
use crate::sig::{
    check, failed_checks, messages, unlocated, ArgHead, ArgPattern, FnArgNode, RangeEnd, SigFlags,
};
use crate::text::{concat2, debug_text, debug_text_of, str_eq};
use crate::types::{
    conversion_error, converts, SegmentArgs, TypeNode, V8Conv,
};

verus! {

/// How the function is invoked.
#[derive(Clone, Copy, PartialEq, Eq, Structural)]
pub enum FunctionIntent {
    /// Called, returning its result.
    Called,
    /// Called with `new`.
    Constructed,
    /// Called, and the promise it returns awaited (`async fn`).
    Awaited,
}

/// The qualifiers a generated function cannot have, with their messages.
pub open spec fn spec_unsupported(flags: SigFlags) -> Seq<(bool, Seq<char>)> {
    seq![
        (flags.is_const, "fn cannot be `const` here"@),
        (flags.is_unsafe, "fn cannot be `unsafe` here"@),
        (flags.has_abi, "fn cannot be `extern` here"@),
        (flags.is_variadic, "fn cannot be variadic here"@),
    ]
}

/// The checks made when a function is required to be invoked with `intent`.
pub open spec fn spec_intent_checks(intent: FunctionIntent, flags: SigFlags) -> Seq<(bool, Seq<char>)> {
    spec_unsupported(flags).push(
        match intent {
            FunctionIntent::Awaited => (!flags.is_async, "fn is required to be `async` here"@),
            _ => (flags.is_async, "fn cannot be `async` here"@),
        },
    )
}

impl FunctionIntent {
    /// Reports the qualifiers the function cannot have: `const`, `unsafe`,
    /// `extern`, variadic.
    pub fn supported(flags: SigFlags) -> (r: Vec<Diagnostic>)
        ensures
            messages(r@) == failed_checks(spec_unsupported(flags)),
            unlocated(r@),
    {
        let mut errors: Vec<Diagnostic> = Vec::new();
        check(&mut errors, flags.is_const, "fn cannot be `const` here");
        check(&mut errors, flags.is_unsafe, "fn cannot be `unsafe` here");
        check(&mut errors, flags.has_abi, "fn cannot be `extern` here");
        check(&mut errors, flags.is_variadic, "fn cannot be variadic here");
        proof {
            let c = spec_unsupported(flags);
            reveal_with_fuel(failed_checks, 5);
            assert(c.drop_last() =~= seq![c[0], c[1], c[2]]);
            assert(seq![c[0], c[1], c[2]].drop_last() =~= seq![c[0], c[1]]);
            assert(seq![c[0], c[1]].drop_last() =~= seq![c[0]]);
            assert(seq![c[0]].drop_last() =~= seq![]);
            assert(messages(errors@) =~= failed_checks(c));
        }
        errors
    }

    /// The intent the signature asks for (`async fn` is awaited), with the
    /// unsupported qualifiers reported.
    pub fn some(flags: SigFlags) -> (r: Caveat<FunctionIntent>)
        ensures
            r.0 == (if flags.is_async {
                FunctionIntent::Awaited
            } else {
                FunctionIntent::Called
            }),
            messages(r.1@) == failed_checks(spec_unsupported(flags)),
            unlocated(r.1@),
    {
        let intent = if flags.is_async {
            FunctionIntent::Awaited
        } else {
            FunctionIntent::Called
        };
        Caveat(intent, FunctionIntent::supported(flags))
    }

    /// Requires the function to be invoked with this intent: an awaited
    /// function must be `async`, the others must not be.
    pub fn only(self, flags: SigFlags) -> (r: Caveat<FunctionIntent>)
        ensures
            r.0 == self,
            messages(r.1@) == failed_checks(spec_intent_checks(self, flags)),
            unlocated(r.1@),
    {
        let Caveat(color, mut errors) = FunctionIntent::some(flags);
        match self {
            FunctionIntent::Awaited => {
                check(&mut errors, !flags.is_async, "fn is required to be `async` here");
            },
            _ => {
                check(&mut errors, flags.is_async, "fn cannot be `async` here");
            },
        }
        proof {
            let c = spec_intent_checks(self, flags);
            assert(c.drop_last() =~= spec_unsupported(flags));
        }
        Caveat(self, errors)
    }
}

/// Where the function is found.
pub enum FunctionSource {
    /// A property of the object.
    Prop(PropertyKey),
    /// The object is the function.
    This,
}

/// What `this` is bound to when the function is called.
pub enum FunctionThis<L> {
    /// The object the method is called on.
    Self_,
    /// `undefined` (an argument `this: undefined` was written); `raw` is
    /// that argument.
    Undefined { raw: L },
    /// Nothing is bound: the caller passes `this` as the first argument.
    Unbound,
}

/// One argument passed on to JavaScript.
pub struct FunctionInput<L> {
    pub ident: String,
    pub ty: V8Conv<L>,
    /// Written `..name`: its items are passed as separate arguments.
    pub spread: bool,
}

/// A call of a JavaScript function, as decided from a Rust signature.
pub struct CallFunction<L> {
    pub intent: FunctionIntent,
    pub source: FunctionSource,
    pub this: FunctionThis<L>,
    pub inputs: Vec<FunctionInput<L>>,
    pub output: Option<V8Conv<L>>,
}

/// The role of a typed argument of the Rust signature.
pub enum ArgRole {
    /// Passed on as an argument named `name`.
    Input { name: Seq<char>, spread: bool },
    /// `this: undefined`: not passed; `this` is bound to `undefined`.
    ThisUndefined,
    /// Not accepted; the message says why.
    Bad { message: Seq<char> },
}

/// The type is the bare path `undefined`.
pub open spec fn is_undefined<L>(ty: TypeNode<L>) -> bool {
    match ty {
        TypeNode::Path { plain, segments, .. } => plain && segments@.len() == 1 && segments@[0].ident@
            == "undefined"@ && segments@[0].args is Absent,
        _ => false,
    }
}

/// The message for a pattern that is neither an identifier nor a spread.
pub open spec fn spec_bad_pattern() -> Seq<char> {
    "expected an identifier or spread argument"@
}

/// The role of an argument with pattern `pat` and type `ty`.
pub open spec fn arg_role<L>(pat: ArgPattern, ty: TypeNode<L>) -> ArgRole {
    match pat {
        ArgPattern::Ident { name, plain } => if !plain {
            ArgRole::Bad { message: spec_bad_pattern() }
        } else if name@ == "this"@ && is_undefined(ty) {
            ArgRole::ThisUndefined
        } else {
            ArgRole::Input { name: name@, spread: false }
        },
        ArgPattern::RangeTo { half_open, end } => if !half_open {
            ArgRole::Bad { message: spec_bad_pattern() }
        } else {
            match end {
                RangeEnd::UnitPath(n) => ArgRole::Input { name: n@, spread: true },
                RangeEnd::OtherExpr => ArgRole::Bad {
                    message: "spread argument should be written as `..name`\nfound extra patterns"@,
                },
                RangeEnd::Missing => ArgRole::Bad { message: spec_bad_pattern() },
            }
        },
        ArgPattern::RangeFrom => ArgRole::Bad {
            message: "spread argument should be written as `..name`"@,
        },
        ArgPattern::Other => ArgRole::Bad { message: spec_bad_pattern() },
    }
}

/// The arguments passed on, in order: name, spread, and the position of the
/// Rust argument they come from.
pub open spec fn inputs_of<L>(args: Seq<FnArgNode<L>>) -> Seq<(Seq<char>, bool, int)>
    decreases args.len(),
{
    if args.len() == 0 {
        seq![]
    } else {
        let rest = inputs_of(args.drop_last());
        match args.last() {
            FnArgNode::Typed { pat, ty, .. } => match arg_role(pat, ty) {
                ArgRole::Input { name, spread } => rest.push((name, spread, args.len() - 1)),
                _ => rest,
            },
            _ => rest,
        }
    }
}

/// The error messages, in order: for each typed argument, the error of its
/// type's conversion, then the error of its pattern.
pub open spec fn arg_errors_of<L>(args: Seq<FnArgNode<L>>) -> Seq<Seq<char>>
    decreases args.len(),
{
    if args.len() == 0 {
        seq![]
    } else {
        let rest = arg_errors_of(args.drop_last());
        match args.last() {
            FnArgNode::Typed { pat, ty, .. } => {
                let conv = if conversion_error(ty) {
                    rest.push("expected `v8::Global<v8::...>`"@)
                } else {
                    rest
                };
                match arg_role(pat, ty) {
                    ArgRole::Bad { message } => conv.push(message),
                    _ => conv,
                }
            },
            _ => rest,
        }
    }
}

/// How `this` is bound: by the last argument named `this`, if any —
/// `Some((true, i))` when it is `this: undefined` at position `i`,
/// `Some((false, i))` when it is another `this` argument.
pub open spec fn this_of<L>(args: Seq<FnArgNode<L>>) -> Option<(bool, int)>
    decreases args.len(),
{
    if args.len() == 0 {
        None
    } else {
        let rest = this_of(args.drop_last());
        match args.last() {
            FnArgNode::Typed { pat: ArgPattern::Ident { name, plain }, ty, .. } => if plain && name@
                == "this"@ {
                Some((is_undefined(ty), args.len() - 1))
            } else {
                rest
            },
            _ => rest,
        }
    }
}

/// The first argument left in the signature once `this: undefined` is
/// taken out.
pub open spec fn kept_head_of<L>(args: Seq<FnArgNode<L>>) -> Option<ArgHead>
    decreases args.len(),
{
    if args.len() == 0 {
        None
    } else {
        let rest = kept_head_of(args.drop_last());
        if rest is Some {
            rest
        } else {
            match args.last() {
                FnArgNode::Receiver { kind, .. } => Some(ArgHead::Receiver(kind)),
                FnArgNode::Typed { pat, ty, .. } => match arg_role(pat, ty) {
                    ArgRole::ThisUndefined => None,
                    _ => Some(ArgHead::Typed),
                },
            }
        }
    }
}

/// The role of a typed argument, computed.
fn role_of<L>(pat: &ArgPattern, ty: &TypeNode<L>) -> (r: (u8, bool))
    ensures
        (r.0 == 0) <==> arg_role(*pat, *ty) is Input,
        (r.0 == 1) <==> arg_role(*pat, *ty) is ThisUndefined,
        (r.0 == 2) <==> arg_role(*pat, *ty) is Bad,
        r.0 == 0 ==> r.1 == arg_role(*pat, *ty)->Input_spread,
{
    match pat {
        ArgPattern::Ident { name, plain } => {
            if !*plain {
                (2, false)
            } else if str_eq(name.as_str(), "this") && undefined_type(ty) {
                (1, false)
            } else {
                (0, false)
            }
        },
        ArgPattern::RangeTo { half_open, end } => {
            if !*half_open {
                (2, false)
            } else {
                match end {
                    RangeEnd::UnitPath(_) => (0, true),
                    _ => (2, false),
                }
            }
        },
        _ => (2, false),
    }
}

/// See [`is_undefined`].
fn undefined_type<L>(ty: &TypeNode<L>) -> (r: bool)
    ensures
        r == is_undefined(*ty),
{
    match ty {
        TypeNode::Path { plain, segments, .. } => {
            *plain && segments.len() == 1 && str_eq(segments[0].ident.as_str(), "undefined")
                && match &segments[0].args {
                SegmentArgs::Absent => true,
                _ => false,
            }
        },
        _ => false,
    }
}

/// The message for an argument that is not accepted.
fn bad_message<L>(pat: &ArgPattern, Ghost(ty): Ghost<TypeNode<L>>) -> (r: &'static str)
    requires
        arg_role(*pat, ty) is Bad,
    ensures
        r@ == arg_role(*pat, ty)->Bad_message,
{
    match pat {
        ArgPattern::RangeTo { half_open: true, end: RangeEnd::OtherExpr } => {
            "spread argument should be written as `..name`\nfound extra patterns"
        },
        ArgPattern::RangeFrom => "spread argument should be written as `..name`",
        _ => "expected an identifier or spread argument",
    }
}

/// `this` as decided by the arguments: see [`this_of`].
pub open spec fn this_matches<L>(
    this: FunctionThis<L>,
    decided: Option<(bool, int)>,
    args: Seq<FnArgNode<L>>,
) -> bool {
    match decided {
        None => this is Self_,
        Some((true, i)) => this matches FunctionThis::Undefined { raw } && args[i] matches FnArgNode::Typed {
            raw: r2,
            ..
        } && raw == r2,
        Some((false, _)) => this is Unbound,
    }
}

/// The inputs correspond one by one to the arguments passed on.
pub open spec fn inputs_match<L>(
    inputs: Seq<FunctionInput<L>>,
    decided: Seq<(Seq<char>, bool, int)>,
    args: Seq<FnArgNode<L>>,
) -> bool {
    &&& inputs.len() == decided.len()
    &&& forall|i: int|
        0 <= i < inputs.len() ==> {
            &&& (#[trigger] inputs[i]).ident@ == decided[i].0
            &&& inputs[i].spread == decided[i].1
            &&& 0 <= decided[i].2 < args.len()
            &&& args[decided[i].2] is Typed
            &&& converts(args[decided[i].2]->Typed_ty, inputs[i].ty)
        }
}

/// The errors found deciding a call from a signature: those of the
/// arguments, then that of the return type's conversion.
pub open spec fn spec_sig_errors<L>(inputs: Seq<FnArgNode<L>>, output: Option<TypeNode<L>>) -> Seq<
    Seq<char>,
> {
    arg_errors_of(inputs) + (match output {
        Some(t) => if conversion_error(t) {
            seq!["expected `v8::Global<v8::...>`"@]
        } else {
            seq![]
        },
        None => seq![],
    })
}

/// The intent asked for by a signature's qualifiers.
pub open spec fn spec_intent(flags: SigFlags) -> FunctionIntent {
    if flags.is_async {
        FunctionIntent::Awaited
    } else {
        FunctionIntent::Called
    }
}

/// A source as a mathematical value.
pub open spec fn source_view(s: FunctionSource) -> Option<PropertyKeyView> {
    match s {
        FunctionSource::Prop(k) => Some(k@),
        FunctionSource::This => None,
    }
}

impl<L> CallFunction<L> {
    /// Decides the call from a Rust signature: the function is found under
    /// the Rust name, awaited when the method is `async`; each typed
    /// argument is passed on (`..name` as a spread), except `this:
    /// undefined`, which binds `this` to `undefined`; another argument named
    /// `this` leaves `this` unbound. Also gives the first argument left in
    /// the signature.
#[verifier::spinoff_prover]
#[verifier::rlimit(40)]
    pub fn from_sig(
        ident: &str,
        flags: SigFlags,
        inputs: Vec<FnArgNode<L>>,
        output: Option<TypeNode<L>>,
        unit: L,
    ) -> (r: (Caveat<CallFunction<L>>, Option<ArgHead>))
        ensures
            r.0.0.intent == spec_intent(flags),
            source_view(r.0.0.source) == Some(PropertyKeyView::String(ident@)),
            this_matches(r.0.0.this, this_of(inputs@), inputs@),
            inputs_match(r.0.0.inputs@, inputs_of(inputs@), inputs@),
            output is None ==> r.0.0.output is None,
            output matches Some(t) ==> (r.0.0.output matches Some(c) && converts(t, c)),
            messages(r.0.1@) == spec_sig_errors(inputs@, output),
            unlocated(r.0.1@),
            r.1 == kept_head_of(inputs@),
    {
        let ghost args = inputs@;
        let n = inputs.len();
        let mut rest = inputs;
        let mut errors: Vec<Diagnostic> = Vec::new();
        let mut passed: Vec<FunctionInput<L>> = Vec::new();
        let mut this: FunctionThis<L> = FunctionThis::Self_;
        let mut head: Option<ArgHead> = None;
        let mut k: usize = 0;
        assert(args.take(0) =~= seq![]);
        while k < n
            invariant
                n == args.len(),
                k <= n,
                rest@ == args.subrange(k as int, n as int),
                this_matches(this, this_of(args.take(k as int)), args),
                inputs_match(passed@, inputs_of(args.take(k as int)), args),
                messages(errors@) == arg_errors_of(args.take(k as int)),
                unlocated(errors@),
                head == kept_head_of(args.take(k as int)),
            decreases n - k,
        {
            let ghost pre = args.take(k as int);
            let ghost cur = args.take(k + 1);
            assert(cur.drop_last() =~= pre);
            assert(cur.last() == args[k as int]);
            let ghost before_rest = rest@;
            let a = rest.remove(0);
            assert(a == args[k as int]);
            assert(rest@ =~= args.subrange(k + 1, n as int));
            let ghost old_passed = passed@;
            let ghost old_errors = errors@;
            proof {
                assert forall|i: int| 0 <= i < inputs_of(pre).len() implies
                    0 <= (#[trigger] inputs_of(pre)[i]).2 < k by {
                    lemma_inputs_of_positions(pre);
                }
            }
            match a {
                FnArgNode::Receiver { kind, raw } => {
                    if head.is_none() {
                        head = Some(ArgHead::Receiver(kind));
                    }
                    proof {
                        lemma_inputs_of_positions(pre);
                    }
                },
                FnArgNode::Typed { pat, ty, raw } => {
                    let ghost t = ty;
                    let (code, spread) = role_of(&pat, &ty);
                    let Caveat(conv, mut conv_errors) = V8Conv::from_type(ty);
                    errors.append(&mut conv_errors);
                    assert(messages(errors@) =~= messages(old_errors) + (if conversion_error(t) {
                        seq!["expected `v8::Global<v8::...>`"@]
                    } else {
                        seq![]
                    }));
                    if code == 2 {
                        let msg = bad_message::<L>(&pat, Ghost(t));
                        let ghost e1 = errors@;
                        errors.push(Diagnostic::custom(msg));
                        assert(messages(errors@) =~= messages(e1).push(msg@));
                    }
                    if head.is_none() && code != 1 {
                        head = Some(ArgHead::Typed);
                    }
                    proof {
                        lemma_inputs_of_positions(pre);
                    }
                    if code == 1 {
                        this = FunctionThis::Undefined { raw };
                    } else if code == 0 {
                        let is_this = match &pat {
                            ArgPattern::Ident { name, .. } => str_eq(name.as_str(), "this"),
                            _ => false,
                        };
                        if is_this {
                            this = FunctionThis::Unbound;
                        }
                        let name = match pat {
                            ArgPattern::Ident { name, .. } => name,
                            ArgPattern::RangeTo { end: RangeEnd::UnitPath(n), .. } => n,
                            _ => String::new(),
                        };
                        passed.push(FunctionInput { ident: name, ty: conv, spread });
                        assert(passed@.last().ident@ == arg_role(
                            args[k as int]->Typed_pat,
                            t,
                        )->Input_name);
                    }
                },
            }
            proof {
                assert(inputs_of(cur).len() == passed@.len());
                assert forall|i: int| 0 <= i < passed@.len() implies {
                    &&& (#[trigger] passed@[i]).ident@ == inputs_of(cur)[i].0
                    &&& passed@[i].spread == inputs_of(cur)[i].1
                    &&& 0 <= inputs_of(cur)[i].2 < args.len()
                    &&& args[inputs_of(cur)[i].2] is Typed
                    &&& converts(args[inputs_of(cur)[i].2]->Typed_ty, passed@[i].ty)
                } by {
                    if i < old_passed.len() {
                        assert(passed@[i] == old_passed[i]);
                        assert(inputs_of(cur)[i] == inputs_of(pre)[i]);
                    }
                }
                assert(messages(errors@) =~= arg_errors_of(cur));
            }
            k = k + 1;
        }
        assert(args.take(n as int) =~= args);
        let ghost arg_errs = errors@;
        let out = match output {
            Some(t) => {
                let Caveat(c, mut out_errors) = V8Conv::from_type(t);
                errors.append(&mut out_errors);
                Some(c)
            },
            None => None,
        };
        assert(messages(errors@) =~= messages(arg_errs) + (match output {
            Some(t) => if conversion_error(t) {
                seq!["expected `v8::Global<v8::...>`"@]
            } else {
                seq![]
            },
            None => seq![],
        }));
        let call = CallFunction {
            intent: if flags.is_async {
                FunctionIntent::Awaited
            } else {
                FunctionIntent::Called
            },
            source: FunctionSource::Prop(PropertyKey::from_str(ident)),
            this,
            inputs: passed,
            output: out,
        };
        (Caveat(call, errors), head)
    }
}

/// The positions recorded by [`inputs_of`] are positions of the list.
proof fn lemma_inputs_of_positions<L>(args: Seq<FnArgNode<L>>)
    ensures
        forall|i: int|
            0 <= i < inputs_of(args).len() ==> 0 <= (#[trigger] inputs_of(args)[i]).2 < args.len(),
    decreases args.len(),
{
    if args.len() > 0 {
        let pre = args.drop_last();
        lemma_inputs_of_positions(pre);
        let rest = inputs_of(pre);
        assert forall|i: int|
            0 <= i < inputs_of(args).len() implies 0 <= (#[trigger] inputs_of(args)[i]).2
                < args.len() by {
            if i < rest.len() {
                assert(inputs_of(args)[i] == rest[i]);
            }
        }
    }
}


/// How many arguments the bound function receives.
#[derive(Clone, Copy, PartialEq, Eq, Structural)]
pub enum FunctionLength {
    /// A fixed number, passed as an array.
    Fixed(usize),
    /// Any number (some argument is a spread), passed as a `Vec`.
    Variadic,
}

/// What the first argument of the bound function is.
#[derive(Clone, Copy, PartialEq, Eq, Structural)]
pub enum ThisSlot {
    /// The object the method is called on.
    Object,
    /// `undefined`.
    Undefined,
    /// Nothing is prepended: the arguments are passed as they are.
    Absent,
}

/// The helper that finds the function, binds `this` and the arguments with
/// `Function.prototype.bind`, and calls or constructs the result.
pub struct BindFunction {
    pub source: FunctionSource,
    pub this: ThisSlot,
    pub ctor: bool,
    pub length: FunctionLength,
}

/// How the arguments are gathered before the call.
#[derive(Clone, Copy, PartialEq, Eq, Structural)]
pub enum ArgsLayout {
    /// No argument: an empty array.
    Empty,
    /// Into a `Vec`, spreads item by item.
    Pushed,
    /// Into an array, one per argument.
    Array,
}

/// Everything the generated method needs to know about the call.
pub struct CallPlan {
    /// The context added to every error of the call.
    pub error_ctx: String,
    pub layout: ArgsLayout,
    /// For each argument, the context of an error converting it.
    pub input_errors: Vec<String>,
    pub bind: BindFunction,
    /// The returned promise is awaited.
    pub awaited: bool,
}

/// Whether some argument is a spread.
pub open spec fn any_spread<L>(inputs: Seq<FunctionInput<L>>) -> bool {
    exists|i: int| 0 <= i < inputs.len() && (#[trigger] inputs[i]).spread
}

/// The context of every error of a call.
pub open spec fn spec_error_ctx(intent: FunctionIntent, source: Option<PropertyKeyView>) -> Seq<char> {
    match intent {
        FunctionIntent::Constructed => match source {
            Some(k) => "failed to construct "@ + spec_key_description(k),
            None => "failed to construct"@,
        },
        _ => match source {
            Some(k) => "failed to call function "@ + spec_key_description(k),
            None => "failed to call function"@,
        },
    }
}

/// The context of an error converting an argument.
pub open spec fn spec_input_error(name: Seq<char>, spread: bool) -> Seq<char> {
    if spread {
        "failed to serialize item in argument "@ + debug_text_of(name)
    } else {
        "failed to serialize argument "@ + debug_text_of(name)
    }
}

/// The first argument of the bound function for a binding of `this`.
pub open spec fn spec_this_slot<L>(this: FunctionThis<L>) -> ThisSlot {
    match this {
        FunctionThis::Self_ => ThisSlot::Object,
        FunctionThis::Undefined { .. } => ThisSlot::Undefined,
        FunctionThis::Unbound => ThisSlot::Absent,
    }
}

/// `p` is the plan of the call `c`; see [`CallFunction::plan`].
pub open spec fn spec_plan_of<L>(c: CallFunction<L>, p: CallPlan) -> bool {
    &&& p.error_ctx@ == spec_error_ctx(c.intent, source_view(c.source))
    &&& source_view(p.bind.source) == source_view(c.source)
    &&& p.bind.this == spec_this_slot(c.this)
    &&& p.bind.ctor == (c.intent == FunctionIntent::Constructed)
    &&& any_spread(c.inputs@) ==> p.bind.length == FunctionLength::Variadic && p.layout
        == ArgsLayout::Pushed
    &&& !any_spread(c.inputs@) ==> p.bind.length == FunctionLength::Fixed(c.inputs@.len() as usize)
    &&& !any_spread(c.inputs@) && c.inputs@.len() == 0 ==> p.layout == ArgsLayout::Empty
    &&& !any_spread(c.inputs@) && c.inputs@.len() > 0 ==> p.layout == ArgsLayout::Array
    &&& p.input_errors@.len() == c.inputs@.len()
    &&& forall|i: int|
        0 <= i < c.inputs@.len() ==> (#[trigger] p.input_errors@[i])@ == spec_input_error(
            c.inputs@[i].ident@,
            c.inputs@[i].spread,
        )
    &&& p.awaited == (c.intent == FunctionIntent::Awaited)
}

impl<L> CallFunction<L> {
    /// The plan of the generated method: the error context names the
    /// function; the arguments are gathered into a `Vec` when one is a
    /// spread (the call is then variadic), else into an array; a
    /// constructor is called with `new`; an `async` method awaits the
    /// returned promise.
#[verifier::spinoff_prover]
#[verifier::rlimit(40)]
    pub fn plan(&self) -> (p: CallPlan)
        ensures
            spec_plan_of(*self, p),
    {
        let error_ctx = match self.intent {
            FunctionIntent::Constructed => match &self.source {
                FunctionSource::Prop(k) => concat2("failed to construct ", k.description().as_str()),
                FunctionSource::This => String::from_str("failed to construct"),
            },
            _ => match &self.source {
                FunctionSource::Prop(k) => concat2(
                    "failed to call function ",
                    k.description().as_str(),
                ),
                FunctionSource::This => String::from_str("failed to call function"),
            },
        };
        let n = self.inputs.len();
        let mut spread = false;
        let mut input_errors: Vec<String> = Vec::new();
        let mut i: usize = 0;
        while i < n
            invariant
                n == self.inputs@.len(),
                i <= n,
                spread == exists|j: int| 0 <= j < i && (#[trigger] self.inputs@[j]).spread,
                input_errors@.len() == i,
                forall|j: int|
                    0 <= j < i ==> (#[trigger] input_errors@[j])@ == spec_input_error(
                        self.inputs@[j].ident@,
                        self.inputs@[j].spread,
                    ),
            decreases n - i,
        {
            let input = &self.inputs[i];
            let shown = debug_text(input.ident.as_str());
            let msg = if input.spread {
                concat2("failed to serialize item in argument ", shown.as_str())
            } else {
                concat2("failed to serialize argument ", shown.as_str())
            };
            input_errors.push(msg);
            if input.spread {
                spread = true;
            }
            i = i + 1;
        }
        let length = if spread {
            FunctionLength::Variadic
        } else {
            FunctionLength::Fixed(n)
        };
        let layout = if spread {
            ArgsLayout::Pushed
        } else if n == 0 {
            ArgsLayout::Empty
        } else {
            ArgsLayout::Array
        };
        let source = match &self.source {
            FunctionSource::Prop(k) => FunctionSource::Prop(k.duplicate()),
            FunctionSource::This => FunctionSource::This,
        };
        let this = match &self.this {
            FunctionThis::Self_ => ThisSlot::Object,
            FunctionThis::Undefined { .. } => ThisSlot::Undefined,
            FunctionThis::Unbound => ThisSlot::Absent,
        };
        let ctor = match self.intent {
            FunctionIntent::Constructed => true,
            _ => false,
        };
        let awaited = match self.intent {
            FunctionIntent::Awaited => true,
            _ => false,
        };
        CallPlan {
            error_ctx,
            layout,
            input_errors,
            bind: BindFunction { source, this, ctor, length },
            awaited,
        }
    }
}

impl BindFunction {
    /// The number of arguments handed to `bind`: `this` (when bound) and
    /// the fixed arguments after it.
    pub fn bound_len(&self) -> (r: Option<usize>)
        requires
            self.length matches FunctionLength::Fixed(n) ==> n < usize::MAX,
        ensures
            r == (match self.length {
                FunctionLength::Fixed(n) => Some(
                    (if self.this == ThisSlot::Absent {
                        n
                    } else {
                        (n + 1) as usize
                    }),
                ),
                FunctionLength::Variadic => None,
            }),
    {
        match self.length {
            FunctionLength::Fixed(n) => {
                if self.this == ThisSlot::Absent {
                    Some(n)
                } else {
                    Some(n + 1)
                }
            },
            FunctionLength::Variadic => None,
        }
    }

    /// The function is looked up on an object (`v8::Object`), or is the
    /// object itself (`v8::Function`).
    pub fn object_is_function(&self) -> (r: bool)
        ensures
            r == (self.source is This),
    {
        match self.source {
            FunctionSource::This => true,
            FunctionSource::Prop(_) => false,
        }
    }
}

impl<L> CallFunction<L> {
    /// The same call, of the object itself rather than of one of its
    /// properties (`#[js(function)]`).
    pub fn calling_object(self) -> (r: CallFunction<L>)
        ensures
            r.source is This,
            r.intent == self.intent,
            r.this == self.this,
            r.inputs == self.inputs,
            r.output == self.output,
    {
        let CallFunction { intent, this, inputs, output, .. } = self;
        CallFunction { intent, source: FunctionSource::This, this, inputs, output }
    }
}

} // verus!
