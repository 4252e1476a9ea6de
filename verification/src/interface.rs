//! `#[js(interface)]`: the methods of an `impl` or `trait` marked with
//! `#[js(prop)]`, `#[js(func)]`, `#[js(new)]`, `#[js(get_index)]` or
//! `#[js(set_index)]`, and what each one decides.

use vstd::prelude::*;

use crate::call::{
    spec_intent_checks, spec_sig_errors, CallFunction, CallPlan, FunctionIntent, FunctionSource,
    source_view,
};
use crate::diagnostic::{Caveat, Diagnostic};
use crate::property::{
    property_key, resolve_name, spec_default_key, spec_resolve_name, PropertyKey, PropertyKeyView,
};
use crate::sig::{expect_self_head, failed_checks, messages, self_arg_ok, unlocated, ArgHead, SigNode};
use crate::text::str_eq;
use crate::types::{TypeNode, V8Conv};
use crate::well_known::WellKnown;

verus! {

/// The options of `#[js(func(...))]`.
pub struct Function {
    pub name: Option<String>,
    pub symbol: Option<WellKnown>,
}

/// The options of `#[js(new(...))]`.
pub struct Constructor {
    pub class: Option<String>,
}

/// A method that calls a JavaScript function, or constructs with one.
pub enum Callable {
    Func(Function),
    Ctor(Constructor),
}

/// A string option as a mathematical value.
pub open spec fn opt_view(o: Option<String>) -> Option<Seq<char>> {
    match o {
        Some(s) => Some(s@),
        None => None,
    }
}

/// The class name a constructor's return type names: the last segment of a
/// path type, when it has no generic arguments.
pub open spec fn class_of_type<L>(t: TypeNode<L>) -> Option<Seq<char>> {
    match t {
        TypeNode::Path { segments, .. } => if segments@.len() > 0 && segments@.last().args is Absent {
            Some(segments@.last().ident@)
        } else {
            None
        },
        _ => None,
    }
}

/// The class a constructor calls: the `class(...)` option, else the class
/// named by the return type, else (an error) the method's name.
pub open spec fn spec_class_key<L>(
    ident: Seq<char>,
    class: Option<Seq<char>>,
    output: Option<TypeNode<L>>,
) -> PropertyKeyView {
    match class {
        Some(c) => PropertyKeyView::String(c),
        None => match output {
            Some(t) => match class_of_output(t) {
                Some(name) => PropertyKeyView::String(name),
                None => spec_default_key(ident),
            },
            None => spec_default_key(ident),
        },
    }
}

/// The error, if any, of choosing a constructor's class.
pub open spec fn spec_class_errors<L>(class: Option<Seq<char>>, output: Option<TypeNode<L>>) -> Seq<
    Seq<char>,
> {
    match class {
        Some(_) => seq![],
        None => match output {
            Some(t) => match class_of_output(t) {
                Some(name) => if name == "Self"@ {
                    seq![
                        "constructor return type cannot be `Self`\nthis will be translated as `new Self(...)` which is likely not what you want"@,
                    ]
                } else {
                    seq![]
                },
                None => seq![
                    "cannot infer class name from return type\nspecify `#[js(new(class(...)))]` instead"@,
                ],
            },
            None => seq![
                "cannot infer class name\nspecify a return type, or use `#[js(new(class(...)))]`"@,
            ],
        },
    }
}

/// The class named by a return type once its `serde<T>` hint is taken off.
pub open spec fn class_of_output<L>(t: TypeNode<L>) -> Option<Seq<char>> {
    match t {
        TypeNode::Path { plain, segments, .. } => if crate::types::is_serde_path(plain, segments@) {
            match segments@[0].args {
                crate::types::SegmentArgs::Angle { args, .. } => if args@.len() == 1 && !(
                args@[0] is NonType) {
                    class_of_type(args@[0])
                } else {
                    class_of_type(t)
                },
                _ => class_of_type(t),
            }
        } else {
            class_of_type(t)
        },
        _ => None,
    }
}

/// Taking off the hints of a type names the class [`class_of_output`] says.
pub proof fn lemma_fold_class<L>(t: TypeNode<L>, r: TypeNode<L>)
    requires
        crate::types::folded(t, r),
    ensures
        class_of_type(r) == class_of_output(t),
{
    match t {
        TypeNode::Path { plain, segments, raw } => {
            if plain && !crate::types::is_serde_path(plain, segments@) {
                let s2 = r->Path_segments;
                crate::types::lemma_fold_segments_keep_shape(segments@, s2@);
                if segments@.len() > 0 {
                    assert(s2@.last() == s2@[s2@.len() - 1]);
                    assert(segments@.last() == segments@[segments@.len() - 1]);
                }
            }
        },
        _ => {},
    }
}

/// The class named by a type, computed.
fn class_of<L>(t: &TypeNode<L>) -> (r: Option<String>)
    ensures
        opt_view(r) == class_of_type(*t),
{
    match t {
        TypeNode::Path { segments, .. } => {
            let n = segments.len();
            if n == 0 {
                return None;
            }
            match &segments[n - 1].args {
                crate::types::SegmentArgs::Absent => Some(segments[n - 1].ident.clone()),
                _ => None,
            }
        },
        _ => None,
    }
}

/// The errors of resolving a function's key.
pub open spec fn spec_name_errors(name: Option<Seq<char>>, symbol: Option<WellKnown>) -> Seq<Seq<char>> {
    if name is Some && symbol is Some {
        seq!["cannot specify both a name and a symbol"@]
    } else {
        seq![]
    }
}

/// The key of the function a callable method calls.
pub open spec fn spec_callable_key<L>(c: Callable, sig: SigNode<L>) -> PropertyKeyView {
    match c {
        Callable::Func(f) => spec_resolve_name(sig.ident@, opt_view(f.name), f.symbol),
        Callable::Ctor(k) => spec_class_key(sig.ident@, opt_view(k.class), sig.output),
    }
}

/// Every error of a callable method, in order; it is accepted when there
/// is none.
pub open spec fn spec_callable_errors<L>(c: Callable, sig: SigNode<L>) -> Seq<Seq<char>> {
    let head = crate::call::kept_head_of(sig.inputs@);
    let own = match c {
        Callable::Func(f) => spec_name_errors(opt_view(f.name), f.symbol) + spec_sig_errors(
            sig.inputs@,
            sig.output,
        ),
        Callable::Ctor(k) => spec_sig_errors(sig.inputs@, sig.output) + spec_class_errors(
            opt_view(k.class),
            sig.output,
        ) + failed_checks(spec_intent_checks(FunctionIntent::Constructed, sig.flags)),
    };
    if crate::sig::self_arg_passes(head) {
        own
    } else {
        own.push(crate::sig::self_arg_message(head))
    }
}

impl Callable {
    /// Decides the call of a `#[js(func)]` method: as decided from the
    /// signature, with the function found under the key resolved from the
    /// options and the method's name.
    pub fn func_to_call<L>(func: Function, sig: SigNode<L>, unit: L) -> (r: (
        Caveat<CallFunction<L>>,
        Option<ArgHead>,
    ))
        ensures
            source_view(r.0.0.source) == Some(
                spec_resolve_name(sig.ident@, opt_view(func.name), func.symbol),
            ),
            r.0.0.intent == crate::call::spec_intent(sig.flags),
            crate::call::this_matches(r.0.0.this, crate::call::this_of(sig.inputs@), sig.inputs@),
            crate::call::inputs_match(r.0.0.inputs@, crate::call::inputs_of(sig.inputs@), sig.inputs@),
            sig.output is None ==> r.0.0.output is None,
            sig.output matches Some(t) ==> (r.0.0.output matches Some(c)
                && crate::types::converts(t, c)),
            messages(r.0.1@) == spec_name_errors(opt_view(func.name), func.symbol) + spec_sig_errors(
                sig.inputs@,
                sig.output,
            ),
            unlocated(r.0.1@),
            r.1 == crate::call::kept_head_of(sig.inputs@),
    {
        let Function { name, symbol } = func;
        let ghost nv = opt_view(name);
        let SigNode { ident, flags, inputs, output } = sig;
        let Caveat(key, mut errors) = resolve_name(ident.as_str(), name, symbol);
        let (Caveat(mut call, mut more), head) = CallFunction::from_sig(
            ident.as_str(),
            flags,
            inputs,
            output,
            unit,
        );
        let ghost e0 = errors@;
        let ghost m = more@;
        errors.append(&mut more);
        assert(messages(errors@) =~= messages(e0) + messages(m));
        call.source = FunctionSource::Prop(key);
        (Caveat(call, errors), head)
    }

    /// Decides the call of a `#[js(new)]` method: as decided from the
    /// signature, constructed, with the class chosen by
    /// [`spec_class_key`]; the method must not be `async`.
#[verifier::spinoff_prover]
#[verifier::rlimit(40)]
    pub fn ctor_to_call<L>(ctor: Constructor, sig: SigNode<L>, unit: L) -> (r: (
        Caveat<CallFunction<L>>,
        Option<ArgHead>,
    ))
        ensures
            source_view(r.0.0.source) == Some(
                spec_class_key(sig.ident@, opt_view(ctor.class), sig.output),
            ),
            r.0.0.intent == FunctionIntent::Constructed,
            crate::call::this_matches(r.0.0.this, crate::call::this_of(sig.inputs@), sig.inputs@),
            crate::call::inputs_match(r.0.0.inputs@, crate::call::inputs_of(sig.inputs@), sig.inputs@),
            sig.output is None ==> r.0.0.output is None,
            sig.output matches Some(t) ==> (r.0.0.output matches Some(c)
                && crate::types::converts(t, c)),
            messages(r.0.1@) == spec_sig_errors(sig.inputs@, sig.output) + spec_class_errors(
                opt_view(ctor.class),
                sig.output,
            ) + failed_checks(spec_intent_checks(FunctionIntent::Constructed, sig.flags)),
            unlocated(r.0.1@),
            r.1 == crate::call::kept_head_of(sig.inputs@),
    {
        let Constructor { class } = ctor;
        let ghost cv = opt_view(class);
        let ghost out_ty = sig.output;
        let SigNode { ident, flags, inputs, output } = sig;
        let (Caveat(mut call, mut errors), head) = CallFunction::from_sig(
            ident.as_str(),
            flags,
            inputs,
            output,
            unit,
        );
        let ghost e0 = errors@;
        proof {
            if let Some(t) = out_ty {
                lemma_fold_class(t, call.output->0.spec_ty());
            }
        }
        let key = match class {
            Some(c) => PropertyKey::String(c),
            None => match &call.output {
                Some(c) => match class_of(c.as_type()) {
                    Some(name) => {
                        if str_eq(name.as_str(), "Self") {
                            errors.push(
                                Diagnostic::custom(
                                    "constructor return type cannot be `Self`\nthis will be translated as `new Self(...)` which is likely not what you want",
                                ),
                            );
                        }
                        PropertyKey::String(name)
                    },
                    None => {
                        errors.push(
                            Diagnostic::custom(
                                "cannot infer class name from return type\nspecify `#[js(new(class(...)))]` instead",
                            ),
                        );
                        property_key(ident.as_str(), None)
                    },
                },
                None => {
                    errors.push(
                        Diagnostic::custom(
                            "cannot infer class name\nspecify a return type, or use `#[js(new(class(...)))]`",
                        ),
                    );
                    property_key(ident.as_str(), None)
                },
            },
        };
        assert(messages(errors@) =~= messages(e0) + spec_class_errors(cv, out_ty));
        let ghost e1 = errors@;
        let Caveat(intent, mut more) = FunctionIntent::Constructed.only(flags);
        let ghost m = more@;
        errors.append(&mut more);
        assert(messages(errors@) =~= messages(e1) + messages(m));
        call.source = FunctionSource::Prop(key);
        call.intent = intent;
        (Caveat(call, errors), head)
    }

    /// Decides a `#[js(func)]` or `#[js(new)]` method, with the check that
    /// its first argument is `&self`; any error fails it.
#[verifier::spinoff_prover]
#[verifier::rlimit(40)]
    pub fn impl_function<L>(self, sig: SigNode<L>, unit: L) -> (r: Result<
        (CallFunction<L>, CallPlan),
        Vec<Diagnostic>,
    >)
        ensures
            r is Ok <==> spec_callable_errors(self, sig).len() == 0,
            r matches Err(e) ==> messages(e@) == spec_callable_errors(self, sig) && unlocated(e@),
            r matches Ok((call, plan)) ==> {
                &&& crate::call::spec_plan_of(call, plan)
                &&& source_view(call.source) == Some(spec_callable_key(self, sig))
                &&& call.intent == match self {
                    Callable::Func(_) => crate::call::spec_intent(sig.flags),
                    Callable::Ctor(_) => FunctionIntent::Constructed,
                }
                &&& crate::call::this_matches(call.this, crate::call::this_of(sig.inputs@), sig.inputs@)
                &&& crate::call::inputs_match(call.inputs@, crate::call::inputs_of(sig.inputs@), sig.inputs@)
                &&& sig.output is None ==> call.output is None
                &&& sig.output matches Some(t) ==> (call.output matches Some(c)
                    && crate::types::converts(t, c))
            },
    {
        let (Caveat(call, mut errors), head) = match self {
            Callable::Func(func) => Callable::func_to_call(func, sig, unit),
            Callable::Ctor(ctor) => Callable::ctor_to_call(ctor, sig, unit),
        };
        let ghost e0 = errors@;
        match expect_self_head(head) {
            Ok(()) => {},
            Err(e) => errors.push(e),
        }
        assert(messages(errors@) =~= spec_callable_errors(self, sig));
        if errors.len() > 0 {
            return Err(errors);
        }
        let plan = call.plan();
        Ok((call, plan))
    }
}


/// `[message]` when `cond`, else nothing.
pub open spec fn when(cond: bool, message: Seq<char>) -> Seq<Seq<char>> {
    if cond {
        seq![message]
    } else {
        seq![]
    }
}

/// The error of converting a type, as a list.
pub open spec fn conv_errors<L>(t: Option<TypeNode<L>>) -> Seq<Seq<char>> {
    match t {
        Some(ty) => when(crate::types::conversion_error(ty), "expected `v8::Global<v8::...>`"@),
        None => seq![],
    }
}

/// The error of the `&self` check, as a list.
pub open spec fn self_errors<L>(inputs: Seq<crate::sig::FnArgNode<L>>) -> Seq<Seq<char>> {
    let head = crate::sig::spec_head(inputs);
    when(!crate::sig::self_arg_passes(head), crate::sig::self_arg_message(head))
}

/// Adds the error of `r`, if any, to `errors`.
fn keep_error<T>(errors: &mut Vec<Diagnostic>, r: Result<T, Diagnostic>) -> (v: Option<T>)
    ensures
        r matches Ok(x) ==> final(errors)@ == old(errors)@ && v == Some(x),
        r matches Err(e) ==> final(errors)@ == old(errors)@.push(e) && v is None,
{
    match r {
        Ok(x) => Some(x),
        Err(e) => {
            errors.push(e);
            None
        },
    }
}

/// Adds `more` to `errors`.
fn keep_errors(errors: &mut Vec<Diagnostic>, more: Vec<Diagnostic>)
    ensures
        final(errors)@ == old(errors)@ + more@,
{
    let mut more = more;
    errors.append(&mut more);
}

/// The options of `#[js(prop(...))]`.
pub struct Property {
    pub name: Option<String>,
    pub symbol: Option<WellKnown>,
    pub with_setter: bool,
}

/// What a `#[js(prop)]` method generates: a getter named after the method,
/// and with `with_setter` a setter named `set_<method>`.
pub struct PropertyPlan<L> {
    pub key: PropertyKey,
    pub conv: V8Conv<L>,
    /// The context of an error getting the property.
    pub get_error: String,
    /// The setter's name and the context of an error setting the property.
    pub setter: Option<(String, String)>,
}

/// Every error of a `#[js(prop)]` method, in order.
pub open spec fn spec_property_errors<L>(prop: Property, sig: SigNode<L>) -> Seq<Seq<char>> {
    failed_checks(spec_intent_checks(FunctionIntent::Called, sig.flags)) + self_errors(sig.inputs@)
        + when(sig.output is None, "must have an explicit return type"@) + when(
        sig.inputs@.len() > 1,
        "must not have extra arguments"@,
    ) + spec_name_errors(opt_view(prop.name), prop.symbol) + conv_errors(sig.output)
}

/// Decides a `#[js(prop)]` method: it must be a plain `fn(&self) -> T`;
/// the property's key is resolved from the options and the method's name.
#[verifier::spinoff_prover]
#[verifier::rlimit(40)]
pub fn impl_property<L>(prop: Property, sig: SigNode<L>, unit: L) -> (r: Result<
    PropertyPlan<L>,
    Vec<Diagnostic>,
>)
    ensures
        r is Ok <==> spec_property_errors(prop, sig).len() == 0,
        r matches Err(e) ==> messages(e@) == spec_property_errors(prop, sig) && unlocated(e@),
        r matches Ok(p) ==> {
            &&& p.key@ == spec_resolve_name(sig.ident@, opt_view(prop.name), prop.symbol)
            &&& p.get_error@ == "failed to get property "@ + crate::property::spec_key_description(
                p.key@,
            )
            &&& prop.with_setter <==> p.setter is Some
            &&& p.setter matches Some((name, err)) ==> name@ == "set_"@ + sig.ident@ && err@
                == "failed to set property "@ + crate::property::spec_key_description(p.key@)
            &&& sig.output matches Some(t) && crate::types::converts(t, p.conv)
        },
{
    let ghost prop0 = prop;
    let ghost sig0 = sig;
    let Property { name, symbol, with_setter } = prop;
    let SigNode { ident, flags, inputs, output } = sig;
    let Caveat(_, mut errors) = FunctionIntent::Called.only(flags);
    let ghost e0 = errors@;
    keep_error(&mut errors, crate::sig::expect_self_arg(&inputs));
    assert(messages(errors@) =~= messages(e0) + self_errors(inputs@));
    let ghost e1 = errors@;
    keep_error(&mut errors, crate::sig::only_explicit_return_type(&output));
    assert(messages(errors@) =~= messages(e1) + when(output is None, "must have an explicit return type"@));
    let ghost e2 = errors@;
    crate::sig::check(&mut errors, inputs.len() > 1, "must not have extra arguments");
    assert(messages(errors@) =~= messages(e2) + when(inputs@.len() > 1, "must not have extra arguments"@));
    let ghost e3 = errors@;
    let Caveat(key, more) = resolve_name(ident.as_str(), name, symbol);
    assert(messages(more@) =~= spec_name_errors(opt_view(prop0.name), prop0.symbol));
    keep_errors(&mut errors, more);
    let ghost e4 = errors@;
    let Caveat(conv, more) = V8Conv::from_output(output, unit);
    assert(messages(more@) =~= conv_errors(sig0.output));
    keep_errors(&mut errors, more);
    assert(messages(errors@) =~= spec_property_errors(prop0, sig0));
    if errors.len() > 0 {
        return Err(errors);
    }
    let shown = key.description();
    let get_error = crate::text::concat2("failed to get property ", shown.as_str());
    let setter = if with_setter {
        Some(
            (
                crate::text::concat2("set_", ident.as_str()),
                crate::text::concat2("failed to set property ", shown.as_str()),
            ),
        )
    } else {
        None
    };
    Ok(PropertyPlan { key, conv, get_error, setter })
}

/// What a `#[js(get_index)]` method generates: a getter that indexes the
/// object with its argument.
pub struct GetterPlan<L> {
    pub key_name: String,
    pub key_conv: V8Conv<L>,
    pub value_conv: V8Conv<L>,
}

/// What a `#[js(set_index)]` method generates: a setter that indexes the
/// object with its first argument and stores its second.
pub struct SetterPlan<L> {
    pub key_name: String,
    pub key_conv: V8Conv<L>,
    pub value_name: String,
    pub value_conv: V8Conv<L>,
}

/// The type of an argument; `self` has the type `self_ty`.
pub open spec fn arg_type<L>(arg: crate::sig::FnArgNode<L>, self_ty: TypeNode<L>) -> TypeNode<L> {
    match arg {
        crate::sig::FnArgNode::Receiver { .. } => self_ty,
        crate::sig::FnArgNode::Typed { ty, .. } => ty,
    }
}

/// The conversion of an argument; `self` has the type `self_ty`.
pub fn conv_of_arg<L>(arg: crate::sig::FnArgNode<L>, self_ty: TypeNode<L>) -> (r: Caveat<V8Conv<L>>)
    ensures
        crate::types::converts(arg_type(arg, self_ty), r.0),
        messages(r.1@) == conv_errors(Some(arg_type(arg, self_ty))),
        unlocated(r.1@),
{
    let ghost t = arg_type(arg, self_ty);
    let r = match arg {
        crate::sig::FnArgNode::Receiver { .. } => V8Conv::from_type(self_ty),
        crate::sig::FnArgNode::Typed { ty, .. } => V8Conv::from_type(ty),
    };
    assert(messages(r.1@) =~= conv_errors(Some(t)));
    r
}

/// The name of an argument as a list of errors.
pub open spec fn ident_errors<L>(arg: crate::sig::FnArgNode<L>) -> Seq<Seq<char>> {
    when(crate::sig::spec_pat_ident(arg) is None, "expected an identifier"@)
}

/// Every error of a `#[js(get_index)]` method, in order; past a wrong
/// number of arguments nothing more is checked.
pub open spec fn spec_getter_errors<L>(sig: SigNode<L>, self_ty: TypeNode<L>) -> Seq<Seq<char>> {
    let first = failed_checks(spec_intent_checks(FunctionIntent::Called, sig.flags)) + self_errors(
        sig.inputs@,
    ) + when(sig.output is None, "must have an explicit return type"@);
    if sig.inputs@.len() != 2 {
        first.push("require exactly one argument after &self"@)
    } else {
        first + ident_errors(sig.inputs@[1]) + conv_errors(Some(arg_type(sig.inputs@[1], self_ty)))
            + conv_errors(sig.output)
    }
}

/// Decides a `#[js(get_index)]` method: `fn(&self, key: K) -> V`.
#[verifier::spinoff_prover]
#[verifier::rlimit(40)]
pub fn impl_getter<L>(sig: SigNode<L>, self_ty: TypeNode<L>, unit: L) -> (r: Result<
    GetterPlan<L>,
    Vec<Diagnostic>,
>)
    ensures
        r is Ok <==> spec_getter_errors(sig, self_ty).len() == 0,
        r matches Err(e) ==> messages(e@) == spec_getter_errors(sig, self_ty) && unlocated(e@),
        r matches Ok(p) ==> {
            &&& crate::sig::spec_pat_ident(sig.inputs@[1]) == Some(p.key_name@)
            &&& crate::types::converts(arg_type(sig.inputs@[1], self_ty), p.key_conv)
            &&& sig.output matches Some(t) && crate::types::converts(t, p.value_conv)
        },
{
    let ghost sig0 = sig;
    let SigNode { ident, flags, inputs, output } = sig;
    let Caveat(_, mut errors) = FunctionIntent::Called.only(flags);
    let ghost e0 = errors@;
    keep_error(&mut errors, crate::sig::expect_self_arg(&inputs));
    assert(messages(errors@) =~= messages(e0) + self_errors(inputs@));
    keep_error(&mut errors, crate::sig::only_explicit_return_type(&output));
    if inputs.len() != 2 {
        errors.push(Diagnostic::custom("require exactly one argument after &self"));
        assert(messages(errors@) =~= spec_getter_errors(sig0, self_ty));
        return Err(errors);
    }
    let ghost e1 = errors@;
    let key_name = keep_error(&mut errors, crate::sig::only_pat_ident(&inputs[1]));
    let ghost e2 = errors@;
    let mut inputs = inputs;
    let key_arg = inputs.remove(1);
    let Caveat(key_conv, more) = conv_of_arg(key_arg, self_ty);
    keep_errors(&mut errors, more);
    let Caveat(value_conv, more) = V8Conv::from_output(output, unit);
    keep_errors(&mut errors, more);
    assert(messages(errors@) =~= spec_getter_errors(sig0, self_ty));
    if errors.len() > 0 {
        return Err(errors);
    }
    match key_name {
        Some(key_name) => Ok(GetterPlan { key_name, key_conv, value_conv }),
        None => Err(errors),
    }
}

/// Every error of a `#[js(set_index)]` method, in order; past a wrong
/// number of arguments nothing more is checked.
pub open spec fn spec_setter_errors<L>(
    sig: SigNode<L>,
    self_key: TypeNode<L>,
    self_value: TypeNode<L>,
) -> Seq<Seq<char>> {
    let first = failed_checks(spec_intent_checks(FunctionIntent::Called, sig.flags)) + self_errors(
        sig.inputs@,
    ) + when(sig.output is Some, "indexing setters must not have a return type"@);
    if sig.inputs@.len() != 3 {
        first.push("require exactly two argument after &self"@)
    } else {
        first + ident_errors(sig.inputs@[1]) + conv_errors(Some(arg_type(sig.inputs@[1], self_key)))
            + ident_errors(sig.inputs@[2]) + conv_errors(Some(arg_type(sig.inputs@[2], self_value)))
    }
}

/// Decides a `#[js(set_index)]` method: `fn(&self, key: K, value: V)`.
///
/// A `self` in the key or value position has the type `Self`, given as
/// `self_key` and `self_value`.
#[verifier::spinoff_prover]
#[verifier::rlimit(40)]
pub fn impl_setter<L>(sig: SigNode<L>, self_key: TypeNode<L>, self_value: TypeNode<L>) -> (r: Result<
    SetterPlan<L>,
    Vec<Diagnostic>,
>)
    ensures
        r is Ok <==> spec_setter_errors(sig, self_key, self_value).len() == 0,
        r matches Err(e) ==> messages(e@) == spec_setter_errors(sig, self_key, self_value)
            && unlocated(e@),
        r matches Ok(p) ==> {
            &&& crate::sig::spec_pat_ident(sig.inputs@[1]) == Some(p.key_name@)
            &&& crate::sig::spec_pat_ident(sig.inputs@[2]) == Some(p.value_name@)
            &&& crate::types::converts(arg_type(sig.inputs@[1], self_key), p.key_conv)
            &&& crate::types::converts(arg_type(sig.inputs@[2], self_value), p.value_conv)
        },
{
    let ghost sig0 = sig;
    let SigNode { ident, flags, inputs, output } = sig;
    let Caveat(_, mut errors) = FunctionIntent::Called.only(flags);
    let ghost e0 = errors@;
    keep_error(&mut errors, crate::sig::expect_self_arg(&inputs));
    assert(messages(errors@) =~= messages(e0) + self_errors(inputs@));
    let ghost e1 = errors@;
    crate::sig::check(
        &mut errors,
        output.is_some(),
        "indexing setters must not have a return type",
    );
    let ghost e2 = errors@;
    assert(messages(e2) =~= messages(e1) + when(output is Some, "indexing setters must not have a return type"@));
    if inputs.len() != 3 {
        errors.push(Diagnostic::custom("require exactly two argument after &self"));
        assert(messages(errors@) =~= messages(e2).push("require exactly two argument after &self"@));
        assert(messages(errors@) =~= spec_setter_errors(sig0, self_key, self_value));
        return Err(errors);
    }
    let key_name = keep_error(&mut errors, crate::sig::only_pat_ident(&inputs[1]));
    let ghost e3 = errors@;
    assert(messages(e3) =~= messages(e2) + ident_errors(inputs@[1]));
    let ghost a = inputs@;
    let mut inputs = inputs;
    let value_arg = inputs.pop().unwrap();
    let key_arg = inputs.pop().unwrap();
    assert(key_arg == a[1] && value_arg == a[2]);
    let Caveat(key_conv, more) = conv_of_arg(key_arg, self_key);
    keep_errors(&mut errors, more);
    let ghost e4 = errors@;
    let value_name = keep_error(&mut errors, crate::sig::only_pat_ident(&value_arg));
    assert(messages(errors@) =~= messages(e4) + ident_errors(a[2]));
    let Caveat(value_conv, more) = conv_of_arg(value_arg, self_value);
    keep_errors(&mut errors, more);
    assert(messages(errors@) =~= spec_setter_errors(sig0, self_key, self_value));
    if errors.len() > 0 {
        return Err(errors);
    }
    match (key_name, value_name) {
        (Some(key_name), Some(value_name)) => Ok(
            SetterPlan { key_name, key_conv, value_name, value_conv },
        ),
        _ => Err(errors),
    }
}


/// A constructor without `class(...)` whose return type is a path ending
/// in a segment without generic arguments constructs the class named by
/// that LAST segment (`a::b::C` constructs `C`); it is an error only when
/// that name is `Self`.
pub proof fn lemma_ctor_class_is_last_segment<L>(ident: Seq<char>, output: TypeNode<L>)
    requires
        output is Path,
        output->Path_segments@.len() > 0,
        output->Path_segments@[output->Path_segments@.len() - 1].args is Absent,
    ensures
        spec_class_key(ident, None, Some(output)) == PropertyKeyView::String(
            output->Path_segments@[output->Path_segments@.len() - 1].ident@,
        ),
        spec_class_errors(None, Some(output)).len() == 0 <==> output->Path_segments@[output->Path_segments@.len()
            - 1].ident@ != "Self"@,
{
}

/// A constructor without `class(...)` returning `serde<P>`, with `P` a path
/// ending in a segment without generic arguments, constructs the class
/// named by the last segment of `P`.
pub proof fn lemma_ctor_class_through_serde<L>(ident: Seq<char>, output: TypeNode<L>, inner: TypeNode<L>)
    requires
        crate::types::is_serde_of(output, inner),
        inner is Path,
        inner->Path_segments@.len() > 0,
        inner->Path_segments@[inner->Path_segments@.len() - 1].args is Absent,
    ensures
        spec_class_key(ident, None, Some(output)) == PropertyKeyView::String(
            inner->Path_segments@[inner->Path_segments@.len() - 1].ident@,
        ),
{
    reveal_strlit("serde");
}

} // verus!
