use ferrosaur::bound::{bound_args, none_message, Arity, BoundArgs, BoundFunc, BoundSlot, Call, FuncArity};
use ferrosaur::call::{
    ArgsLayout, BindFunction, CallFunction, FunctionIntent, FunctionLength, FunctionSource, FunctionThis,
    ThisSlot,
};
use ferrosaur::diagnostic::Diagnostic;
use ferrosaur::interface::{
    impl_getter, impl_property, impl_setter, Callable, Constructor, Function, Property,
};
use ferrosaur::property::PropertyKey;
use ferrosaur::sig::{
    expect_self_arg, no_default_fn, no_fn_body, only_explicit_return_type, only_inherent_impl,
    only_pat_ident, only_regular_trait, ArgHead, ArgPattern, FnArgNode, NoGenerics, RangeEnd,
    ReceiverKind, SigFlags, SigNode,
};
use ferrosaur::types::{fold_type_hint, Segment, SegmentArgs, TypeNode, V8Conv, WrapKind};
use ferrosaur::well_known::WellKnown;

type Ty = TypeNode<u32>;

fn seg(n: &str) -> Segment<u32> {
    Segment { ident: n.to_string(), args: SegmentArgs::Absent, raw: 0 }
}

fn seg_args(n: &str, args: Vec<Ty>) -> Segment<u32> {
    Segment { ident: n.to_string(), args: SegmentArgs::Angle { args, raw: 0 }, raw: 0 }
}

fn path(segments: Vec<Segment<u32>>) -> Ty {
    TypeNode::Path { plain: true, segments, raw: 0 }
}

fn ty(n: &str) -> Ty {
    path(vec![seg(n)])
}

fn serde(t: Ty) -> Ty {
    path(vec![seg_args("serde", vec![t])])
}

fn v8(n: &str) -> Ty {
    path(vec![seg("v8"), seg(n)])
}

fn global(t: Ty) -> Ty {
    path(vec![seg("v8"), seg_args("Global", vec![t])])
}

fn is_path(t: &Ty, names: &[&str]) -> bool {
    match t {
        TypeNode::Path { segments, .. } => {
            segments.len() == names.len() && segments.iter().zip(names).all(|(s, n)| s.ident == *n)
        }
        _ => false,
    }
}

fn recv(reference: bool, mutable: bool) -> FnArgNode<u32> {
    FnArgNode::Receiver { kind: ReceiverKind { reference, mutable }, raw: 0 }
}

fn self_ref() -> FnArgNode<u32> {
    recv(true, false)
}

fn arg(name: &str, t: Ty) -> FnArgNode<u32> {
    FnArgNode::Typed { pat: ArgPattern::Ident { name: name.to_string(), plain: true }, ty: t, raw: 0 }
}

fn spread(name: &str, t: Ty) -> FnArgNode<u32> {
    FnArgNode::Typed {
        pat: ArgPattern::RangeTo { half_open: true, end: RangeEnd::UnitPath(name.to_string()) },
        ty: t,
        raw: 0,
    }
}

fn no_flags() -> SigFlags {
    SigFlags { is_async: false, is_const: false, is_unsafe: false, has_abi: false, is_variadic: false }
}

fn sig(ident: &str, inputs: Vec<FnArgNode<u32>>, output: Option<Ty>) -> SigNode<u32> {
    SigNode { ident: ident.to_string(), flags: no_flags(), inputs, output }
}

fn msgs(e: &[Diagnostic]) -> Vec<&str> {
    e.iter().map(|d| d.message.as_str()).collect()
}

#[test]
fn conversion_of_types() {
    let c = V8Conv::from_type(serde(ty("f64")));
    assert!(matches!(c.0, V8Conv::Serde { ref ty } if is_path(ty, &["f64"])));
    assert!(c.1.is_empty());

    let c = V8Conv::from_type(global(v8("Object")));
    assert!(matches!(c.0, V8Conv::Value { ref ty } if is_path(ty, &["v8", "Global"])));
    assert!(c.1.is_empty());
    assert!(is_path(c.0.to_inner_type().unwrap(), &["v8", "Object"]));

    let c = V8Conv::from_type(v8("Object"));
    assert!(matches!(c.0, V8Conv::Value { .. }));
    assert_eq!(msgs(&c.1), vec!["expected `v8::Global<v8::...>`"]);

    let c = V8Conv::from_type(ty("String"));
    assert!(matches!(c.0, V8Conv::Trait { ref ty } if is_path(ty, &["String"])));
    assert!(c.0.to_inner_type().is_none());

    let c = V8Conv::from_output(None, 7);
    assert!(matches!(c.0, V8Conv::Trait { ty: TypeNode::Tuple { ref elems, raw: 7 } } if elems.is_empty()));
}

#[test]
fn serde_hints_are_taken_off_inside_types() {
    // Vec<serde<f64>> becomes Vec<f64>, with a hint found
    let (t, hint) = fold_type_hint(path(vec![seg_args("Vec", vec![serde(ty("f64"))])]));
    assert!(hint);
    match t {
        TypeNode::Path { segments, .. } => match &segments[0].args {
            SegmentArgs::Angle { args, .. } => assert!(is_path(&args[0], &["f64"])),
            _ => panic!("arguments lost"),
        },
        _ => panic!("not a path"),
    }
    // &serde<T> keeps the reference
    let (t, hint) = fold_type_hint(TypeNode::Wrapped { kind: WrapKind::Reference, elem: Box::new(serde(ty("T"))), raw: 0 });
    assert!(hint);
    assert!(matches!(t, TypeNode::Wrapped { kind: WrapKind::Reference, ref elem, .. } if is_path(elem, &["T"])));
    // no hint: unchanged
    let (t, hint) = fold_type_hint(ty("u8"));
    assert!(!hint);
    assert!(is_path(&t, &["u8"]));
}

#[test]
fn call_decided_from_signature() {
    let inputs = vec![self_ref(), arg("a", serde(ty("f64"))), spread("rest", serde(ty("f64")))];
    let (c, head) = CallFunction::from_sig("add_all", no_flags(), inputs, Some(serde(ty("f64"))), 0);
    let call = c.0;
    assert!(c.1.is_empty());
    assert!(matches!(head, Some(ArgHead::Receiver(ReceiverKind { reference: true, mutable: false }))));
    assert!(call.intent == FunctionIntent::Called);
    assert!(matches!(call.source, FunctionSource::Prop(PropertyKey::String(ref s)) if s == "add_all"));
    assert!(matches!(call.this, FunctionThis::Self_));
    assert_eq!(call.inputs.len(), 2);
    assert_eq!(call.inputs[0].ident, "a");
    assert!(!call.inputs[0].spread);
    assert_eq!(call.inputs[1].ident, "rest");
    assert!(call.inputs[1].spread);

    let plan = call.plan();
    assert_eq!(plan.error_ctx, "failed to call function \"add_all\"");
    assert!(plan.layout == ArgsLayout::Pushed);
    assert!(plan.bind.length == FunctionLength::Variadic);
    assert!(plan.bind.this == ThisSlot::Object);
    assert!(!plan.bind.ctor);
    assert!(!plan.awaited);
    assert_eq!(plan.input_errors, vec!["failed to serialize argument \"a\"", "failed to serialize item in argument \"rest\""]);
}

#[test]
fn call_this_bindings() {
    let inputs = vec![self_ref(), arg("this", ty("undefined")), arg("x", ty("u8"))];
    let (c, head) = CallFunction::from_sig("f", no_flags(), inputs, None, 0);
    assert!(matches!(c.0.this, FunctionThis::Undefined { .. }));
    assert_eq!(c.0.inputs.len(), 1);
    assert!(matches!(head, Some(ArgHead::Receiver(_))));
    assert!(c.0.output.is_none());
    let plan = c.0.plan();
    assert!(plan.bind.this == ThisSlot::Undefined);
    assert!(plan.layout == ArgsLayout::Array);
    assert!(plan.bind.length == FunctionLength::Fixed(1));

    let inputs = vec![arg("this", ty("Foo")), arg("x", ty("u8"))];
    let (c, head) = CallFunction::from_sig("f", no_flags(), inputs, None, 0);
    assert!(matches!(c.0.this, FunctionThis::Unbound));
    assert_eq!(c.0.inputs.len(), 2);
    assert!(matches!(head, Some(ArgHead::Typed)));
    let plan = c.0.plan();
    assert!(plan.bind.this == ThisSlot::Absent);
    assert_eq!(plan.bind.bound_len(), Some(2));

    let (c, _) = CallFunction::from_sig("f", no_flags(), vec![self_ref()], None, 0);
    let plan = c.0.plan();
    assert!(plan.layout == ArgsLayout::Empty);
    assert_eq!(plan.bind.bound_len(), Some(1));
}

#[test]
fn call_argument_errors() {
    let bad = FnArgNode::Typed { pat: ArgPattern::Other, ty: ty("u8"), raw: 0 };
    let from = FnArgNode::Typed { pat: ArgPattern::RangeFrom, ty: ty("u8"), raw: 0 };
    let other = FnArgNode::Typed {
        pat: ArgPattern::RangeTo { half_open: true, end: RangeEnd::OtherExpr },
        ty: ty("u8"),
        raw: 0,
    };
    let local = arg("x", v8("Local"));
    let (c, _) = CallFunction::from_sig("f", no_flags(), vec![self_ref(), bad, from, other, local], Some(v8("Value")), 0);
    assert_eq!(
        msgs(&c.1),
        vec![
            "expected an identifier or spread argument",
            "spread argument should be written as `..name`",
            "spread argument should be written as `..name`\nfound extra patterns",
            "expected `v8::Global<v8::...>`",
            "expected `v8::Global<v8::...>`",
        ]
    );
}

#[test]
fn async_signature_is_awaited() {
    let mut flags = no_flags();
    flags.is_async = true;
    let (c, _) = CallFunction::from_sig("load", flags, vec![self_ref()], None, 0);
    assert!(c.0.intent == FunctionIntent::Awaited);
    assert!(c.0.plan().awaited);
    let r = FunctionIntent::Called.only(flags);
    assert_eq!(msgs(&r.1), vec!["fn cannot be `async` here"]);
    let r = FunctionIntent::Awaited.only(no_flags());
    assert_eq!(msgs(&r.1), vec!["fn is required to be `async` here"]);
    let all = SigFlags { is_async: false, is_const: true, is_unsafe: true, has_abi: true, is_variadic: true };
    assert_eq!(
        msgs(&FunctionIntent::supported(all)),
        vec!["fn cannot be `const` here", "fn cannot be `unsafe` here", "fn cannot be `extern` here", "fn cannot be variadic here"]
    );
}

#[test]
fn functions_and_constructors() {
    let f = Callable::Func(Function { name: None, symbol: None });
    let (call, plan) = f.impl_function(sig("get_name", vec![self_ref()], Some(ty("String"))), 0).ok().unwrap();
    assert!(matches!(call.source, FunctionSource::Prop(PropertyKey::String(ref s)) if s == "getName"));
    assert_eq!(plan.error_ctx, "failed to call function \"getName\"");

    let f = Callable::Func(Function { name: None, symbol: Some(WellKnown::Iterator) });
    let (_, plan) = f.impl_function(sig("iter", vec![self_ref()], Some(ty("Iter"))), 0).ok().unwrap();
    assert_eq!(plan.error_ctx, "failed to call function [Symbol.iterator]");

    let f = Callable::Func(Function { name: None, symbol: None });
    let e = f.impl_function(sig("f", vec![], None), 0).err().unwrap();
    assert_eq!(msgs(&e), vec!["missing `&self` as the first argument"]);

    let c = Callable::Ctor(Constructor { class: None });
    let (call, plan) = c.impl_function(sig("new_point", vec![self_ref(), arg("x", ty("f64"))], Some(ty("Point"))), 0).ok().unwrap();
    assert!(call.intent == FunctionIntent::Constructed);
    assert!(matches!(call.source, FunctionSource::Prop(PropertyKey::String(ref s)) if s == "Point"));
    assert_eq!(plan.error_ctx, "failed to construct \"Point\"");
    assert!(plan.bind.ctor);

    let c = Callable::Ctor(Constructor { class: None });
    let (call, _) = c.impl_function(sig("make", vec![self_ref()], Some(serde(ty("Date")))), 0).ok().unwrap();
    assert!(matches!(call.source, FunctionSource::Prop(PropertyKey::String(ref s)) if s == "Date"));

    let c = Callable::Ctor(Constructor { class: Some("Map".to_string()) });
    let (call, _) = c.impl_function(sig("make", vec![self_ref()], None), 0).ok().unwrap();
    assert!(matches!(call.source, FunctionSource::Prop(PropertyKey::String(ref s)) if s == "Map"));
}

#[test]
fn constructor_errors() {
    let c = Callable::Ctor(Constructor { class: None });
    let e = c.impl_function(sig("make", vec![self_ref()], None), 0).err().unwrap();
    assert_eq!(msgs(&e), vec!["cannot infer class name\nspecify a return type, or use `#[js(new(class(...)))]`"]);

    let c = Callable::Ctor(Constructor { class: None });
    let e = c.impl_function(sig("make", vec![self_ref()], Some(ty("Self"))), 0).err().unwrap();
    assert_eq!(
        msgs(&e),
        vec!["constructor return type cannot be `Self`\nthis will be translated as `new Self(...)` which is likely not what you want"]
    );

    let c = Callable::Ctor(Constructor { class: None });
    let e = c.impl_function(sig("make", vec![self_ref()], Some(path(vec![seg_args("Vec", vec![ty("u8")])]))), 0).err().unwrap();
    assert_eq!(msgs(&e), vec!["cannot infer class name from return type\nspecify `#[js(new(class(...)))]` instead"]);

    let c = Callable::Ctor(Constructor { class: Some("X".to_string()) });
    let mut s = sig("make", vec![self_ref()], None);
    s.flags.is_async = true;
    let e = c.impl_function(s, 0).err().unwrap();
    assert_eq!(msgs(&e), vec!["fn cannot be `async` here"]);
}

#[test]
fn properties() {
    let p = Property { name: None, symbol: None, with_setter: true };
    let plan = impl_property(p, sig("value", vec![self_ref()], Some(ty("u32"))), 0).ok().unwrap();
    assert!(matches!(plan.key, PropertyKey::String(ref s) if s == "value"));
    assert_eq!(plan.get_error, "failed to get property \"value\"");
    let (name, err) = plan.setter.unwrap();
    assert_eq!(name, "set_value");
    assert_eq!(err, "failed to set property \"value\"");

    let p = Property { name: Some("x".to_string()), symbol: None, with_setter: false };
    let plan = impl_property(p, sig("x_value", vec![self_ref()], Some(ty("u32"))), 0).ok().unwrap();
    assert!(plan.setter.is_none());
    assert_eq!(plan.get_error, "failed to get property \"x\"");

    let p = Property { name: None, symbol: None, with_setter: false };
    let e = impl_property(p, sig("v", vec![self_ref(), arg("a", ty("u8"))], None), 0).err().unwrap();
    assert_eq!(msgs(&e), vec!["must have an explicit return type", "must not have extra arguments"]);

    let p = Property { name: Some("x".to_string()), symbol: Some(WellKnown::Match), with_setter: false };
    let e = impl_property(p, sig("v", vec![recv(true, true)], Some(ty("u8"))), 0).err().unwrap();
    assert_eq!(msgs(&e), vec!["must be `&self`", "cannot specify both a name and a symbol"]);
}

#[test]
fn index_getters_and_setters() {
    let plan = impl_getter(sig("get", vec![self_ref(), arg("key", ty("String"))], Some(ty("u8"))), ty("Self"), 0).ok().unwrap();
    assert_eq!(plan.key_name, "key");
    assert!(matches!(plan.key_conv, V8Conv::Trait { .. }));
    let e = impl_getter(sig("get", vec![self_ref()], Some(ty("u8"))), ty("Self"), 0).err().unwrap();
    assert_eq!(msgs(&e), vec!["require exactly one argument after &self"]);
    let bad = FnArgNode::Typed { pat: ArgPattern::Ident { name: "k".into(), plain: false }, ty: ty("u8"), raw: 0 };
    let e = impl_getter(sig("get", vec![self_ref(), bad], None), ty("Self"), 0).err().unwrap();
    assert_eq!(msgs(&e), vec!["must have an explicit return type", "expected an identifier"]);

    let plan = impl_setter(sig("set", vec![self_ref(), arg("k", ty("String")), arg("v", serde(ty("u8")))], None), ty("K"), ty("V")).ok().unwrap();
    assert_eq!(plan.key_name, "k");
    assert_eq!(plan.value_name, "v");
    assert!(matches!(plan.value_conv, V8Conv::Serde { .. }));
    let e = impl_setter(sig("set", vec![self_ref(), arg("k", ty("u8"))], Some(ty("u8"))), ty("K"), ty("V")).err().unwrap();
    assert_eq!(msgs(&e), vec!["indexing setters must not have a return type", "require exactly two argument after &self"]);
}

#[test]
fn signature_checks() {
    assert!(expect_self_arg(&vec![self_ref()]).is_ok());
    assert_eq!(expect_self_arg::<u32>(&vec![]).err().unwrap().message, "missing `&self` as the first argument");
    assert_eq!(expect_self_arg(&vec![recv(false, false)]).err().unwrap().message, "must be `&self`");
    assert_eq!(expect_self_arg(&vec![arg("x", ty("u8"))]).err().unwrap().message, "must have `&self` as the first argument");
    assert_eq!(only_pat_ident(&arg("key", ty("u8"))).ok().unwrap(), "key");
    assert_eq!(only_pat_ident(&self_ref()).err().unwrap().message, "expected an identifier");
    assert!(only_explicit_return_type(&Some(ty("u8"))).is_ok());
    assert_eq!(only_explicit_return_type::<u32>(&None).err().unwrap().message, "must have an explicit return type");
    assert!(no_fn_body(None).is_ok());
    assert!(no_fn_body(Some(0)).is_ok());
    assert_eq!(no_fn_body(Some(2)).err().unwrap().message, "macro ignores fn body\nchange this to {}");
    assert!(no_default_fn(false).is_ok());
    assert_eq!(no_default_fn(true).err().unwrap().message, "fn cannot be `default` here");
    assert_eq!(
        msgs(&only_inherent_impl(true, true, true)),
        vec!["impl cannot be `default`", "impl cannot be `unsafe`", "cannot be a trait impl"]
    );
    assert!(only_inherent_impl(false, false, false).is_empty());
    assert_eq!(msgs(&only_regular_trait(true, true)), vec!["trait cannot be `unsafe`", "trait cannot be `auto`"]);
    assert!(NoGenerics::from_generics(false, false).is_ok());
    assert_eq!(msgs(&NoGenerics::from_generics(true, true).err().unwrap()), vec!["must not have generics", "must not have a where clause"]);
    assert_eq!(msgs(&NoGenerics::from_generics(false, true).err().unwrap()), vec!["must not have a where clause"]);
}

#[test]
fn bound_arguments() {
    let bind = BindFunction { source: FunctionSource::This, this: ThisSlot::Object, ctor: false, length: FunctionLength::Fixed(2) };
    let slots = bind.bound_slots().unwrap();
    assert!(slots == vec![BoundSlot::This, BoundSlot::Arg(0), BoundSlot::Arg(1)]);
    assert!(bind.object_is_function());
    assert_eq!(bind.bound_len(), Some(3));

    let bind = BindFunction { source: FunctionSource::Prop(PropertyKey::from_str("f")), this: ThisSlot::Undefined, ctor: false, length: FunctionLength::Fixed(0) };
    assert!(bind.bound_slots().unwrap() == vec![BoundSlot::Undefined]);
    assert!(!bind.object_is_function());

    let bind = BindFunction { source: FunctionSource::This, this: ThisSlot::Absent, ctor: false, length: FunctionLength::Variadic };
    assert!(bind.bound_slots().is_none());
    assert_eq!(bind.bound_len(), None);

    assert_eq!(none_message("retval"), "retval is None");
    assert!(bound_args(&vec![false, false]) == BoundArgs::Array(3));
    assert!(bound_args(&vec![false, true]) == BoundArgs::Vec);
    assert!(bound_args(&vec![]) == BoundArgs::Array(1));
}

#[test]
fn older_call_helpers_bind_only_arguments() {
    let call = Call { name: PropertyKey::from_str("add"), ctor: false, arity: Arity::Fixed(2) };
    let b = call.to_bind_function();
    assert!(matches!(b.source, FunctionSource::Prop(PropertyKey::String(ref s)) if s == "add"));
    assert!(b.this == ThisSlot::Absent);
    assert!(b.length == FunctionLength::Fixed(2));
    assert!(b.bound_slots().unwrap() == vec![BoundSlot::Arg(0), BoundSlot::Arg(1)]);

    let f = BoundFunc { name: PropertyKey::Symbol(WellKnown::Iterator), ctor: true, arity: FuncArity::Variadic };
    let b = f.to_bind_function();
    assert!(b.ctor);
    assert!(b.length == FunctionLength::Variadic);
    assert!(matches!(b.source, FunctionSource::Prop(PropertyKey::Symbol(WellKnown::Iterator))));
}

#[test]
fn function_items_call_the_object() {
    let (c, _) = CallFunction::from_sig("call", no_flags(), vec![self_ref(), arg("x", ty("u8"))], None, 0);
    let call = c.0.calling_object();
    assert!(matches!(call.source, FunctionSource::This));
    assert_eq!(call.inputs.len(), 1);
    let plan = call.plan();
    assert_eq!(plan.error_ctx, "failed to call function");
    assert!(plan.bind.object_is_function());
    let ctor = CallFunction { intent: FunctionIntent::Constructed, ..call };
    assert_eq!(ctor.plan().error_ctx, "failed to construct");
}
