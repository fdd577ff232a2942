use std::sync::Arc;

use pyrefly_types::data::{
    BoundMethod, BoundMethodType, Callable, CallableResidual, ClassType, Forall, Forallable,
    FuncFlags, FuncMetadata, Function, KwCall, Overload, OverloadType, Param, ParamList,
    PropertyMetadata, Quantified, Restriction, TArgs, TParams, Type, TypeAlias, TypeAliasData,
};
use pyrefly_types::functions::{CalleeKind, PlainUnions};
use pyrefly_types::names::{
    AnchorIndex, Class, Deprecation, FunctionKind, ModuleName, Name, QName, QuantifiedIdentity,
    TextRange,
};
use pyrefly_types::outside::Signatures;
use pyrefly_types::styles::{
    ClassKind, DataclassTransformMetadata, LitStyle, ParamKind, PreInferenceVariance,
    PropertyRole, QuantifiedKind, QuantifiedOrigin,
};
use pyrefly_types::toplevel::{ObserveCallable, UpdateCallable, UpdateMetadata};
use pyrefly_types::view::{CallableView, FuncMetadataView};

fn name(text: &str) -> Name {
    Name::new(text.to_owned())
}

fn class() -> ClassType {
    ClassType::new(
        Class::new(QName::new(name("C"), ModuleName::from_str("m")), 0, ClassKind::Class),
        TArgs::default(),
    )
}

fn string() -> Type {
    Type::LiteralString(LitStyle::Implicit)
}

fn metadata(text: &str) -> FuncMetadata {
    FuncMetadata {
        kind: FunctionKind::Def(name(text)),
        flags: FuncFlags {
            is_overload: false,
            is_cached_property: false,
            is_abstract_method: false,
            is_override: false,
            is_assert_shape: false,
            has_enum_member_decoration: false,
            has_final_decoration: false,
            property_metadata: None,
            deprecation: None,
            dataclass_transform_metadata: None,
        },
    }
}

fn param(kind: ParamKind, ty: Type) -> Param {
    Param { name: Some(name("x")), kind, required: true, ty }
}

fn callable(first: Type, ret: Type) -> Callable {
    Callable::list(ParamList::new(vec![param(ParamKind::Pos, first)]), ret)
}

fn function(text: &str, first: Type, ret: Type) -> Function {
    Function { signature: callable(first, ret), metadata: metadata(text) }
}

fn tparams() -> Arc<TParams> {
    Arc::new(TParams::new(vec![Quantified::new(
        QuantifiedIdentity::new(
            ModuleName::from_str("m"),
            AnchorIndex::first(TextRange::default()),
            QuantifiedOrigin::Pep695,
        ),
        name("T"),
        QuantifiedKind::TypeVar,
        None,
        Restriction::Unrestricted,
        PreInferenceVariance::Undefined,
    )]))
}

fn generic(f: Function) -> Forall<Function> {
    Forall { tparams: tparams(), body: f }
}

fn overload(a: Function, b: Function) -> Overload {
    Overload {
        signatures: Signatures::new(
            OverloadType::Function(a),
            vec![OverloadType::Forall(generic(b))],
        ),
        metadata: Box::new(metadata("over")),
    }
}

fn method(func: BoundMethodType) -> Type {
    BoundMethod { obj: Type::NoneType, func }.as_type()
}

/// A type of each shape that has callables, with the number of them.
fn shapes(ret: &Type) -> Vec<(Type, usize)> {
    let f = || function("f", Type::NoneType, ret.clone());
    let g = || function("g", string(), ret.clone());
    vec![
        (Type::Callable(Box::new(callable(Type::NoneType, ret.clone()))), 1),
        (Type::Function(Box::new(f())), 1),
        (Forallable::Function(f()).into_forall(tparams()), 1),
        (
            Forallable::Callable(callable(Type::NoneType, ret.clone())).into_forall(tparams()),
            1,
        ),
        (method(BoundMethodType::Function(f())), 1),
        (method(BoundMethodType::Forall(generic(f()))), 1),
        (method(BoundMethodType::Overload(overload(f(), g()))), 2),
        (Type::Overload(overload(f(), g())), 2),
    ]
}

struct Count {
    seen: usize,
}

impl<'a> ObserveCallable<'a> for Count {
    type State = ();

    fn state(&self) {}

    fn step(_s: (), _c: CallableView) {
        unreachable!()
    }

    fn call(&mut self, _c: &'a Callable) {
        self.seen += 1;
    }
}

/// Makes callables return tuples, longer each time.
struct Longer {
    seen: usize,
}

impl UpdateCallable for Longer {
    type State = ();

    fn state(&self) {}

    fn step(_s: (), _c: CallableView) -> ((), CallableView) {
        unreachable!()
    }

    fn call(&mut self, c: &mut Callable) {
        self.seen += 1;
        c.ret = Type::concrete_tuple(vec![Type::NoneType; self.seen]);
    }
}

struct Rename {
    calls: usize,
}

impl UpdateMetadata for Rename {
    type State = ();

    fn state(&self) {}

    fn step(_s: (), _m: FuncMetadataView) -> ((), FuncMetadataView) {
        unreachable!()
    }

    fn call(&mut self, m: &mut FuncMetadata) {
        self.calls += 1;
        m.kind = FunctionKind::AssertShape;
    }
}

#[test]
fn every_signature_is_visited_once() {
    for (t, n) in shapes(&string()) {
        let mut count = Count { seen: 0 };
        t.visit_toplevel_callable(&mut count);
        assert_eq!(count.seen, n);
        assert_eq!(t.callable_signatures().len(), n);
        assert!(t.is_toplevel_callable());
    }
    assert!(!string().is_toplevel_callable());
    assert!(!Type::type_of(Type::callable_ellipsis(string())).is_toplevel_callable());
}

#[test]
fn every_signature_is_changed_in_order() {
    for (mut t, n) in shapes(&string()) {
        let mut longer = Longer { seen: 0 };
        t.transform_toplevel_callable(&mut longer);
        let rets: Vec<Type> =
            t.callable_signatures().into_iter().map(|c| c.ret.clone()).collect();
        let expected: Vec<Type> = (0..n)
            .map(|i| Type::concrete_tuple(vec![Type::NoneType; i + 1]))
            .collect();
        assert_eq!(rets, expected);
    }
    let mut alias = Type::TypeAlias(Box::new(TypeAliasData::Value(TypeAlias {
        name: name("A"),
        ty: Type::callable_ellipsis(string()),
    })));
    let before = alias.clone();
    alias.transform_toplevel_callable(&mut Longer { seen: 0 });
    assert_eq!(alias, before);
}

#[test]
fn return_types_and_first_parameters_are_united() {
    let heap = PlainUnions {};
    let f = function("f", Type::NoneType, string());
    let g = function("g", Type::Ellipsis, Type::Materialization);
    let over = Type::Overload(overload(f, g));

    assert_eq!(
        over.callable_return_type(&heap),
        Some(Type::union(vec![string(), Type::Materialization])),
    );
    assert_eq!(
        over.callable_first_param(&heap),
        Some(Type::union(vec![Type::NoneType, Type::Ellipsis])),
    );
    assert_eq!(string().callable_return_type(&heap), None);
    assert_eq!(Type::callable_ellipsis(string()).callable_first_param(&heap), None);
}

#[test]
fn the_first_parameter_is_positional() {
    let first = |kind: ParamKind| {
        let c = Callable::list(ParamList::new(vec![param(kind, string())]), Type::NoneType);
        c.get_first_param().is_some()
    };

    assert!(first(ParamKind::PosOnly) && first(ParamKind::Pos) && first(ParamKind::VarArg));
    assert!(!first(ParamKind::KwOnly) && !first(ParamKind::Kwargs));
}

#[test]
fn type_guards_are_recognized() {
    for (t, _) in shapes(&Type::TypeGuard(Box::new(string()))) {
        assert!(t.is_typeguard() && !t.is_typeis());
    }
    for (t, _) in shapes(&Type::TypeIs(Box::new(string()))) {
        assert!(!t.is_typeguard() && t.is_typeis());
    }
    for (t, _) in shapes(&string()) {
        assert!(!t.is_typeguard() && !t.is_typeis());
    }
    assert!(!Type::TypeGuard(Box::new(string())).is_typeguard());
    let guard = Type::TypeGuard(Box::new(string()));
    let mixed = Type::Overload(overload(
        function("f", string(), string()),
        function("g", string(), guard),
    ));
    assert!(mixed.is_typeguard());
}

#[test]
fn callees_are_told_apart() {
    let kind = |t: Type| match t.callee_kind() {
        None => "none".to_owned(),
        Some(CalleeKind::Callable) => "callable".to_owned(),
        Some(CalleeKind::Function(k)) => k.function_name().as_str().to_owned(),
        Some(CalleeKind::Class(k)) => format!("{k:?}"),
    };
    let f = || function("f", string(), string());
    let alias = TypeAliasData::Value(TypeAlias { name: name("A"), ty: string() });
    let residual = CallableResidual { captured: vec![], fallback: string() };
    let call = |return_ty: Type| Type::KwCall(Box::new(KwCall { keywords: vec![], return_ty }));

    assert_eq!(kind(Type::callable_ellipsis(string())), "callable");
    assert_eq!(kind(Type::CallableResidual(Box::new(residual))), "callable");
    assert_eq!(kind(Type::Function(Box::new(f()))), "f");
    assert_eq!(
        kind(Type::ClassDef(Class::new(
            QName::new(name("C"), ModuleName::from_str("m")),
            0,
            ClassKind::Property,
        ))),
        "Property",
    );
    assert_eq!(kind(Forallable::Function(f()).into_forall(tparams())), "f");
    assert_eq!(
        kind(Forallable::Callable(callable(string(), string())).into_forall(tparams())),
        "callable",
    );
    assert_eq!(kind(Forallable::TypeAlias(alias).into_forall(tparams())), "none");
    assert_eq!(kind(Type::Overload(overload(f(), f()))), "over");
    assert_eq!(kind(call(call(Type::Function(Box::new(f()))))), "f");
    assert_eq!(kind(call(string())), "none");
    assert_eq!(kind(method(BoundMethodType::Function(f()))), "none");
}

#[test]
fn callee_kinds_are_compared_by_what_they_hold() {
    let def = |text: &str| CalleeKind::Function(FunctionKind::Def(name(text)));
    let kinds = [
        CalleeKind::Callable,
        CalleeKind::Function(FunctionKind::AssertShape),
        def("f"),
        def("g"),
        CalleeKind::Class(ClassKind::Class),
        CalleeKind::Class(ClassKind::Property),
    ];

    for (i, a) in kinds.iter().enumerate() {
        for (j, b) in kinds.iter().enumerate() {
            assert_eq!(a == b, i == j);
        }
        assert_eq!(a.clone(), *a);
    }
    let f = function("f", string(), string());
    assert_eq!(Type::Function(Box::new(f)).callee_kind(), Some(def("f")));
}

#[test]
fn a_single_callable_is_taken_out() {
    let c = callable(Type::NoneType, string());
    let f = || function("f", Type::NoneType, string());

    assert_eq!(Type::Callable(Box::new(c.clone())).to_callable(), Some(c.clone()));
    assert_eq!(Type::Function(Box::new(f())).to_callable(), Some(c.clone()));
    assert_eq!(method(BoundMethodType::Function(f())).to_callable(), Some(c.clone()));
    assert_eq!(method(BoundMethodType::Forall(generic(f()))).to_callable(), Some(c));
    assert_eq!(method(BoundMethodType::Overload(overload(f(), f()))).to_callable(), None);
    assert_eq!(Type::Overload(overload(f(), f())).to_callable(), None);
    assert_eq!(Forallable::Function(f()).into_forall(tparams()).to_callable(), None);
}

#[test]
fn generics_without_type_parameters_are_their_bodies() {
    let f = || function("f", string(), string());
    let none = Arc::new(TParams::empty());
    let alias = TypeAliasData::Value(TypeAlias { name: name("A"), ty: string() });

    assert_eq!(
        Forallable::Function(f()).into_forall(none.clone()),
        Type::Function(Box::new(f())),
    );
    assert_eq!(
        Forallable::TypeAlias(alias.clone()).into_forall(none),
        Type::TypeAlias(Box::new(alias.clone())),
    );
    assert!(matches!(Forallable::Function(f()).into_forall(tparams()), Type::Forall(_)));
    assert_eq!(Forallable::Function(f()).name().as_str(), "f");
    assert_eq!(Forallable::Callable(callable(string(), string())).name().as_str(), "<callable>");
    assert_eq!(Forallable::TypeAlias(alias).name().as_str(), "A");
    assert_eq!(
        OverloadType::Function(f()).as_type(),
        Type::Function(Box::new(f())),
    );
    assert_eq!(
        OverloadType::Forall(generic(f())).as_type(),
        Forallable::Function(f()).into_forall(tparams()),
    );
}

#[test]
fn methods_are_bound_and_turned_into_types() {
    let f = || function("f", string(), string());
    let m = BoundMethod { obj: Type::NoneType, func: BoundMethodType::Function(f()) };
    let over = || overload(f(), f());

    let rebound = m.with_bound_object(string());
    assert_eq!(rebound.obj, string());
    assert_eq!(rebound.func, m.func);
    assert_eq!(BoundMethodType::Function(f()).as_type(), Type::Function(Box::new(f())));
    assert_eq!(
        BoundMethodType::Forall(generic(f())).as_type(),
        Forallable::Function(f()).into_forall(tparams()),
    );
    assert_eq!(BoundMethodType::Overload(over()).as_type(), Type::Overload(over()));
    assert_eq!(BoundMethodType::Function(f()).metadata(), &metadata("f"));
    assert_eq!(BoundMethodType::Forall(generic(f())).metadata(), &metadata("f"));
    assert_eq!(BoundMethodType::Overload(over()).metadata(), &metadata("over"));
}

#[test]
fn self_is_replaced_in_all_signatures() {
    let own = Type::SelfType(class());
    let f = |t: Type| function("f", t.clone(), t);

    let mut func = BoundMethodType::Function(f(own.clone()));
    func.subst_self_type_mut(&string());
    assert_eq!(func, BoundMethodType::Function(f(string())));
    let mut func = BoundMethodType::Forall(generic(f(own.clone())));
    func.subst_self_type_mut(&string());
    assert_eq!(func, BoundMethodType::Forall(generic(f(string()))));
    let mut func = BoundMethodType::Overload(overload(f(own.clone()), f(own)));
    func.subst_self_type_mut(&string());
    assert_eq!(func, BoundMethodType::Overload(overload(f(string()), f(string()))));
}

#[test]
fn metadata_is_read_at_the_top_level() {
    for (t, _) in shapes(&string()) {
        let has = t.has_toplevel_func_metadata();
        assert_eq!(has, t.to_func_kind().is_some());
        assert_eq!(has, t.visit_toplevel_func_metadata(&|_m| true));
        assert!(!t.is_abstract_method() && !t.is_override() && !t.is_overload());
        assert!(!t.is_cached_property() && !t.has_final_decoration());
        assert!(!t.has_enum_member_decoration() && !t.is_assert_shape());
        assert!(t.property_metadata().is_none() && t.function_deprecation().is_none());
        assert!(t.dataclass_transform_metadata().is_none());
    }
    assert!(!Type::callable_ellipsis(string()).has_toplevel_func_metadata());
    assert!(!string().has_toplevel_func_metadata());
}

#[test]
fn flags_are_read_one_by_one() {
    let with = |set: &dyn Fn(&mut FuncFlags)| {
        let mut f = function("f", string(), string());
        set(&mut f.metadata.flags);
        Type::Function(Box::new(f))
    };
    let transform = DataclassTransformMetadata {
        eq_default: true,
        order_default: false,
        kw_only_default: false,
        frozen_default: true,
    };

    assert!(with(&|f| f.is_abstract_method = true).is_abstract_method());
    assert!(with(&|f| f.is_override = true).is_override());
    assert!(with(&|f| f.is_overload = true).is_overload());
    assert!(with(&|f| f.is_cached_property = true).is_cached_property());
    assert!(with(&|f| f.has_final_decoration = true).has_final_decoration());
    assert!(with(&|f| f.has_enum_member_decoration = true).has_enum_member_decoration());
    assert!(with(&|f| f.is_assert_shape = true).is_assert_shape());
    let deprecated =
        with(&|f| f.deprecation = Some(Deprecation { message: Some(name("old")) }));
    let message = deprecated.function_deprecation().and_then(|d| d.message.as_ref());
    assert_eq!(message.map(|m| m.as_str()), Some("old"));
    let decorated = with(&|f| f.dataclass_transform_metadata = Some(transform));
    assert_eq!(decorated.dataclass_transform_metadata(), Some(&transform));
}

#[test]
fn metadata_is_changed_at_the_top_level() {
    for (mut t, _) in shapes(&string()) {
        let has = t.has_toplevel_func_metadata();
        let mut rename = Rename { calls: 0 };
        t.transform_toplevel_func_metadata(&mut rename);
        assert_eq!(rename.calls, if has { 1 } else { 0 });
        assert_eq!(t.is_assert_shape(), has);
        assert_eq!(matches!(t.to_func_kind(), Some(FunctionKind::AssertShape)), has);
    }
}

fn property(role: PropertyRole) -> PropertyMetadata {
    PropertyMetadata { role, getter: string() }
}

#[test]
fn property_metadata_is_set_and_dropped() {
    for (t, _) in shapes(&string()) {
        let mut u = t.clone();
        let set = u.set_property_metadata(property(PropertyRole::Getter));
        assert_eq!(set, t.has_toplevel_func_metadata());
        assert_eq!(u.property_metadata().is_some(), set);
        assert_eq!(u.is_property_getter(), set);
        assert_eq!(u.without_property_metadata(), t);
        u.set_property_metadata(property(PropertyRole::Setter));
        assert!(!u.is_property_getter());
        assert_eq!(u.without_property_metadata(), t);
    }
}

#[test]
fn property_roles_are_told_apart() {
    let with = |role: PropertyRole| {
        let mut t = Type::Function(Box::new(function("f", string(), string())));
        assert!(t.set_property_metadata(property(role)));
        t
    };
    let setter = with(PropertyRole::Setter);
    let decorator = with(PropertyRole::SetterDecorator);
    let deleter = with(PropertyRole::DeleterDecorator);

    assert_eq!(setter.is_property_setter_with_getter(), Some(string()));
    assert_eq!(decorator.is_property_setter_with_getter(), None);
    assert!(decorator.is_property_setter_decorator() && !setter.is_property_setter_decorator());
    assert_eq!(
        deleter.property_deleter_metadata(),
        Some(&property(PropertyRole::DeleterDecorator)),
    );
    assert_eq!(setter.property_deleter_metadata(), None);
    assert_eq!(string().property_deleter_metadata(), None);
}
