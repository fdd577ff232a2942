use std::sync::Arc;

use pyrefly_types::data::{
    ClassType, Field, Int, Lit, LitEnum, Literal, Param, ParamList, Quantified, Restriction, TArgs,
    Tuple, Type, TypedDict,
};
use pyrefly_types::names::{
    AnchorIndex, Class, LitInt, ModuleName, ModuleType, Name, ParamSpec, QName,
    QuantifiedIdentity, Sentinel, TextRange, TypeVar, TypeVarTuple,
};
use pyrefly_types::styles::{
    AnyStyle, ClassKind, LitStyle, NeverStyle, ParamKind, PreInferenceVariance, QuantifiedKind,
    QuantifiedOrigin,
};

fn qname(text: &'static str) -> QName {
    QName::new(Name::new_static(text), ModuleName::from_str("m"))
}

fn class(text: &'static str) -> ClassType {
    ClassType::new(Class::new(qname(text), 0, ClassKind::Class), TArgs::default())
}

fn quantified(text: &'static str, kind: QuantifiedKind) -> Quantified {
    Quantified::new(
        QuantifiedIdentity::new(
            ModuleName::from_str("m"),
            AnchorIndex::first(TextRange::default()),
            QuantifiedOrigin::Pep695,
        ),
        Name::new_static(text),
        kind,
        None,
        Restriction::Unrestricted,
        PreInferenceVariance::Undefined,
    )
}

fn type_var(text: &'static str) -> Type {
    Type::Quantified(Box::new(quantified(text, QuantifiedKind::TypeVar)))
}

fn string() -> Type {
    Type::LiteralString(LitStyle::Implicit)
}

#[test]
fn test_as_bool() {
    let true_lit = Lit::Bool(true).to_implicit_type();
    let false_lit = Lit::Bool(false).to_implicit_type();
    let none = Type::NoneType;
    let s = Type::LiteralString(LitStyle::Implicit);

    assert_eq!(true_lit.as_bool(), Some(true));
    assert_eq!(false_lit.as_bool(), Some(false));
    assert_eq!(none.as_bool(), Some(false));
    assert_eq!(s.as_bool(), None);
}

#[test]
fn test_as_bool_union() {
    let s = Type::LiteralString(LitStyle::Implicit);
    let false_lit = Lit::Bool(false).to_implicit_type();
    let none = Type::NoneType;

    let str_opt = Type::union(vec![s, none.clone()]);
    let false_opt = Type::union(vec![false_lit, none]);

    assert_eq!(str_opt.as_bool(), None);
    assert_eq!(false_opt.as_bool(), Some(false));
}

#[test]
fn truth_of_other_types() {
    assert_eq!(Lit::Int(LitInt::from_i64(0)).to_implicit_type().as_bool(), Some(false));
    assert_eq!(Lit::Int(LitInt::from_i64(-5)).to_implicit_type().as_bool(), Some(true));
    assert_eq!(Lit::Bytes(vec![]).to_implicit_type().as_bool(), Some(false));
    assert_eq!(Lit::Bytes(vec![0]).to_implicit_type().as_bool(), Some(true));
    assert_eq!(Lit::Str(Name::new_static("")).to_implicit_type().as_bool(), Some(false));
    assert_eq!(Lit::Str(Name::new_static("x")).to_implicit_type().as_bool(), Some(true));
    assert_eq!(Type::type_of(Type::NoneType).as_bool(), Some(true));
    assert_eq!(Type::Sentinel(Sentinel { qname: qname("S") }).as_bool(), Some(true));
    assert_eq!(Type::concrete_tuple(vec![]).as_bool(), Some(false));
    assert_eq!(Type::concrete_tuple(vec![Type::NoneType]).as_bool(), Some(true));
    assert_eq!(Type::any_tuple().as_bool(), None);
    assert_eq!(Type::union(vec![]).as_bool(), None);
    assert_eq!(
        Type::union(vec![Type::NoneType, Type::type_of(Type::NoneType)]).as_bool(),
        None,
    );
    assert_eq!(
        Lit::Enum(Box::new(LitEnum { class: class("E"), member: Name::new_static("A") }))
            .to_implicit_type()
            .as_bool(),
        None,
    );
}

#[test]
fn any_propagates_as_implicit() {
    assert_eq!(AnyStyle::Explicit.propagate(), Type::any_implicit());
    assert_eq!(AnyStyle::Implicit.propagate(), Type::any_implicit());
    assert_eq!(AnyStyle::Error.propagate(), Type::any_error());
}

#[test]
fn constructors_give_the_types_they_name() {
    assert!(matches!(Type::never(), Type::Never(NeverStyle::Never)));
    assert!(matches!(Type::any_explicit(), Type::Any(AnyStyle::Explicit)));
    assert!(matches!(Type::ellipsis(), Type::Ellipsis));
    assert_eq!(Arc::new(string()).arc_clone(), string());

    let param = Param {
        name: None,
        kind: ParamKind::PosOnly,
        required: true,
        ty: Type::NoneType,
    };
    let Type::Callable(c) = Type::callable(vec![param.clone()], string()) else { panic!() };
    assert_eq!(c.ret, string());
    assert_eq!(c.get_first_param(), Some(&Type::NoneType));
    let Type::Callable(c) = Type::callable_ellipsis(string()) else { panic!() };
    assert_eq!(c.get_first_param(), None);
    let Type::Callable(c) = Type::callable_param_spec(type_var("P"), string()) else { panic!() };
    assert_eq!(c.get_first_param(), None);
    let concatenate = Type::callable_concatenate(vec![param], type_var("P"), string());
    let Type::Callable(c) = concatenate else { panic!() };
    assert_eq!(c.get_first_param(), Some(&Type::NoneType));
}

#[test]
fn tuples_of_unpacked_elements_are_unpacked() {
    let q = quantified("Ts", QuantifiedKind::TypeVarTuple);
    let elt = Type::ElementOfTypeVarTuple(Box::new(q.clone()));

    assert_eq!(
        Type::unbounded_tuple(elt),
        Type::unpacked_tuple(vec![], Type::Quantified(Box::new(q)), vec![]),
    );
    assert_eq!(
        Type::unbounded_tuple(string()),
        Type::Tuple(Tuple::Unbounded(Box::new(string()))),
    );
    assert_eq!(
        Type::any_tuple(),
        Type::Tuple(Tuple::Unbounded(Box::new(Type::any_implicit()))),
    );
}

#[test]
fn predicates_tell_types_apart() {
    let typed_dict = Type::TypedDict(TypedDict::TypedDict(class("TD")));
    let partial = Type::PartialTypedDict(TypedDict::TypedDict(class("TD")));
    let ts = Type::Quantified(Box::new(quantified("Ts", QuantifiedKind::TypeVarTuple)));
    let p = Type::Quantified(Box::new(quantified("P", QuantifiedKind::ParamSpec)));

    assert!(Type::union(vec![]).is_union() && !string().is_union());
    assert_eq!(Type::union(vec![string(), Type::NoneType]).union_width(), 2);
    assert_eq!(string().union_width(), 1);
    assert!(Type::never().is_never() && !string().is_never());
    assert!(Type::any_error().is_any() && !string().is_any());
    assert!(Type::any_error().is_error() && !Type::any_explicit().is_error());
    assert!(Type::NoneType.is_none() && !string().is_none());
    assert!(typed_dict.is_typed_dict() && partial.is_typed_dict() && !string().is_typed_dict());
    assert!(Type::Unpack(Box::new(string())).is_unpack() && !string().is_unpack());
    assert!(Type::NoneType.is_scalar() && string().is_scalar());
    assert!(!Type::any_implicit().is_scalar());
    assert!(ts.is_kind_type_var_tuple() && !type_var("T").is_kind_type_var_tuple());
    assert!(Type::TypeVarTuple(TypeVarTuple { qname: qname("Ts") }).is_kind_type_var_tuple());
    assert!(p.is_kind_param_spec() && !type_var("T").is_kind_param_spec());
    assert!(Type::Ellipsis.is_kind_param_spec());
    assert!(Type::ParamSpec(ParamSpec { qname: qname("P") }).is_kind_param_spec());
    assert!(Type::ParamSpecValue(ParamList::new(vec![])).is_kind_param_spec());
    assert!(Type::Concatenate(vec![], Box::new(p.clone())).is_kind_param_spec());
    assert!(type_var("T").is_explicit_type_variable() && !p.is_explicit_type_variable());
    assert!(Type::TypeVar(TypeVar { qname: qname("T") }).is_explicit_type_variable());
}

#[test]
fn literal_strings_and_their_styles() {
    let explicit = Type::Literal(Box::new(Literal {
        value: Lit::Str(Name::new_static("x")),
        style: LitStyle::Explicit,
    }));
    let number = Lit::Int(LitInt::from_i64(3)).to_implicit_type();

    assert_eq!(string().lit_string_style(), Some(&LitStyle::Implicit));
    assert_eq!(explicit.lit_string_style(), Some(&LitStyle::Explicit));
    assert_eq!(number.lit_string_style(), None);
    assert!(explicit.is_literal_string() && !number.is_literal_string());
    assert!(number.is_implicit_literal() && string().is_implicit_literal());
    assert!(!explicit.is_implicit_literal());
    assert!(!Type::LiteralString(LitStyle::Explicit).is_implicit_literal());
    assert!(!Type::NoneType.is_implicit_literal());
}

#[test]
fn unpacked_typed_dicts_are_found() {
    let td = TypedDict::Anonymous(vec![Field { name: Name::new_static("a"), ty: string() }]);
    let unpacked = Type::Unpack(Box::new(Type::TypedDict(td.clone())));

    assert_eq!(unpacked.unpacked_typed_dict(), Some(&td));
    assert_eq!(Type::Unpack(Box::new(string())).unpacked_typed_dict(), None);
    assert_eq!(Type::TypedDict(td).unpacked_typed_dict(), None);
}

#[test]
fn modules_and_shapes_are_taken_out() {
    let module = Type::Module(ModuleType { name: ModuleName::from_str("a.b") });

    assert_eq!(module.as_module().map(|m| m.name.text.clone()), Some("a.b".to_owned()));
    assert!(string().as_module().is_none());
    assert_eq!(Type::Int(Int::Literal(6)).as_shape_literal(), Some(6));
    assert_eq!(Type::Int(Int::Gradual).as_shape_literal(), None);
    assert_eq!(string().as_shape_literal(), None);
}

#[test]
fn quantifieds_are_seen_through_narrowing() {
    let q = quantified("T", QuantifiedKind::TypeVar);
    let intersect =
        |ts: Vec<Type>| Type::Intersect(Box::new((ts, Type::NoneType)));

    assert_eq!(type_var("T").as_quantified(), Some((&q, None)));
    assert_eq!(
        intersect(vec![type_var("T"), string()]).as_quantified(),
        Some((&q, Some(&string()))),
    );
    assert_eq!(
        intersect(vec![string(), type_var("T")]).as_quantified(),
        Some((&q, Some(&string()))),
    );
    assert_eq!(intersect(vec![type_var("T"), type_var("U")]).as_quantified(), None);
    assert_eq!(intersect(vec![type_var("T")]).as_quantified(), None);
    assert_eq!(intersect(vec![string(), string()]).as_quantified(), None);
    assert_eq!(string().as_quantified(), None);
}

#[test]
fn alternatives_of_a_union_are_its_members() {
    let members = vec![string(), Type::NoneType];

    assert_eq!(Type::union(members.clone()).into_unions(), members);
    assert_eq!(string().into_unions(), vec![string()]);
}

#[test]
fn optional_types_end_with_none() {
    let union = Type::union(vec![string(), Type::Ellipsis]);
    let optional = Type::union(vec![string(), Type::Ellipsis, Type::NoneType]);

    assert_eq!(Type::optional(string()), Type::union(vec![string(), Type::NoneType]));
    assert_eq!(Type::optional(Type::NoneType), Type::NoneType);
    assert_eq!(Type::optional(union), optional);
    assert_eq!(Type::optional(optional.clone()), optional);
    assert_eq!(Type::optional(Type::union(vec![])), Type::union(vec![Type::NoneType]));
}

#[test]
fn qualified_names_are_found() {
    let expect = |t: Type, text: Option<&str>| {
        assert_eq!(t.qname().map(|q| q.id().as_str().to_owned()), text.map(|x| x.to_owned()));
    };
    let enum_lit = Lit::Enum(Box::new(LitEnum {
        class: class("E"),
        member: Name::new_static("A"),
    }));

    expect(Type::ClassDef(Class::new(qname("C"), 1, ClassKind::Class)), Some("C"));
    expect(Type::ClassType(class("D")), Some("D"));
    expect(Type::TypedDict(TypedDict::TypedDict(class("T"))), Some("T"));
    expect(Type::TypedDict(TypedDict::Anonymous(vec![])), None);
    expect(Type::PartialTypedDict(TypedDict::TypedDict(class("T"))), Some("T"));
    expect(Type::TypeVar(TypeVar { qname: qname("V") }), Some("V"));
    expect(Type::TypeVarTuple(TypeVarTuple { qname: qname("W") }), Some("W"));
    expect(Type::ParamSpec(ParamSpec { qname: qname("P") }), Some("P"));
    expect(Type::SelfType(class("S")), Some("S"));
    expect(enum_lit.to_implicit_type(), Some("E"));
    expect(Lit::Bool(true).to_implicit_type(), None);
    expect(Type::Sentinel(Sentinel { qname: qname("N") }), Some("N"));
    expect(Type::NoneType, None);
}
