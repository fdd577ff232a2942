use std::cmp::Ordering;
use std::collections::hash_map::DefaultHasher;
use std::collections::HashSet;
use std::hash::{Hash, Hasher};
use std::sync::Arc;

use pyrefly_types::data::{
    ClassType, Field, Int, IntTuple, Lit, NNModuleType, Quantified, Restriction, TArgs, TParams,
    Type, Union,
};
use pyrefly_types::equiv::TypeEqCtx;
use pyrefly_types::functions::TypeHeap;
use pyrefly_types::names::{
    AnchorIndex, Class, LitInt, ModuleName, Name, QName, QuantifiedIdentity, TextRange, Unique,
    UniqueFactory, Var,
};
use pyrefly_types::outside::ModuleFields;
use pyrefly_types::styles::{
    AnyStyle, ClassKind, LitStyle, NeverStyle, PreInferenceVariance, QuantifiedKind,
    QuantifiedOrigin, TParamsSource,
};

fn name(text: &str) -> Name {
    Name::new(text.to_owned())
}

fn class(text: &str) -> ClassType {
    ClassType::new(
        Class::new(QName::new(name(text), ModuleName::from_str("m")), 0, ClassKind::Class),
        TArgs::default(),
    )
}

fn var(id: u64) -> Type {
    Var { unique: Unique { id } }.to_type(&TypeHeap {})
}

fn module(fields: Vec<(&str, Type)>) -> NNModuleType {
    let fields: Vec<Field> =
        fields.into_iter().map(|(n, ty)| Field { name: name(n), ty }).collect();
    NNModuleType::new(class("Conv"), ModuleFields::from_fields(&fields))
}

#[test]
fn test_targs_visit_only_visits_applied_arguments() {
    let tparam = Quantified::new(
        QuantifiedIdentity::new(
            ModuleName::from_str("test"),
            AnchorIndex::first(TextRange::default()),
            QuantifiedOrigin::Pep695,
        ),
        Name::new_static("T"),
        QuantifiedKind::TypeVar,
        Some(Type::NoneType),
        Restriction::Bound(Type::LiteralString(LitStyle::Implicit)),
        PreInferenceVariance::Undefined,
    );
    let targs = TArgs::new(Arc::new(TParams::new(vec![tparam])), vec![Type::Ellipsis]);
    let mut visited = Vec::new();

    targs.visit(&mut visited);

    let visited: Vec<Type> = visited.into_iter().map(|ty| ty.clone()).collect();
    assert_eq!(visited, vec![Type::Ellipsis]);
}

/// `display_name` is presentation-only, so two unions with identical members but different names
/// must agree across `Eq`, `Ord`, and `TypeEq`.
#[test]
fn test_union_display_name_ignored_by_comparisons() {
    let members = vec![Type::NoneType, Type::LiteralString(LitStyle::Implicit)];
    let named = Union {
        members: members.clone(),
        display_name: Some((ModuleName::builtins(), Name::new_static("TA"))),
    };
    let anonymous = Union { members, display_name: None };

    assert_eq!(named, anonymous);
    assert_eq!(named.cmp(&anonymous), Ordering::Equal);
    assert!(named.type_eq(&anonymous, &mut TypeEqCtx::default()));
}

fn hash_of<T: Hash>(x: &T) -> u64 {
    let mut hasher = DefaultHasher::new();
    x.hash(&mut hasher);
    hasher.finish()
}

#[test]
fn equal_unions_are_hashed_alike() {
    let members = vec![Type::NoneType, Type::Ellipsis];
    let named = Union {
        members: members.clone(),
        display_name: Some((ModuleName::builtins(), Name::new_static("TA"))),
    };
    let anonymous = Union { members, display_name: None };
    let other = Union { members: vec![Type::NoneType], display_name: None };
    let a = module(vec![("stride", Type::NoneType)]);
    let b = module(vec![("stride", Type::Ellipsis)]);

    assert_eq!(hash_of(&named), hash_of(&anonymous));
    assert_ne!(hash_of(&named), hash_of(&other));
    assert_eq!(hash_of(&a), hash_of(&a.clone()));
    assert_ne!(hash_of(&a), hash_of(&b));
    let types = HashSet::from([
        Type::Union(Box::new(named)),
        Type::Union(Box::new(anonymous)),
        Type::NNModule(Box::new(a)),
    ]);
    assert_eq!(types.len(), 2);
}

#[test]
fn unions_differ_by_members() {
    let none = Union { members: vec![Type::NoneType], display_name: None };
    let any = Union { members: vec![Type::any_implicit()], display_name: None };
    let both = Union {
        members: vec![Type::NoneType, Type::any_implicit()],
        display_name: None,
    };

    assert_ne!(none, any);
    assert_eq!(any.cmp(&none), Ordering::Less);
    assert_eq!(none.cmp(&any), Ordering::Greater);
    assert_eq!(none.cmp(&both), Ordering::Less);
    assert_eq!(none.partial_cmp(&both), Some(Ordering::Less));
    assert!(!none.type_eq(&both, &mut TypeEqCtx::default()));
}

#[test]
fn types_are_ordered_by_variant_and_then_by_parts() {
    let t = Type::Literal(Box::new(pyrefly_types::data::Literal {
        value: Lit::Str(name("b")),
        style: LitStyle::Implicit,
    }));
    let u = Type::Literal(Box::new(pyrefly_types::data::Literal {
        value: Lit::Str(name("ba")),
        style: LitStyle::Implicit,
    }));

    assert_eq!(t.cmp(&u), Ordering::Less);
    assert_eq!(u.cmp(&t), Ordering::Greater);
    assert_eq!(t.cmp(&t.clone()), Ordering::Equal);
    assert_eq!(u.cmp(&Type::LiteralString(LitStyle::Implicit)), Ordering::Less);
    assert_eq!(Type::Materialization.cmp(&Type::NoneType), Ordering::Less);
    assert_eq!(Type::any_explicit().cmp(&Type::any_error()), Ordering::Less);
    assert!(Type::any_explicit() < Type::never());
    assert_eq!(
        Type::Int(Int::Literal(-1)).partial_cmp(&Type::Int(Int::Literal(1))),
        Some(Ordering::Less),
    );
    assert_eq!(
        Type::concrete_tuple(vec![Type::Ellipsis]).cmp(&Type::concrete_tuple(vec![])),
        Ordering::Greater,
    );
}

#[test]
fn the_order_is_transitive_and_agrees_with_equality() {
    let types = [
        Type::ClassType(class("A")),
        Type::ClassType(class("B")),
        Type::concrete_tuple(vec![Type::NoneType]),
        Type::union(vec![Type::NoneType, Type::Ellipsis]),
        var(3),
        Type::NoneType,
    ];
    for a in &types {
        for b in &types {
            assert_eq!(a == b, a.cmp(b) == Ordering::Equal);
            assert_eq!(a.cmp(b), b.cmp(a).reverse());
            for c in &types {
                if a < b && b < c {
                    assert!(a < c);
                }
            }
        }
    }
}

#[test]
fn none_stands_last() {
    for t in [Type::Materialization, var(1), Type::never(), Type::ClassType(class("Z"))] {
        assert_eq!(t.cmp(&Type::NoneType), Ordering::Less);
    }
    assert_eq!(Type::NoneType.cmp(&Type::NoneType), Ordering::Equal);
}

#[test]
fn captured_arguments_are_equal_in_any_order() {
    let a = module(vec![("stride", Type::NoneType), ("kernel", Type::Ellipsis)]);
    let b = module(vec![("kernel", Type::Ellipsis), ("stride", Type::NoneType)]);
    let c = module(vec![("kernel", Type::Ellipsis), ("stride", Type::Ellipsis)]);
    let d = module(vec![("kernel", Type::Ellipsis)]);

    assert_eq!(a, b);
    assert_eq!(b, a);
    assert_ne!(a, c);
    assert_ne!(b, c);
    assert_ne!(b, d);
    assert_ne!(d, b);
}

#[test]
fn equality_is_an_equivalence() {
    let field = |text: &'static str| (text, Type::concrete_tuple(vec![Type::NoneType]));
    let a = module(vec![field("x"), field("y"), field("z")]);
    let b = module(vec![field("z"), field("x"), field("y")]);
    let c = module(vec![field("y"), field("z"), field("x")]);

    assert!(a == a && b == b && c == c);
    assert!(a == b && b == a && b == c && c == b);
    assert!(a == c && c == a);
}

#[test]
fn captured_arguments_are_ordered_in_place() {
    let a = module(vec![("stride", Type::NoneType), ("kernel", Type::Ellipsis)]);
    let b = module(vec![("kernel", Type::Ellipsis), ("stride", Type::NoneType)]);
    let d = module(vec![("zeta", Type::NoneType)]);

    assert_eq!(a.cmp(&b), Ordering::Greater);
    assert_eq!(b.cmp(&a), Ordering::Less);
    assert_eq!(d.cmp(&b), Ordering::Less);
    assert_eq!(a.cmp(&a.clone()), Ordering::Equal);
    assert_eq!(b.partial_cmp(&d), Some(Ordering::Greater));
    assert!(!a.type_eq(&b, &mut TypeEqCtx::default()));
    assert!(a.type_eq(&a.clone(), &mut TypeEqCtx::default()));
}

#[test]
fn modules_are_ordered_by_class_then_count_then_arguments() {
    let of = |c: &str, fields: Vec<(&str, Type)>| {
        NNModuleType::new(class(c), module(fields).fields)
    };
    let none = of("B", vec![]);
    let one = of("B", vec![("zeta", Type::Materialization)]);
    let two = of("B", vec![("alpha", Type::NoneType), ("beta", Type::NoneType)]);
    let named = of("B", vec![("alpha", Type::NoneType), ("gamma", Type::Ellipsis)]);
    let typed = of("B", vec![("alpha", Type::NoneType), ("beta", Type::Materialization)]);
    let last = of("C", vec![]);
    let sorted = [&none, &one, &typed, &two, &named, &last];

    for (i, a) in sorted.iter().enumerate() {
        for (j, b) in sorted.iter().enumerate() {
            assert_eq!(NNModuleType::cmp(a, b), i.cmp(&j));
            assert_eq!(a == b, i == j);
        }
    }
}

#[test]
fn a_repeated_field_keeps_its_place_and_takes_the_last_type() {
    let a = module(vec![
        ("a", Type::NoneType),
        ("b", Type::Ellipsis),
        ("a", Type::Materialization),
    ]);
    let b = module(vec![("a", Type::Materialization), ("b", Type::Ellipsis)]);

    assert_eq!(a.cmp(&b), Ordering::Equal);
    assert_eq!(a, b);
}

#[test]
fn equality_up_to_variables_chooses_one_variable_for_each() {
    let pair = |a: u64, b: u64| Type::concrete_tuple(vec![var(a), var(b)]);

    assert!(pair(1, 2).type_eq(&pair(7, 8), &mut TypeEqCtx::default()));
    assert!(pair(1, 1).type_eq(&pair(7, 7), &mut TypeEqCtx::default()));
    assert!(!pair(1, 1).type_eq(&pair(7, 8), &mut TypeEqCtx::default()));
    assert!(pair(1, 2).type_eq(&pair(7, 7), &mut TypeEqCtx::default()));
    assert!(!var(1).type_eq(&Type::NoneType, &mut TypeEqCtx::default()));

    let mut ctx = TypeEqCtx::default();
    assert!(var(1).type_eq(&var(5), &mut ctx));
    assert!(!var(1).type_eq(&var(6), &mut ctx));
    assert_eq!(ctx.pairs, vec![(1, 5)]);
}

#[test]
fn integers_of_any_size_are_compared_by_value() {
    let one = Lit::Int(LitInt::from_i64(1)).to_implicit_type();
    let minus = Lit::Int(LitInt::from_i64(-1)).to_implicit_type();
    let low = Lit::Int(LitInt::from_i64(i64::MIN)).to_implicit_type();

    assert_eq!(one, Lit::Int(LitInt::from_i64(1)).to_implicit_type());
    assert_ne!(one, minus);
    assert_ne!(minus, low);
    assert_eq!(LitInt::from_i64(i64::MIN).magnitude, vec![1u64 << 63]);
}

#[test]
fn shapes_are_compared_by_dimensions() {
    let shape = |dims: Vec<Int>| Type::IntTuple(Box::new(IntTuple { dims }));

    assert_eq!(shape(vec![Int::Literal(2)]), shape(vec![Int::Literal(2)]));
    assert_ne!(shape(vec![Int::Literal(2)]), shape(vec![Int::Gradual]));
    assert_ne!(shape(vec![]), shape(vec![Int::Gradual]));
    assert_eq!(
        shape(vec![Int::Literal(2)]).cmp(&shape(vec![Int::Literal(3)])),
        Ordering::Less,
    );
}

#[test]
fn fresh_variables_differ() {
    let mut uniques = UniqueFactory::new();
    let a = Var::new(&mut uniques);
    let b = Var::new(&mut uniques);

    assert_ne!(a, b);
    assert_ne!(a, Var::zero());
    assert_eq!(a.text(), "@1");
    assert_eq!(b.text(), "@2");
    assert_eq!(Var::zero().text(), "@0");
    assert_eq!(Var { unique: Unique { id: 9_876_543_210 } }.text(), "@9876543210");
    assert_eq!(Unique { id: u64::MAX }.text(), "18446744073709551615");
}

#[test]
fn styles_and_sources_are_displayed_by_name() {
    assert_eq!(NeverStyle::NoReturn.text(), "NoReturn");
    assert_eq!(NeverStyle::Never.text(), "Never");
    assert_eq!(AnyStyle::Explicit.text(), "Explicit");
    assert_eq!(AnyStyle::Implicit.text(), "Implicit");
    assert_eq!(AnyStyle::Error.text(), "Error");
    assert_eq!(TParamsSource::Class.text(), "class");
    assert_eq!(TParamsSource::TypeAlias.text(), "type alias");
    assert_eq!(TParamsSource::Function.text(), "function");
}

#[test]
fn later_styles_are_preferred() {
    assert!(NeverStyle::NoReturn < NeverStyle::Never);
    assert!(AnyStyle::Explicit < AnyStyle::Implicit && AnyStyle::Implicit < AnyStyle::Error);
    assert_eq!(NeverStyle::Never.rank(), 1);
    assert_eq!(AnyStyle::Error.rank(), 2);
}
