use std::sync::Arc;

use pyrefly_types::data::{
    Callable, ClassType, Forall, Forallable, Params, Quantified, Restriction, TArgs, TParams, Type,
    TypeAlias, TypeAliasData, TypeAliasRef,
};
use pyrefly_types::names::{
    AnchorIndex, Class, ModuleName, Name, QName, QuantifiedIdentity, TextRange,
};
use pyrefly_types::styles::{
    ClassKind, LitStyle, PreInferenceVariance, QuantifiedKind, QuantifiedOrigin,
};
use pyrefly_types::subst::{Lookup, QuantifiedMap, Substitution};
use pyrefly_types::view::{QuantifiedView, TypeView};

fn name(text: &str) -> Name {
    Name::new(text.to_owned())
}

fn quantified(text: &str, default: Option<Type>, restriction: Restriction) -> Quantified {
    Quantified::new(
        QuantifiedIdentity::new(
            ModuleName::from_str("m"),
            AnchorIndex::first(TextRange::default()),
            QuantifiedOrigin::Pep695,
        ),
        name(text),
        QuantifiedKind::TypeVar,
        default,
        restriction,
        PreInferenceVariance::Undefined,
    )
}

fn free(text: &str) -> Quantified {
    quantified(text, None, Restriction::Unrestricted)
}

fn ty(q: &Quantified) -> Type {
    Type::Quantified(Box::new(q.clone()))
}

fn string() -> Type {
    Type::LiteralString(LitStyle::Implicit)
}

fn class_of(text: &str, targs: TArgs) -> Type {
    Type::ClassType(ClassType::new(
        Class::new(QName::new(name(text), ModuleName::from_str("m")), 0, ClassKind::Class),
        targs,
    ))
}

fn applied(text: &str, params: Vec<Quantified>, args: Vec<Type>) -> Type {
    class_of(text, TArgs::new(Arc::new(TParams::new(params)), args))
}

fn list(arg: Type) -> Type {
    applied("list", vec![free("E")], vec![arg])
}

/// Gives each type parameter that it is asked for a tuple, longer each time.
struct Longer {
    asked: Vec<String>,
}

impl Lookup for Longer {
    type State = ();

    fn state(&self) {}

    fn find(_s: (), _q: QuantifiedView) -> ((), Option<TypeView>) {
        unreachable!()
    }

    fn get(&mut self, q: &Quantified) -> Option<Type> {
        self.asked.push(q.name.as_str().to_owned());
        if q.name.as_str() == "skip" {
            None
        } else {
            Some(Type::concrete_tuple(vec![Type::NoneType; self.asked.len()]))
        }
    }
}

#[test]
fn lookups_are_asked_in_order() {
    let mut t = Type::union(vec![ty(&free("T")), list(ty(&free("skip"))), ty(&free("U"))]);
    let mut longer = Longer { asked: Vec::new() };

    t.subst_mut_fn(&mut longer);

    assert_eq!(longer.asked, vec!["T", "skip", "U"]);
    assert_eq!(
        t,
        Type::union(vec![
            Type::concrete_tuple(vec![Type::NoneType]),
            list(ty(&free("skip"))),
            Type::concrete_tuple(vec![Type::NoneType; 3]),
        ]),
    );
}

#[test]
fn declared_type_parameters_are_shadowed() {
    let body = |t: Type, u: Type| {
        Forallable::Callable(Callable {
            params: Params::Ellipsis,
            ret: Type::concrete_tuple(vec![t, u]),
        })
    };
    let forall = |t: Type, u: Type| {
        Type::Forall(Box::new(Forall {
            tparams: Arc::new(TParams::new(vec![free("T")])),
            body: body(t, u),
        }))
    };
    let (t, u) = (free("T"), free("U"));
    let s = string();
    let map = QuantifiedMap::new().with(&t, &s).with(&u, &s);
    let generic = forall(ty(&t), ty(&u));
    let both = Type::union(vec![generic, ty(&t)]);

    assert_eq!(
        both.subst(&map),
        Type::union(vec![forall(ty(&t), string()), string()]),
    );
}

#[test]
fn what_is_put_in_is_not_looked_into() {
    let t = free("T");
    let inner = list(ty(&t));
    let map = QuantifiedMap::new().with(&t, &inner);

    assert_eq!(list(ty(&t)).subst(&map), list(list(ty(&t))));
    assert_eq!(ty(&t).subst(&map), inner);
}

#[test]
fn a_type_parameter_is_found_as_it_stands() {
    let plain = free("T");
    let bound = quantified("T", None, Restriction::Bound(ty(&free("U"))));
    let (a, b) = (string(), Type::NoneType);
    let u = free("U");
    let map = QuantifiedMap::new().with(&plain, &a).with(&bound, &b).with(&u, &a);

    assert_eq!(ty(&bound).subst(&map), Type::NoneType);
    assert_eq!(ty(&plain).subst(&map), string());
    assert_eq!(map.get(&bound), Some(&Type::NoneType));
    assert_eq!(map.get(&free("V")), None);
    assert!(!map.is_empty());
}

#[test]
fn an_empty_substitution_changes_nothing() {
    let map = QuantifiedMap::new();
    let mut t = list(ty(&free("T")));

    t.subst_mut(&map);

    assert!(map.is_empty());
    assert_eq!(t, list(ty(&free("T"))));
}

#[test]
fn the_last_type_for_a_type_parameter_counts() {
    let t = free("T");
    let (a, b) = (string(), Type::NoneType);
    let map = QuantifiedMap::new().with(&t, &a).with(&t, &b);

    assert_eq!(map.get(&t), Some(&Type::NoneType));
}

#[test]
fn a_prefix_of_the_type_parameters_is_replaced() {
    let tparams = TParams::new(vec![free("T"), free("U")]);
    let args = [string()];
    let substitution = Substitution::for_prefix(&tparams, &args);
    let mut t = Type::concrete_tuple(vec![ty(&free("T")), ty(&free("U"))]);

    substitution.substitute_into_mut(&mut t);

    assert_eq!(t, Type::concrete_tuple(vec![string(), ty(&free("U"))]));
    assert_eq!(substitution.substitute_into(ty(&free("T"))), string());
}

#[test]
fn type_arguments_pair_with_type_parameters() {
    let params = vec![free("T"), free("U")];
    let mut targs =
        TArgs::new(Arc::new(TParams::new(params.clone())), vec![string(), Type::NoneType]);

    assert_eq!(targs.len(), 2);
    assert!(!targs.is_empty() && TArgs::default().is_empty());
    assert_eq!(targs.tparams(), &TParams::new(params.clone()));
    assert_eq!(
        targs.iter_paired(),
        vec![(&params[0], &string()), (&params[1], &Type::NoneType)],
    );
    *targs.iter_paired_mut(1).1 = Type::Ellipsis;
    assert_eq!(targs.as_slice(), &[string(), Type::Ellipsis]);
    targs.as_mut()[0] = Type::Materialization;
    assert_eq!(targs.as_slice(), &[Type::Materialization, Type::Ellipsis]);
    let (tparams, args) = targs.split_mut();
    assert_eq!(tparams.len(), 2);
    args[1] = string();
    assert_eq!(targs.as_slice(), &[Type::Materialization, string()]);
    assert_eq!(targs.substitution_map().get(&params[1]), Some(&string()));
}

#[test]
fn trailing_defaults_are_not_displayed() {
    let with_default = |text: &str| {
        quantified(text, Some(Type::NoneType), Restriction::Unrestricted)
    };
    let count = |params: Vec<Quantified>, args: Vec<Type>| {
        TArgs::new(Arc::new(TParams::new(params)), args).display_count()
    };

    assert_eq!(count(vec![free("T"), with_default("U")], vec![string(), Type::NoneType]), 1);
    assert_eq!(count(vec![free("T"), with_default("U")], vec![string(), string()]), 2);
    assert_eq!(
        count(
            vec![with_default("T"), with_default("U"), with_default("V")],
            vec![Type::NoneType, string(), Type::NoneType],
        ),
        2,
    );
    assert_eq!(count(vec![with_default("T")], vec![Type::NoneType]), 0);
    assert_eq!(count(vec![free("T")], vec![Type::any_implicit()]), 1);
    assert_eq!(TArgs::default().display_count(), 0);
}

#[test]
fn gradual_types_stand_for_type_parameters() {
    let of = |kind: QuantifiedKind, default: Option<Type>| {
        let mut q = quantified("T", default, Restriction::Unrestricted);
        q.kind = kind;
        q.as_gradual_type()
    };

    assert_eq!(of(QuantifiedKind::TypeVar, Some(string())), string());
    assert_eq!(of(QuantifiedKind::TypeVar, None), Type::any_implicit());
    assert_eq!(of(QuantifiedKind::ParamSpec, None), Type::Ellipsis);
    assert_eq!(of(QuantifiedKind::TypeVarTuple, None), Type::any_tuple());
}

#[test]
fn ancestors_are_expressed_in_type_arguments() {
    let t = free("T");
    let ancestor =
        TArgs::new(Arc::new(TParams::new(vec![free("E")])), vec![list(ty(&t))]);
    let own = TArgs::new(Arc::new(TParams::new(vec![t])), vec![string()]);

    let r = ancestor.substitute_with(&own.substitution());

    assert_eq!(r.as_slice(), &[list(string())]);
    assert_eq!(r.tparams(), ancestor.tparams());
}

#[test]
fn references_to_aliases_keep_type_arguments() {
    let t = free("T");
    let targs = TArgs::new(Arc::new(TParams::new(vec![t.clone()])), vec![string()]);
    let reference = |args: Option<TArgs>| {
        TypeAliasData::Ref(TypeAliasRef { name: name("A"), args })
    };
    let value = |ty: Type| TypeAliasData::Value(TypeAlias { name: name("A"), ty });

    assert_eq!(
        targs.substitute_into(Type::TypeAlias(Box::new(reference(None)))),
        Type::TypeAlias(Box::new(reference(Some(targs.clone())))),
    );
    assert_eq!(
        targs.substitute_into(Type::UntypedAlias(Box::new(reference(None)))),
        Type::UntypedAlias(Box::new(reference(Some(targs.clone())))),
    );
    assert_eq!(
        targs.substitute_into(Type::TypeAlias(Box::new(value(ty(&t))))),
        Type::TypeAlias(Box::new(value(string()))),
    );
    assert_eq!(targs.substitute_into(list(ty(&t))), list(string()));
}

#[test]
fn generic_bodies_take_type_arguments() {
    let t = free("T");
    let tparams = Arc::new(TParams::new(vec![t.clone()]));
    let forall = Forall {
        tparams: tparams.clone(),
        body: Forallable::Callable(Callable { params: Params::Ellipsis, ret: ty(&t) }),
    };

    assert_eq!(
        forall.apply_targs(TArgs::new(tparams, vec![string()])),
        Type::callable_ellipsis(string()),
    );
}

#[test]
fn type_parameters_are_collected_and_displayed() {
    let mut tparams = TParams::new(vec![free("T")]);

    assert!(TParams::empty().is_empty() && TParams::default().is_empty());
    tparams.extend(&TParams::new(vec![free("U"), free("V")]));
    assert_eq!(tparams.len(), 3);
    assert_eq!(tparams.as_vec(), &[free("T"), free("U"), free("V")]);
    assert_eq!(tparams.iter(), vec![&free("T"), &free("U"), &free("V")]);
    assert_eq!(
        tparams.text(&vec!["T".to_owned(), "U: int".to_owned(), "V".to_owned()]),
        "[T, U: int, V]",
    );
    assert_eq!(TParams::empty().text(&vec![]), "[]");
}

#[test]
fn recursive_type_arguments_are_truncated() {
    let restricted = quantified("X", None, Restriction::Bound(string()));
    let nested = applied("C", vec![restricted], vec![Type::NoneType]);
    let bare = class_of("C", TArgs::default());
    let bound = |t: Type| quantified("T", None, Restriction::Bound(t));
    let constraints = |ts: Vec<Type>| quantified("U", None, Restriction::Constraints(ts));
    let tparams = TParams::new(vec![
        bound(list(nested.clone())),
        constraints(vec![nested.clone(), list(string())]),
        free("V"),
    ]);

    let truncated = tparams.truncate_recursive_targs();

    assert_eq!(
        truncated,
        TParams::new(vec![
            bound(list(bare.clone())),
            constraints(vec![bare, list(string())]),
            free("V"),
        ]),
    );
    assert_eq!(truncated.clone().truncate_recursive_targs(), truncated);
}
