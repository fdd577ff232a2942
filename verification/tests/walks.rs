use std::sync::Arc;

use pyrefly_types::data::{
    Callable, ClassType, DataFrameSchema, Field, Forall, Forallable, FuncFlags, FuncMetadata,
    Function, Int, IntTuple, Lit, LitEnum, Literal, NNModuleType, Overload, OverloadType, Param,
    ParamList, Params, Quantified, Restriction, SeriesSchema, ShapedArrayType, TArgs, TParams,
    Type, TypedDict,
};
use pyrefly_types::names::{
    AnchorIndex, Class, FunctionKind, LitInt, ModuleName, Name, ParamSpec, QName,
    QuantifiedIdentity, TextRange, TypeVar, TypeVarTuple, Unique, Var,
};
use pyrefly_types::outside::{ModuleFields, Signatures};
use pyrefly_types::positions::{Descend, Rank};
use pyrefly_types::rewrite::Stdlib;
use pyrefly_types::styles::{
    ClassKind, LitStyle, ParamKind, PreInferenceVariance, QuantifiedKind, QuantifiedOrigin,
    SpecialForm,
};
use pyrefly_types::transform::{Observe, Test, Update};
use pyrefly_types::variables::{ObserveQuantified, QuantifiedSet, TypeVariable};
use pyrefly_types::view::{QuantifiedView, TypeView};

fn name(text: &str) -> Name {
    Name::new(text.to_owned())
}

fn qname(text: &str) -> QName {
    QName::new(name(text), ModuleName::from_str("m"))
}

fn quantified(text: &str, restriction: Restriction) -> Quantified {
    Quantified::new(
        QuantifiedIdentity::new(
            ModuleName::from_str("m"),
            AnchorIndex::first(TextRange::default()),
            QuantifiedOrigin::Pep695,
        ),
        name(text),
        QuantifiedKind::TypeVar,
        None,
        restriction,
        PreInferenceVariance::Undefined,
    )
}

fn type_var(text: &str) -> Type {
    Type::Quantified(Box::new(quantified(text, Restriction::Unrestricted)))
}

fn class_of(text: &str, targs: TArgs) -> ClassType {
    ClassType::new(Class::new(qname(text), 0, ClassKind::Class), targs)
}

fn plain(text: &str) -> ClassType {
    class_of(text, TArgs::default())
}

fn class(text: &str) -> Type {
    Type::ClassType(plain(text))
}

fn list(arg: Type) -> Type {
    let tparams = Arc::new(TParams::new(vec![quantified("T", Restriction::Unrestricted)]));
    Type::ClassType(class_of("list", TArgs::new(tparams, vec![arg])))
}

fn bounded(arg: Type, bound: Type) -> Type {
    let tparams = Arc::new(TParams::new(vec![quantified("T", Restriction::Bound(bound))]));
    Type::ClassType(class_of("box", TArgs::new(tparams, vec![arg])))
}

fn var(id: u64) -> Type {
    Type::Var(Var { unique: Unique { id } })
}

fn string() -> Type {
    Type::LiteralString(LitStyle::Implicit)
}

fn flags() -> FuncFlags {
    FuncFlags {
        is_overload: false,
        is_cached_property: false,
        is_abstract_method: false,
        is_override: false,
        is_assert_shape: false,
        has_enum_member_decoration: false,
        has_final_decoration: false,
        property_metadata: None,
        deprecation: None,
        dataclass_transform_metadata: None,
    }
}

fn metadata() -> FuncMetadata {
    FuncMetadata { kind: FunctionKind::Def(name("f")), flags: flags() }
}

fn prefix(ty: Type) -> Param {
    Param { name: None, kind: ParamKind::PosOnly, required: true, ty }
}

fn function(params: Params, ret: Type) -> Function {
    Function { signature: Callable { params, ret }, metadata: metadata() }
}

/// Keeps what it sees.
struct Seen<'a> {
    types: Vec<&'a Type>,
}

impl<'a> Observe<'a> for Seen<'a> {
    type State = ();

    fn state(&self) {}

    fn step(_s: (), _t: TypeView) {
        unreachable!()
    }

    fn call(&mut self, t: &'a Type) {
        self.types.push(t);
    }
}

/// Asks whether a type is `None`, and counts the questions.
struct IsNone {
    asked: usize,
}

impl Test for IsNone {
    type State = ();

    fn state(&self) {}

    fn answer(_s: (), _t: TypeView) -> ((), bool) {
        unreachable!()
    }

    fn test(&mut self, t: &Type) -> bool {
        self.asked += 1;
        t.is_none()
    }
}

/// Numbers the ellipses that it sees by tuples of that length.
struct Number {
    seen: usize,
}

impl Update for Number {
    type State = ();

    fn state(&self) {}

    fn step(_s: (), _t: TypeView) -> ((), TypeView) {
        unreachable!()
    }

    fn call(&mut self, t: &mut Type) {
        if matches!(t, Type::Ellipsis) {
            self.seen += 1;
            *t = Type::concrete_tuple(vec![Type::NoneType; self.seen]);
        }
    }
}

fn visited(t: &Type) -> Vec<Type> {
    let mut refs = Vec::new();
    t.recurse(&mut refs);
    refs.into_iter().map(|t| t.clone()).collect()
}

#[test]
fn types_held_directly_are_visited_in_order() {
    let fields = vec![
        Field { name: name("b"), ty: Type::Ellipsis },
        Field { name: name("a"), ty: Type::NoneType },
    ];
    let module = NNModuleType::new(plain("Conv"), ModuleFields::from_fields(&fields));

    assert_eq!(visited(&list(string())), vec![string()]);
    assert_eq!(visited(&Type::NNModule(Box::new(module))), vec![Type::Ellipsis, Type::NoneType]);
    assert_eq!(
        visited(&Type::union(vec![string(), list(Type::NoneType)])),
        vec![string(), list(Type::NoneType)],
    );
    assert_eq!(
        visited(&Type::unpacked_tuple(vec![string()], var(1), vec![Type::NoneType])),
        vec![string(), var(1), Type::NoneType],
    );
    assert_eq!(
        visited(&Type::Annotated(Box::new(string()), vec![Type::NoneType])),
        vec![string()],
    );
    assert_eq!(
        visited(&Type::Concatenate(vec![prefix(var(1)), prefix(list(var(2)))], Box::new(string()))),
        vec![var(1), list(var(2)), string()],
    );
    assert_eq!(visited(&Type::Concatenate(vec![], Box::new(string()))), vec![string()]);
    assert_eq!(visited(&Type::NoneType), vec![]);
}

#[test]
fn declared_type_parameters_are_visited_and_not_changed() {
    let tparams = Arc::new(TParams::new(vec![quantified("T", Restriction::Bound(Type::Ellipsis))]));
    let mut t = Type::Forall(Box::new(Forall {
        tparams,
        body: Forallable::Callable(Callable { params: Params::Ellipsis, ret: Type::Ellipsis }),
    }));
    let before = t.clone();

    assert_eq!(visited(&t), vec![Type::Ellipsis, Type::Ellipsis]);
    let mut number = Number { seen: 0 };
    t.recurse_mut(&mut number);
    assert_eq!(number.seen, 1);
    assert_eq!(visited(&t), vec![Type::Ellipsis, Type::concrete_tuple(vec![Type::NoneType])]);
    assert_ne!(t, before);
}

#[test]
fn all_types_are_seen_after_what_they_hold() {
    let inner = list(string());
    let t = Type::union(vec![inner.clone(), Type::NoneType]);
    let mut seen = Seen { types: Vec::new() };

    t.universe(&mut seen);

    assert_eq!(seen.types, vec![&string(), &inner, &Type::NoneType, &t]);
}

#[test]
fn a_search_stops_at_the_first_hit() {
    let t = Type::union(vec![list(Type::NoneType), string()]);
    let mut is_none = IsNone { asked: 0 };

    assert!(t.any(&mut is_none));
    assert_eq!(is_none.asked, 3);
    let mut is_none = IsNone { asked: 0 };
    assert!(!list(string()).any(&mut is_none));
    assert_eq!(is_none.asked, 2);
}

#[test]
fn a_walk_changes_types_from_the_inside_out() {
    let t = Type::union(vec![list(Type::Ellipsis), Type::Ellipsis]);
    let mut number = Number { seen: 0 };

    let r = t.transform(&mut number);

    assert_eq!(
        r,
        Type::union(vec![
            list(Type::concrete_tuple(vec![Type::NoneType])),
            Type::concrete_tuple(vec![Type::NoneType, Type::NoneType]),
        ]),
    );
    assert_eq!(number.seen, 2);
}

#[test]
fn a_walk_reaches_every_signature_and_field() {
    let mut overload = Type::Overload(Overload {
        signatures: Signatures::new(
            OverloadType::Function(function(Params::Ellipsis, Type::Ellipsis)),
            vec![OverloadType::Function(function(Params::Materialization, Type::Ellipsis))],
        ),
        metadata: Box::new(metadata()),
    });
    let fields = vec![
        Field { name: name("a"), ty: Type::Ellipsis },
        Field { name: name("b"), ty: list(Type::Ellipsis) },
    ];
    let mut module = Type::NNModule(Box::new(NNModuleType::new(
        plain("Conv"),
        ModuleFields::from_fields(&fields),
    )));
    let mut number = Number { seen: 0 };

    overload.transform_mut(&mut number);
    module.transform_mut(&mut number);

    assert_eq!(number.seen, 4);
    let rets: Vec<Type> =
        overload.callable_signatures().into_iter().map(|c| c.ret.clone()).collect();
    assert_eq!(
        rets,
        vec![
            Type::concrete_tuple(vec![Type::NoneType]),
            Type::concrete_tuple(vec![Type::NoneType; 2]),
        ],
    );
    assert_eq!(
        visited(&module),
        vec![
            Type::concrete_tuple(vec![Type::NoneType; 3]),
            list(Type::concrete_tuple(vec![Type::NoneType; 4])),
        ],
    );
}

#[test]
fn test_truncate_class_nesting_preserves_top_level_union_width() {
    let wide_union = Type::union(vec![
        Type::NoneType,
        Type::LiteralString(LitStyle::Implicit),
        Lit::Bool(false).to_implicit_type(),
        Lit::Bool(true).to_implicit_type(),
    ]);

    assert_eq!(
        wide_union.clone().truncate_class_nesting(3, 3, &Type::any_implicit()),
        wide_union,
    );
}

#[test]
fn nesting_is_cut_at_the_depth() {
    let any = Type::any_implicit();
    let deep = list(list(list(string())));

    assert_eq!(deep.clone().truncate_class_nesting(3, 9, &any), deep);
    assert_eq!(
        deep.clone().truncate_class_nesting(2, 9, &any),
        list(list(Type::any_implicit())),
    );
    assert_eq!(deep.clone().truncate_class_nesting(0, 9, &any), any);
    assert_eq!(
        Type::type_of(Type::concrete_tuple(vec![list(string()), string()]))
            .truncate_class_nesting(1, 9, &any),
        Type::type_of(Type::concrete_tuple(vec![Type::any_implicit(), string()])),
    );
}

#[test]
fn inner_unions_are_cut_at_the_width() {
    let any = Type::any_implicit();
    let union = Type::union(vec![string(), Type::NoneType, Type::Ellipsis]);
    let t = Type::union(vec![list(union.clone()), union.clone(), string()]);

    assert_eq!(t.clone().truncate_class_nesting(5, 3, &any), t);
    assert_eq!(
        t.truncate_class_nesting(5, 2, &any),
        Type::union(vec![list(Type::any_implicit()), Type::any_implicit(), string()]),
    );
}

#[test]
fn truncating_twice_is_truncating_once() {
    let any = Type::any_implicit();
    let wide = Type::union(vec![string(), Type::NoneType, Type::Ellipsis]);
    let t = Type::union(vec![list(list(wide.clone())), list(list(list(string()))), wide]);

    let once = t.truncate_class_nesting(2, 2, &any);
    let twice = once.clone().truncate_class_nesting(2, 2, &any);

    assert_eq!(
        once,
        Type::union(vec![
            list(list(Type::any_implicit())),
            list(list(Type::any_implicit())),
            Type::any_implicit(),
        ]),
    );
    assert_eq!(twice, once);
}

#[test]
fn variables_are_collected_everywhere_or_where_placeholders_stand() {
    let enum_lit = Lit::Enum(Box::new(LitEnum {
        class: class_of(
            "E",
            TArgs::new(
                Arc::new(TParams::new(vec![quantified("T", Restriction::Unrestricted)])),
                vec![var(3)],
            ),
        ),
        member: name("A"),
    }))
    .to_implicit_type();
    let t = Type::union(vec![var(2), list(var(1)), enum_lit, var(2)]);
    let id = |vars: Vec<Var>| vars.into_iter().map(|v| v.unique.id).collect::<Vec<u64>>();

    assert_eq!(id(t.collect_all_vars()), vec![2, 1, 3, 2]);
    assert_eq!(id(t.collect_maybe_placeholder_vars()), vec![2, 1, 2]);
    assert!(t.may_contain_placeholder_var());
    assert!(!list(string()).may_contain_placeholder_var());
}

#[test]
fn what_a_concatenation_ends_in_is_part_of_it() {
    let zero = Type::Concatenate(vec![], Box::new(Type::Var(Var::zero())));
    let ends_in = |ty: Type| Type::Concatenate(vec![prefix(list(var(1)))], Box::new(ty));
    let id = |vars: Vec<Var>| vars.into_iter().map(|v| v.unique.id).collect::<Vec<u64>>();
    let frame = Type::DataFrame(Box::new(DataFrameSchema {
        class: plain("DataFrame"),
        columns: vec![],
    }));
    let mut seen = Seen { types: Vec::new() };
    let mut number = Number { seen: 0 };

    zero.universe(&mut seen);

    assert_eq!(seen.types, vec![&Type::Var(Var::zero()), &zero]);
    assert_eq!(id(zero.collect_all_vars()), vec![Var::zero().unique.id]);
    assert_eq!(id(ends_in(var(2)).collect_all_vars()), vec![1, 2]);
    assert!(ends_in(type_var("P")).contains_type_variable());
    assert!(!ends_in(string()).contains_type_variable());
    assert_eq!(
        ends_in(Type::Ellipsis).transform(&mut number),
        ends_in(Type::concrete_tuple(vec![Type::NoneType])),
    );
    assert_eq!(
        ends_in(var(2)).deterministic_printing(),
        Type::Concatenate(vec![prefix(list(var(0)))], Box::new(var(0))),
    );
    assert_eq!(ends_in(frame).strip_library_schemas(), ends_in(class("DataFrame")));
    assert_eq!(
        ends_in(list(string())).truncate_class_nesting(0, 9, &Type::any_implicit()),
        Type::Concatenate(vec![prefix(Type::any_implicit())], Box::new(Type::any_implicit())),
    );
}

#[test]
fn metadata_of_annotations_is_not_part_of_a_type() {
    let t = Type::Annotated(Box::new(var(1)), vec![var(2), type_var("T")]);

    assert_eq!(t.collect_all_vars().len(), 1);
    assert!(!t.contains_type_variable());
}

/// Keeps the names of the type parameters that it sees.
struct Names {
    names: Vec<String>,
}

impl<'a> ObserveQuantified<'a> for Names {
    type State = ();

    fn state(&self) {}

    fn step(_s: (), _q: QuantifiedView) {
        unreachable!()
    }

    fn call(&mut self, q: &'a Quantified) {
        self.names.push(q.name.as_str().to_owned());
    }
}

#[test]
fn type_variables_are_found_where_they_can_be_written() {
    let t = Type::union(vec![
        type_var("T"),
        list(type_var("U")),
        Type::SelfType(plain("C")),
        Type::TypeVar(TypeVar { qname: qname("V") }),
        Type::TypeVarTuple(TypeVarTuple { qname: qname("W") }),
        type_var("T"),
        Type::ParamSpec(ParamSpec { qname: qname("P") }),
    ]);
    let mut names = Names { names: Vec::new() };
    let mut set = QuantifiedSet::new();
    let mut legacy = vec![name("before")];

    t.for_each_quantified(&mut names);
    t.collect_quantifieds(&mut set);
    t.collect_raw_legacy_type_variables(&mut legacy);

    assert_eq!(names.names, vec!["T", "U", "T"]);
    let collected: Vec<&str> = set.items().iter().map(|q| q.name.as_str()).collect();
    assert_eq!(collected, vec!["T", "U"]);
    let legacy: Vec<&str> = legacy.iter().map(|n| n.as_str()).collect();
    assert_eq!(legacy, vec!["before", "V", "W", "P"]);
    assert!(t.contains_type_variable());
    assert!(!Type::union(vec![var(1), list(string())]).contains_type_variable());
    assert!(Type::TypeVar(TypeVar { qname: qname("V") }).is_raw_legacy_type_variable());
    assert!(!type_var("T").is_raw_legacy_type_variable());
    assert!(TypeVariable::new(&string()).is_none());
}

/// Replaces legacy type variables by type parameters.
struct Bind {
    calls: usize,
}

impl Update for Bind {
    type State = ();

    fn state(&self) {}

    fn step(_s: (), _t: TypeView) -> ((), TypeView) {
        unreachable!()
    }

    fn call(&mut self, t: &mut Type) {
        self.calls += 1;
        *t = type_var("T");
    }
}

impl Descend<true> for Bind {
    fn rank(_s: (), _t: TypeView) -> Rank {
        unreachable!()
    }

    fn lemma_rank(_s: (), _t: TypeView) {}

    fn lemma_kept(_s: (), _t: TypeView, _c: TypeView) {}

    fn lemma_descends(_s: (), _t: TypeView) {}
}

/// Puts a type variable into a list the first time, and drops it from then on.
struct Unfold {
    done: bool,
}

impl Update for Unfold {
    type State = bool;

    fn state(&self) -> bool {
        unreachable!()
    }

    fn step(_s: bool, _t: TypeView) -> (bool, TypeView) {
        unreachable!()
    }

    fn call(&mut self, t: &mut Type) {
        *t = if self.done { Type::NoneType } else { list(t.clone()) };
        self.done = true;
    }
}

impl Descend<true> for Unfold {
    fn rank(_s: bool, _t: TypeView) -> Rank {
        unreachable!()
    }

    fn lemma_rank(_s: bool, _t: TypeView) {}

    fn lemma_kept(_s: bool, _t: TypeView, _c: TypeView) {}

    fn lemma_descends(_s: bool, _t: TypeView) {}
}

#[test]
fn legacy_type_variables_are_replaced() {
    let legacy = Type::TypeVar(TypeVar { qname: qname("T") });
    let mut t = Type::union(vec![legacy.clone(), list(legacy), string()]);
    let mut bind = Bind { calls: 0 };

    t.transform_raw_legacy_type_variables(&mut bind);

    assert_eq!(t, Type::union(vec![type_var("T"), list(type_var("T")), string()]));
    assert_eq!(bind.calls, 2);
}

#[test]
fn what_replaces_a_legacy_type_variable_is_looked_into() {
    let legacy = || Type::TypeVar(TypeVar { qname: qname("T") });
    let mut t = Type::union(vec![legacy(), string(), legacy()]);

    t.transform_raw_legacy_type_variables(&mut Unfold { done: false });

    assert_eq!(t, Type::union(vec![list(Type::NoneType), string(), Type::NoneType]));
}

#[test]
fn gradual_types_are_materialized() {
    let shaped = |dims: Vec<Int>| {
        Type::ShapedArray(Box::new(ShapedArrayType {
            base_class: plain("Tensor"),
            shape: IntTuple { dims },
        }))
    };

    assert_eq!(Type::any_explicit().materialize(), Type::Materialization);
    assert_eq!(list(Type::any_implicit()).materialize(), list(Type::Materialization));
    assert_eq!(
        bounded(list(Type::any_implicit()), class("B")).materialize(),
        bounded(class("B"), class("B")),
    );
    assert_eq!(
        bounded(string(), class("B")).materialize(),
        bounded(string(), class("B")),
    );
    assert_eq!(Type::Int(Int::Gradual).materialize(), Type::Int(Int::Materialization));
    assert_eq!(Type::Int(Int::Literal(3)).materialize(), Type::Int(Int::Literal(3)));
    assert_eq!(
        Type::IntTuple(Box::new(IntTuple { dims: vec![Int::Literal(2), Int::Gradual] }))
            .materialize(),
        Type::IntTuple(Box::new(IntTuple { dims: vec![Int::Literal(2), Int::Materialization] })),
    );
    assert_eq!(
        shaped(vec![Int::Gradual]).materialize(),
        shaped(vec![Int::Materialization]),
    );
    assert_eq!(
        Type::callable_ellipsis(Type::any_implicit()).materialize(),
        Type::Callable(Box::new(Callable {
            params: Params::Materialization,
            ret: Type::Materialization,
        })),
    );
}

#[test]
fn a_bound_that_is_put_in_is_materialized_too() {
    let t = bounded(Type::any_implicit(), list(Type::any_implicit()));

    let Type::ClassType(c) = t.materialize() else { panic!() };

    assert_eq!(c.targs.as_slice(), &[list(Type::Materialization)]);
}

#[test]
fn variables_are_cleaned_or_hidden() {
    let t = Type::union(vec![var(4), list(var(5))]);

    assert_eq!(
        t.clone().clean_var(),
        Type::union(vec![Type::any_implicit(), list(Type::any_implicit())]),
    );
    assert_eq!(t.clone().clean_var().clean_var(), t.clone().clean_var());
    assert_eq!(t.clone().deterministic_printing(), Type::union(vec![var(0), list(var(0))]));
    assert_eq!(
        t.clone().deterministic_printing().deterministic_printing(),
        t.deterministic_printing(),
    );
}

#[test]
fn any_is_made_explicit() {
    let t = list(Type::union(vec![Type::any_implicit(), Type::any_error(), string()]));
    let explicit = list(Type::union(vec![Type::any_explicit(), Type::any_explicit(), string()]));

    assert_eq!(t.explicit_any(), explicit);
    assert_eq!(explicit.clone().explicit_any(), explicit);
}

#[test]
fn the_last_literal_style_counts() {
    let lit = |style: LitStyle| {
        list(Type::union(vec![
            Type::Literal(Box::new(Literal { value: Lit::Bool(true), style })),
            Type::LiteralString(style),
            Type::NoneType,
        ]))
    };

    assert_eq!(
        lit(LitStyle::Implicit).with_literal_style(LitStyle::Explicit),
        lit(LitStyle::Explicit),
    );
    assert_eq!(
        lit(LitStyle::Implicit)
            .with_literal_style(LitStyle::Explicit)
            .with_literal_style(LitStyle::Implicit),
        lit(LitStyle::Implicit),
    );
}

#[test]
fn schemas_are_stripped() {
    let frame = Type::DataFrame(Box::new(DataFrameSchema {
        class: plain("DataFrame"),
        columns: vec![Field { name: name("a"), ty: string() }],
    }));
    let series = Type::Series(Box::new(SeriesSchema {
        class: plain("Series"),
        element: frame.clone(),
    }));
    let stripped = list(Type::union(vec![class("DataFrame"), class("Series")]));

    assert_eq!(list(Type::union(vec![frame, series])).strip_library_schemas(), stripped);
    assert_eq!(stripped.clone().strip_library_schemas(), stripped);
}

fn stdlib() -> Stdlib {
    Stdlib {
        str_class: plain("str"),
        int_class: plain("int"),
        bool_class: plain("bool"),
        bytes_class: plain("bytes"),
    }
}

#[test]
fn implicit_literals_are_promoted() {
    let stdlib = stdlib();
    let explicit = Type::LiteralString(LitStyle::Explicit);
    let enum_lit = Lit::Enum(Box::new(LitEnum { class: plain("E"), member: name("A") }));
    let t = Type::union(vec![
        Lit::Int(LitInt::from_i64(1)).to_implicit_type(),
        Lit::Bool(true).to_implicit_type(),
        Lit::Bytes(vec![1]).to_implicit_type(),
        Lit::Str(name("x")).to_implicit_type(),
        enum_lit.to_implicit_type(),
        string(),
        explicit.clone(),
        list(string()),
    ]);
    let shallow = Type::union(vec![
        class("int"),
        class("bool"),
        class("bytes"),
        class("str"),
        class("E"),
        class("str"),
        explicit.clone(),
        list(string()),
    ]);
    let deep = Type::union(vec![
        class("int"),
        class("bool"),
        class("bytes"),
        class("str"),
        class("E"),
        class("str"),
        explicit,
        list(class("str")),
    ]);

    assert_eq!(t.clone().promote_shallow_implicit_literals(&stdlib), shallow);
    assert_eq!(t.promote_implicit_literals(&stdlib), deep);
    assert_eq!(deep.clone().promote_implicit_literals(&stdlib), deep);
    assert_eq!(string().promote_shallow_implicit_literals(&stdlib), class("str"));
    assert_eq!(list(string()).promote_shallow_implicit_literals(&stdlib), list(string()));
    assert_eq!(stdlib.str(), &plain("str"));
}

#[test]
fn self_is_replaced() {
    let form = Type::SpecialForm(SpecialForm::SelfType);
    let mut a = list(Type::union(vec![form, Type::SpecialForm(SpecialForm::Final)]));
    let mut b = list(Type::union(vec![Type::SelfType(plain("C")), string()]));

    a.subst_self_special_form_mut(&string());
    b.subst_self_type_mut(&class("D"));

    assert_eq!(
        a,
        list(Type::union(vec![string(), Type::SpecialForm(SpecialForm::Final)])),
    );
    assert_eq!(b, list(Type::union(vec![class("D"), string()])));
}

#[test]
fn parameters_and_typed_dicts_are_walked() {
    let param = |ty: Type| Param {
        name: Some(name("x")),
        kind: ParamKind::Pos,
        required: true,
        ty,
    };
    let t = Type::callable(vec![param(var(1)), param(list(var(2)))], var(3));
    let td = Type::TypedDict(TypedDict::Anonymous(vec![Field { name: name("a"), ty: var(4) }]));

    assert_eq!(
        t.clean_var(),
        Type::callable(
            vec![param(Type::any_implicit()), param(list(Type::any_implicit()))],
            Type::any_implicit(),
        ),
    );
    assert_eq!(
        td.clean_var(),
        Type::TypedDict(TypedDict::Anonymous(vec![Field {
            name: name("a"),
            ty: Type::any_implicit(),
        }])),
    );
    assert_eq!(
        Type::ParamSpecValue(ParamList::new(vec![param(var(1))])).clean_var(),
        Type::ParamSpecValue(ParamList::new(vec![param(Type::any_implicit())])),
    );
}
