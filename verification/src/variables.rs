//! The type variables that a type mentions.
//!
//! Only the places where a program can write a type variable are looked at. The type arguments of
//! a class are such places; the type parameters that the class declares are not. `Self` is a
//! keyword and no type variable, and the class of an enum literal cannot mention one.
use starlark_map::small_set::SmallSet;
use vstd::prelude::*;

use crate::data::{Quantified, Type};
use crate::names::{Name, ParamSpec, QNameView, TypeVar, TypeVarTuple, Var};
use crate::search::{post_order, post_order_first, vars_among};
use crate::slots::{lemma_type_smaller, reached_type};
use crate::tables::{elements_of, set_insert, set_new};
use crate::tokens::{tokens_quantified, Token};
use crate::view::{lemma_type_view, QuantifiedView, TypeView};
use crate::visit::view_refs;

verus! {

/// The model of a [`TypeVariable`].
pub ghost enum TypeVariableView {
    Quantified(QuantifiedView),
    LegacyTypeVar(QNameView),
    LegacyTypeVarTuple(QNameView),
    LegacyParamSpec(QNameView),
    Var(Var),
}

/// Various type-variable-like things.
pub enum TypeVariable<'a> {
    /// A function or class type parameter created from a reference to an in-scope legacy or
    /// scoped type variable.
    Quantified(&'a Quantified),
    /// A legacy typing.TypeVar appearing in a position where it is not resolved to an in-scope
    /// type variable.
    LegacyTypeVar(&'a TypeVar),
    /// A legacy typing.TypeVarTuple appearing in a position where it is not resolved to an
    /// in-scope type variable.
    LegacyTypeVarTuple(&'a TypeVarTuple),
    /// A legacy typing.ParamSpec appearing in a position where it is not resolved to an in-scope
    /// type variable.
    LegacyParamSpec(&'a ParamSpec),
    /// A placeholder type that may have been instantiated from a Quantified.
    Var(Var),
}

impl<'a> View for TypeVariable<'a> {
    type V = TypeVariableView;

    open spec fn view(&self) -> TypeVariableView {
        match self {
            TypeVariable::Quantified(q) => TypeVariableView::Quantified(q@),
            TypeVariable::LegacyTypeVar(t) => TypeVariableView::LegacyTypeVar(t@),
            TypeVariable::LegacyTypeVarTuple(t) => TypeVariableView::LegacyTypeVarTuple(t@),
            TypeVariable::LegacyParamSpec(p) => TypeVariableView::LegacyParamSpec(p@),
            TypeVariable::Var(v) => TypeVariableView::Var(*v),
        }
    }
}

/// The model of a type variable is of its sort, and of what it refers to.
pub proof fn lemma_type_variable_view(v: TypeVariable)
    ensures
        v matches TypeVariable::Quantified(q) ==> v@ == TypeVariableView::Quantified(q@),
        v matches TypeVariable::LegacyTypeVar(t) ==> v@ == TypeVariableView::LegacyTypeVar(t@),
        v matches TypeVariable::LegacyTypeVarTuple(t) ==> v@
            == TypeVariableView::LegacyTypeVarTuple(t@),
        v matches TypeVariable::LegacyParamSpec(p) ==> v@ == TypeVariableView::LegacyParamSpec(p@),
        v matches TypeVariable::Var(n) ==> v@ == TypeVariableView::Var(n),
{
}

/// The type variable that a type is, if it is one.
pub open spec fn type_variable(t: TypeView) -> Option<TypeVariableView> {
    match t {
        TypeView::Quantified(q) => Some(TypeVariableView::Quantified(*q)),
        TypeView::TypeVar(n) => Some(TypeVariableView::LegacyTypeVar(n)),
        TypeView::TypeVarTuple(n) => Some(TypeVariableView::LegacyTypeVarTuple(n)),
        TypeView::ParamSpec(n) => Some(TypeVariableView::LegacyParamSpec(n)),
        TypeView::Var(v) => Some(TypeVariableView::Var(v)),
        _ => None,
    }
}

/// The types in the places of `t` where a type variable can be written.
pub open spec fn positions(t: TypeView) -> Seq<TypeView> {
    if t is SelfType || t is Literal {
        Seq::empty()
    } else {
        reached_type(t)
    }
}

/// The type variables that `t` mentions, in order. What a type variable is declared with is not
/// looked at.
pub open spec fn variables_in(t: TypeView) -> Seq<TypeVariableView>
    decreases t, positions(t).len() + 1,
{
    match type_variable(t) {
        Some(v) => seq![v],
        None => variables_in_first(t, positions(t).len()),
    }
}

/// The type variables in the first `n` of the [`positions`] of `t`.
pub open spec fn variables_in_first(t: TypeView, n: nat) -> Seq<TypeVariableView>
    decreases t, n,
{
    if n == 0 || n > positions(t).len() {
        Seq::empty()
    } else {
        proof {
            lemma_type_smaller(t);
        }
        variables_in_first(t, (n - 1) as nat) + variables_in(positions(t)[n - 1])
    }
}

/// A type variable mentions itself and nothing else; `Self` and literals mention nothing; any other
/// type mentions what the types that it holds mention, in order.
pub proof fn lemma_variables_parts(t: TypeView)
    ensures
        variables_in(t) == match t {
            TypeView::Quantified(q) => seq![TypeVariableView::Quantified(*q)],
            TypeView::TypeVar(n) => seq![TypeVariableView::LegacyTypeVar(n)],
            TypeView::TypeVarTuple(n) => seq![TypeVariableView::LegacyTypeVarTuple(n)],
            TypeView::ParamSpec(n) => seq![TypeVariableView::LegacyParamSpec(n)],
            TypeView::Var(v) => seq![TypeVariableView::Var(v)],
            TypeView::SelfType(_) | TypeView::Literal(_) => Seq::empty(),
            _ => reached_type(t).map_values(|x: TypeView| variables_in(x)).flatten(),
        },
{
    if type_variable(t) is None && !(t is SelfType || t is Literal) {
        lemma_variables_each(t, reached_type(t).len());
        assert(reached_type(t).take(reached_type(t).len() as int) =~= reached_type(t));
    }
}

proof fn lemma_variables_each(t: TypeView, n: nat)
    requires
        n <= positions(t).len(),
    ensures
        variables_in_first(t, n) == positions(t).take(n as int).map_values(
            |x: TypeView| variables_in(x),
        ).flatten(),
    decreases n,
{
    let f = |x: TypeView| variables_in(x);
    if n > 0 {
        let (head, x) = (positions(t).take(n - 1), positions(t)[n - 1]);
        lemma_variables_each(t, (n - 1) as nat);
        assert(positions(t).take(n as int) =~= head.push(x));
        assert(head.push(x).map_values(f) =~= head.map_values(f).push(f(x)));
        head.map_values(f).lemma_flatten_push(f(x));
    } else {
        assert(positions(t).take(0).map_values(f) =~= Seq::empty());
    }
}

/// Does `x` stand in `t`, at any depth, outside of `Self`, of literals and of what type variables
/// are declared with?
pub open spec fn stands_in(x: TypeView, t: TypeView) -> bool
    decreases t,
{
    t == x || (!(t is Quantified || t is TypeVar || t is TypeVarTuple || t is ParamSpec || t is Var
        || t is SelfType || t is Literal) && exists|i: int|
        {
            proof {
                lemma_type_smaller(t);
            }
            if 0 <= i < reached_type(t).len() {
                stands_in(x, #[trigger] reached_type(t)[i])
            } else {
                false
            }
        })
}

/// The type that is a reference to a type variable.
pub open spec fn reference_to(v: TypeVariableView) -> TypeView {
    match v {
        TypeVariableView::Quantified(q) => TypeView::Quantified(Box::new(q)),
        TypeVariableView::LegacyTypeVar(n) => TypeView::TypeVar(n),
        TypeVariableView::LegacyTypeVarTuple(n) => TypeView::TypeVarTuple(n),
        TypeVariableView::LegacyParamSpec(n) => TypeView::ParamSpec(n),
        TypeVariableView::Var(n) => TypeView::Var(n),
    }
}

/// A type variable is mentioned wherever a reference to it stands, and only there.
pub proof fn lemma_variables_stand(t: TypeView, v: TypeVariableView)
    ensures
        variables_in(t).contains(v) == stands_in(reference_to(v), t),
    decreases t,
{
    let x = reference_to(v);
    lemma_variables_parts(t);
    if t is Quantified || t is TypeVar || t is TypeVarTuple || t is ParamSpec || t is Var {
        assert(variables_in(t).len() == 1);
        if variables_in(t)[0] == v {
            assert(variables_in(t).contains(v));
        }
    } else if !(t is SelfType || t is Literal) {
        let vs = reached_type(t).map_values(|y: TypeView| variables_in(y));
        lemma_flatten_contains(vs, v);
        assert forall|i: int| 0 <= i < reached_type(t).len() implies (#[trigger] vs[i]).contains(v)
            == stands_in(x, reached_type(t)[i]) by {
            lemma_type_smaller(t);
            lemma_variables_stand(reached_type(t)[i], v);
        }
        if variables_in(t).contains(v) {
            let i = choose|i: int| 0 <= i < vs.len() && (#[trigger] vs[i]).contains(v);
            assert(vs[i].contains(v));
        } else {
            assert forall|i: int| 0 <= i < reached_type(t).len() implies !stands_in(
                x,
                #[trigger] reached_type(t)[i],
            ) by {
                assert(!vs[i].contains(v));
            }
        }
    }
}

/// What is in one of the sequences is in all of them together, and the other way round.
proof fn lemma_flatten_contains(vs: Seq<Seq<TypeVariableView>>, v: TypeVariableView)
    ensures
        vs.flatten().contains(v) == exists|i: int|
            0 <= i < vs.len() && (#[trigger] vs[i]).contains(v),
    decreases vs.len(),
{
    if vs.len() > 0 {
        let (a, rest) = (vs[0], vs.drop_first());
        let all = a + rest.flatten();
        lemma_flatten_contains(rest, v);
        assert(vs.flatten() == all);
        if all.contains(v) {
            let k = choose|k: int| 0 <= k < all.len() && all[k] == v;
            if k < a.len() {
                assert(vs[0][k] == v);
            } else {
                assert(rest.flatten()[k - a.len()] == v);
                let i = choose|i: int| 0 <= i < rest.len() && (#[trigger] rest[i]).contains(v);
                assert(vs[i + 1] == rest[i]);
            }
        }
        if exists|i: int| 0 <= i < vs.len() && (#[trigger] vs[i]).contains(v) {
            let i = choose|i: int| 0 <= i < vs.len() && (#[trigger] vs[i]).contains(v);
            if i == 0 {
                let k = choose|k: int| 0 <= k < a.len() && a[k] == v;
                assert(all[k] == v);
            } else {
                assert(rest[i - 1] == vs[i]);
                assert(rest.flatten().contains(v));
                let k = choose|k: int| 0 <= k < rest.flatten().len() && rest.flatten()[k] == v;
                assert(all[a.len() + k] == v);
            }
        }
    }
}

/// The models of type variables.
pub open spec fn view_variables(s: Seq<TypeVariable>) -> Seq<TypeVariableView> {
    Seq::new(s.len(), |i: int| s[i]@)
}

/// The type parameters among `vs`, in order.
pub open spec fn quantifieds_among(vs: Seq<TypeVariableView>) -> Seq<QuantifiedView>
    decreases vs.len(),
{
    if vs.len() == 0 {
        Seq::empty()
    } else {
        match vs.last() {
            TypeVariableView::Quantified(q) => quantifieds_among(vs.drop_last()).push(q),
            _ => quantifieds_among(vs.drop_last()),
        }
    }
}

/// The variables of the solver among `vs`, in order.
pub open spec fn placeholders_among(vs: Seq<TypeVariableView>) -> Seq<Var>
    decreases vs.len(),
{
    if vs.len() == 0 {
        Seq::empty()
    } else {
        match vs.last() {
            TypeVariableView::Var(v) => placeholders_among(vs.drop_last()).push(v),
            _ => placeholders_among(vs.drop_last()),
        }
    }
}

/// Of type variables, those of one sort are kept, in order, and the others left out.
pub proof fn lemma_among(vs: Seq<TypeVariableView>)
    ensures
        quantifieds_among(vs) == vs.filter_map(
            |v: TypeVariableView|
                match v {
                    TypeVariableView::Quantified(q) => Some(q),
                    _ => None,
                },
        ),
        placeholders_among(vs) == vs.filter_map(
            |v: TypeVariableView|
                match v {
                    TypeVariableView::Var(n) => Some(n),
                    _ => None,
                },
        ),
        legacy_names_among(vs) == vs.filter_map(
            |v: TypeVariableView|
                match v {
                    TypeVariableView::LegacyTypeVar(n) => Some(n.name),
                    TypeVariableView::LegacyTypeVarTuple(n) => Some(n.name),
                    TypeVariableView::LegacyParamSpec(n) => Some(n.name),
                    _ => None,
                },
        ),
    decreases vs.len(),
{
    if vs.len() > 0 {
        lemma_among(vs.drop_last());
    }
}

proof fn lemma_placeholder_among(vs: Seq<TypeVariableView>, v: Var) -> (k: int)
    requires
        placeholders_among(vs).contains(v),
    ensures
        0 <= k < vs.len(),
        vs[k] == TypeVariableView::Var(v),
    decreases vs.len(),
{
    let rest = placeholders_among(vs.drop_last());
    if vs.last() == TypeVariableView::Var(v) {
        vs.len() - 1
    } else {
        assert(rest.contains(v)) by {
            let i = choose|i: int|
                0 <= i < placeholders_among(vs).len() && placeholders_among(vs)[i] == v;
            assert(rest[i] == v);
        }
        lemma_placeholder_among(vs.drop_last(), v)
    }
}

proof fn lemma_var_among(ts: Seq<TypeView>, v: Var, k: int)
    requires
        0 <= k < ts.len(),
        ts[k] == TypeView::Var(v),
    ensures
        vars_among(ts).contains(v),
    decreases ts.len(),
{
    let rest = vars_among(ts.drop_last());
    if k == ts.len() - 1 {
        assert(vars_among(ts)[rest.len() as int] == v);
    } else {
        lemma_var_among(ts.drop_last(), v, k);
        let i = choose|i: int| 0 <= i < rest.len() && rest[i] == v;
        assert(vars_among(ts)[i] == v);
    }
}

/// The place in [`post_order`] of a variable that [`variables_in`] has at `k`.
proof fn lemma_variable_place(t: TypeView, v: Var, k: int) -> (j: int)
    requires
        0 <= k < variables_in(t).len(),
        variables_in(t)[k] == TypeVariableView::Var(v),
    ensures
        0 <= j < post_order(t).len(),
        post_order(t)[j] == TypeView::Var(v),
    decreases t, positions(t).len() + 1,
{
    let n = reached_type(t).len();
    if type_variable(t) is Some {
        assert(t == TypeView::Var(v));
        assert(post_order(t)[post_order_first(t, n).len() as int] == t);
        post_order_first(t, n).len() as int
    } else {
        let j = lemma_variable_place_first(t, v, k, positions(t).len());
        assert(post_order(t)[j] == post_order_first(t, n)[j]);
        j
    }
}

proof fn lemma_variable_place_first(t: TypeView, v: Var, k: int, n: nat) -> (j: int)
    requires
        n <= positions(t).len(),
        0 <= k < variables_in_first(t, n).len(),
        variables_in_first(t, n)[k] == TypeVariableView::Var(v),
    ensures
        0 <= j < post_order_first(t, n).len(),
        post_order_first(t, n)[j] == TypeView::Var(v),
    decreases t, n,
{
    let before = variables_in_first(t, (n - 1) as nat);
    let seen = post_order_first(t, (n - 1) as nat);
    lemma_type_smaller(t);
    if k < before.len() {
        let j = lemma_variable_place_first(t, v, k, (n - 1) as nat);
        assert(post_order_first(t, n)[j] == seen[j]);
        j
    } else {
        let j = lemma_variable_place(positions(t)[n - 1], v, k - before.len());
        assert(post_order_first(t, n)[seen.len() + j] == post_order(reached_type(t)[n - 1])[j]);
        seen.len() + j
    }
}

/// Every variable that stands where a placeholder can stand is among all the variables of the
/// type.
pub proof fn lemma_placeholders_are_variables(t: TypeView, v: Var)
    requires
        placeholders_among(variables_in(t)).contains(v),
    ensures
        vars_among(post_order(t)).contains(v),
{
    let k = lemma_placeholder_among(variables_in(t), v);
    let j = lemma_variable_place(t, v, k);
    lemma_var_among(post_order(t), v, j);
}

/// The qualified name of a legacy type variable.
pub open spec fn legacy_qname(v: TypeVariableView) -> Option<QNameView> {
    match v {
        TypeVariableView::LegacyTypeVar(n) => Some(n),
        TypeVariableView::LegacyTypeVarTuple(n) => Some(n),
        TypeVariableView::LegacyParamSpec(n) => Some(n),
        _ => None,
    }
}

/// Is the type an unreplaced reference to a legacy type variable?
pub open spec fn is_raw_legacy(t: TypeView) -> bool {
    t is TypeVar || t is TypeVarTuple || t is ParamSpec
}

/// The names of the legacy type variables among `vs`, in order.
pub open spec fn legacy_names_among(vs: Seq<TypeVariableView>) -> Seq<Seq<char>>
    decreases vs.len(),
{
    if vs.len() == 0 {
        Seq::empty()
    } else {
        match legacy_qname(vs.last()) {
            Some(n) => legacy_names_among(vs.drop_last()).push(n.name),
            None => legacy_names_among(vs.drop_last()),
        }
    }
}

/// The texts of names.
pub open spec fn view_names(s: Seq<Name>) -> Seq<Seq<char>> {
    Seq::new(s.len(), |i: int| s[i]@)
}

impl<'a> TypeVariable<'a> {
    pub fn new(ty: &'a Type) -> (r: Option<Self>)
        ensures
            match r {
                Some(v) => type_variable(ty@) == Some(v@),
                None => type_variable(ty@) is None,
            },
    {
        proof {
            lemma_type_view(*ty);
        }
        match ty {
            Type::Quantified(q) => Some(TypeVariable::Quantified(&**q)),
            Type::TypeVar(t) => Some(TypeVariable::LegacyTypeVar(t)),
            Type::TypeVarTuple(t) => Some(TypeVariable::LegacyTypeVarTuple(t)),
            Type::ParamSpec(p) => Some(TypeVariable::LegacyParamSpec(p)),
            Type::Var(v) => Some(TypeVariable::Var(*v)),
            _ => None,
        }
    }

    fn is_legacy(&self) -> (r: bool)
        ensures
            r == (legacy_qname(self@) is Some),
    {
        matches!(
            self,
            TypeVariable::LegacyTypeVar(_) | TypeVariable::LegacyTypeVarTuple(_)
                | TypeVariable::LegacyParamSpec(_)
        )
    }
}

/// Something that looks at one type parameter at a time and remembers what it has seen.
pub trait ObserveQuantified<'a>: Sized {
    type State;

    /// What is remembered.
    spec fn state(&self) -> Self::State;

    /// What is remembered after a call on `q`.
    spec fn step(s: Self::State, q: QuantifiedView) -> Self::State;

    fn call(&mut self, q: &'a Quantified)
        ensures
            final(self).state() == Self::step(old(self).state(), q@),
    ;
}

/// What `O` remembers after it has seen `qs`, one after the other.
pub open spec fn seen_quantifieds<'a, O: ObserveQuantified<'a>>(
    s: O::State,
    qs: Seq<QuantifiedView>,
) -> O::State
    decreases qs.len(),
{
    if qs.len() == 0 {
        s
    } else {
        O::step(seen_quantifieds::<O>(s, qs.drop_last()), qs.last())
    }
}

/// Is there a type parameter in `qs` that is spelled like `q`?
pub open spec fn has_quantified(qs: Seq<QuantifiedView>, q: QuantifiedView) -> bool {
    exists|i: int|
        0 <= i < qs.len() && tokens_quantified(#[trigger] qs[i]) == tokens_quantified(q)
}

/// The spellings of type parameters.
pub open spec fn spellings(qs: Seq<QuantifiedView>) -> Set<Seq<Token>> {
    Set::new(
        |k: Seq<Token>|
            exists|i: int| 0 <= i < qs.len() && tokens_quantified(#[trigger] qs[i]) == k,
    )
}

proof fn lemma_spellings_push(qs: Seq<QuantifiedView>, q: QuantifiedView)
    ensures
        spellings(qs.push(q)) == spellings(qs).insert(tokens_quantified(q)),
        has_quantified(qs, q) == spellings(qs).contains(tokens_quantified(q)),
{
    let all = qs.push(q);
    assert forall|k: Seq<Token>| spellings(all).contains(k) == spellings(qs).insert(
        tokens_quantified(q),
    ).contains(k) by {
        if spellings(all).contains(k) {
            let i = choose|i: int|
                0 <= i < all.len() && tokens_quantified(#[trigger] all[i]) == k;
            if i < qs.len() {
                assert(all[i] == qs[i]);
            }
        }
        if spellings(qs).contains(k) {
            let i = choose|i: int| 0 <= i < qs.len() && tokens_quantified(#[trigger] qs[i]) == k;
            assert(all[i] == qs[i]);
        }
        assert(all[qs.len() as int] == q);
    }
    assert(spellings(all) =~= spellings(qs).insert(tokens_quantified(q)));
}

/// The set `qs` after `q` was added to it.
pub open spec fn with_quantified(
    qs: Seq<QuantifiedView>,
    q: QuantifiedView,
) -> Seq<QuantifiedView> {
    if has_quantified(qs, q) {
        qs
    } else {
        qs.push(q)
    }
}

/// The set `qs` after each of `more` was added to it.
pub open spec fn with_quantifieds(
    qs: Seq<QuantifiedView>,
    more: Seq<QuantifiedView>,
) -> Seq<QuantifiedView>
    decreases more.len(),
{
    if more.len() == 0 {
        qs
    } else {
        with_quantified(with_quantifieds(qs, more.drop_last()), more.last())
    }
}

/// What is added to a set is in it afterwards, and nothing else is that was not there before. What
/// was there stays in its place, and nothing is there twice if nothing was.
pub proof fn lemma_with_quantifieds(
    qs: Seq<QuantifiedView>,
    more: Seq<QuantifiedView>,
    q: QuantifiedView,
)
    ensures
        ({
            let all = with_quantifieds(qs, more);
            &&& (exists|i: int|
                0 <= i < all.len() && tokens_quantified(#[trigger] all[i]) == tokens_quantified(q))
                == ((exists|i: int|
                0 <= i < qs.len() && tokens_quantified(#[trigger] qs[i]) == tokens_quantified(q))
                || (exists|i: int|
                0 <= i < more.len() && tokens_quantified(#[trigger] more[i]) == tokens_quantified(
                    q,
                )))
            &&& qs.len() <= all.len()
            &&& all.take(qs.len() as int) == qs
            &&& (forall|i: int, j: int|
                0 <= i < j < qs.len() ==> tokens_quantified(#[trigger] qs[i]) != tokens_quantified(
                    #[trigger] qs[j],
                )) ==> (forall|i: int, j: int|
                0 <= i < j < all.len() ==> tokens_quantified(#[trigger] all[i])
                    != tokens_quantified(#[trigger] all[j]))
        }),
    decreases more.len(),
{
    let all = with_quantifieds(qs, more);
    if more.len() > 0 {
        let (head, x) = (more.drop_last(), more.last());
        let before = with_quantifieds(qs, head);
        lemma_with_quantifieds(qs, head, q);
        assert(more =~= head.push(x));
        if has_quantified(before, x) {
            lemma_with_quantifieds(qs, head, x);
            if tokens_quantified(x) == tokens_quantified(q) {
                let i = choose|i: int|
                    0 <= i < before.len() && tokens_quantified(#[trigger] before[i])
                        == tokens_quantified(x);
                assert(tokens_quantified(all[i]) == tokens_quantified(q));
            }
            lemma_head_and_last(head, x, more, q);
        } else {
            assert(all == before.push(x));
            lemma_head_and_last(before, x, all, q);
            lemma_head_and_last(head, x, more, q);
            assert(all.take(qs.len() as int) =~= before.take(qs.len() as int));
            assert forall|i: int, j: int|
                0 <= i < j < all.len() && (forall|k: int, l: int|
                    0 <= k < l < qs.len() ==> tokens_quantified(#[trigger] qs[k])
                        != tokens_quantified(#[trigger] qs[l])) implies tokens_quantified(
                #[trigger] all[i],
            ) != tokens_quantified(#[trigger] all[j]) by {
                assert(all[i] == before[i]);
                if j < before.len() {
                    assert(all[j] == before[j]);
                }
            }
        }
    } else {
        assert(all.take(qs.len() as int) =~= qs);
    }
}

proof fn lemma_head_and_last(
    head: Seq<QuantifiedView>,
    x: QuantifiedView,
    all: Seq<QuantifiedView>,
    q: QuantifiedView,
)
    requires
        all == head.push(x),
    ensures
        has_quantified(all, q) == (has_quantified(head, q) || tokens_quantified(x)
            == tokens_quantified(q)),
{
    assert(all[head.len() as int] == x);
    if has_quantified(head, q) {
        let i = choose|i: int|
            0 <= i < head.len() && tokens_quantified(#[trigger] head[i]) == tokens_quantified(q);
        assert(all[i] == head[i]);
    }
    if has_quantified(all, q) {
        let i = choose|i: int|
            0 <= i < all.len() && tokens_quantified(#[trigger] all[i]) == tokens_quantified(q);
        if i < head.len() {
            assert(all[i] == head[i]);
        }
    }
}

/// One call after the other is a fold.
pub proof fn lemma_seen_quantifieds<'a, O: ObserveQuantified<'a>>(
    s: O::State,
    qs: Seq<QuantifiedView>,
)
    ensures
        seen_quantifieds::<O>(s, qs) == qs.fold_left(
            s,
            |s: O::State, q: QuantifiedView| O::step(s, q),
        ),
    decreases qs.len(),
{
    if qs.len() > 0 {
        lemma_seen_quantifieds::<O>(s, qs.drop_last());
    }
}

/// The models of the type parameters referred to.
pub open spec fn view_quantified_refs(s: Seq<&Quantified>) -> Seq<QuantifiedView> {
    Seq::new(s.len(), |i: int| (*s[i])@)
}

/// A set of type parameters, in the order in which they were added.
pub struct QuantifiedSet<'a> {
    keys: SmallSet<Vec<Token>>,
    items: Vec<&'a Quantified>,
}

impl<'a> View for QuantifiedSet<'a> {
    type V = Seq<QuantifiedView>;

    closed spec fn view(&self) -> Seq<QuantifiedView> {
        view_quantified_refs(self.items@)
    }
}

impl<'a> QuantifiedSet<'a> {
    #[verifier::type_invariant]
    spec fn inv(self) -> bool {
        elements_of(self.keys) == spellings(view_quantified_refs(self.items@))
    }

    pub fn new() -> (r: Self)
        ensures
            r@ == Seq::<QuantifiedView>::empty(),
    {
        let keys = set_new();
        let items: Vec<&'a Quantified> = Vec::new();
        assert(elements_of(keys) =~= spellings(view_quantified_refs(items@)));
        let r = QuantifiedSet { keys, items };
        proof {
            assert(r@ =~= Seq::<QuantifiedView>::empty());
        }
        r
    }

    /// Adds `q`, unless a type parameter spelled like it is there.
    pub fn insert(&mut self, q: &'a Quantified)
        ensures
            final(self)@ == with_quantified(old(self)@, q@),
    {
        let ghost before = self@;
        let mut set = QuantifiedSet::new();
        std::mem::swap(self, &mut set);
        proof {
            use_type_invariant(&set);
        }
        let QuantifiedSet { mut keys, mut items } = set;
        proof {
            lemma_spellings_push(before, q@);
        }
        if set_insert(&mut keys, q.tokens()) {
            items.push(q);
            assert(view_quantified_refs(items@) =~= before.push(q@));
        } else {
            assert(elements_of(keys) =~= spellings(before));
        }
        *self = QuantifiedSet { keys, items };
    }

    /// The type parameters of the set, in order.
    pub fn items(&self) -> (r: &Vec<&'a Quantified>)
        ensures
            view_quantified_refs(r@) == self@,
    {
        &self.items
    }
}

/// Adds the type parameters that it sees to a set.
struct Collect<'a> {
    set: QuantifiedSet<'a>,
}

impl<'a> ObserveQuantified<'a> for Collect<'a> {
    type State = Seq<QuantifiedView>;

    closed spec fn state(&self) -> Seq<QuantifiedView> {
        self.set@
    }

    open spec fn step(s: Seq<QuantifiedView>, q: QuantifiedView) -> Seq<QuantifiedView> {
        with_quantified(s, q)
    }

    fn call(&mut self, q: &'a Quantified) {
        self.set.insert(q);
    }
}

proof fn lemma_collect(s: Seq<QuantifiedView>, qs: Seq<QuantifiedView>)
    ensures
        seen_quantifieds::<Collect>(s, qs) == with_quantifieds(s, qs),
    decreases qs.len(),
{
    if qs.len() > 0 {
        lemma_collect(s, qs.drop_last());
    }
}

impl Type {
    /// Is this type an unreplaced reference to a legacy type variable? References to in-scope
    /// legacy type variables in functions and classes are replaced with type parameters, so
    /// that such a type only appears in cases like the definition of a type variable or a use of
    /// it out of its scope.
    pub fn is_raw_legacy_type_variable(&self) -> (r: bool)
        ensures
            r == is_raw_legacy(self@),
    {
        match TypeVariable::new(self) {
            Some(v) => v.is_legacy(),
            None => false,
        }
    }

    /// Appends the type variables that the type mentions to `out`.
    fn visit_type_variables<'a>(&'a self, out: &mut Vec<TypeVariable<'a>>)
        ensures
            view_variables(final(out)@) == view_variables(old(out)@) + variables_in(self@),
        decreases self@,
    {
        let ghost t = self@;
        let ghost before = view_variables(out@);
        proof {
            lemma_type_view(*self);
        }
        if let Some(v) = TypeVariable::new(self) {
            out.push(v);
            assert(view_variables(out@) =~= before + seq![v@]);
            return ;
        }
        let mut kids: Vec<&'a Type> = Vec::new();
        match self {
            Type::SelfType(_) => {},
            Type::Literal(_) => {},
            _ => self.recurse(&mut kids),
        }
        assert(view_refs(kids@) =~= positions(t));
        let n = kids.len();
        assert(view_variables(out@) =~= before + variables_in_first(t, 0));
        for i in 0..n
            invariant
                t == self@,
                n == kids@.len(),
                view_refs(kids@) == positions(t),
                view_variables(out@) == before + variables_in_first(t, i as nat),
            decreases n - i,
        {
            let ghost (a, b) = (
                variables_in_first(t, i as nat),
                variables_in(positions(t)[i as int]),
            );
            proof {
                lemma_type_smaller(t);
                assert(view_refs(kids@)[i as int] == (*kids@[i as int])@);
            }
            kids[i].visit_type_variables(out);
            assert((before + a) + b =~= before + (a + b));
        }
    }

    /// The type variables that the type mentions.
    fn type_variables<'a>(&'a self) -> (r: Vec<TypeVariable<'a>>)
        ensures
            view_variables(r@) == variables_in(self@),
    {
        let mut out: Vec<TypeVariable<'a>> = Vec::new();
        self.visit_type_variables(&mut out);
        assert(view_variables(out@) =~= variables_in(self@));
        out
    }

    /// Calls `f` on each type parameter that the type mentions.
    pub fn for_each_quantified<'a, O: ObserveQuantified<'a>>(&'a self, f: &mut O)
        ensures
            final(f).state() == seen_quantifieds::<O>(
                old(f).state(),
                quantifieds_among(variables_in(self@)),
            ),
    {
        let ghost s = f.state();
        let vs = self.type_variables();
        let ghost all = view_variables(vs@);
        for i in 0..vs.len()
            invariant
                all == view_variables(vs@),
                f.state() == seen_quantifieds::<O>(s, quantifieds_among(all.take(i as int))),
        {
            proof {
                let head = all.take(i + 1);
                assert(head.drop_last() =~= all.take(i as int));
                assert(head.last() == vs@[i as int]@);
                let qs = quantifieds_among(all.take(i as int));
                if let TypeVariableView::Quantified(q) = head.last() {
                    assert(qs.push(q).drop_last() =~= qs);
                }
            }
            if let TypeVariable::Quantified(q) = &vs[i] {
                f.call(*q);
            }
        }
        assert(all.take(all.len() as int) =~= all);
    }

    /// Adds the type parameters that the type mentions to `acc`.
    pub fn collect_quantifieds<'a>(&'a self, acc: &mut QuantifiedSet<'a>)
        ensures
            final(acc)@ == with_quantifieds(
                old(acc)@,
                quantifieds_among(variables_in(self@)),
            ),
    {
        let mut set = QuantifiedSet::new();
        std::mem::swap(acc, &mut set);
        let mut collect = Collect { set };
        proof {
            lemma_collect(collect.state(), quantifieds_among(variables_in(self@)));
        }
        self.for_each_quantified(&mut collect);
        *acc = collect.set;
    }

    /// Does the type mention any type variable? This may be one that has been resolved to a
    /// type parameter of a function or class, or a legacy type variable that has not.
    pub fn contains_type_variable(&self) -> (r: bool)
        ensures
            r == exists|i: int|
                0 <= i < variables_in(self@).len() && !(#[trigger] variables_in(self@)[i] is Var),
    {
        let vs = self.type_variables();
        for i in 0..vs.len()
            invariant
                view_variables(vs@) == variables_in(self@),
                forall|j: int| 0 <= j < i ==> #[trigger] variables_in(self@)[j] is Var,
        {
            assert(variables_in(self@)[i as int] == vs@[i as int]@);
            match &vs[i] {
                TypeVariable::Quantified(_)
                | TypeVariable::LegacyTypeVar(_)
                | TypeVariable::LegacyTypeVarTuple(_)
                | TypeVariable::LegacyParamSpec(_) => {
                    return true;
                },
                TypeVariable::Var(_) => {},
            }
        }
        false
    }

    /// Appends the names of the legacy type variables that the type mentions to `acc`.
    pub fn collect_raw_legacy_type_variables(&self, acc: &mut Vec<Name>)
        ensures
            view_names(final(acc)@) == view_names(old(acc)@) + legacy_names_among(
                variables_in(self@),
            ),
    {
        let ghost before = view_names(acc@);
        let vs = self.type_variables();
        let ghost all = view_variables(vs@);
        assert(view_names(acc@) =~= before + legacy_names_among(all.take(0)));
        for i in 0..vs.len()
            invariant
                all == view_variables(vs@),
                view_names(acc@) == before + legacy_names_among(all.take(i as int)),
        {
            let ghost names = acc@;
            let name = match &vs[i] {
                TypeVariable::LegacyTypeVar(t) => Some(t.qname().id().clone()),
                TypeVariable::LegacyTypeVarTuple(t) => Some(t.qname().id().clone()),
                TypeVariable::LegacyParamSpec(p) => Some(p.qname().id().clone()),
                _ => None,
            };
            proof {
                let head = all.take(i + 1);
                assert(head.drop_last() =~= all.take(i as int));
                assert(head.last() == vs@[i as int]@);
            }
            if let Some(name) = name {
                acc.push(name);
                proof {
                    assert(view_names(acc@) =~= view_names(names).push(name@));
                    assert(view_names(acc@) =~= before + legacy_names_among(all.take(i + 1)));
                }
            }
        }
        assert(all.take(all.len() as int) =~= all);
    }

    /// Does the type mention a variable of the solver where a placeholder can stand?
    pub fn may_contain_placeholder_var(&self) -> (r: bool)
        ensures
            r == exists|i: int|
                0 <= i < variables_in(self@).len() && #[trigger] variables_in(self@)[i] is Var,
    {
        let vs = self.type_variables();
        for i in 0..vs.len()
            invariant
                view_variables(vs@) == variables_in(self@),
                forall|j: int| 0 <= j < i ==> !(#[trigger] variables_in(self@)[j] is Var),
        {
            assert(variables_in(self@)[i as int] == vs@[i as int]@);
            if let TypeVariable::Var(_) = &vs[i] {
                return true;
            }
        }
        false
    }

    /// The variables of the solver that stand where a placeholder can stand, in order. A
    /// placeholder is a variable that stands for a type that is not yet solved.
    pub fn collect_maybe_placeholder_vars(&self) -> (r: Vec<Var>)
        ensures
            r@ == placeholders_among(variables_in(self@)),
    {
        let mut r: Vec<Var> = Vec::new();
        let vs = self.type_variables();
        let ghost all = view_variables(vs@);
        assert(r@ =~= placeholders_among(all.take(0)));
        for i in 0..vs.len()
            invariant
                all == view_variables(vs@),
                r@ == placeholders_among(all.take(i as int)),
        {
            proof {
                let head = all.take(i + 1);
                assert(head.drop_last() =~= all.take(i as int));
                assert(head.last() == vs@[i as int]@);
            }
            if let TypeVariable::Var(v) = &vs[i] {
                r.push(*v);
            }
        }
        assert(all.take(all.len() as int) =~= all);
        r
    }
}

} // verus!
