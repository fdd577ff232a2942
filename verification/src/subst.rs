//! Substitution of types for type parameters.
use starlark_map::small_map::SmallMap;
use vstd::prelude::*;

use crate::data::{Quantified, TParams, Type};
use crate::same::same_quantified;
use crate::slots::{
    back, lemma_type_lens, lemma_type_smaller, slots_type, with_forall_forallable, with_type,
};
use crate::tables::{entries_of, map_get, map_insert, map_is_empty, map_new};
use crate::tokens::{tokens_quantified, Token};
use crate::view::{
    lemma_forall_forallable_view, lemma_quantifieds_push, lemma_tparams_view, lemma_type_view,
    lemma_types_update, view_quantifieds, view_types, QuantifiedView, TypeView,
};
use crate::visit::kept_type;

verus! {

/// Something that finds the type to put in place of a type parameter, and may remember what it
/// was asked.
pub trait Lookup: Sized {
    type State;

    /// What is remembered.
    spec fn state(&self) -> Self::State;

    /// What is remembered after `q` was asked for, and the type to put in its place, if any.
    spec fn find(s: Self::State, q: QuantifiedView) -> (Self::State, Option<TypeView>);

    fn get(&mut self, q: &Quantified) -> (r: Option<Type>)
        ensures
            (final(self).state(), optional_view(r)) == Self::find(old(self).state(), q@),
    ;
}

/// The model of a type that may be missing.
pub open spec fn optional_view(t: Option<Type>) -> Option<TypeView> {
    match t {
        Some(t) => Some(t@),
        None => None,
    }
}

/// Is `q` equal to one of the type parameters in `shadowed`?
pub open spec fn is_shadowed(shadowed: Seq<QuantifiedView>, q: QuantifiedView) -> bool {
    exists|i: int| 0 <= i < shadowed.len() && same_quantified(#[trigger] shadowed[i], q)
}

/// The type parameters that are shadowed in the slots of `t`.
pub open spec fn shadowed_in(
    shadowed: Seq<QuantifiedView>,
    t: TypeView,
) -> Seq<QuantifiedView> {
    match t {
        TypeView::Forall(forall) => shadowed + forall.tparams,
        _ => shadowed,
    }
}

/// `t` with each type parameter that is not shadowed replaced by what `L` finds for it. A type
/// parameter is not looked into, so that it is found as it stands.
pub open spec fn subst_walk<L: Lookup>(
    s: L::State,
    shadowed: Seq<QuantifiedView>,
    t: TypeView,
) -> (L::State, TypeView)
    decreases t, slots_type(t).len() + 1,
{
    match t {
        TypeView::Quantified(q) => {
            if is_shadowed(shadowed, *q) {
                (s, t)
            } else {
                let (s1, found) = L::find(s, *q);
                (
                    s1,
                    match found {
                        Some(w) => w,
                        None => t,
                    },
                )
            }
        },
        _ => {
            let (s1, ts) = subst_slots::<L>(s, shadowed_in(shadowed, t), t, slots_type(t).len());
            (s1, with_type(t, ts))
        },
    }
}

/// The effect of [`subst_walk`] on the first `n` slots of `t`.
pub open spec fn subst_slots<L: Lookup>(
    s: L::State,
    shadowed: Seq<QuantifiedView>,
    t: TypeView,
    n: nat,
) -> (L::State, Seq<TypeView>)
    decreases t, n,
{
    if n == 0 || n > slots_type(t).len() {
        (s, Seq::empty())
    } else {
        proof {
            lemma_type_smaller(t);
        }
        let (s1, us) = subst_slots::<L>(s, shadowed, t, (n - 1) as nat);
        let (s2, u) = subst_walk::<L>(s1, shadowed, slots_type(t)[n - 1]);
        (s2, us.push(u))
    }
}

/// `t` with each type parameter that is not shadowed replaced by what `m` has under its
/// spelling.
pub open spec fn replaced(
    m: Map<Seq<Token>, TypeView>,
    shadowed: Seq<QuantifiedView>,
    t: TypeView,
) -> TypeView
    decreases t, 1nat,
{
    match t {
        TypeView::Quantified(q) => {
            if !is_shadowed(shadowed, *q) && m.dom().contains(tokens_quantified(*q)) {
                m[tokens_quantified(*q)]
            } else {
                t
            }
        },
        _ => with_type(t, replaced_slots(m, shadowed_in(shadowed, t), t)),
    }
}

/// The slots of `t`, with type parameters replaced.
pub open spec fn replaced_slots(
    m: Map<Seq<Token>, TypeView>,
    shadowed: Seq<QuantifiedView>,
    t: TypeView,
) -> Seq<TypeView>
    decreases t, 0nat,
{
    proof {
        lemma_type_smaller(t);
    }
    Seq::new(
        slots_type(t).len(),
        |i: int|
            if 0 <= i < slots_type(t).len() {
                replaced(m, shadowed, slots_type(t)[i])
            } else {
                arbitrary()
            },
    )
}

/// `t` with the type parameters of `m` replaced.
pub open spec fn substituted(m: Map<Seq<Token>, TypeView>, t: TypeView) -> TypeView {
    replaced(m, Seq::empty(), t)
}

/// Where every type parameter that `m` has an entry for is shadowed, nothing is replaced. In
/// particular an empty substitution changes nothing.
pub proof fn lemma_replaced_shadowed(
    m: Map<Seq<Token>, TypeView>,
    shadowed: Seq<QuantifiedView>,
    t: TypeView,
)
    requires
        forall|q: QuantifiedView|
            m.dom().contains(#[trigger] tokens_quantified(q)) ==> is_shadowed(shadowed, q),
    ensures
        replaced(m, shadowed, t) == t,
    decreases t,
{
    if !(t is Quantified) {
        let inner = shadowed_in(shadowed, t);
        assert forall|q: QuantifiedView|
            m.dom().contains(#[trigger] tokens_quantified(q)) implies is_shadowed(inner, q) by {
            let i = choose|i: int|
                0 <= i < shadowed.len() && same_quantified(#[trigger] shadowed[i], q);
            assert(inner[i] == shadowed[i]);
        }
        let ts = replaced_slots(m, inner, t);
        assert forall|i: int| 0 <= i < ts.len() implies ts[i] == slots_type(t)[i] by {
            lemma_type_smaller(t);
            lemma_replaced_shadowed(m, inner, slots_type(t)[i]);
        }
        assert(ts =~= slots_type(t));
        lemma_type_lens(t, ts, ts);
    }
}

/// A type parameter that is not shadowed becomes what `m` has for it. Any other type is substituted
/// into by substituting into what it holds, whatever kind of type it is; below something generic,
/// the type parameters that this declares are shadowed as well.
pub proof fn lemma_replaced_parts(
    m: Map<Seq<Token>, TypeView>,
    shadowed: Seq<QuantifiedView>,
    t: TypeView,
)
    ensures
        replaced(m, shadowed, t) == match t {
            TypeView::Quantified(q) => if m.dom().contains(tokens_quantified(*q)) && !(exists|
                i: int,
            |
                0 <= i < shadowed.len() && same_quantified(#[trigger] shadowed[i], *q)) {
                m[tokens_quantified(*q)]
            } else {
                t
            },
            TypeView::Forall(g) => with_type(
                t,
                slots_type(t).map_values(|x: TypeView| replaced(m, shadowed + g.tparams, x)),
            ),
            _ => with_type(t, slots_type(t).map_values(|x: TypeView| replaced(m, shadowed, x))),
        },
{
    if !(t is Quantified) {
        let ts = replaced_slots(m, shadowed_in(shadowed, t), t);
        match t {
            TypeView::Forall(g) => {
                assert(ts =~= slots_type(t).map_values(
                    |x: TypeView| replaced(m, shadowed + g.tparams, x),
                ));
            },
            _ => {
                assert(ts =~= slots_type(t).map_values(|x: TypeView| replaced(m, shadowed, x)));
            },
        }
    }
}

/// Does a type parameter that `m` has an entry for stand in `t`, neither shadowed nor declared by
/// something generic around it?
pub open spec fn stands_free(
    m: Map<Seq<Token>, TypeView>,
    shadowed: Seq<QuantifiedView>,
    t: TypeView,
) -> bool
    decreases t,
{
    match t {
        TypeView::Quantified(q) => m.dom().contains(tokens_quantified(*q)) && !is_shadowed(
            shadowed,
            *q,
        ),
        _ => exists|i: int|
            {
                proof {
                    lemma_type_smaller(t);
                }
                if 0 <= i < slots_type(t).len() {
                    stands_free(
                        m,
                        match t {
                            TypeView::Forall(g) => shadowed + g.tparams,
                            _ => shadowed,
                        },
                        #[trigger] slots_type(t)[i],
                    )
                } else {
                    false
                }
            },
    }
}

/// Fewer type parameters stand free where more are shadowed.
proof fn lemma_shadowed_more(
    m: Map<Seq<Token>, TypeView>,
    a: Seq<QuantifiedView>,
    b: Seq<QuantifiedView>,
    t: TypeView,
)
    requires
        !stands_free(m, a, t),
        forall|q: QuantifiedView| is_shadowed(a, q) ==> #[trigger] is_shadowed(b, q),
    ensures
        !stands_free(m, b, t),
    decreases t,
{
    if !(t is Quantified) {
        let (c, d) = match t {
            TypeView::Forall(g) => (a + g.tparams, b + g.tparams),
            _ => (a, b),
        };
        if let TypeView::Forall(g) = t {
            assert forall|q: QuantifiedView| is_shadowed(c, q) implies #[trigger] is_shadowed(
                d,
                q,
            ) by {
                let i = choose|i: int| 0 <= i < c.len() && same_quantified(#[trigger] c[i], q);
                if i < a.len() {
                    assert(same_quantified(a[i], q));
                    assert(is_shadowed(b, q));
                    let j = choose|j: int|
                        0 <= j < b.len() && same_quantified(#[trigger] b[j], q);
                    assert(d[j] == b[j]);
                } else {
                    assert(d[b.len() + (i - a.len())] == c[i]);
                }
            }
        }
        assert forall|i: int| 0 <= i < slots_type(t).len() implies !stands_free(
            m,
            d,
            #[trigger] slots_type(t)[i],
        ) by {
            lemma_type_smaller(t);
            assert(!stands_free(m, c, slots_type(t)[i]));
            lemma_shadowed_more(m, c, d, slots_type(t)[i]);
        }
    }
}

/// After a substitution none of the type parameters of `m` is left free in the type, provided that
/// none stands in the types that are put in.
pub proof fn lemma_replaced_leaves_none(
    m: Map<Seq<Token>, TypeView>,
    shadowed: Seq<QuantifiedView>,
    t: TypeView,
)
    requires
        forall|k: Seq<Token>| #[trigger]
            m.dom().contains(k) ==> !stands_free(m, Seq::empty(), m[k]),
    ensures
        !stands_free(m, shadowed, replaced(m, shadowed, t)),
    decreases t,
{
    lemma_replaced_parts(m, shadowed, t);
    if let TypeView::Quantified(q) = t {
        let k = tokens_quantified(*q);
        if m.dom().contains(k) && !is_shadowed(shadowed, *q) {
            lemma_shadowed_more(m, Seq::empty(), shadowed, m[k]);
        }
    } else {
        let inner = match t {
            TypeView::Forall(g) => shadowed + g.tparams,
            _ => shadowed,
        };
        let ts = slots_type(t).map_values(|x: TypeView| replaced(m, inner, x));
        let r = replaced(m, shadowed, t);
        assert(r == with_type(t, ts));
        lemma_type_lens(t, ts, ts);
        lemma_generic_kept(t, ts);
        assert forall|i: int| 0 <= i < slots_type(r).len() implies !stands_free(
            m,
            inner,
            #[trigger] slots_type(r)[i],
        ) by {
            lemma_type_smaller(t);
            lemma_replaced_leaves_none(m, inner, slots_type(t)[i]);
        }
    }
}

/// Putting other types into a type makes no type parameter of it and keeps the type parameters that
/// it declares.
proof fn lemma_generic_kept(t: TypeView, ts: Seq<TypeView>)
    requires
        !(t is Quantified),
    ensures
        !(with_type(t, ts) is Quantified),
        t is Forall == with_type(t, ts) is Forall,
        t is Forall ==> with_type(t, ts)->Forall_0.tparams == t->Forall_0.tparams,
{
    reveal(with_type);
    reveal(with_forall_forallable);
}

/// A type in which none of the type parameters of `m` stands free is left as it is.
pub proof fn lemma_replaced_unchanged(
    m: Map<Seq<Token>, TypeView>,
    shadowed: Seq<QuantifiedView>,
    t: TypeView,
)
    requires
        !stands_free(m, shadowed, t),
    ensures
        replaced(m, shadowed, t) == t,
    decreases t,
{
    lemma_replaced_parts(m, shadowed, t);
    if !(t is Quantified) {
        let inner = match t {
            TypeView::Forall(g) => shadowed + g.tparams,
            _ => shadowed,
        };
        let ts = slots_type(t).map_values(|x: TypeView| replaced(m, inner, x));
        assert forall|i: int| 0 <= i < ts.len() implies ts[i] == slots_type(t)[i] by {
            lemma_type_smaller(t);
            assert(!stands_free(m, inner, slots_type(t)[i]));
            lemma_replaced_unchanged(m, inner, slots_type(t)[i]);
        }
        assert(ts =~= slots_type(t));
        lemma_type_lens(t, ts, ts);
    }
}

/// The effect of [`subst_walk`] on each of `ts`, one after the other.
pub open spec fn subst_each<L: Lookup>(
    s: L::State,
    shadowed: Seq<QuantifiedView>,
    ts: Seq<TypeView>,
) -> (L::State, Seq<TypeView>)
    decreases ts.len(),
{
    if ts.len() == 0 {
        (s, Seq::empty())
    } else {
        let (s1, us) = subst_each::<L>(s, shadowed, ts.drop_last());
        let (s2, u) = subst_walk::<L>(s1, shadowed, ts.last());
        (s2, us.push(u))
    }
}

/// Something that finds types is asked for each type parameter that is not shadowed, in order, and
/// for nothing else; it is asked for those in every kind of type.
pub proof fn lemma_subst_walk_parts<L: Lookup>(
    s: L::State,
    shadowed: Seq<QuantifiedView>,
    t: TypeView,
)
    ensures
        subst_walk::<L>(s, shadowed, t) == match t {
            TypeView::Quantified(q) => if exists|i: int|
                0 <= i < shadowed.len() && same_quantified(#[trigger] shadowed[i], *q) {
                (s, t)
            } else {
                match L::find(s, *q) {
                    (s1, Some(w)) => (s1, w),
                    (s1, None) => (s1, t),
                }
            },
            TypeView::Forall(g) => {
                let (s1, ts) = subst_each::<L>(s, shadowed + g.tparams, slots_type(t));
                (s1, with_type(t, ts))
            },
            _ => {
                let (s1, ts) = subst_each::<L>(s, shadowed, slots_type(t));
                (s1, with_type(t, ts))
            },
        },
{
    if !(t is Quantified) {
        let n = slots_type(t).len();
        lemma_subst_first::<L>(s, shadowed_in(shadowed, t), t, n);
        assert(slots_type(t).take(n as int) =~= slots_type(t));
    }
}

proof fn lemma_subst_first<L: Lookup>(
    s: L::State,
    shadowed: Seq<QuantifiedView>,
    t: TypeView,
    n: nat,
)
    requires
        n <= slots_type(t).len(),
    ensures
        subst_slots::<L>(s, shadowed, t, n) == subst_each::<L>(
            s,
            shadowed,
            slots_type(t).take(n as int),
        ),
    decreases n,
{
    if n > 0 {
        lemma_subst_first::<L>(s, shadowed, t, (n - 1) as nat);
        assert(slots_type(t).take(n as int).drop_last() =~= slots_type(t).take(n - 1));
    }
}

/// What is put in place of a type parameter is not looked into again: the type parameter itself
/// becomes what `m` has for it, whatever that holds.
pub proof fn lemma_substituted_once(m: Map<Seq<Token>, TypeView>, q: QuantifiedView)
    ensures
        substituted(m, TypeView::Quantified(Box::new(q))) == if m.dom().contains(
            tokens_quantified(q),
        ) {
            m[tokens_quantified(q)]
        } else {
            TypeView::Quantified(Box::new(q))
        },
{
}

/// The pairs of the first `n` of `ps` and `ts`, the later ones counting before the earlier.
pub open spec fn paired(ps: Seq<QuantifiedView>, ts: Seq<TypeView>, n: nat) -> Map<
    Seq<Token>,
    TypeView,
>
    decreases n,
{
    if n == 0 {
        Map::empty()
    } else {
        paired(ps, ts, (n - 1) as nat).insert(tokens_quantified(ps[n - 1]), ts[n - 1])
    }
}

/// Of the first `n` pairs, the last that has a type parameter spelled `k` counts; a spelling that
/// none of them has is not paired.
pub proof fn lemma_paired(ps: Seq<QuantifiedView>, ts: Seq<TypeView>, n: nat, k: Seq<Token>)
    ensures
        paired(ps, ts, n).dom().contains(k) == exists|i: int|
            0 <= i < n && tokens_quantified(#[trigger] ps[i]) == k,
        forall|i: int|
            0 <= i < n && tokens_quantified(#[trigger] ps[i]) == k && (forall|j: int|
                i < j < n ==> tokens_quantified(#[trigger] ps[j]) != k) ==> paired(ps, ts, n)[k]
                == ts[i],
    decreases n,
{
    if n > 0 {
        lemma_paired(ps, ts, (n - 1) as nat, k);
        if tokens_quantified(ps[n - 1]) != k && paired(ps, ts, n).dom().contains(k) {
            let i = choose|i: int| 0 <= i < n - 1 && tokens_quantified(#[trigger] ps[i]) == k;
            assert(tokens_quantified(ps[i]) == k);
        }
    }
}

/// Types by type parameter.
pub struct QuantifiedMap<'a> {
    positions: SmallMap<Vec<Token>, usize>,
    types: Vec<&'a Type>,
}

impl<'a> View for QuantifiedMap<'a> {
    type V = Map<Seq<Token>, TypeView>;

    closed spec fn view(&self) -> Map<Seq<Token>, TypeView> {
        Map::new(
            |k: Seq<Token>| entries_of(self.positions).dom().contains(k),
            |k: Seq<Token>| (*self.types@[entries_of(self.positions)[k] as int])@,
        )
    }
}

impl<'a> QuantifiedMap<'a> {
    #[verifier::type_invariant]
    spec fn inv(self) -> bool {
        forall|k: Seq<Token>| #[trigger]
            entries_of(self.positions).dom().contains(k) ==> entries_of(self.positions)[k]
                < self.types@.len()
    }

    pub fn new() -> (r: Self)
        ensures
            r@ == Map::<Seq<Token>, TypeView>::empty(),
    {
        let r = QuantifiedMap { positions: map_new(), types: Vec::new() };
        assert(r@ =~= Map::<Seq<Token>, TypeView>::empty());
        r
    }

    /// The map with `ty` as the type of `q`, in place of the one that `q` had.
    pub fn with(self, q: &Quantified, ty: &'a Type) -> (r: Self)
        ensures
            r@ == self@.insert(tokens_quantified(q@), ty@),
    {
        proof {
            use_type_invariant(&self);
        }
        let ghost before = self@;
        let QuantifiedMap { mut positions, mut types } = self;
        map_insert(&mut positions, q.tokens(), types.len());
        types.push(ty);
        let r = QuantifiedMap { positions, types };
        assert(r@ =~= before.insert(tokens_quantified(q@), ty@));
        r
    }

    /// The type of `q`, where it has one.
    pub fn get(&self, q: &Quantified) -> (r: Option<&'a Type>)
        ensures
            match r {
                Some(t) => self@.dom().contains(tokens_quantified(q@)) && t@
                    == self@[tokens_quantified(q@)],
                None => !self@.dom().contains(tokens_quantified(q@)),
            },
    {
        proof {
            use_type_invariant(self);
        }
        let key = q.tokens();
        match map_get(&self.positions, &key) {
            Some(i) => Some(self.types[i]),
            None => None,
        }
    }

    pub fn is_empty(&self) -> (r: bool)
        ensures
            r == (self@ == Map::<Seq<Token>, TypeView>::empty()),
    {
        let r = map_is_empty(&self.positions);
        proof {
            if r {
                assert(self@ =~= Map::<Seq<Token>, TypeView>::empty());
            } else if self@ == Map::<Seq<Token>, TypeView>::empty() {
                assert forall|k: Seq<Token>| !entries_of(self.positions).dom().contains(k) by {
                    assert(!self@.dom().contains(k));
                }
                assert(entries_of(self.positions) =~= Map::<Seq<Token>, usize>::empty());
            }
        }
        r
    }
}

/// Looks type parameters up in a map.
struct MapLookup<'a, 'b> {
    map: &'b QuantifiedMap<'a>,
}

impl<'a, 'b> Lookup for MapLookup<'a, 'b> {
    type State = Map<Seq<Token>, TypeView>;

    closed spec fn state(&self) -> Map<Seq<Token>, TypeView> {
        self.map@
    }

    closed spec fn find(s: Map<Seq<Token>, TypeView>, q: QuantifiedView) -> (
        Map<Seq<Token>, TypeView>,
        Option<TypeView>,
    ) {
        if s.dom().contains(tokens_quantified(q)) {
            (s, Some(s[tokens_quantified(q)]))
        } else {
            (s, None)
        }
    }

    fn get(&mut self, q: &Quantified) -> (r: Option<Type>) {
        match self.map.get(q) {
            Some(t) => Some(t.clone()),
            None => None,
        }
    }
}

proof fn lemma_subst_map(
    m: Map<Seq<Token>, TypeView>,
    shadowed: Seq<QuantifiedView>,
    t: TypeView,
)
    ensures
        subst_walk::<MapLookup>(m, shadowed, t) == (m, replaced(m, shadowed, t)),
    decreases t, slots_type(t).len() + 1,
{
    if !(t is Quantified) {
        let inner = shadowed_in(shadowed, t);
        lemma_subst_map_slots(m, inner, t, slots_type(t).len());
        let ts = replaced_slots(m, inner, t);
        assert(ts.take(ts.len() as int) =~= ts);
    }
}

proof fn lemma_subst_map_slots(
    m: Map<Seq<Token>, TypeView>,
    shadowed: Seq<QuantifiedView>,
    t: TypeView,
    n: nat,
)
    requires
        n <= slots_type(t).len(),
    ensures
        subst_slots::<MapLookup>(m, shadowed, t, n) == (
            m,
            replaced_slots(m, shadowed, t).take(n as int),
        ),
    decreases t, n,
{
    let ts = replaced_slots(m, shadowed, t);
    if n > 0 {
        lemma_type_smaller(t);
        lemma_subst_map_slots(m, shadowed, t, (n - 1) as nat);
        lemma_subst_map(m, shadowed, slots_type(t)[n - 1]);
        assert(ts.take(n as int) =~= ts.take(n - 1).push(ts[n - 1]));
    } else {
        assert(ts.take(0) =~= Seq::empty());
    }
}

/// Is `x` equal to one of the type parameters in `shadowed`?
fn contains(shadowed: &Vec<Quantified>, x: &Quantified) -> (r: bool)
    ensures
        r == is_shadowed(view_quantifieds(shadowed@), x@),
{
    for i in 0..shadowed.len()
        invariant
            forall|j: int|
                0 <= j < i ==> !same_quantified(
                    #[trigger] view_quantifieds(shadowed@)[j],
                    x@,
                ),
    {
        if shadowed[i] == *x {
            assert(same_quantified(view_quantifieds(shadowed@)[i as int], x@));
            return true;
        }
    }
    false
}

/// Adds copies of the type parameters in `tparams` at the end of `shadowed`.
fn extend(shadowed: &mut Vec<Quantified>, tparams: &TParams)
    ensures
        view_quantifieds(final(shadowed)@) == view_quantifieds(old(shadowed)@) + tparams@,
        final(shadowed)@.len() == old(shadowed)@.len() + tparams@.len(),
        final(shadowed)@.take(old(shadowed)@.len() as int) == old(shadowed)@,
{
    let ghost before = shadowed@;
    proof {
        lemma_tparams_view(*tparams);
    }
    let ghost s = view_quantifieds(tparams.params@);
    assert(view_quantifieds(shadowed@) =~= view_quantifieds(before) + s.take(0));
    assert(shadowed@.take(before.len() as int) =~= before);
    for i in 0..tparams.params.len()
        invariant
            s == view_quantifieds(tparams.params@),
            shadowed@.len() == before.len() + i,
            shadowed@.take(before.len() as int) == before,
            view_quantifieds(shadowed@) == view_quantifieds(before) + s.take(i as int),
    {
        let ghost v = shadowed@;
        let q = tparams.params[i].clone();
        shadowed.push(q);
        proof {
            lemma_quantifieds_push(v, q);
            assert(s.take(i + 1) =~= s.take(i as int).push(s[i as int]));
            assert(view_quantifieds(shadowed@) =~= view_quantifieds(before) + s.take(i + 1));
            assert(shadowed@.take(before.len() as int) =~= v.take(before.len() as int));
        }
    }
    assert(s.take(s.len() as int) =~= s);
}

fn subst_into<L: Lookup>(ty: &mut Type, mp: &mut L, shadowed: &mut Vec<Quantified>)
    ensures
        (final(mp).state(), final(ty)@) == subst_walk::<L>(
            old(mp).state(),
            view_quantifieds(old(shadowed)@),
            old(ty)@,
        ),
        view_quantifieds(final(shadowed)@) == view_quantifieds(old(shadowed)@),
    decreases old(ty)@, 1nat,
{
    proof {
        lemma_type_view(*ty);
    }
    if let Type::Quantified(x) = &*ty {
        if !contains(shadowed, x) {
            if let Some(w) = mp.get(x) {
                *ty = w;
            }
        }
    } else if let Type::Forall(forall) = &*ty {
        let ghost before = shadowed@;
        let old_len = shadowed.len();
        proof {
            lemma_forall_forallable_view(**forall);
        }
        extend(shadowed, &*forall.tparams);
        subst_children(ty, mp, shadowed);
        let ghost after = shadowed@;
        shadowed.truncate(old_len);
        proof {
            assert(view_quantifieds(shadowed@) =~= view_quantifieds(after).take(old_len as int));
            assert(view_quantifieds(shadowed@) =~= view_quantifieds(before));
        }
    } else {
        subst_children(ty, mp, shadowed);
    }
}

fn subst_children<L: Lookup>(ty: &mut Type, mp: &mut L, shadowed: &mut Vec<Quantified>)
    ensures
        ({
            let t = old(ty)@;
            let (s, ts) = subst_slots::<L>(
                old(mp).state(),
                view_quantifieds(old(shadowed)@),
                t,
                slots_type(t).len(),
            );
            final(mp).state() == s && final(ty)@ == with_type(t, ts)
        }),
        view_quantifieds(final(shadowed)@) == view_quantifieds(old(shadowed)@),
    decreases old(ty)@, 0nat,
{
    let ghost t = ty@;
    let ghost s = mp.state();
    let ghost sh = view_quantifieds(shadowed@);
    let ghost m = slots_type(t);
    let mut ts: Vec<Type> = Vec::new();
    ty.take_slots(&mut ts);
    let ghost blank = ty@;
    assert(view_types(ts@) =~= m);
    let n = ts.len();
    for i in 0..n
        invariant
            t == old(ty)@,
            m == slots_type(t),
            n == m.len(),
            ts@.len() == n,
            sh == view_quantifieds(shadowed@),
            subst_slots::<L>(s, sh, t, i as nat).1.len() == i,
            mp.state() == subst_slots::<L>(s, sh, t, i as nat).0,
            view_types(ts@) =~= subst_slots::<L>(s, sh, t, i as nat).1 + m.skip(i as int),
        decreases n - i,
    {
        let ghost v = ts@;
        proof {
            lemma_type_smaller(t);
            assert(view_types(v)[i as int] == m[i as int]);
        }
        subst_into(&mut ts[i], mp, shadowed);
        proof {
            lemma_types_update(v, i as int, ts@[i as int]);
            assert(ts@ =~= v.update(i as int, ts@[i as int]));
            assert(m.skip(i as int).skip(1) =~= m.skip(i + 1));
        }
    }
    proof {
        assert(view_types(ts@) =~= subst_slots::<L>(s, sh, t, n as nat).1);
        assert(back(view_types(ts@), n as nat) =~= view_types(ts@));
        assert(kept_type(t, blank));
    }
    ty.put_slots(&mut ts);
}

impl Type {
    /// Replaces each type parameter in the type by what `mp` finds for it, unless something
    /// generic around it declares that type parameter.
    pub fn subst_mut_fn<L: Lookup>(&mut self, mp: &mut L)
        ensures
            (final(mp).state(), final(self)@) == subst_walk::<L>(
                old(mp).state(),
                Seq::empty(),
                old(self)@,
            ),
    {
        let mut shadowed: Vec<Quantified> = Vec::new();
        assert(view_quantifieds(shadowed@) =~= Seq::empty());
        subst_into(self, mp, &mut shadowed);
    }

    /// Replaces the type parameters that `mp` has types for.
    pub fn subst_mut(&mut self, mp: &QuantifiedMap)
        ensures
            final(self)@ == substituted(mp@, old(self)@),
    {
        proof {
            if mp@ == Map::<Seq<Token>, TypeView>::empty() {
                lemma_replaced_shadowed(mp@, Seq::empty(), self@);
            }
            lemma_subst_map(mp@, Seq::empty(), self@);
        }
        if !mp.is_empty() {
            let mut lookup = MapLookup { map: mp };
            self.subst_mut_fn(&mut lookup);
        }
    }

    /// [`Type::subst_mut`] on a type that is given away.
    pub fn subst(self, mp: &QuantifiedMap) -> (r: Type)
        ensures
            r@ == substituted(mp@, self@),
    {
        let mut ty = self;
        ty.subst_mut(mp);
        ty
    }
}

/// A substitution of types for type parameters.
pub struct Substitution<'a> {
    map: QuantifiedMap<'a>,
}

impl<'a> View for Substitution<'a> {
    type V = Map<Seq<Token>, TypeView>;

    closed spec fn view(&self) -> Map<Seq<Token>, TypeView> {
        self.map@
    }
}

impl<'a> Substitution<'a> {
    /// The substitution that `map` gives.
    pub fn new(map: QuantifiedMap<'a>) -> (r: Self)
        ensures
            r@ == map@,
    {
        Substitution { map }
    }

    /// A substitution for a prefix of `tparams`: `args` are paired with as many of the first
    /// parameters.
    pub fn for_prefix(tparams: &TParams, args: &'a [Type]) -> (r: Self)
        requires
            args@.len() <= tparams@.len(),
        ensures
            r@ == paired(tparams@, view_types(args@), args@.len()),
    {
        proof {
            lemma_tparams_view(*tparams);
        }
        let mut map = QuantifiedMap::new();
        for i in 0..args.len()
            invariant
                tparams@ == view_quantifieds(tparams.params@),
                args@.len() <= tparams@.len(),
                map@ == paired(tparams@, view_types(args@), i as nat),
        {
            map = map.with(&tparams.params[i], &args[i]);
        }
        Substitution { map }
    }

    pub fn substitute_into_mut(&self, ty: &mut Type)
        ensures
            final(ty)@ == substituted(self@, old(ty)@),
    {
        ty.subst_mut(&self.map)
    }

    pub fn substitute_into(&self, ty: Type) -> (r: Type)
        ensures
            r@ == substituted(self@, ty@),
    {
        ty.subst(&self.map)
    }
}

} // verus!
