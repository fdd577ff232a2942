//! Changing the types in the places where a type variable can be written, from the outside in.
use vstd::prelude::*;

use crate::data::Type;
use crate::slots::{
    back, lemma_type_lens, lemma_type_smaller, reached_bound_method, reached_bound_method_type,
    reached_forall_forallable, reached_forall_function, reached_overload, reached_overload_type,
    reached_overloads, reached_type, slots_bound_method, slots_bound_method_type,
    slots_forall_forallable, slots_forall_function, slots_forallable, slots_func_metadata,
    slots_function, slots_one, slots_overload, slots_overload_type, slots_overloads,
    slots_quantifieds, slots_type, with_type,
};
use crate::transform::Update;
use crate::variables::{is_raw_legacy, positions};
use crate::view::{
    lemma_type_view, lemma_types_update, view_types, BoundMethodTypeView, OverloadTypeView,
    OverloadView, TypeView,
};
use crate::visit::kept_type;

verus! {

/// The types in the places of `t` where a type variable can be written and may be replaced.
pub open spec fn position_slots(t: TypeView) -> Seq<TypeView> {
    if t is SelfType || t is Literal {
        Seq::empty()
    } else {
        slots_type(t)
    }
}

/// `t` with `ts` in its [`position_slots`].
pub open spec fn with_positions(t: TypeView, ts: Seq<TypeView>) -> TypeView {
    if t is SelfType || t is Literal {
        t
    } else {
        with_type(t, ts)
    }
}

/// The places that are read for type variables and those that may be changed are the same, but
/// for the type parameters that something generic declares: those are read and never changed.
pub proof fn lemma_positions_in_sync(t: TypeView)
    requires
        !(t is Forall || t is Overload || t is BoundMethod),
    ensures
        positions(t) == position_slots(t),
{
    reveal(reached_type);
    reveal(slots_type);
}

/// Is every one of `a` among `b`?
pub open spec fn all_among(a: Seq<TypeView>, b: Seq<TypeView>) -> bool {
    forall|i: int| 0 <= i < a.len() ==> b.contains(#[trigger] a[i])
}

proof fn lemma_among_append(
    a: Seq<TypeView>,
    b: Seq<TypeView>,
    c: Seq<TypeView>,
    d: Seq<TypeView>,
)
    requires
        all_among(a, b),
        all_among(c, d),
    ensures
        all_among(a + c, b + d),
{
    assert forall|i: int| 0 <= i < (a + c).len() implies (b + d).contains(
        #[trigger] (a + c)[i],
    ) by {
        if i < a.len() {
            let j = choose|j: int| 0 <= j < b.len() && b[j] == a[i];
            assert((b + d)[j] == a[i]);
        } else {
            let j = choose|j: int| 0 <= j < d.len() && d[j] == c[i - a.len()];
            assert((b + d)[b.len() + j] == c[i - a.len()]);
        }
    }
}

proof fn lemma_among_after(a: Seq<TypeView>, b: Seq<TypeView>)
    ensures
        all_among(a, a),
        all_among(a, b + a),
{
    assert forall|i: int| 0 <= i < a.len() implies (b + a).contains(#[trigger] a[i]) by {
        assert((b + a)[b.len() + i] == a[i]);
    }
}

proof fn lemma_among_overload_type(o: OverloadTypeView)
    ensures
        all_among(slots_overload_type(o), reached_overload_type(o)),
{
    reveal(slots_overload_type);
    reveal(reached_overload_type);
    reveal(slots_forall_function);
    reveal(reached_forall_function);
    match o {
        OverloadTypeView::Function(f) => {
            lemma_among_after(slots_function(f), Seq::empty());
        },
        OverloadTypeView::Forall(forall) => {
            lemma_among_after(slots_function(forall.body), slots_quantifieds(forall.tparams));
        },
    }
}

proof fn lemma_among_overloads(os: Seq<OverloadTypeView>)
    ensures
        all_among(slots_overloads(os), reached_overloads(os)),
    decreases os.len(),
{
    if os.len() > 0 {
        lemma_among_overloads(os.drop_last());
        lemma_among_overload_type(os.last());
        lemma_among_append(
            slots_overloads(os.drop_last()),
            reached_overloads(os.drop_last()),
            slots_overload_type(os.last()),
            reached_overload_type(os.last()),
        );
    }
}

proof fn lemma_among_overload(o: OverloadView)
    ensures
        all_among(slots_overload(o), reached_overload(o)),
{
    reveal(slots_overload);
    reveal(reached_overload);
    let rest = slots_func_metadata(*o.metadata);
    lemma_among_overloads(o.signatures);
    lemma_among_after(rest, Seq::empty());
    lemma_among_append(
        slots_overloads(o.signatures),
        reached_overloads(o.signatures),
        rest,
        rest,
    );
}

/// Every place that may be changed is read as well.
pub proof fn lemma_changed_are_read(t: TypeView)
    ensures
        all_among(position_slots(t), positions(t)),
{
    match t {
        TypeView::Overload(o) => {
            lemma_among_overload(o);
            reveal(slots_type);
            reveal(reached_type);
        },
        TypeView::BoundMethod(bm) => {
            let obj = slots_one(bm.obj);
            lemma_among_after(obj, Seq::empty());
            match bm.func {
                BoundMethodTypeView::Function(f) => {
                    lemma_among_after(slots_function(f), Seq::empty());
                },
                BoundMethodTypeView::Forall(forall) => {
                    lemma_among_after(
                        slots_function(forall.body),
                        slots_quantifieds(forall.tparams),
                    );
                },
                BoundMethodTypeView::Overload(o) => {
                    lemma_among_overload(o);
                },
            }
            reveal(slots_bound_method_type);
            reveal(reached_bound_method_type);
            reveal(slots_forall_function);
            reveal(reached_forall_function);
            lemma_among_append(
                obj,
                obj,
                slots_bound_method_type(bm.func),
                reached_bound_method_type(bm.func),
            );
            reveal(slots_bound_method);
            reveal(reached_bound_method);
            reveal(slots_type);
            reveal(reached_type);
        },
        TypeView::Forall(forall) => {
            lemma_among_after(slots_forallable(forall.body), slots_quantifieds(forall.tparams));
            reveal(slots_forall_forallable);
            reveal(reached_forall_forallable);
            reveal(slots_type);
            reveal(reached_type);
        },
        _ => {
            lemma_positions_in_sync(t);
            lemma_among_after(positions(t), Seq::empty());
        },
    }
}

/// How far a walk may still go.
pub type Rank = nat;

/// Is `c` of a lower rank than `t`, or of the same rank and a part of `t`?
pub open spec fn descends(t_rank: Rank, t: TypeView, c_rank: Rank, c: TypeView) -> bool {
    c_rank < t_rank || (c_rank == t_rank && decreases_to!(t => c))
}

/// Is a call made on `t`? Where only legacy type variables are asked for, it is made on those.
pub open spec fn is_called(legacy_only: bool, t: TypeView) -> bool {
    !legacy_only || is_raw_legacy(t)
}

/// An update that can be applied from the outside in, to every type or to legacy type variables
/// only. From where a call was made, by what it put there or by what it remembers, there is not
/// as far to go any more, so that the walk ends.
pub trait Descend<const LEGACY_ONLY: bool>: Update {
    /// How far the walk may still go from `t`, where `s` is remembered.
    spec fn rank(s: Self::State, t: TypeView) -> Rank;

    /// Where no call is made, no type outranks the type that holds it.
    proof fn lemma_rank(s: Self::State, t: TypeView)
        requires
            !is_called(LEGACY_ONLY, t),
        ensures
            forall|i: int|
                0 <= i < position_slots(t).len() ==> Self::rank(s, #[trigger] position_slots(t)[i])
                    <= Self::rank(s, t),
    ;

    /// A call raises the rank of no type.
    proof fn lemma_kept(s: Self::State, t: TypeView, c: TypeView)
        requires
            is_called(LEGACY_ONLY, t),
        ensures
            Self::rank(Self::step(s, t).0, c) <= Self::rank(s, c),
    ;

    /// What stands in a type after a call is simpler than what the call was made on.
    proof fn lemma_descends(s: Self::State, t: TypeView)
        requires
            is_called(LEGACY_ONLY, t),
        ensures
            forall|i: int|
                0 <= i < position_slots(Self::step(s, t).1).len() ==> descends(
                    Self::rank(s, t),
                    t,
                    Self::rank(
                        Self::step(s, t).0,
                        #[trigger] position_slots(Self::step(s, t).1)[i],
                    ),
                    position_slots(Self::step(s, t).1)[i],
                ),
    ;
}

/// The effect of a call on `t` itself, where one is made.
pub open spec fn head<U: Update>(s: U::State, legacy_only: bool, t: TypeView) -> (
    U::State,
    TypeView,
) {
    if is_called(legacy_only, t) {
        U::step(s, t)
    } else {
        (s, t)
    }
}

/// The effect of `D` on `t`, and then on what stands in the places of the result.
pub open spec fn descend<const LEGACY_ONLY: bool, D: Descend<LEGACY_ONLY>>(
    s: D::State,
    t: TypeView,
) -> (D::State, TypeView)
    decreases D::rank(s, t), t, position_slots(head::<D>(s, LEGACY_ONLY, t).1).len() + 1,
{
    let u = head::<D>(s, LEGACY_ONLY, t).1;
    let (s1, ts) = descend_slots::<LEGACY_ONLY, D>(s, t, position_slots(u).len());
    (s1, with_positions(u, ts))
}

/// The effect of [`descend`] on the first `n` places of what a call makes of `t`. A place is
/// looked into only if that leads on towards the end; [`lemma_descend_slots`] shows that it always
/// does.
pub open spec fn descend_slots<const LEGACY_ONLY: bool, D: Descend<LEGACY_ONLY>>(
    s: D::State,
    t: TypeView,
    n: nat,
) -> (D::State, Seq<TypeView>)
    decreases D::rank(s, t), t, n,
{
    let (s1, u) = head::<D>(s, LEGACY_ONLY, t);
    if n == 0 || n > position_slots(u).len() {
        (s1, Seq::empty())
    } else {
        let (s2, us) = descend_slots::<LEGACY_ONLY, D>(s, t, (n - 1) as nat);
        let c = position_slots(u)[n - 1];
        if descends(D::rank(s, t), t, D::rank(s2, c), c) {
            let (s3, x) = descend::<LEGACY_ONLY, D>(s2, c);
            (s3, us.push(x))
        } else {
            (s2, us.push(c))
        }
    }
}

/// What stands in the places of [`head`] is simpler than `t`, and no type has gained in rank.
proof fn lemma_head_descends<const LEGACY_ONLY: bool, D: Descend<LEGACY_ONLY>>(
    s: D::State,
    t: TypeView,
    c: TypeView,
)
    ensures
        forall|i: int|
            0 <= i < position_slots(head::<D>(s, LEGACY_ONLY, t).1).len() ==> descends(
                D::rank(s, t),
                t,
                D::rank(
                    head::<D>(s, LEGACY_ONLY, t).0,
                    #[trigger] position_slots(head::<D>(s, LEGACY_ONLY, t).1)[i],
                ),
                position_slots(head::<D>(s, LEGACY_ONLY, t).1)[i],
            ),
        D::rank(head::<D>(s, LEGACY_ONLY, t).0, c) <= D::rank(s, c),
{
    if is_called(LEGACY_ONLY, t) {
        D::lemma_descends(s, t);
        D::lemma_kept(s, t, c);
    } else {
        D::lemma_rank(s, t);
        lemma_type_smaller(t);
    }
}

/// The walk raises the rank of no type.
proof fn lemma_descend_kept<const LEGACY_ONLY: bool, D: Descend<LEGACY_ONLY>>(
    s: D::State,
    t: TypeView,
    c: TypeView,
)
    ensures
        D::rank(descend::<LEGACY_ONLY, D>(s, t).0, c) <= D::rank(s, c),
    decreases D::rank(s, t), t, position_slots(head::<D>(s, LEGACY_ONLY, t).1).len() + 1,
{
    let u = head::<D>(s, LEGACY_ONLY, t).1;
    lemma_descend_slots_kept::<LEGACY_ONLY, D>(s, t, position_slots(u).len(), c);
    lemma_head_descends::<LEGACY_ONLY, D>(s, t, c);
}

proof fn lemma_descend_slots_kept<const LEGACY_ONLY: bool, D: Descend<LEGACY_ONLY>>(
    s: D::State,
    t: TypeView,
    n: nat,
    c: TypeView,
)
    ensures
        D::rank(descend_slots::<LEGACY_ONLY, D>(s, t, n).0, c) <= D::rank(
            head::<D>(s, LEGACY_ONLY, t).0,
            c,
        ),
    decreases D::rank(s, t), t, n,
{
    let u = head::<D>(s, LEGACY_ONLY, t).1;
    if 0 < n <= position_slots(u).len() {
        lemma_descend_slots_kept::<LEGACY_ONLY, D>(s, t, (n - 1) as nat, c);
        let s2 = descend_slots::<LEGACY_ONLY, D>(s, t, (n - 1) as nat).0;
        let x = position_slots(u)[n - 1];
        if descends(D::rank(s, t), t, D::rank(s2, x), x) {
            lemma_descend_kept::<LEGACY_ONLY, D>(s2, x, c);
        }
    }
}

/// The walk goes into every place of what a call makes of `t`, one after the other.
pub proof fn lemma_descend_slots<const LEGACY_ONLY: bool, D: Descend<LEGACY_ONLY>>(
    s: D::State,
    t: TypeView,
    n: nat,
)
    requires
        n < position_slots(head::<D>(s, LEGACY_ONLY, t).1).len(),
    ensures
        ({
            let (s2, us) = descend_slots::<LEGACY_ONLY, D>(s, t, n);
            let c = position_slots(head::<D>(s, LEGACY_ONLY, t).1)[n as int];
            let (s3, x) = descend::<LEGACY_ONLY, D>(s2, c);
            &&& descends(D::rank(s, t), t, D::rank(s2, c), c)
            &&& descend_slots::<LEGACY_ONLY, D>(s, t, n + 1) == (s3, us.push(x))
        }),
{
    let c = position_slots(head::<D>(s, LEGACY_ONLY, t).1)[n as int];
    lemma_head_descends::<LEGACY_ONLY, D>(s, t, c);
    lemma_descend_slots_kept::<LEGACY_ONLY, D>(s, t, n, c);
}

/// The effect of [`descend`] on each of `ts`, one after the other.
pub open spec fn descend_each<const LEGACY_ONLY: bool, D: Descend<LEGACY_ONLY>>(
    s: D::State,
    ts: Seq<TypeView>,
) -> (D::State, Seq<TypeView>)
    decreases ts.len(),
{
    if ts.len() == 0 {
        (s, Seq::empty())
    } else {
        let (s1, us) = descend_each::<LEGACY_ONLY, D>(s, ts.drop_last());
        let (s2, u) = descend::<LEGACY_ONLY, D>(s1, ts.last());
        (s2, us.push(u))
    }
}

/// A call is made on `t` first, or, where only legacy type variables are asked for, if `t` is a
/// type variable, a type variable tuple or a parameter specification. The walk then goes into all
/// that the result holds, in order, unless that is `Self` or a literal.
pub proof fn lemma_descend_parts<const LEGACY_ONLY: bool, D: Descend<LEGACY_ONLY>>(
    s: D::State,
    t: TypeView,
)
    ensures
        descend::<LEGACY_ONLY, D>(s, t) == ({
            let (s1, u) = if !LEGACY_ONLY || t is TypeVar || t is TypeVarTuple || t is ParamSpec {
                D::step(s, t)
            } else {
                (s, t)
            };
            if u is SelfType || u is Literal {
                (s1, u)
            } else {
                let (s2, ts) = descend_each::<LEGACY_ONLY, D>(s1, slots_type(u));
                (s2, with_type(u, ts))
            }
        }),
{
    let (s1, u) = head::<D>(s, LEGACY_ONLY, t);
    let n = position_slots(u).len();
    lemma_descend_first::<LEGACY_ONLY, D>(s, t, n);
    assert(position_slots(u).take(n as int) =~= position_slots(u));
}

proof fn lemma_descend_first<const LEGACY_ONLY: bool, D: Descend<LEGACY_ONLY>>(
    s: D::State,
    t: TypeView,
    n: nat,
)
    requires
        n <= position_slots(head::<D>(s, LEGACY_ONLY, t).1).len(),
    ensures
        descend_slots::<LEGACY_ONLY, D>(s, t, n) == descend_each::<LEGACY_ONLY, D>(
            head::<D>(s, LEGACY_ONLY, t).0,
            position_slots(head::<D>(s, LEGACY_ONLY, t).1).take(n as int),
        ),
    decreases n,
{
    let m = position_slots(head::<D>(s, LEGACY_ONLY, t).1);
    if n > 0 {
        lemma_descend_first::<LEGACY_ONLY, D>(s, t, (n - 1) as nat);
        lemma_descend_slots::<LEGACY_ONLY, D>(s, t, (n - 1) as nat);
        assert(m.take(n as int).drop_last() =~= m.take(n - 1));
    }
}

impl Type {
    /// Moves the types in the places where a type variable can be written to the end of `out`.
    fn take_positions(&mut self, out: &mut Vec<Type>)
        ensures
            view_types(final(out)@) == view_types(old(out)@) + position_slots(old(self)@),
            forall|us: Seq<TypeView>|
                us.len() == position_slots(old(self)@).len() ==> with_positions(old(self)@, us)
                    == #[trigger] with_positions(final(self)@, us),
            position_slots(final(self)@).len() == position_slots(old(self)@).len(),
    {
        let ghost before = view_types(out@);
        proof {
            lemma_type_view(*self);
        }
        match &*self {
            Type::SelfType(_) | Type::Literal(_) => {
                assert(view_types(out@) =~= before + position_slots(self@));
            },
            _ => {
                let ghost t = self@;
                self.take_slots(out);
                proof {
                    lemma_kept_kind(t, self@);
                }
            },
        }
    }

    fn put_positions(&mut self, src: &mut Vec<Type>)
        requires
            position_slots(old(self)@).len() == old(src)@.len(),
        ensures
            final(self)@ == with_positions(old(self)@, view_types(old(src)@)),
    {
        proof {
            lemma_type_view(*self);
        }
        match &*self {
            Type::SelfType(_) | Type::Literal(_) => {},
            _ => {
                assert(back(view_types(src@), src@.len()) =~= view_types(src@));
                self.put_slots(src);
            },
        }
    }

    /// Calls `f` on the type, or only where it is a legacy type variable, and then does the same
    /// with what stands in the places of the result.
    pub(crate) fn transform_types_in_type_variable_positions<
        const LEGACY_ONLY: bool,
        D: Descend<LEGACY_ONLY>,
    >(&mut self, f: &mut D)
        ensures
            (final(f).state(), final(self)@) == descend::<LEGACY_ONLY, D>(
                old(f).state(),
                old(self)@,
            ),
        decreases D::rank(old(f).state(), old(self)@), old(self)@,
    {
        let ghost t = self@;
        let ghost s = f.state();
        if !LEGACY_ONLY || self.is_raw_legacy_type_variable() {
            f.call(self);
        }
        let ghost u = self@;
        let ghost m = position_slots(u);
        let mut ts: Vec<Type> = Vec::new();
        self.take_positions(&mut ts);
        let ghost blank = self@;
        assert(view_types(ts@) =~= m);
        let n = ts.len();
        for i in 0..n
            invariant
                t == old(self)@,
                s == old(f).state(),
                u == head::<D>(s, LEGACY_ONLY, t).1,
                m == position_slots(u),
                n == m.len(),
                ts@.len() == n,
                descend_slots::<LEGACY_ONLY, D>(s, t, i as nat).1.len() == i,
                f.state() == descend_slots::<LEGACY_ONLY, D>(s, t, i as nat).0,
                view_types(ts@) =~= descend_slots::<LEGACY_ONLY, D>(s, t, i as nat).1 + m.skip(
                    i as int,
                ),
            decreases n - i,
        {
            let ghost v = ts@;
            proof {
                lemma_descend_slots::<LEGACY_ONLY, D>(s, t, i as nat);
                assert(view_types(v)[i as int] == m[i as int]);
            }
            ts[i].transform_types_in_type_variable_positions::<LEGACY_ONLY, D>(f);
            proof {
                lemma_types_update(v, i as int, ts@[i as int]);
                assert(ts@ =~= v.update(i as int, ts@[i as int]));
                assert(m.skip(i as int).skip(1) =~= m.skip(i + 1));
            }
        }
        proof {
            assert(view_types(ts@) =~= descend_slots::<LEGACY_ONLY, D>(s, t, n as nat).1);
        }
        self.put_positions(&mut ts);
    }

    /// Calls `f` on each legacy type variable that the type mentions, and keeps what `f` makes of
    /// it. What is put in is looked into for more of them.
    pub fn transform_raw_legacy_type_variables<D: Descend<true>>(&mut self, f: &mut D)
        ensures
            (final(f).state(), final(self)@) == descend::<true, D>(old(f).state(), old(self)@),
    {
        self.transform_types_in_type_variable_positions::<true, D>(f);
    }
}

proof fn lemma_kept_kind(a: TypeView, b: TypeView)
    requires
        kept_type(a, b),
        !(a is SelfType || a is Literal),
    ensures
        !(b is SelfType || b is Literal),
{
    lemma_type_lens(a, slots_type(a), slots_type(a));
    let us = slots_type(a);
    assert(with_type(b, us) == a);
    reveal(with_type);
}

} // verus!
