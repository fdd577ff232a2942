//! Walks over all the types in a type.
use vstd::prelude::*;

use crate::data::Type;
use crate::slots::{back, lemma_type_smaller, slots_type, with_type};
use crate::view::{lemma_types_update, view_types, TypeView};
use crate::visit::kept_type;

verus! {

/// Something to be done to one type at a time, which may remember what it has seen.
pub trait Update: Sized {
    type State;

    /// What is remembered.
    spec fn state(&self) -> Self::State;

    /// What is remembered after a call on `t`, and what `t` becomes.
    spec fn step(s: Self::State, t: TypeView) -> (Self::State, TypeView);

    fn call(&mut self, t: &mut Type)
        ensures
            (final(self).state(), final(t)@) == Self::step(old(self).state(), old(t)@),
    ;
}

/// Something that looks at one type at a time and remembers what it has seen.
pub trait Observe<'a>: Sized {
    type State;

    /// What is remembered.
    spec fn state(&self) -> Self::State;

    /// What is remembered after a call on `t`.
    spec fn step(s: Self::State, t: TypeView) -> Self::State;

    fn call(&mut self, t: &'a Type)
        ensures
            final(self).state() == Self::step(old(self).state(), t@),
    ;
}

/// A question about one type at a time, whose answer may depend on what was asked before.
pub trait Test: Sized {
    type State;

    /// What is remembered.
    spec fn state(&self) -> Self::State;

    /// What is remembered after a call on `t`, and the answer for `t`.
    spec fn answer(s: Self::State, t: TypeView) -> (Self::State, bool);

    fn test(&mut self, t: &Type) -> (r: bool)
        ensures
            (final(self).state(), r) == Self::answer(old(self).state(), t@),
    ;
}

/// The effect of `U` on the first `n` of the types in `ts`, one after the other.
pub open spec fn each<U: Update>(s: U::State, ts: Seq<TypeView>, n: nat) -> (
    U::State,
    Seq<TypeView>,
)
    decreases n,
{
    if n == 0 {
        (s, Seq::empty())
    } else {
        let (s1, us) = each::<U>(s, ts, (n - 1) as nat);
        let (s2, u) = U::step(s1, ts[n - 1]);
        (s2, us.push(u))
    }
}

/// The effect of `U` on all the types in `t`, each after the types that it holds.
pub open spec fn walk<U: Update>(s: U::State, t: TypeView) -> (U::State, TypeView)
    decreases t, slots_type(t).len() + 1,
{
    let (s1, ts) = walk_slots::<U>(s, t, slots_type(t).len());
    U::step(s1, with_type(t, ts))
}

/// The effect of `U` on all the types in the first `n` slots of `t`.
pub open spec fn walk_slots<U: Update>(s: U::State, t: TypeView, n: nat) -> (
    U::State,
    Seq<TypeView>,
)
    decreases t, n,
{
    if n == 0 || n > slots_type(t).len() {
        (s, Seq::empty())
    } else {
        proof {
            lemma_type_smaller(t);
        }
        let (s1, us) = walk_slots::<U>(s, t, (n - 1) as nat);
        let (s2, u) = walk::<U>(s1, slots_type(t)[n - 1]);
        (s2, us.push(u))
    }
}

/// `t` with `g` applied to all the types in it, each after the types that it holds.
pub open spec fn bottom_up(t: TypeView, g: spec_fn(TypeView) -> TypeView) -> TypeView
    decreases t, 1nat,
{
    g(with_type(t, slots_bottom_up(t, g)))
}

/// The slots of `t` with `g` applied to all the types in them.
pub open spec fn slots_bottom_up(
    t: TypeView,
    g: spec_fn(TypeView) -> TypeView,
) -> Seq<TypeView>
    decreases t, 0nat,
{
    proof {
        lemma_type_smaller(t);
    }
    Seq::new(
        slots_type(t).len(),
        |i: int|
            if 0 <= i < slots_type(t).len() {
                bottom_up(slots_type(t)[i], g)
            } else {
                arbitrary()
            },
    )
}

/// `g` applied to all the types in each of `ts`.
pub open spec fn all_bottom_up(
    ts: Seq<TypeView>,
    g: spec_fn(TypeView) -> TypeView,
) -> Seq<TypeView> {
    Seq::new(ts.len(), |i: int| bottom_up(ts[i], g))
}

/// [`bottom_up`] treats the slots first, and then the type itself.
pub proof fn lemma_bottom_up(t: TypeView, g: spec_fn(TypeView) -> TypeView)
    ensures
        bottom_up(t, g) == g(with_type(t, all_bottom_up(slots_type(t), g))),
{
    assert(slots_bottom_up(t, g) =~= all_bottom_up(slots_type(t), g));
}

/// A walk with `g` walks each of the types that `t` holds, puts the results in their places, and
/// applies `g` to what that gives. It goes into every type, whatever its kind.
pub proof fn lemma_bottom_up_parts(t: TypeView, g: spec_fn(TypeView) -> TypeView)
    ensures
        bottom_up(t, g) == g(
            with_type(t, slots_type(t).map_values(|x: TypeView| bottom_up(x, g))),
        ),
{
    assert(slots_bottom_up(t, g) =~= slots_type(t).map_values(|x: TypeView| bottom_up(x, g)));
}

/// The effect of walks over each of `ts`, one after the other.
pub open spec fn walk_each<U: Update>(s: U::State, ts: Seq<TypeView>) -> (U::State, Seq<TypeView>)
    decreases ts.len(),
{
    if ts.len() == 0 {
        (s, Seq::empty())
    } else {
        let (s1, us) = walk_each::<U>(s, ts.drop_last());
        let (s2, u) = walk::<U>(s1, ts.last());
        (s2, us.push(u))
    }
}

/// A walk walks the types that `t` holds one after the other, whatever kind of type `t` is, and
/// makes its call on `t` last, with the results in their places.
pub proof fn lemma_walk_parts<U: Update>(s: U::State, t: TypeView)
    ensures
        walk::<U>(s, t) == U::step(
            walk_each::<U>(s, slots_type(t)).0,
            with_type(t, walk_each::<U>(s, slots_type(t)).1),
        ),
{
    lemma_walk_first::<U>(s, t, slots_type(t).len());
    assert(slots_type(t).take(slots_type(t).len() as int) =~= slots_type(t));
}

proof fn lemma_walk_first<U: Update>(s: U::State, t: TypeView, n: nat)
    requires
        n <= slots_type(t).len(),
    ensures
        walk_slots::<U>(s, t, n) == walk_each::<U>(s, slots_type(t).take(n as int)),
    decreases n,
{
    if n > 0 {
        lemma_walk_first::<U>(s, t, (n - 1) as nat);
        assert(slots_type(t).take(n as int).drop_last() =~= slots_type(t).take(n - 1));
    }
}

/// Without memory, one call on each element of a sequence is a map.
pub proof fn lemma_each_pure<U: Update>(
    s: U::State,
    ts: Seq<TypeView>,
    g: spec_fn(TypeView) -> TypeView,
)
    requires
        forall|x: TypeView| #[trigger] U::step(s, x) == (s, g(x)),
    ensures
        each::<U>(s, ts, ts.len()) == (s, ts.map_values(g)),
{
    lemma_each_first::<U>(s, ts, g, ts.len());
    assert(ts.take(ts.len() as int) =~= ts);
}

proof fn lemma_each_first<U: Update>(
    s: U::State,
    ts: Seq<TypeView>,
    g: spec_fn(TypeView) -> TypeView,
    n: nat,
)
    requires
        forall|x: TypeView| #[trigger] U::step(s, x) == (s, g(x)),
        n <= ts.len(),
    ensures
        each::<U>(s, ts, n) == (s, ts.take(n as int).map_values(g)),
    decreases n,
{
    if n > 0 {
        lemma_each_first::<U>(s, ts, g, (n - 1) as nat);
        assert(ts.take(n as int).map_values(g) =~= ts.take(n - 1).map_values(g).push(
            g(ts[n - 1]),
        ));
    } else {
        assert(ts.take(0).map_values(g) =~= Seq::empty());
    }
}

/// An update that remembers nothing new and turns each type `x` into `g(x)` takes `t` to
/// `bottom_up(t, g)`.
pub proof fn lemma_walk_pure<U: Update>(
    s: U::State,
    t: TypeView,
    g: spec_fn(TypeView) -> TypeView,
)
    requires
        forall|x: TypeView| #[trigger] U::step(s, x) == (s, g(x)),
    ensures
        walk::<U>(s, t) == (s, bottom_up(t, g)),
    decreases t, slots_type(t).len() + 1,
{
    lemma_walk_slots_pure::<U>(s, t, g, slots_type(t).len());
    lemma_bottom_up(t, g);
    assert(all_bottom_up(slots_type(t), g).take(slots_type(t).len() as int) =~= all_bottom_up(
        slots_type(t),
        g,
    ));
}

proof fn lemma_walk_slots_pure<U: Update>(
    s: U::State,
    t: TypeView,
    g: spec_fn(TypeView) -> TypeView,
    n: nat,
)
    requires
        forall|x: TypeView| #[trigger] U::step(s, x) == (s, g(x)),
        n <= slots_type(t).len(),
    ensures
        walk_slots::<U>(s, t, n) == (s, all_bottom_up(slots_type(t), g).take(n as int)),
    decreases t, n,
{
    let all = all_bottom_up(slots_type(t), g);
    if n > 0 {
        lemma_type_smaller(t);
        lemma_walk_slots_pure::<U>(s, t, g, (n - 1) as nat);
        lemma_walk_pure::<U>(s, slots_type(t)[n - 1], g);
        assert(all.take(n as int) =~= all.take(n - 1).push(all[n - 1]));
    } else {
        assert(all.take(0) =~= Seq::empty());
    }
}

impl Type {
    /// Calls `f` on each type that the type holds directly, in order, and keeps what `f` makes
    /// of it.
    pub fn recurse_mut<U: Update>(&mut self, f: &mut U)
        ensures
            ({
                let slots = slots_type(old(self)@);
                let (s, ts) = each::<U>(old(f).state(), slots, slots.len());
                final(f).state() == s && final(self)@ == with_type(old(self)@, ts)
            }),
    {
        let ghost t = self@;
        let ghost s = f.state();
        let ghost m = slots_type(t);
        let mut ts: Vec<Type> = Vec::new();
        self.take_slots(&mut ts);
        let ghost blank = self@;
        assert(view_types(ts@) =~= m);
        let n = ts.len();
        for i in 0..n
            invariant
                n == m.len(),
                ts@.len() == n,
                each::<U>(s, m, i as nat).1.len() == i,
                f.state() == each::<U>(s, m, i as nat).0,
                view_types(ts@) =~= each::<U>(s, m, i as nat).1 + m.skip(i as int),
        {
            let ghost v = ts@;
            assert(view_types(v)[i as int] == m[i as int]);
            f.call(&mut ts[i]);
            proof {
                lemma_types_update(v, i as int, ts@[i as int]);
                assert(ts@ =~= v.update(i as int, ts@[i as int]));
                assert(m.skip(i as int).skip(1) =~= m.skip(i + 1));
            }
        }
        assert(view_types(ts@) =~= each::<U>(s, m, n as nat).1);
        proof {
            assert(back(view_types(ts@), n as nat) =~= view_types(ts@));
            assert(kept_type(t, blank));
        }
        self.put_slots(&mut ts);
    }

    /// Visits every type, with the guarantee that a type is visited after the types that it
    /// holds, and keeps what `f` makes of each.
    pub fn transform_mut<U: Update>(&mut self, f: &mut U)
        ensures
            (final(f).state(), final(self)@) == walk::<U>(old(f).state(), old(self)@),
        decreases old(self)@,
    {
        let ghost t = self@;
        let ghost s = f.state();
        let ghost m = slots_type(t);
        let mut ts: Vec<Type> = Vec::new();
        self.take_slots(&mut ts);
        let ghost blank = self@;
        assert(view_types(ts@) =~= m);
        let n = ts.len();
        for i in 0..n
            invariant
                n == m.len(),
                m == slots_type(t),
                t == old(self)@,
                ts@.len() == n,
                walk_slots::<U>(s, t, i as nat).1.len() == i,
                f.state() == walk_slots::<U>(s, t, i as nat).0,
                view_types(ts@) =~= walk_slots::<U>(s, t, i as nat).1 + m.skip(i as int),
            decreases n - i,
        {
            let ghost v = ts@;
            proof {
                lemma_type_smaller(t);
                assert(view_types(v)[i as int] == m[i as int]);
            }
            ts[i].transform_mut(f);
            proof {
                lemma_types_update(v, i as int, ts@[i as int]);
                assert(ts@ =~= v.update(i as int, ts@[i as int]));
                assert(m.skip(i as int).skip(1) =~= m.skip(i + 1));
            }
        }
        assert(view_types(ts@) =~= walk_slots::<U>(s, t, n as nat).1);
        proof {
            assert(back(view_types(ts@), n as nat) =~= view_types(ts@));
            assert(kept_type(t, blank));
        }
        self.put_slots(&mut ts);
        f.call(self);
    }

    /// [`Type::transform_mut`] on a type that is given away.
    pub fn transform<U: Update>(self, f: &mut U) -> (r: Type)
        ensures
            (final(f).state(), r@) == walk::<U>(old(f).state(), self@),
    {
        let mut ty = self;
        ty.transform_mut(f);
        ty
    }
}

} // verus!
