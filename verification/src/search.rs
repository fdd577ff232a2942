//! Looking through all the types in a type.
use vstd::prelude::*;

use crate::data::Type;
use crate::names::Var;
use crate::slots::{lemma_type_smaller, reached_type};
use crate::transform::{Observe, Test};
use crate::view::{lemma_type_view, TypeView};
use crate::visit::view_refs;

verus! {

/// All the types in `t`, each after the types that it holds.
pub open spec fn post_order(t: TypeView) -> Seq<TypeView>
    decreases t, reached_type(t).len() + 1,
{
    post_order_first(t, reached_type(t).len()).push(t)
}

/// All the types in the first `n` of the types that `t` holds.
pub open spec fn post_order_first(t: TypeView, n: nat) -> Seq<TypeView>
    decreases t, n,
{
    if n == 0 || n > reached_type(t).len() {
        Seq::empty()
    } else {
        proof {
            lemma_type_smaller(t);
        }
        post_order_first(t, (n - 1) as nat) + post_order(reached_type(t)[n - 1])
    }
}

/// The types in `t` are those in the types that it holds, in order, whatever kind of type `t` is,
/// and then `t` itself.
pub proof fn lemma_post_order_parts(t: TypeView)
    ensures
        post_order(t) == reached_type(t).map_values(|x: TypeView| post_order(x)).flatten().push(t),
{
    lemma_post_order_each(t, reached_type(t).len());
    assert(reached_type(t).take(reached_type(t).len() as int) =~= reached_type(t));
}

proof fn lemma_post_order_each(t: TypeView, n: nat)
    requires
        n <= reached_type(t).len(),
    ensures
        post_order_first(t, n) == reached_type(t).take(n as int).map_values(
            |x: TypeView| post_order(x),
        ).flatten(),
    decreases n,
{
    let f = |x: TypeView| post_order(x);
    if n > 0 {
        let (head, x) = (reached_type(t).take(n - 1), reached_type(t)[n - 1]);
        lemma_post_order_each(t, (n - 1) as nat);
        assert(reached_type(t).take(n as int) =~= head.push(x));
        assert(head.push(x).map_values(f) =~= head.map_values(f).push(f(x)));
        head.map_values(f).lemma_flatten_push(f(x));
    } else {
        assert(reached_type(t).take(0).map_values(f) =~= Seq::empty());
    }
}

/// What `O` remembers after it has seen `ts`, one after the other.
pub open spec fn seen<'a, O: Observe<'a>>(s: O::State, ts: Seq<TypeView>) -> O::State
    decreases ts.len(),
{
    if ts.len() == 0 {
        s
    } else {
        O::step(seen::<O>(s, ts.drop_last()), ts.last())
    }
}

proof fn lemma_seen_append<'a, O: Observe<'a>>(s: O::State, a: Seq<TypeView>, b: Seq<TypeView>)
    ensures
        seen::<O>(s, a + b) == seen::<O>(seen::<O>(s, a), b),
    decreases b.len(),
{
    if b.len() == 0 {
        assert(a + b =~= a);
    } else {
        assert((a + b).drop_last() =~= a + b.drop_last());
        lemma_seen_append::<O>(s, a, b.drop_last());
    }
}

/// One call after the other is a fold.
pub proof fn lemma_seen_fold<'a, O: Observe<'a>>(s: O::State, ts: Seq<TypeView>)
    ensures
        seen::<O>(s, ts) == ts.fold_left(s, |s: O::State, t: TypeView| O::step(s, t)),
    decreases ts.len(),
{
    if ts.len() > 0 {
        lemma_seen_fold::<O>(s, ts.drop_last());
    }
}

/// What `P` remembers, and whether it gave the answer yes, after it was asked about `t` and then
/// about what `t` holds, each type before the types that it holds. After a yes it is not asked
/// again.
pub open spec fn any_walk<P: Test>(s: P::State, t: TypeView) -> (P::State, bool)
    decreases t, reached_type(t).len() + 1,
{
    let (s1, found) = P::answer(s, t);
    if found {
        (s1, true)
    } else {
        any_first::<P>(s1, t, reached_type(t).len())
    }
}

/// The same for the first `n` of the types that `t` holds.
pub open spec fn any_first<P: Test>(s: P::State, t: TypeView, n: nat) -> (P::State, bool)
    decreases t, n,
{
    if n == 0 || n > reached_type(t).len() {
        (s, false)
    } else {
        proof {
            lemma_type_smaller(t);
        }
        let (s1, found) = any_first::<P>(s, t, (n - 1) as nat);
        if found {
            (s1, true)
        } else {
            any_walk::<P>(s1, reached_type(t)[n - 1])
        }
    }
}

/// The same for each of `ts`, one after the other, up to the first yes.
pub open spec fn any_each<P: Test>(s: P::State, ts: Seq<TypeView>) -> (P::State, bool)
    decreases ts.len(),
{
    if ts.len() == 0 {
        (s, false)
    } else {
        let (s1, found) = any_each::<P>(s, ts.drop_last());
        if found {
            (s1, true)
        } else {
            any_walk::<P>(s1, ts.last())
        }
    }
}

/// A question is asked about `t` first, and after a no about all that `t` holds, in order, whatever
/// kind of type `t` is; after a yes it is not asked again.
pub proof fn lemma_any_parts<P: Test>(s: P::State, t: TypeView)
    ensures
        any_walk::<P>(s, t) == if P::answer(s, t).1 {
            P::answer(s, t)
        } else {
            any_each::<P>(P::answer(s, t).0, reached_type(t))
        },
{
    lemma_any_each::<P>(P::answer(s, t).0, t, reached_type(t).len());
    assert(reached_type(t).take(reached_type(t).len() as int) =~= reached_type(t));
}

proof fn lemma_any_each<P: Test>(s: P::State, t: TypeView, n: nat)
    requires
        n <= reached_type(t).len(),
    ensures
        any_first::<P>(s, t, n) == any_each::<P>(s, reached_type(t).take(n as int)),
    decreases n,
{
    if n > 0 {
        lemma_any_each::<P>(s, t, (n - 1) as nat);
        assert(reached_type(t).take(n as int).drop_last() =~= reached_type(t).take(n - 1));
    }
}

proof fn lemma_any_first_stops<P: Test>(s: P::State, t: TypeView, n: nat, m: nat)
    requires
        n <= m <= reached_type(t).len(),
        any_first::<P>(s, t, n).1,
    ensures
        any_first::<P>(s, t, m) == any_first::<P>(s, t, n),
    decreases m,
{
    if n < m {
        lemma_any_first_stops::<P>(s, t, n, (m - 1) as nat);
    }
}

/// Does `p` hold of any of `ts`?
pub open spec fn holds_among(p: spec_fn(TypeView) -> bool, ts: Seq<TypeView>) -> bool {
    exists|k: int| 0 <= k < ts.len() && p(#[trigger] ts[k])
}

pub(crate) proof fn lemma_holds_append(
    p: spec_fn(TypeView) -> bool,
    a: Seq<TypeView>,
    b: Seq<TypeView>,
)
    ensures
        holds_among(p, a + b) == (holds_among(p, a) || holds_among(p, b)),
{
    if holds_among(p, a) {
        let k = choose|k: int| 0 <= k < a.len() && p(#[trigger] a[k]);
        assert((a + b)[k] == a[k]);
    }
    if holds_among(p, b) {
        let k = choose|k: int| 0 <= k < b.len() && p(#[trigger] b[k]);
        assert((a + b)[a.len() + k] == b[k]);
    }
    if holds_among(p, a + b) {
        let k = choose|k: int| 0 <= k < (a + b).len() && p(#[trigger] (a + b)[k]);
        if k < a.len() {
            assert(p(a[k]));
        } else {
            assert(p(b[k - a.len()]));
        }
    }
}

/// A question that remembers nothing is answered yes somewhere just if it holds of some type in
/// `t`, in whatever order the types are looked at.
pub proof fn lemma_any_pure<P: Test>(s: P::State, t: TypeView, p: spec_fn(TypeView) -> bool)
    requires
        forall|x: TypeView| #[trigger] P::answer(s, x) == (s, p(x)),
    ensures
        any_walk::<P>(s, t) == (s, holds_among(p, post_order(t))),
    decreases t, reached_type(t).len() + 1,
{
    let head = post_order_first(t, reached_type(t).len());
    assert(P::answer(s, t) == (s, p(t)));
    lemma_any_first_pure::<P>(s, t, p, reached_type(t).len());
    assert(post_order(t) =~= head + seq![t]);
    lemma_holds_append(p, head, seq![t]);
    assert(p(t) == holds_among(p, seq![t])) by {
        assert(seq![t][0] == t);
    }
}

proof fn lemma_any_first_pure<P: Test>(
    s: P::State,
    t: TypeView,
    p: spec_fn(TypeView) -> bool,
    n: nat,
)
    requires
        forall|x: TypeView| #[trigger] P::answer(s, x) == (s, p(x)),
        n <= reached_type(t).len(),
    ensures
        any_first::<P>(s, t, n) == (s, holds_among(p, post_order_first(t, n))),
    decreases t, n,
{
    if n > 0 {
        lemma_type_smaller(t);
        lemma_any_first_pure::<P>(s, t, p, (n - 1) as nat);
        lemma_any_pure::<P>(s, reached_type(t)[n - 1], p);
        lemma_holds_append(
            p,
            post_order_first(t, (n - 1) as nat),
            post_order(reached_type(t)[n - 1]),
        );
    }
}

/// The variables among `ts`, in order.
pub open spec fn vars_among(ts: Seq<TypeView>) -> Seq<Var>
    decreases ts.len(),
{
    if ts.len() == 0 {
        Seq::empty()
    } else {
        match ts.last() {
            TypeView::Var(v) => vars_among(ts.drop_last()).push(v),
            _ => vars_among(ts.drop_last()),
        }
    }
}

/// Of types, the variables are kept, in order, and the others left out.
pub proof fn lemma_vars_among(ts: Seq<TypeView>)
    ensures
        vars_among(ts) == ts.filter_map(
            |t: TypeView|
                match t {
                    TypeView::Var(v) => Some(v),
                    _ => None,
                },
        ),
    decreases ts.len(),
{
    if ts.len() > 0 {
        lemma_vars_among(ts.drop_last());
    }
}

/// Does `v` appear in `t`, at any depth?
pub open spec fn appears(v: Var, t: TypeView) -> bool
    decreases t,
{
    t == TypeView::Var(v) || exists|i: int|
        {
            proof {
                lemma_type_smaller(t);
            }
            if 0 <= i < reached_type(t).len() {
                appears(v, #[trigger] reached_type(t)[i])
            } else {
                false
            }
        }
}

proof fn lemma_vars_append(a: Seq<TypeView>, b: Seq<TypeView>)
    ensures
        vars_among(a + b) == vars_among(a) + vars_among(b),
    decreases b.len(),
{
    if b.len() == 0 {
        assert(a + b =~= a);
        assert(vars_among(a) + vars_among(b) =~= vars_among(a));
    } else {
        assert((a + b).drop_last() =~= a + b.drop_last());
        lemma_vars_append(a, b.drop_last());
        assert(vars_among(a + b) =~= vars_among(a) + vars_among(b));
    }
}

proof fn lemma_either_contains(a: Seq<Var>, b: Seq<Var>, v: Var)
    ensures
        (a + b).contains(v) == (a.contains(v) || b.contains(v)),
{
    if a.contains(v) {
        let i = choose|i: int| 0 <= i < a.len() && a[i] == v;
        assert((a + b)[i] == v);
    }
    if b.contains(v) {
        let i = choose|i: int| 0 <= i < b.len() && b[i] == v;
        assert((a + b)[a.len() + i] == v);
    }
}

/// The variables that are collected are those that appear in the type, and no others.
pub proof fn lemma_all_vars_appear(t: TypeView, v: Var)
    ensures
        vars_among(post_order(t)).contains(v) == appears(v, t),
    decreases t, reached_type(t).len() + 1,
{
    let n = reached_type(t).len();
    let (a, b) = (post_order_first(t, n), seq![t]);
    assert(post_order(t) =~= a + b);
    lemma_vars_append(a, b);
    lemma_either_contains(vars_among(a), vars_among(b), v);
    lemma_vars_of_first(t, n, v);
    assert(b.drop_last() =~= Seq::empty());
    assert(vars_among(b.drop_last()) =~= Seq::empty());
    if t is Var {
        assert(vars_among(b) =~= seq![t->Var_0]);
        assert(vars_among(b)[0] == t->Var_0);
    }
    assert(vars_among(b).contains(v) == (t == TypeView::Var(v)));
}

proof fn lemma_vars_of_first(t: TypeView, n: nat, v: Var)
    requires
        n <= reached_type(t).len(),
    ensures
        vars_among(post_order_first(t, n)).contains(v) == exists|i: int|
            0 <= i < n && appears(v, #[trigger] reached_type(t)[i]),
    decreases t, n,
{
    if n > 0 {
        lemma_type_smaller(t);
        let x = reached_type(t)[n - 1];
        let (a, b) = (post_order_first(t, (n - 1) as nat), post_order(x));
        lemma_vars_append(a, b);
        lemma_either_contains(vars_among(a), vars_among(b), v);
        lemma_vars_of_first(t, (n - 1) as nat, v);
        lemma_all_vars_appear(x, v);
    }
}

/// Keeps the variables that it sees.
struct VarList {
    vars: Vec<Var>,
}

impl<'a> Observe<'a> for VarList {
    type State = Seq<Var>;

    closed spec fn state(&self) -> Seq<Var> {
        self.vars@
    }

    open spec fn step(s: Seq<Var>, t: TypeView) -> Seq<Var> {
        match t {
            TypeView::Var(v) => s.push(v),
            _ => s,
        }
    }

    fn call(&mut self, t: &'a Type) {
        proof {
            lemma_type_view(*t);
        }
        if let Type::Var(v) = t {
            self.vars.push(*v);
        }
    }
}

proof fn lemma_seen_vars(s: Seq<Var>, ts: Seq<TypeView>)
    ensures
        seen::<VarList>(s, ts) == s + vars_among(ts),
    decreases ts.len(),
{
    if ts.len() == 0 {
        assert(s + vars_among(ts) =~= s);
    } else {
        lemma_seen_vars(s, ts.drop_last());
        assert(seen::<VarList>(s, ts) =~= s + vars_among(ts));
    }
}

/// Whatever `t` holds is seen before `t`: each type at position `k` of [`post_order`] comes
/// after every type that it holds.
pub proof fn lemma_post_order_children_first(t: TypeView, k: int, j: int)
    requires
        0 <= k < post_order(t).len(),
        0 <= j < reached_type(post_order(t)[k]).len(),
    ensures
        exists|i: int| 0 <= i < k
            && #[trigger] post_order(t)[i] == reached_type(post_order(t)[k])[j],
    decreases t, reached_type(t).len() + 1,
{
    let n = reached_type(t).len();
    let head = post_order_first(t, n);
    if k == head.len() {
        assert(post_order(t)[k] == t);
        lemma_first_has_child(t, n, j);
        let i = choose|i: int| 0 <= i < head.len() && #[trigger] head[i] == reached_type(t)[j];
        assert(post_order(t)[i] == reached_type(t)[j]);
    } else {
        assert(post_order(t)[k] == head[k]);
        lemma_first_children_first(t, n, k, j);
        let i = choose|i: int| 0 <= i < k && #[trigger] head[i] == reached_type(head[k])[j];
        assert(post_order(t)[i] == head[i]);
    }
}

/// Each type that `t` holds is among the types of [`post_order_first`].
proof fn lemma_first_has_child(t: TypeView, n: nat, j: int)
    requires
        0 <= j < n <= reached_type(t).len(),
    ensures
        exists|i: int|
            0 <= i < post_order_first(t, n).len() && #[trigger] post_order_first(t, n)[i]
                == reached_type(t)[j],
    decreases n,
{
    let (a, b) = (post_order_first(t, (n - 1) as nat), post_order(reached_type(t)[n - 1]));
    assert(post_order_first(t, n) == a + b);
    if j == n - 1 {
        assert(b.last() == reached_type(t)[j]);
        assert((a + b)[a.len() + b.len() - 1] == reached_type(t)[j]);
    } else {
        lemma_first_has_child(t, (n - 1) as nat, j);
        let i = choose|i: int| 0 <= i < a.len() && #[trigger] a[i] == reached_type(t)[j];
        assert((a + b)[i] == reached_type(t)[j]);
    }
}

proof fn lemma_first_children_first(t: TypeView, n: nat, k: int, j: int)
    requires
        n <= reached_type(t).len(),
        0 <= k < post_order_first(t, n).len(),
        0 <= j < reached_type(post_order_first(t, n)[k]).len(),
    ensures
        exists|i: int|
            0 <= i < k && #[trigger] post_order_first(t, n)[i] == reached_type(
                post_order_first(t, n)[k],
            )[j],
    decreases t, n,
{
    lemma_type_smaller(t);
    let (a, b) = (post_order_first(t, (n - 1) as nat), post_order(reached_type(t)[n - 1]));
    let all = post_order_first(t, n);
    assert(all == a + b);
    if k < a.len() {
        assert(all[k] == a[k]);
        lemma_first_children_first(t, (n - 1) as nat, k, j);
        let i = choose|i: int| 0 <= i < k && #[trigger] a[i] == reached_type(a[k])[j];
        assert(all[i] == a[i]);
    } else {
        assert(all[k] == b[k - a.len()]);
        lemma_post_order_children_first(reached_type(t)[n - 1], k - a.len(), j);
        let i = choose|i: int|
            0 <= i < k - a.len() && #[trigger] b[i] == reached_type(all[k])[j];
        assert(all[a.len() + i] == b[i]);
    }
}

impl Type {
    /// Visits every type, with the guarantee that a type is visited after the types that it
    /// holds.
    pub fn universe<'a, O: Observe<'a>>(&'a self, f: &mut O)
        ensures
            final(f).state() == seen::<O>(old(f).state(), post_order(self@)),
        decreases self@,
    {
        let ghost t = self@;
        let ghost s = f.state();
        let mut kids: Vec<&'a Type> = Vec::new();
        self.recurse(&mut kids);
        assert(view_refs(kids@) =~= reached_type(t));
        let n = kids.len();
        for i in 0..n
            invariant
                t == self@,
                n == kids@.len(),
                view_refs(kids@) == reached_type(t),
                f.state() == seen::<O>(s, post_order_first(t, i as nat)),
            decreases n - i,
        {
            proof {
                lemma_type_smaller(t);
                assert(view_refs(kids@)[i as int] == (*kids@[i as int])@);
                lemma_seen_append::<O>(
                    s,
                    post_order_first(t, i as nat),
                    post_order(reached_type(t)[i as int]),
                );
            }
            kids[i].universe(f);
        }
        f.call(self);
        assert(post_order(t).drop_last() =~= post_order_first(t, n as nat));
    }

    /// Does the predicate hold of this type or of any type in it?
    pub fn any<P: Test>(&self, predicate: &mut P) -> (r: bool)
        ensures
            (final(predicate).state(), r) == any_walk::<P>(old(predicate).state(), self@),
        decreases self@,
    {
        if predicate.test(self) {
            return true;
        }
        let ghost t = self@;
        let ghost s = predicate.state();
        let mut kids: Vec<&Type> = Vec::new();
        self.recurse(&mut kids);
        assert(view_refs(kids@) =~= reached_type(t));
        let n = kids.len();
        for i in 0..n
            invariant
                t == self@,
                n == kids@.len(),
                view_refs(kids@) == reached_type(t),
                (predicate.state(), false) == any_first::<P>(s, t, i as nat),
                any_walk::<P>(old(predicate).state(), t) == any_first::<P>(s, t, n as nat),
            decreases n - i,
        {
            proof {
                lemma_type_smaller(t);
                assert(view_refs(kids@)[i as int] == (*kids@[i as int])@);
            }
            if kids[i].any(predicate) {
                proof {
                    lemma_any_first_stops::<P>(s, t, (i + 1) as nat, n as nat);
                }
                return true;
            }
        }
        false
    }

    /// All variables that appear in the type, in the order in which a walk comes upon them. This
    /// looks at every type that the type holds, at any depth;
    /// [`Type::collect_maybe_placeholder_vars`] looks at fewer.
    pub fn collect_all_vars(&self) -> (r: Vec<Var>)
        ensures
            r@ == vars_among(post_order(self@)),
    {
        let mut list = VarList { vars: Vec::new() };
        self.universe(&mut list);
        proof {
            lemma_seen_vars(Seq::empty(), post_order(self@));
            assert(Seq::empty() + vars_among(post_order(self@)) =~= vars_among(post_order(self@)));
        }
        list.vars
    }
}

} // verus!
