//! Keeping types from growing without bound.
use vstd::prelude::*;

use crate::data::Type;
use crate::slots::{
    back, lemma_type_lens, lemma_type_smaller, slots_type, slots_union, with_type, with_union,
};
use crate::styles::AnyStyle;
use crate::view::{
    lemma_type_view, lemma_types_update, lemma_union_view, view_types, TypeView, UnionView,
};
use crate::visit::kept_type;

verus! {

/// Is the type one of those whose nesting is counted?
pub open spec fn is_container(t: TypeView) -> bool {
    t is ClassType || t is Tuple
}

/// Is the type a union of more than `width` members?
pub open spec fn is_wide(t: TypeView, width: nat) -> bool {
    t matches TypeView::Union(u) && u.members.len() > width
}

/// How many containers may still be nested in the slots of `t`, if `remaining` may be in its
/// place.
pub open spec fn budget(t: TypeView, remaining: nat) -> nat {
    if is_container(t) && remaining > 0 {
        (remaining - 1) as nat
    } else {
        remaining
    }
}

/// `t` cut down to `remaining` nested containers, and to unions of at most `width` members in
/// the types that it holds. What is cut off becomes `any`.
pub open spec fn truncated(t: TypeView, remaining: nat, width: nat, any: TypeView) -> TypeView
    decreases t, 1nat,
{
    if is_container(t) && remaining == 0 {
        any
    } else {
        with_type(t, truncated_slots(t, budget(t, remaining), width, any))
    }
}

/// The slots of `t`, each cut down to `remaining` nested containers and to unions of at most
/// `width` members.
pub open spec fn truncated_slots(
    t: TypeView,
    remaining: nat,
    width: nat,
    any: TypeView,
) -> Seq<TypeView>
    decreases t, 0nat,
{
    proof {
        lemma_type_smaller(t);
    }
    Seq::new(
        slots_type(t).len(),
        |i: int|
            if 0 <= i < slots_type(t).len() {
                truncated_inner(slots_type(t)[i], remaining, width, any)
            } else {
                arbitrary()
            },
    )
}

/// Like [`truncated`], but `t` itself becomes `any` if it is a union of more than `width`
/// members.
pub open spec fn truncated_inner(t: TypeView, remaining: nat, width: nat, any: TypeView) -> TypeView
    decreases t, 2nat,
{
    if is_wide(t, width) {
        any
    } else {
        truncated(t, remaining, width, any)
    }
}

/// Are at most `remaining` class types and tuples nested in `t`, and has every union that `t` holds
/// at any depth at most `width` members?
pub open spec fn fits(t: TypeView, remaining: nat, width: nat) -> bool
    decreases t,
{
    &&& (t is ClassType || t is Tuple) ==> remaining > 0
    &&& forall|i: int|
        if 0 <= i < slots_type(t).len() {
            proof {
                lemma_type_smaller(t);
            }
            &&& ((#[trigger] slots_type(t)[i]) matches TypeView::Union(u) ==> u.members.len()
                <= width)
            &&& fits(
                slots_type(t)[i],
                if t is ClassType || t is Tuple {
                    (remaining - 1) as nat
                } else {
                    remaining
                },
                width,
            )
        } else {
            true
        }
}

/// Only class types and tuples use up depth. One of them for which no level is left becomes `any`;
/// otherwise what it holds has one level less. Any other type is transparent: what it holds has
/// the same number of levels. In either case each union of more than `width` members that is held
/// becomes `any`, and nothing but what is held changes.
pub proof fn lemma_truncated_parts(t: TypeView, remaining: nat, width: nat, any: TypeView)
    ensures
        (t is ClassType || t is Tuple) && remaining == 0 ==> truncated(t, remaining, width, any)
            == any,
        (t is ClassType || t is Tuple) && remaining > 0 ==> truncated(t, remaining, width, any)
            == with_type(
            t,
            slots_type(t).map_values(
                |x: TypeView|
                    if x is Union && x->Union_0.members.len() > width {
                        any
                    } else {
                        truncated(x, (remaining - 1) as nat, width, any)
                    },
            ),
        ),
        !(t is ClassType || t is Tuple) ==> truncated(t, remaining, width, any) == with_type(
            t,
            slots_type(t).map_values(
                |x: TypeView|
                    if x is Union && x->Union_0.members.len() > width {
                        any
                    } else {
                        truncated(x, remaining, width, any)
                    },
            ),
        ),
{
    let ts = truncated_slots(t, budget(t, remaining), width, any);
    if t is ClassType || t is Tuple {
        if remaining > 0 {
            assert(ts =~= slots_type(t).map_values(
                |x: TypeView|
                    if x is Union && x->Union_0.members.len() > width {
                        any
                    } else {
                        truncated(x, (remaining - 1) as nat, width, any)
                    },
            ));
        }
    } else {
        assert(ts =~= slots_type(t).map_values(
            |x: TypeView|
                if x is Union && x->Union_0.members.len() > width {
                    any
                } else {
                    truncated(x, remaining, width, any)
                },
        ));
    }
}

proof fn lemma_with_kind(m: TypeView, ts: Seq<TypeView>, width: nat)
    requires
        ts.len() == slots_type(m).len(),
    ensures
        is_container(with_type(m, ts)) == is_container(m),
        is_wide(with_type(m, ts), width) == is_wide(m, width),
        with_type(m, ts) is Union == m is Union,
{
    reveal(slots_type);
    reveal(with_type);
    reveal(slots_union);
    reveal(with_union);
}

/// A type that fits where `n` containers may be nested fits where more of them may be.
pub proof fn lemma_fits_more(t: TypeView, n: nat, m: nat, width: nat)
    requires
        n <= m,
        fits(t, n, width),
    ensures
        fits(t, m, width),
    decreases t,
{
    assert forall|i: int| 0 <= i < slots_type(t).len() implies !is_wide(
        #[trigger] slots_type(t)[i],
        width,
    ) && fits(slots_type(t)[i], budget(t, m), width) by {
        lemma_type_smaller(t);
        lemma_fits_more(slots_type(t)[i], budget(t, n), budget(t, m), width);
    }
}

/// What a truncation gives is within the limits, provided that `any` is so even where no
/// container may stand.
pub proof fn lemma_truncated_fits(t: TypeView, remaining: nat, width: nat, any: TypeView)
    requires
        fits(any, 0, width),
        !is_wide(any, width),
    ensures
        fits(truncated(t, remaining, width, any), remaining, width),
    decreases t,
{
    if !(is_container(t) && remaining == 0) {
        let ts = truncated_slots(t, budget(t, remaining), width, any);
        let r = with_type(t, ts);
        lemma_type_lens(t, ts, ts);
        lemma_with_kind(t, ts, width);
        assert forall|i: int| 0 <= i < ts.len() implies !is_wide(#[trigger] slots_type(r)[i], width)
            && fits(slots_type(r)[i], budget(r, remaining), width) by {
            let x = slots_type(t)[i];
            lemma_type_smaller(t);
            assert(slots_type(r)[i] == truncated_inner(x, budget(t, remaining), width, any));
            if is_wide(x, width) {
                lemma_fits_more(any, 0, budget(t, remaining), width);
            } else {
                lemma_truncated_fits(x, budget(t, remaining), width, any);
                lemma_truncated_narrow(x, budget(t, remaining), width, any);
            }
        }
    }
}

proof fn lemma_truncated_narrow(t: TypeView, remaining: nat, width: nat, any: TypeView)
    requires
        !is_wide(any, width),
        !is_wide(t, width),
    ensures
        !is_wide(truncated(t, remaining, width, any), width),
{
    let ts = truncated_slots(t, budget(t, remaining), width, any);
    lemma_with_kind(t, ts, width);
}

/// A type within the limits is left as it is.
pub proof fn lemma_truncated_unchanged(t: TypeView, remaining: nat, width: nat, any: TypeView)
    requires
        fits(t, remaining, width),
    ensures
        truncated(t, remaining, width, any) == t,
    decreases t,
{
    let ts = truncated_slots(t, budget(t, remaining), width, any);
    assert forall|i: int| 0 <= i < ts.len() implies ts[i] == slots_type(t)[i] by {
        let x = slots_type(t)[i];
        lemma_type_smaller(t);
        assert(!is_wide(x, width) && fits(x, budget(t, remaining), width));
        lemma_truncated_unchanged(x, budget(t, remaining), width, any);
    }
    assert(ts =~= slots_type(t));
    lemma_type_lens(t, ts, ts);
}

/// Truncation is stable: truncating a second time to the same limits changes nothing, provided
/// that `any` itself is left as it is wherever it can be put.
pub proof fn lemma_truncated_twice(t: TypeView, remaining: nat, width: nat, any: TypeView)
    requires
        forall|n: nat|
            n <= remaining ==> #[trigger] truncated_inner(any, n, width, any) == any,
        remaining == 0 ==> truncated(any, 0, width, any) == any,
    ensures
        truncated(truncated(t, remaining, width, any), remaining, width, any) == truncated(
            t,
            remaining,
            width,
            any,
        ),
{
    if !(is_container(t) && remaining == 0) {
        lemma_truncated_again(t, remaining, width, any);
    }
}

proof fn lemma_truncated_again(t: TypeView, remaining: nat, width: nat, any: TypeView)
    requires
        forall|n: nat|
            n <= remaining ==> #[trigger] truncated_inner(any, n, width, any) == any,
        !(is_container(t) && remaining == 0),
    ensures
        truncated(truncated(t, remaining, width, any), remaining, width, any) == truncated(
            t,
            remaining,
            width,
            any,
        ),
    decreases t,
{
    let rest = budget(t, remaining);
    let ts = truncated_slots(t, rest, width, any);
    let r = with_type(t, ts);
    lemma_type_lens(t, ts, ts);
    lemma_with_kind(t, ts, width);
    let us = truncated_slots(r, rest, width, any);
    assert forall|i: int| 0 <= i < ts.len() implies us[i] == ts[i] by {
        let x = slots_type(t)[i];
        lemma_type_smaller(t);
        assert(us[i] == truncated_inner(ts[i], rest, width, any));
        if is_wide(x, width) || (is_container(x) && rest == 0) {
            assert(ts[i] == any);
        } else {
            lemma_truncated_again(x, rest, width, any);
            lemma_with_kind(x, truncated_slots(x, budget(x, rest), width, any), width);
        }
    }
    assert(us =~= ts);
}

/// `Any` is left as it is by every truncation.
pub proof fn lemma_truncated_any(style: AnyStyle, remaining: nat, width: nat, any: TypeView)
    ensures
        truncated(TypeView::Any(style), remaining, width, any) == TypeView::Any(style),
        truncated_inner(TypeView::Any(style), remaining, width, any) == TypeView::Any(style),
        fits(TypeView::Any(style), remaining, width),
{
    reveal(slots_type);
    lemma_truncated_unchanged(TypeView::Any(style), remaining, width, any);
}

/// However wide a union is, truncation keeps the number of its members.
pub proof fn lemma_truncated_union_width(u: UnionView, remaining: nat, width: nat, any: TypeView)
    ensures
        truncated(TypeView::Union(Box::new(u)), remaining, width, any) matches TypeView::Union(v)
            && v.members.len() == u.members.len(),
{
    let t = TypeView::Union(Box::new(u));
    let ts = truncated_slots(t, remaining, width, any);
    reveal(slots_type);
    reveal(with_type);
    reveal(slots_union);
    reveal(with_union);
}

impl Type {
    /// Truncates container nesting depth and inner union width, replacing what is over budget
    /// with `any`.
    ///
    /// Class types and tuples each consume one level of depth; other composite types are
    /// transparent. A container at which no level is left is replaced with `any`. A union of
    /// more than `max_inner_union_width` members is replaced with `any` too, unless it is the
    /// type itself.
    pub fn truncate_class_nesting(
        self,
        max_depth: usize,
        max_inner_union_width: usize,
        any: &Type,
    ) -> (r: Type)
        ensures
            r@ == truncated(self@, max_depth as nat, max_inner_union_width as nat, any@),
    {
        let mut ty = self;
        truncate(&mut ty, max_depth, max_inner_union_width, any);
        ty
    }
}

fn truncate_inner(ty: &mut Type, remaining: usize, max_inner_union_width: usize, any: &Type)
    ensures
        final(ty)@ == truncated_inner(
            old(ty)@,
            remaining as nat,
            max_inner_union_width as nat,
            any@,
        ),
    decreases old(ty)@, 1nat,
{
    broadcast use lemma_type_view;

    if let Type::Union(u) = &*ty {
        proof {
            lemma_union_view(**u);
        }
        if u.members.len() > max_inner_union_width {
            *ty = any.clone();
            return ;
        }
    }
    truncate(ty, remaining, max_inner_union_width, any);
}

fn truncate(ty: &mut Type, remaining: usize, max_inner_union_width: usize, any: &Type)
    ensures
        final(ty)@ == truncated(old(ty)@, remaining as nat, max_inner_union_width as nat, any@),
    decreases old(ty)@, 0nat,
{
    let ghost t = ty@;
    proof {
        lemma_type_view(*ty);
    }
    let container = matches!(&*ty, Type::ClassType(_) | Type::Tuple(_));
    if container && remaining == 0 {
        *ty = any.clone();
        return ;
    }
    let rest: usize = if container {
        remaining - 1
    } else {
        remaining
    };
    let ghost width = max_inner_union_width as nat;
    let ghost m = slots_type(t);
    let ghost us = truncated_slots(t, rest as nat, width, any@);
    let mut ts: Vec<Type> = Vec::new();
    ty.take_slots(&mut ts);
    let ghost blank = ty@;
    assert(view_types(ts@) =~= m);
    let n = ts.len();
    for i in 0..n
        invariant
            t == old(ty)@,
            m == slots_type(t),
            us == truncated_slots(t, rest as nat, width, any@),
            width == max_inner_union_width,
            n == m.len(),
            ts@.len() == n,
            view_types(ts@) =~= us.take(i as int) + m.skip(i as int),
        decreases n - i,
    {
        let ghost v = ts@;
        proof {
            lemma_type_smaller(t);
            assert(view_types(v)[i as int] == m[i as int]);
        }
        truncate_inner(&mut ts[i], rest, max_inner_union_width, any);
        proof {
            lemma_types_update(v, i as int, ts@[i as int]);
            assert(ts@ =~= v.update(i as int, ts@[i as int]));
        }
    }
    proof {
        assert(view_types(ts@) =~= us);
        assert(back(view_types(ts@), n as nat) =~= us);
        assert(kept_type(t, blank));
    }
    ty.put_slots(&mut ts);
}

} // verus!
