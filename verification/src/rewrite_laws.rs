//! What holds of the walks that rewrite types.
use vstd::prelude::*;

use crate::held::lemma_held;
use crate::names::zero_var;
use crate::rewrite::{
    cleaned_at, everywhere, everywhere_inside, explicit_at, lemma_bottom_up_everywhere,
    lemma_bottom_up_fixed, printed_at, promoted_at, self_form_at, self_type_at, stripped_at,
    styled_at, StdlibView,
};
use crate::slots::{
    front, lemma_type_lens, lemma_type_smaller, slots_class_type, slots_data_frame_schema,
    slots_lit, slots_lit_enum, slots_literal, slots_series_schema, slots_type,
    with_data_frame_schema, with_lit, with_lit_enum, with_literal, with_series_schema, with_type,
};
use crate::styles::{AnyStyle, LitStyle, SpecialForm};
use crate::transform::{all_bottom_up, bottom_up, lemma_bottom_up, lemma_bottom_up_parts};
use crate::view::{ClassTypeView, LitView, LiteralView, TypeView};

verus! {

/// If `g` undoes whatever `f` does to a type and leaves its slots alone, then a walk with `g` after
/// one with `f` does what a walk with `g` alone does.
pub proof fn lemma_bottom_up_absorbs(
    t: TypeView,
    f: spec_fn(TypeView) -> TypeView,
    g: spec_fn(TypeView) -> TypeView,
)
    requires
        forall|x: TypeView| slots_type(#[trigger] f(x)) == slots_type(x),
        forall|x: TypeView, us: Seq<TypeView>|
            us.len() == slots_type(x).len() ==> g(#[trigger] with_type(f(x), us)) == g(
                with_type(x, us),
            ),
    ensures
        bottom_up(bottom_up(t, f), g) == bottom_up(t, g),
    decreases t,
{
    lemma_bottom_up(t, f);
    lemma_bottom_up(t, g);
    let ts = all_bottom_up(slots_type(t), f);
    let us = all_bottom_up(slots_type(t), g);
    let x = with_type(t, ts);
    lemma_type_lens(t, ts, us);
    lemma_bottom_up(f(x), g);
    assert forall|i: int| 0 <= i < ts.len() implies all_bottom_up(slots_type(f(x)), g)[i]
        == us[i] by {
        lemma_type_smaller(t);
        lemma_bottom_up_absorbs(slots_type(t)[i], f, g);
    }
    assert(all_bottom_up(slots_type(f(x)), g) =~= us);
}

/// Every variable of the solver becomes `Any`, and nothing else changes.
pub proof fn lemma_clean_var_parts(t: TypeView)
    ensures
        bottom_up(t, |y: TypeView| cleaned_at(y)) == match t {
            TypeView::Var(_) => TypeView::Any(AnyStyle::Implicit),
            _ => with_type(
                t,
                slots_type(t).map_values(
                    |x: TypeView| bottom_up(x, |y: TypeView| cleaned_at(y)),
                ),
            ),
        },
{
    let g = |y: TypeView| cleaned_at(y);
    let ts = slots_type(t).map_values(|x: TypeView| bottom_up(x, g));
    lemma_bottom_up_parts(t, g);
    reveal(slots_type);
    reveal(with_type);
}

/// Before a type is printed, every variable of the solver in it becomes the first one, and nothing
/// else changes.
pub proof fn lemma_printing_parts(t: TypeView)
    ensures
        bottom_up(t, |y: TypeView| printed_at(y)) == match t {
            TypeView::Var(_) => TypeView::Var(zero_var()),
            _ => with_type(
                t,
                slots_type(t).map_values(
                    |x: TypeView| bottom_up(x, |y: TypeView| printed_at(y)),
                ),
            ),
        },
{
    let g = |y: TypeView| printed_at(y);
    let ts = slots_type(t).map_values(|x: TypeView| bottom_up(x, g));
    lemma_bottom_up_parts(t, g);
    reveal(slots_type);
    reveal(with_type);
}

/// Every `Any` becomes explicit, and nothing else changes.
pub proof fn lemma_explicit_any_parts(t: TypeView)
    ensures
        bottom_up(t, |y: TypeView| explicit_at(y)) == match t {
            TypeView::Any(_) => TypeView::Any(AnyStyle::Explicit),
            _ => with_type(
                t,
                slots_type(t).map_values(
                    |x: TypeView| bottom_up(x, |y: TypeView| explicit_at(y)),
                ),
            ),
        },
{
    let g = |y: TypeView| explicit_at(y);
    let ts = slots_type(t).map_values(|x: TypeView| bottom_up(x, g));
    lemma_bottom_up_parts(t, g);
    reveal(slots_type);
    reveal(with_type);
}

/// The special form `Self` becomes the replacement wherever it stands, and nothing else changes.
pub proof fn lemma_self_form_parts(replacement: TypeView, t: TypeView)
    ensures
        bottom_up(t, |y: TypeView| self_form_at(replacement, y)) == match t {
            TypeView::SpecialForm(SpecialForm::SelfType) => replacement,
            _ => with_type(
                t,
                slots_type(t).map_values(
                    |x: TypeView| bottom_up(x, |y: TypeView| self_form_at(replacement, y)),
                ),
            ),
        },
{
    let g = |y: TypeView| self_form_at(replacement, y);
    let ts = slots_type(t).map_values(|x: TypeView| bottom_up(x, g));
    lemma_bottom_up_parts(t, g);
    reveal(slots_type);
    reveal(with_type);
}

/// `typing.Self` becomes the replacement wherever it stands, and nothing else changes.
pub proof fn lemma_self_type_parts(replacement: TypeView, t: TypeView)
    ensures
        bottom_up(t, |y: TypeView| self_type_at(replacement, y)) == match t {
            TypeView::SelfType(_) => replacement,
            _ => with_type(
                t,
                slots_type(t).map_values(
                    |x: TypeView| bottom_up(x, |y: TypeView| self_type_at(replacement, y)),
                ),
            ),
        },
{
    let g = |y: TypeView| self_type_at(replacement, y);
    let ts = slots_type(t).map_values(|x: TypeView| bottom_up(x, g));
    lemma_bottom_up_parts(t, g);
    reveal(slots_type);
    reveal(with_type);
}

/// Every literal and every literal string gets the style, and nothing else changes.
pub proof fn lemma_literal_style_parts(style: LitStyle, t: TypeView)
    ensures
        bottom_up(t, |y: TypeView| styled_at(style, y)) == match t {
            TypeView::LiteralString(_) => TypeView::LiteralString(style),
            TypeView::Literal(lit) => with_type(
                TypeView::Literal(Box::new(LiteralView { value: lit.value, style })),
                slots_type(t).map_values(
                    |x: TypeView| bottom_up(x, |y: TypeView| styled_at(style, y)),
                ),
            ),
            _ => with_type(
                t,
                slots_type(t).map_values(
                    |x: TypeView| bottom_up(x, |y: TypeView| styled_at(style, y)),
                ),
            ),
        },
{
    let g = |y: TypeView| styled_at(style, y);
    let ts = slots_type(t).map_values(|x: TypeView| bottom_up(x, g));
    lemma_bottom_up_parts(t, g);
    reveal(slots_type);
    reveal(with_type);
    reveal(slots_literal);
    reveal(with_literal);
}

/// A data frame or a series with a schema becomes what its class alone would become, and nothing
/// else changes.
pub proof fn lemma_strip_parts(t: TypeView)
    ensures
        bottom_up(t, |y: TypeView| stripped_at(y)) == match t {
            TypeView::DataFrame(d) => bottom_up(
                TypeView::ClassType(d.class),
                |y: TypeView| stripped_at(y),
            ),
            TypeView::Series(d) => bottom_up(
                TypeView::ClassType(d.class),
                |y: TypeView| stripped_at(y),
            ),
            _ => with_type(
                t,
                slots_type(t).map_values(
                    |x: TypeView| bottom_up(x, |y: TypeView| stripped_at(y)),
                ),
            ),
        },
{
    let g = |y: TypeView| stripped_at(y);
    let ts = slots_type(t).map_values(|x: TypeView| bottom_up(x, g));
    lemma_bottom_up_parts(t, g);
    reveal(slots_type);
    reveal(with_type);
    match t {
        TypeView::DataFrame(d) => {
            lemma_schema_class(t, d.class, g);
        },
        TypeView::Series(d) => {
            lemma_schema_class(t, d.class, g);
        },
        _ => {},
    }
}

/// A literal that was inferred becomes the class that its value belongs to, and an inferred literal
/// string the class of strings; nothing else changes.
pub proof fn lemma_promote_parts(stdlib: StdlibView, t: TypeView)
    ensures
        bottom_up(t, |y: TypeView| promoted_at(stdlib, y)) == match t {
            TypeView::Literal(lit) if lit.style is Implicit => match lit.value {
                LitView::Str(_) => TypeView::ClassType(stdlib.str_class),
                LitView::Int(_) => TypeView::ClassType(stdlib.int_class),
                LitView::Bool(_) => TypeView::ClassType(stdlib.bool_class),
                LitView::Bytes(_) => TypeView::ClassType(stdlib.bytes_class),
                LitView::Enum(e) => bottom_up(
                    TypeView::ClassType(e.class),
                    |y: TypeView| promoted_at(stdlib, y),
                ),
            },
            TypeView::LiteralString(LitStyle::Implicit) => TypeView::ClassType(stdlib.str_class),
            _ => with_type(
                t,
                slots_type(t).map_values(
                    |x: TypeView| bottom_up(x, |y: TypeView| promoted_at(stdlib, y)),
                ),
            ),
        },
{
    let g = |y: TypeView| promoted_at(stdlib, y);
    let ts = slots_type(t).map_values(|x: TypeView| bottom_up(x, g));
    lemma_bottom_up_parts(t, g);
    reveal(slots_type);
    reveal(with_type);
    reveal(slots_literal);
    reveal(with_literal);
    if let TypeView::Literal(lit) = t {
        reveal(slots_lit);
        reveal(with_lit);
        if let LitView::Enum(e) = lit.value {
            reveal(slots_lit_enum);
            reveal(with_lit_enum);
            lemma_bottom_up_parts(TypeView::ClassType(e.class), g);
        }
    }
}

/// The class of a schema is walked with the first of the types that the schema holds.
proof fn lemma_schema_class(
    t: TypeView,
    c: ClassTypeView,
    g: spec_fn(TypeView) -> TypeView,
)
    requires
        (t is DataFrame && t->DataFrame_0.class == c) || (t is Series && t->Series_0.class == c),
        forall|y: TypeView| #[trigger] g(y) == stripped_at(y),
    ensures
        bottom_up(t, g) == bottom_up(TypeView::ClassType(c), g),
{
    let u = TypeView::ClassType(c);
    let f = |x: TypeView| bottom_up(x, g);
    let (ts, us) = (slots_type(t).map_values(f), slots_type(u).map_values(f));
    lemma_bottom_up_parts(t, g);
    lemma_bottom_up_parts(u, g);
    lemma_held(t);
    lemma_held(u);
    reveal(slots_type);
    reveal(with_type);
    reveal(slots_data_frame_schema);
    reveal(slots_series_schema);
    reveal(with_data_frame_schema);
    reveal(with_series_schema);
    reveal(slots_class_type);
    let n = slots_type(t).len() - slots_type(u).len();
    assert(front(ts, n as nat) =~= us);
}

/// After [`clean_var`](crate::data::Type::clean_var) no variable of the solver stands in a slot, at
/// any depth.
pub proof fn lemma_clean_var_leaves_none(t: TypeView)
    ensures
        everywhere(bottom_up(t, |x: TypeView| cleaned_at(x)), |x: TypeView| !(x is Var)),
{
    let g = |x: TypeView| cleaned_at(x);
    let p = |x: TypeView| !(x is Var);
    assert forall|x: TypeView| everywhere_inside(x, p) implies everywhere(#[trigger] g(x), p) by {
        reveal(slots_type);
    }
    lemma_bottom_up_everywhere(t, g, p);
}

/// Cleaning variables a second time changes nothing.
pub proof fn lemma_clean_var_twice(t: TypeView)
    ensures
        bottom_up(bottom_up(t, |x: TypeView| cleaned_at(x)), |x: TypeView| cleaned_at(x))
            == bottom_up(t, |x: TypeView| cleaned_at(x)),
{
    let g = |x: TypeView| cleaned_at(x);
    reveal(slots_type);
    reveal(with_type);
    lemma_bottom_up_absorbs(t, g, g);
}

/// Before a type is printed, all variables of the solver in its slots are made the same.
pub proof fn lemma_printing_hides_variables(t: TypeView)
    ensures
        everywhere(
            bottom_up(t, |x: TypeView| printed_at(x)),
            |x: TypeView| x is Var ==> x == TypeView::Var(zero_var()),
        ),
{
    let g = |x: TypeView| printed_at(x);
    let p = |x: TypeView| x is Var ==> x == TypeView::Var(zero_var());
    assert forall|x: TypeView| everywhere_inside(x, p) implies everywhere(#[trigger] g(x), p) by {
        reveal(slots_type);
    }
    lemma_bottom_up_everywhere(t, g, p);
}

/// Preparing a type for printing a second time changes nothing.
pub proof fn lemma_printing_twice(t: TypeView)
    ensures
        bottom_up(bottom_up(t, |x: TypeView| printed_at(x)), |x: TypeView| printed_at(x))
            == bottom_up(t, |x: TypeView| printed_at(x)),
{
    let g = |x: TypeView| printed_at(x);
    reveal(slots_type);
    reveal(with_type);
    lemma_bottom_up_absorbs(t, g, g);
}

/// After [`explicit_any`](crate::data::Type::explicit_any) every `Any` in a slot is explicit.
pub proof fn lemma_explicit_any_everywhere(t: TypeView)
    ensures
        everywhere(
            bottom_up(t, |x: TypeView| explicit_at(x)),
            |x: TypeView| x is Any ==> x == TypeView::Any(AnyStyle::Explicit),
        ),
{
    let g = |x: TypeView| explicit_at(x);
    let p = |x: TypeView| x is Any ==> x == TypeView::Any(AnyStyle::Explicit);
    assert forall|x: TypeView| everywhere_inside(x, p) implies everywhere(#[trigger] g(x), p) by {
        reveal(slots_type);
    }
    lemma_bottom_up_everywhere(t, g, p);
}

/// Making `Any` explicit a second time changes nothing.
pub proof fn lemma_explicit_any_twice(t: TypeView)
    ensures
        bottom_up(bottom_up(t, |x: TypeView| explicit_at(x)), |x: TypeView| explicit_at(x))
            == bottom_up(t, |x: TypeView| explicit_at(x)),
{
    let g = |x: TypeView| explicit_at(x);
    reveal(slots_type);
    reveal(with_type);
    lemma_bottom_up_absorbs(t, g, g);
}

/// Of two literal styles that are set one after the other, the last counts.
pub proof fn lemma_literal_style_last_counts(t: TypeView, a: LitStyle, b: LitStyle)
    ensures
        bottom_up(bottom_up(t, |x: TypeView| styled_at(a, x)), |x: TypeView| styled_at(b, x))
            == bottom_up(t, |x: TypeView| styled_at(b, x)),
{
    let f = |x: TypeView| styled_at(a, x);
    let g = |x: TypeView| styled_at(b, x);
    reveal(slots_type);
    reveal(with_type);
    reveal(slots_literal);
    reveal(with_literal);
    lemma_bottom_up_absorbs(t, f, g);
}

/// No schema of a library is left in a slot once they are stripped.
pub proof fn lemma_strip_leaves_none(t: TypeView)
    ensures
        everywhere(
            bottom_up(t, |x: TypeView| stripped_at(x)),
            |x: TypeView| !(x is DataFrame || x is Series),
        ),
{
    let g = |x: TypeView| stripped_at(x);
    let p = |x: TypeView| !(x is DataFrame || x is Series);
    assert forall|x: TypeView| everywhere_inside(x, p) implies everywhere(#[trigger] g(x), p) by {
        lemma_schema_class_inside(x, p);
    }
    lemma_bottom_up_everywhere(t, g, p);
}

/// What stands in the class of a schema stands in the schema too.
proof fn lemma_schema_class_inside(x: TypeView, p: spec_fn(TypeView) -> bool)
    requires
        everywhere_inside(x, p),
    ensures
        everywhere_inside(stripped_at(x), p),
{
    reveal(slots_type);
    reveal(slots_data_frame_schema);
    reveal(slots_series_schema);
    let y = stripped_at(x);
    assert forall|i: int| 0 <= i < slots_type(y).len() implies everywhere(
        #[trigger] slots_type(y)[i],
        p,
    ) by {
        assert(slots_type(x)[i] == slots_type(y)[i]);
    }
}

/// Stripping schemas a second time changes nothing.
pub proof fn lemma_strip_twice(t: TypeView)
    ensures
        bottom_up(bottom_up(t, |x: TypeView| stripped_at(x)), |x: TypeView| stripped_at(x))
            == bottom_up(t, |x: TypeView| stripped_at(x)),
{
    let g = |x: TypeView| stripped_at(x);
    let p = |x: TypeView| g(x) == x;
    assert forall|x: TypeView| everywhere_inside(x, p) implies everywhere(#[trigger] g(x), p) by {
        lemma_schema_class_inside(x, p);
    }
    lemma_bottom_up_everywhere(t, g, p);
    lemma_bottom_up_fixed(bottom_up(t, g), g);
}

/// Is the type a literal that was inferred?
pub open spec fn is_implicit_literal(t: TypeView) -> bool {
    match t {
        TypeView::Literal(lit) => lit.style is Implicit,
        TypeView::LiteralString(style) => style is Implicit,
        _ => false,
    }
}

/// A literal, and a literal string, was inferred just if its style says so; nothing else was.
pub proof fn lemma_implicit_literal(t: TypeView)
    ensures
        t is Literal ==> is_implicit_literal(t) == (t->Literal_0.style is Implicit),
        t is LiteralString ==> is_implicit_literal(t) == (t->LiteralString_0 is Implicit),
        !(t is Literal || t is LiteralString) ==> !is_implicit_literal(t),
{
}

/// Once implicit literals are promoted none is left in a slot, provided that the classes of the
/// standard library hold none.
pub proof fn lemma_promote_leaves_none(stdlib: StdlibView, t: TypeView)
    requires
        everywhere(TypeView::ClassType(stdlib.str_class), |x: TypeView| !is_implicit_literal(x)),
        everywhere(TypeView::ClassType(stdlib.int_class), |x: TypeView| !is_implicit_literal(x)),
        everywhere(TypeView::ClassType(stdlib.bool_class), |x: TypeView| !is_implicit_literal(x)),
        everywhere(TypeView::ClassType(stdlib.bytes_class), |x: TypeView| !is_implicit_literal(x)),
    ensures
        everywhere(
            bottom_up(t, |x: TypeView| promoted_at(stdlib, x)),
            |x: TypeView| !is_implicit_literal(x),
        ),
{
    let g = |x: TypeView| promoted_at(stdlib, x);
    let p = |x: TypeView| !is_implicit_literal(x);
    assert forall|x: TypeView| everywhere_inside(x, p) implies everywhere(#[trigger] g(x), p) by {
        if let TypeView::Literal(lit) = x {
            let y = g(x);
            if let LitView::Enum(e) = lit.value {
                reveal(slots_type);
                reveal(slots_literal);
                reveal(slots_lit);
                reveal(slots_lit_enum);
                assert(lit.style is Implicit ==> slots_type(y) == slots_type(x));
            }
        }
    }
    lemma_bottom_up_everywhere(t, g, p);
}

/// What holds everywhere, so does all that follows from it.
proof fn lemma_everywhere_follows(
    t: TypeView,
    p: spec_fn(TypeView) -> bool,
    q: spec_fn(TypeView) -> bool,
)
    requires
        everywhere(t, p),
        forall|x: TypeView| p(x) ==> #[trigger] q(x),
    ensures
        everywhere(t, q),
    decreases t,
{
    assert(p(t));
    assert forall|i: int| 0 <= i < slots_type(t).len() implies everywhere(
        #[trigger] slots_type(t)[i],
        q,
    ) by {
        lemma_type_smaller(t);
        lemma_everywhere_follows(slots_type(t)[i], p, q);
    }
}

/// Promoting implicit literals a second time changes nothing, provided that the classes of the
/// standard library hold none.
pub proof fn lemma_promote_twice(stdlib: StdlibView, t: TypeView)
    requires
        everywhere(TypeView::ClassType(stdlib.str_class), |x: TypeView| !is_implicit_literal(x)),
        everywhere(TypeView::ClassType(stdlib.int_class), |x: TypeView| !is_implicit_literal(x)),
        everywhere(TypeView::ClassType(stdlib.bool_class), |x: TypeView| !is_implicit_literal(x)),
        everywhere(TypeView::ClassType(stdlib.bytes_class), |x: TypeView| !is_implicit_literal(x)),
    ensures
        bottom_up(
            bottom_up(t, |x: TypeView| promoted_at(stdlib, x)),
            |x: TypeView| promoted_at(stdlib, x),
        ) == bottom_up(t, |x: TypeView| promoted_at(stdlib, x)),
{
    let g = |x: TypeView| promoted_at(stdlib, x);
    lemma_promote_leaves_none(stdlib, t);
    lemma_everywhere_follows(
        bottom_up(t, g),
        |x: TypeView| !is_implicit_literal(x),
        |x: TypeView| g(x) == x,
    );
    lemma_bottom_up_fixed(bottom_up(t, g), g);
}

/// Once the special form `Self` is replaced none is left in a slot, provided that the replacement
/// holds none.
pub proof fn lemma_self_form_leaves_none(replacement: TypeView, t: TypeView)
    requires
        everywhere(
            replacement,
            |x: TypeView| x != TypeView::SpecialForm(SpecialForm::SelfType),
        ),
    ensures
        everywhere(
            bottom_up(t, |x: TypeView| self_form_at(replacement, x)),
            |x: TypeView| x != TypeView::SpecialForm(SpecialForm::SelfType),
        ),
{
    let g = |x: TypeView| self_form_at(replacement, x);
    let p = |x: TypeView| x != TypeView::SpecialForm(SpecialForm::SelfType);
    assert forall|x: TypeView| everywhere_inside(x, p) implies everywhere(#[trigger] g(x), p) by {
    }
    lemma_bottom_up_everywhere(t, g, p);
}

/// Once `typing.Self` is replaced none is left in a slot, provided that the replacement holds
/// none.
pub proof fn lemma_self_type_leaves_none(replacement: TypeView, t: TypeView)
    requires
        everywhere(replacement, |x: TypeView| !(x is SelfType)),
    ensures
        everywhere(
            bottom_up(t, |x: TypeView| self_type_at(replacement, x)),
            |x: TypeView| !(x is SelfType),
        ),
{
    let g = |x: TypeView| self_type_at(replacement, x);
    let p = |x: TypeView| !(x is SelfType);
    assert forall|x: TypeView| everywhere_inside(x, p) implies everywhere(#[trigger] g(x), p) by {
    }
    lemma_bottom_up_everywhere(t, g, p);
}

} // verus!
