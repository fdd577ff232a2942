//! Rewriting all the types in a type, one by one.
use vstd::prelude::*;

use crate::data::{ClassType, DataFrameSchema, Lit, Literal, SeriesSchema, Type};
use crate::names::{zero_var, Var};
use crate::slots::{lemma_type_lens, lemma_type_smaller, slots_type, with_type};
use crate::styles::{AnyStyle, LitStyle, SpecialForm};
use crate::transform::{all_bottom_up, bottom_up, lemma_bottom_up, lemma_walk_pure, Update};
use crate::view::{
    lemma_data_frame_schema_view, lemma_lit_enum_view, lemma_lit_view, lemma_literal_view,
    lemma_series_schema_view, lemma_type_view, lemma_types_update, lemma_union_view, view_types,
    ClassTypeView, LitView, LiteralView, TypeView, UnionView,
};

verus! {

/// Does `p` hold of `t` and of all that stands in its slots, at any depth?
pub open spec fn everywhere(t: TypeView, p: spec_fn(TypeView) -> bool) -> bool
    decreases t,
{
    p(t) && forall|i: int|
        {
            proof {
                lemma_type_smaller(t);
            }
            if 0 <= i < slots_type(t).len() {
                everywhere(#[trigger] slots_type(t)[i], p)
            } else {
                true
            }
        }
}

/// Does `p` hold of all that stands in the slots of `t`, at any depth?
pub open spec fn everywhere_inside(t: TypeView, p: spec_fn(TypeView) -> bool) -> bool {
    forall|i: int| 0 <= i < slots_type(t).len() ==> everywhere(#[trigger] slots_type(t)[i], p)
}

/// If `g` makes `p` hold of a type as soon as `p` holds inside it, then `p` holds everywhere
/// after a walk with `g`.
pub proof fn lemma_bottom_up_everywhere(
    t: TypeView,
    g: spec_fn(TypeView) -> TypeView,
    p: spec_fn(TypeView) -> bool,
)
    requires
        forall|x: TypeView| everywhere_inside(x, p) ==> everywhere(#[trigger] g(x), p),
    ensures
        everywhere(bottom_up(t, g), p),
    decreases t,
{
    lemma_bottom_up(t, g);
    let ts = all_bottom_up(slots_type(t), g);
    let x = with_type(t, ts);
    lemma_type_lens(t, ts, ts);
    assert forall|i: int| 0 <= i < slots_type(x).len() implies everywhere(
        #[trigger] slots_type(x)[i],
        p,
    ) by {
        lemma_type_smaller(t);
        lemma_bottom_up_everywhere(slots_type(t)[i], g, p);
    }
    assert(everywhere_inside(x, p));
    assert(everywhere(g(x), p));
}

/// A walk with `g` changes nothing where `g` changes none of the types met.
pub proof fn lemma_bottom_up_fixed(t: TypeView, g: spec_fn(TypeView) -> TypeView)
    requires
        everywhere(t, |x: TypeView| g(x) == x),
    ensures
        bottom_up(t, g) == t,
    decreases t,
{
    lemma_bottom_up(t, g);
    let ts = all_bottom_up(slots_type(t), g);
    assert forall|i: int| 0 <= i < ts.len() implies ts[i] == slots_type(t)[i] by {
        lemma_type_smaller(t);
        lemma_bottom_up_fixed(slots_type(t)[i], g);
    }
    assert(ts =~= slots_type(t));
    lemma_type_lens(t, ts, ts);
}

/// The type that a variable of the solver is shown as.
pub open spec fn cleaned_at(t: TypeView) -> TypeView {
    match t {
        TypeView::Var(_) => TypeView::Any(AnyStyle::Implicit),
        _ => t,
    }
}

/// The variable that every variable of the solver is printed as.
pub open spec fn printed_at(t: TypeView) -> TypeView {
    match t {
        TypeView::Var(_) => TypeView::Var(zero_var()),
        _ => t,
    }
}

/// `Any`, as if the user had written it.
pub open spec fn explicit_at(t: TypeView) -> TypeView {
    match t {
        TypeView::Any(_) => TypeView::Any(AnyStyle::Explicit),
        _ => t,
    }
}

/// A literal type with the given style.
pub open spec fn styled_at(style: LitStyle, t: TypeView) -> TypeView {
    match t {
        TypeView::Literal(lit) => TypeView::Literal(Box::new(LiteralView { style, ..*lit })),
        TypeView::LiteralString(_) => TypeView::LiteralString(style),
        _ => t,
    }
}

/// The class under a library schema.
pub open spec fn stripped_at(t: TypeView) -> TypeView {
    match t {
        TypeView::DataFrame(schema) => TypeView::ClassType(schema.class),
        TypeView::Series(schema) => TypeView::ClassType(schema.class),
        _ => t,
    }
}

/// `replacement` in place of the special form `Self`.
pub open spec fn self_form_at(replacement: TypeView, t: TypeView) -> TypeView {
    if t == TypeView::SpecialForm(SpecialForm::SelfType) {
        replacement
    } else {
        t
    }
}

/// `replacement` in place of `typing.Self`.
pub open spec fn self_type_at(replacement: TypeView, t: TypeView) -> TypeView {
    if t is SelfType {
        replacement
    } else {
        t
    }
}

/// The classes of the standard library that literals belong to.
pub struct Stdlib {
    pub str_class: ClassType,
    pub int_class: ClassType,
    pub bool_class: ClassType,
    pub bytes_class: ClassType,
}

/// The model of a [`Stdlib`].
pub ghost struct StdlibView {
    pub str_class: ClassTypeView,
    pub int_class: ClassTypeView,
    pub bool_class: ClassTypeView,
    pub bytes_class: ClassTypeView,
}

impl View for Stdlib {
    type V = StdlibView;

    open spec fn view(&self) -> StdlibView {
        StdlibView {
            str_class: self.str_class@,
            int_class: self.int_class@,
            bool_class: self.bool_class@,
            bytes_class: self.bytes_class@,
        }
    }
}

/// The model of the standard library has the classes under their own names.
pub proof fn lemma_stdlib_view(stdlib: Stdlib)
    ensures
        stdlib@.str_class == stdlib.str_class@,
        stdlib@.int_class == stdlib.int_class@,
        stdlib@.bool_class == stdlib.bool_class@,
        stdlib@.bytes_class == stdlib.bytes_class@,
{
}

/// The class that a literal value belongs to.
pub open spec fn general_class(stdlib: StdlibView, lit: LitView) -> ClassTypeView {
    match lit {
        LitView::Str(_) => stdlib.str_class,
        LitView::Int(_) => stdlib.int_class,
        LitView::Bool(_) => stdlib.bool_class,
        LitView::Bytes(_) => stdlib.bytes_class,
        LitView::Enum(e) => e.class,
    }
}

/// The class of a literal that was inferred and may be widened.
pub open spec fn promoted_at(stdlib: StdlibView, t: TypeView) -> TypeView {
    match t {
        TypeView::Literal(lit) => if lit.style is Implicit {
            TypeView::ClassType(general_class(stdlib, lit.value))
        } else {
            t
        },
        TypeView::LiteralString(LitStyle::Implicit) => TypeView::ClassType(stdlib.str_class),
        _ => t,
    }
}

impl Stdlib {
    pub fn str(&self) -> (r: &ClassType)
        ensures
            r@ == self@.str_class,
    {
        &self.str_class
    }
}

impl Lit {
    /// The class that the value belongs to.
    pub fn general_class_type<'a>(&'a self, stdlib: &'a Stdlib) -> (r: &'a ClassType)
        ensures
            r@ == general_class(stdlib@, self@),
    {
        broadcast use {lemma_lit_view, lemma_lit_enum_view};

        match self {
            Lit::Str(_) => &stdlib.str_class,
            Lit::Int(_) => &stdlib.int_class,
            Lit::Bool(_) => &stdlib.bool_class,
            Lit::Bytes(_) => &stdlib.bytes_class,
            Lit::Enum(e) => &e.class,
        }
    }
}

impl DataFrameSchema {
    /// The class without the schema.
    pub fn underlying_type(&self) -> (r: Type)
        ensures
            r@ == TypeView::ClassType(self@.class),
    {
        broadcast use lemma_type_view;

        proof {
            lemma_data_frame_schema_view(*self);
        }
        Type::ClassType(self.class.clone())
    }
}

impl SeriesSchema {
    /// The class without the schema.
    pub fn underlying_type(&self) -> (r: Type)
        ensures
            r@ == TypeView::ClassType(self@.class),
    {
        broadcast use lemma_type_view;

        proof {
            lemma_series_schema_view(*self);
        }
        Type::ClassType(self.class.clone())
    }
}

struct CleanVar {}

impl Update for CleanVar {
    type State = ();

    open spec fn state(&self) -> () {
        ()
    }

    open spec fn step(s: (), t: TypeView) -> ((), TypeView) {
        ((), cleaned_at(t))
    }

    fn call(&mut self, t: &mut Type) {
        broadcast use lemma_type_view;

        if matches!(&*t, Type::Var(_)) {
            *t = Type::Any(AnyStyle::Implicit);
        }
    }
}

struct PrintVar {}

impl Update for PrintVar {
    type State = ();

    open spec fn state(&self) -> () {
        ()
    }

    open spec fn step(s: (), t: TypeView) -> ((), TypeView) {
        ((), printed_at(t))
    }

    fn call(&mut self, t: &mut Type) {
        broadcast use lemma_type_view;

        if let Type::Var(v) = t {
            *v = Var::zero();
        }
    }
}

struct ExplicitAny {}

impl Update for ExplicitAny {
    type State = ();

    open spec fn state(&self) -> () {
        ()
    }

    open spec fn step(s: (), t: TypeView) -> ((), TypeView) {
        ((), explicit_at(t))
    }

    fn call(&mut self, t: &mut Type) {
        broadcast use lemma_type_view;

        if let Type::Any(style) = t {
            *style = AnyStyle::Explicit;
        }
    }
}

struct SetStyle {
    style: LitStyle,
}

impl Update for SetStyle {
    type State = LitStyle;

    closed spec fn state(&self) -> LitStyle {
        self.style
    }

    open spec fn step(s: LitStyle, t: TypeView) -> (LitStyle, TypeView) {
        (s, styled_at(s, t))
    }

    fn call(&mut self, t: &mut Type) {
        broadcast use {lemma_type_view, lemma_literal_view};

        if let Type::Literal(lit) = t {
            lit.style = self.style;
        } else if let Type::LiteralString(lit_style) = t {
            *lit_style = self.style;
        }
    }
}

struct StripSchema {}

impl Update for StripSchema {
    type State = ();

    open spec fn state(&self) -> () {
        ()
    }

    open spec fn step(s: (), t: TypeView) -> ((), TypeView) {
        ((), stripped_at(t))
    }

    fn call(&mut self, t: &mut Type) {
        broadcast use lemma_type_view;

        let plain = match &*t {
            Type::DataFrame(schema) => Some(schema.underlying_type()),
            Type::Series(schema) => Some(schema.underlying_type()),
            _ => None,
        };
        if let Some(plain) = plain {
            *t = plain;
        }
    }
}

struct ReplaceSelfForm<'a> {
    replacement: &'a Type,
}

impl<'a> Update for ReplaceSelfForm<'a> {
    type State = TypeView;

    closed spec fn state(&self) -> TypeView {
        self.replacement@
    }

    open spec fn step(s: TypeView, t: TypeView) -> (TypeView, TypeView) {
        (s, self_form_at(s, t))
    }

    fn call(&mut self, t: &mut Type) {
        proof {
            lemma_type_view(*t);
        }
        if matches!(&*t, Type::SpecialForm(SpecialForm::SelfType)) {
            *t = self.replacement.clone();
        }
    }
}

struct ReplaceSelfType<'a> {
    replacement: &'a Type,
}

impl<'a> Update for ReplaceSelfType<'a> {
    type State = TypeView;

    closed spec fn state(&self) -> TypeView {
        self.replacement@
    }

    open spec fn step(s: TypeView, t: TypeView) -> (TypeView, TypeView) {
        (s, self_type_at(s, t))
    }

    fn call(&mut self, t: &mut Type) {
        proof {
            lemma_type_view(*t);
        }
        if matches!(&*t, Type::SelfType(_)) {
            *t = self.replacement.clone();
        }
    }
}

struct Promote<'a> {
    stdlib: &'a Stdlib,
}

impl<'a> Update for Promote<'a> {
    type State = StdlibView;

    closed spec fn state(&self) -> StdlibView {
        self.stdlib@
    }

    open spec fn step(s: StdlibView, t: TypeView) -> (StdlibView, TypeView) {
        (s, promoted_at(s, t))
    }

    fn call(&mut self, t: &mut Type) {
        Type::promote_one_implicit_literal(t, self.stdlib);
    }
}

impl Type {
    /// Replaces the special form `Self` by `self_type`.
    pub fn subst_self_special_form_mut(&mut self, self_type: &Type)
        ensures
            final(self)@ == bottom_up(old(self)@, |t: TypeView| self_form_at(self_type@, t)),
    {
        proof {
            lemma_walk_pure::<ReplaceSelfForm>(
                self_type@,
                self@,
                |t: TypeView| self_form_at(self_type@, t),
            );
        }
        self.transform_mut(&mut ReplaceSelfForm { replacement: self_type });
    }

    /// Replaces `typing.Self` by `replacement`.
    pub fn subst_self_type_mut(&mut self, replacement: &Type)
        ensures
            final(self)@ == bottom_up(old(self)@, |t: TypeView| self_type_at(replacement@, t)),
    {
        proof {
            lemma_walk_pure::<ReplaceSelfType>(
                replacement@,
                self@,
                |t: TypeView| self_type_at(replacement@, t),
            );
        }
        self.transform_mut(&mut ReplaceSelfType { replacement });
    }

    fn promote_one_implicit_literal(ty: &mut Type, stdlib: &Stdlib)
        ensures
            final(ty)@ == promoted_at(stdlib@, old(ty)@),
    {
        broadcast use {lemma_type_view, lemma_literal_view};

        let class: Option<ClassType> = match &*ty {
            Type::Literal(lit) => if matches!(lit.style, LitStyle::Implicit) {
                Some(lit.value.general_class_type(stdlib).clone())
            } else {
                None
            },
            Type::LiteralString(LitStyle::Implicit) => Some(stdlib.str().clone()),
            _ => None,
        };
        if let Some(class) = class {
            *ty = Type::ClassType(class);
        }
    }

    /// Like [`Type::promote_implicit_literals`], but only looks into unions.
    pub fn promote_shallow_implicit_literals(self, stdlib: &Stdlib) -> (r: Type)
        ensures
            r@ == match self@ {
                TypeView::Union(u) => TypeView::Union(
                    Box::new(
                        UnionView {
                            members: u.members.map_values(
                                |t: TypeView| promoted_at(stdlib@, t),
                            ),
                            ..*u
                        },
                    ),
                ),
                t => promoted_at(stdlib@, t),
            },
    {
        broadcast use {lemma_type_view, lemma_union_view};

        let mut ty = self;
        match &mut ty {
            Type::Union(u) => {
                let ghost ms = view_types(u.members@);
                let ghost promoted = ms.map_values(|t: TypeView| promoted_at(stdlib@, t));
                let ghost display_name = u.display_name;
                let n = u.members.len();
                for i in 0..n
                    invariant
                        n == ms.len(),
                        u.members@.len() == n,
                        u.display_name == display_name,
                        promoted == ms.map_values(|t: TypeView| promoted_at(stdlib@, t)),
                        view_types(u.members@) =~= promoted.take(i as int) + ms.skip(i as int),
                {
                    let ghost v = u.members@;
                    assert(view_types(v)[i as int] == ms[i as int]);
                    Type::promote_one_implicit_literal(&mut u.members[i], stdlib);
                    proof {
                        assert(u.members@ =~= v.update(i as int, u.members@[i as int]));
                        lemma_types_update(v, i as int, u.members@[i as int]);
                    }
                }
                assert(view_types(u.members@) =~= promoted);
            },
            _ => Type::promote_one_implicit_literal(&mut ty, stdlib),
        }
        ty
    }

    /// Widens all literals that were inferred to their classes.
    pub fn promote_implicit_literals(self, stdlib: &Stdlib) -> (r: Type)
        ensures
            r@ == bottom_up(self@, |t: TypeView| promoted_at(stdlib@, t)),
    {
        proof {
            lemma_walk_pure::<Promote>(
                stdlib@,
                self@,
                |t: TypeView| promoted_at(stdlib@, t),
            );
        }
        self.transform(&mut Promote { stdlib })
    }

    /// Converts the variables of the solver to `Any`.
    pub fn clean_var(self) -> (r: Type)
        ensures
            r@ == bottom_up(self@, |t: TypeView| cleaned_at(t)),
    {
        proof {
            lemma_walk_pure::<CleanVar>((), self@, |t: TypeView| cleaned_at(t));
        }
        self.transform(&mut CleanVar {  })
    }

    pub fn explicit_any(self) -> (r: Type)
        ensures
            r@ == bottom_up(self@, |t: TypeView| explicit_at(t)),
    {
        proof {
            lemma_walk_pure::<ExplicitAny>((), self@, |t: TypeView| explicit_at(t));
        }
        self.transform(&mut ExplicitAny {  })
    }

    pub fn with_literal_style(self, style: LitStyle) -> (r: Type)
        ensures
            r@ == bottom_up(self@, |t: TypeView| styled_at(style, t)),
    {
        proof {
            lemma_walk_pure::<SetStyle>(style, self@, |t: TypeView| styled_at(style, t));
        }
        self.transform(&mut SetStyle { style })
    }

    /// Used prior to display to ensure unique variables don't leak out non-deterministically.
    pub fn deterministic_printing(self) -> (r: Type)
        ensures
            r@ == bottom_up(self@, |t: TypeView| printed_at(t)),
    {
        proof {
            lemma_walk_pure::<PrintVar>((), self@, |t: TypeView| printed_at(t));
        }
        self.transform(&mut PrintVar {  })
    }

    /// Replaces every DataFrame and Series schema with its plain underlying class. The schema
    /// forms are not valid annotation syntax, so a surface that emits a type as source must
    /// strip them first.
    pub fn strip_library_schemas(self) -> (r: Type)
        ensures
            r@ == bottom_up(self@, |t: TypeView| stripped_at(t)),
    {
        proof {
            lemma_walk_pure::<StripSchema>((), self@, |t: TypeView| stripped_at(t));
        }
        self.transform(&mut StripSchema {  })
    }
}

} // verus!
