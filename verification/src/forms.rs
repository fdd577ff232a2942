//! Building types, and telling them apart.
use std::sync::Arc;

use vstd::prelude::*;

use crate::data::{
    Callable, ClassType, Int, Lit, Literal, NNModuleType, Param, ParamList, PrefixParam,
    Quantified, TArgs, Tuple, Type, TypedDict, Union,
};
use crate::names::{Class, ModuleType, QName, QNameView};
use crate::order::{lemma_rank_same, rank_tokens, Rank};
use crate::outside::{fields_of, ModuleFields};
use crate::parts::{lemma_type_parts, lemma_union_parts};
use crate::rewrite_laws::is_implicit_literal;
use crate::styles::{AnyStyle, LitStyle, NeverStyle};
use crate::tokens::{lemma_tokens_type, tokens_type};
use crate::view::{
    lemma_class_type_view, lemma_int_view, lemma_lit_enum_view, lemma_lit_view,
    lemma_literal_view, lemma_nn_module_type_view, lemma_param_list_view, lemma_tuple_view,
    lemma_type_view, lemma_typed_dict_view, lemma_types_push, lemma_union_view, view_param_seq,
    view_types, CallableView, ClassTypeView, IntView, LitEnumView, LitView, LiteralView,
    NNModuleTypeView, ParamsView, QuantifiedView, TupleView, TypeView, TypedDictView, UnionView,
};

verus! {

impl Type {
    pub fn any_implicit() -> (r: Type)
        ensures
            r@ == TypeView::Any(AnyStyle::Implicit),
    {
        broadcast use lemma_type_view;

        Type::Any(AnyStyle::Implicit)
    }

    pub fn any_explicit() -> (r: Type)
        ensures
            r@ == TypeView::Any(AnyStyle::Explicit),
    {
        broadcast use lemma_type_view;

        Type::Any(AnyStyle::Explicit)
    }

    pub fn any_error() -> (r: Type)
        ensures
            r@ == TypeView::Any(AnyStyle::Error),
    {
        broadcast use lemma_type_view;

        Type::Any(AnyStyle::Error)
    }

    pub fn ellipsis() -> (r: Type)
        ensures
            r@ == TypeView::Ellipsis,
    {
        broadcast use lemma_type_view;

        Type::Ellipsis
    }

    pub fn unbounded_tuple(elt: Type) -> (r: Type)
        ensures
            r@ == unbounded_tuple_of(elt@),
    {
        broadcast use {lemma_type_view, lemma_tuple_view};

        if let Type::ElementOfTypeVarTuple(x) = elt {
            let (prefix, suffix): (Vec<Type>, Vec<Type>) = (Vec::new(), Vec::new());
            assert(view_types(prefix@) =~= Seq::empty());
            assert(view_types(suffix@) =~= Seq::empty());
            Self::unpacked_tuple(prefix, Type::Quantified(x), suffix)
        } else {
            Type::Tuple(Tuple::Unbounded(Box::new(elt)))
        }
    }

    pub fn unpacked_tuple(prefix: Vec<Type>, middle: Type, suffix: Vec<Type>) -> (r: Type)
        ensures
            r@ == TypeView::Tuple(
                TupleView::Unpacked(
                    Box::new((view_types(prefix@), middle@, view_types(suffix@))),
                ),
            ),
    {
        broadcast use {lemma_type_view, lemma_tuple_view};

        Type::Tuple(Tuple::Unpacked(Box::new((prefix, middle, suffix))))
    }

    pub fn any_tuple() -> (r: Type)
        ensures
            r@ == TypeView::Tuple(
                TupleView::Unbounded(Box::new(TypeView::Any(AnyStyle::Implicit))),
            ),
    {
        Self::unbounded_tuple(Type::any_implicit())
    }
}

impl Type {
    /// Creates a union from the provided types without simplifying.
    pub fn union(members: Vec<Type>) -> (r: Type)
        ensures
            r@ == union_view(view_types(members@)),
    {
        broadcast use {lemma_type_view, lemma_union_view};

        Type::Union(Box::new(Union { members, display_name: None }))
    }
}

/// The union of `members`, without a name to display it by.
pub open spec fn union_view(members: Seq<TypeView>) -> TypeView {
    TypeView::Union(Box::new(UnionView { members, display_name: None }))
}

/// The tuple of any number of `elt`. Where `elt` is what unpacking a type variable tuple gives,
/// the tuple is that type variable tuple.
pub open spec fn unbounded_tuple_of(elt: TypeView) -> TypeView {
    match elt {
        TypeView::ElementOfTypeVarTuple(q) => TypeView::Tuple(
            TupleView::Unpacked(
                Box::new((Seq::empty(), TypeView::Quantified(q), Seq::empty())),
            ),
        ),
        _ => TypeView::Tuple(TupleView::Unbounded(Box::new(elt))),
    }
}

/// The element of a type variable tuple, any number of times, is what the type variable tuple
/// stands for; anything else is repeated.
pub proof fn lemma_unbounded_tuple(elt: TypeView)
    ensures
        elt is ElementOfTypeVarTuple ==> unbounded_tuple_of(elt) == TypeView::Tuple(
            TupleView::Unpacked(
                Box::new(
                    (
                        Seq::empty(),
                        TypeView::Quantified(elt->ElementOfTypeVarTuple_0),
                        Seq::empty(),
                    ),
                ),
            ),
        ),
        !(elt is ElementOfTypeVarTuple) ==> unbounded_tuple_of(elt) == TypeView::Tuple(
            TupleView::Unbounded(Box::new(elt)),
        ),
{
}

impl AnyStyle {
    /// The `Any` that comes of using an `Any` of this style.
    pub fn propagate(self) -> (r: Type)
        ensures
            r@ == TypeView::Any(
                if self is Explicit {
                    AnyStyle::Implicit
                } else {
                    self
                },
            ),
    {
        broadcast use lemma_type_view;

        match self {
            AnyStyle::Implicit | AnyStyle::Error => Type::Any(self),
            AnyStyle::Explicit => Type::Any(AnyStyle::Implicit),
        }
    }
}

impl ParamList {
    pub fn new(items: Vec<Param>) -> (r: ParamList)
        ensures
            r@ == view_param_seq(items@),
    {
        broadcast use lemma_param_list_view;

        ParamList { items }
    }
}

impl Lit {
    pub fn is_string(&self) -> (r: bool)
        ensures
            r == (self@ is Str),
    {
        proof {
            lemma_lit_view(*self);
        }
        matches!(self, Lit::Str(_))
    }

    /// The literal type of a value that was inferred.
    pub fn to_implicit_type(self) -> (r: Type)
        ensures
            r@ == TypeView::Literal(
                Box::new(LiteralView { value: self@, style: LitStyle::Implicit }),
            ),
    {
        broadcast use {lemma_type_view, lemma_literal_view};

        Type::Literal(Box::new(Literal { value: self, style: LitStyle::Implicit }))
    }
}

impl ClassType {
    pub fn new(class: Class, targs: TArgs) -> (r: ClassType)
        ensures
            r@ == (ClassTypeView { class: class@, targs: targs@ }),
    {
        broadcast use lemma_class_type_view;

        ClassType { class, targs }
    }

    pub fn qname(&self) -> (r: &QName)
        ensures
            r@ == self@.class.qname,
    {
        proof {
            lemma_class_type_view(*self);
        }
        self.class.qname()
    }
}

impl NNModuleType {
    /// An instance of `class` with the given captured arguments.
    pub fn new(class: ClassType, fields: ModuleFields) -> (r: Self)
        ensures
            r@ == (NNModuleTypeView { class: class@, fields: fields_of(fields) }),
    {
        broadcast use lemma_nn_module_type_view;

        NNModuleType { class, fields }
    }
}

/// The style of a literal string, if the type is one.
pub open spec fn lit_string_style_of(t: TypeView) -> Option<LitStyle> {
    match t {
        TypeView::LiteralString(style) => Some(style),
        TypeView::Literal(lit) => if lit.value is Str {
            Some(lit.style)
        } else {
            None
        },
        _ => None,
    }
}

/// `LiteralString` and a string literal are literal strings, of the style that they have; a literal
/// of another kind, and any other type, is none.
pub proof fn lemma_lit_string_style(t: TypeView)
    ensures
        t is LiteralString ==> lit_string_style_of(t) == Some(t->LiteralString_0),
        t is Literal && t->Literal_0.value is Str ==> lit_string_style_of(t) == Some(
            t->Literal_0.style,
        ),
        t is Literal && !(t->Literal_0.value is Str) ==> lit_string_style_of(t) is None,
        !(t is Literal || t is LiteralString) ==> lit_string_style_of(t) is None,
{
}

/// The qualified name that goes with a type, if there is one.
pub open spec fn qname_of(t: TypeView) -> Option<QNameView> {
    match t {
        TypeView::ClassDef(c) => Some(c.qname),
        TypeView::ClassType(c) => Some(c.class.qname),
        TypeView::TypedDict(TypedDictView::TypedDict(c)) => Some(c.class.qname),
        TypeView::PartialTypedDict(TypedDictView::TypedDict(c)) => Some(c.class.qname),
        TypeView::TypeVar(n) => Some(n),
        TypeView::TypeVarTuple(n) => Some(n),
        TypeView::ParamSpec(n) => Some(n),
        TypeView::SelfType(c) => Some(c.class.qname),
        TypeView::Literal(lit) => match lit.value {
            LitView::Enum(e) => Some(e.class.class.qname),
            _ => None,
        },
        TypeView::Sentinel(n) => Some(n),
        _ => None,
    }
}

/// A class goes by its name, whether the type is the class itself, an instance of it, a typed
/// dictionary or a part of one that it declares, `Self` in it, or a member of it as an enum. A
/// legacy type variable and a sentinel go by their own names. Nothing else has a qualified name.
pub proof fn lemma_qname(t: TypeView, c: ClassTypeView, member: Seq<char>, style: LitStyle)
    ensures
        qname_of(TypeView::ClassDef(c.class)) == Some(c.class.qname),
        qname_of(TypeView::ClassType(c)) == Some(c.class.qname),
        qname_of(TypeView::SelfType(c)) == Some(c.class.qname),
        qname_of(TypeView::TypedDict(TypedDictView::TypedDict(c))) == Some(c.class.qname),
        qname_of(TypeView::PartialTypedDict(TypedDictView::TypedDict(c))) == Some(c.class.qname),
        qname_of(
            TypeView::Literal(
                Box::new(
                    LiteralView {
                        value: LitView::Enum(Box::new(LitEnumView { class: c, member })),
                        style,
                    },
                ),
            ),
        ) == Some(c.class.qname),
        t is TypeVar ==> qname_of(t) == Some(t->TypeVar_0),
        t is TypeVarTuple ==> qname_of(t) == Some(t->TypeVarTuple_0),
        t is ParamSpec ==> qname_of(t) == Some(t->ParamSpec_0),
        t is Sentinel ==> qname_of(t) == Some(t->Sentinel_0),
        t is Literal && !(t->Literal_0.value is Enum) ==> qname_of(t) is None,
        t is TypedDict && t->TypedDict_0 is Anonymous ==> qname_of(t) is None,
        t is PartialTypedDict && t->PartialTypedDict_0 is Anonymous ==> qname_of(t) is None,
        !(t is ClassDef || t is ClassType || t is SelfType || t is TypedDict
            || t is PartialTypedDict || t is Literal || t is TypeVar || t is TypeVarTuple
            || t is ParamSpec || t is Sentinel)
            ==> qname_of(t) is None,
{
}

/// The type parameter that a type is, with what it is narrowed to.
pub open spec fn as_quantified_of(t: TypeView) -> Option<(QuantifiedView, Option<TypeView>)> {
    match t {
        TypeView::Quantified(q) => Some((*q, None)),
        TypeView::Intersect(x) => if x.0.len() != 2 {
            None
        } else {
            match (x.0[0], x.0[1]) {
                (TypeView::Quantified(_), TypeView::Quantified(_)) => None,
                (TypeView::Quantified(q), u) => Some((*q, Some(u))),
                (u, TypeView::Quantified(q)) => Some((*q, Some(u))),
                _ => None,
            }
        },
        _ => None,
    }
}

/// A type parameter is itself, and is not narrowed. The intersection of a type parameter with one
/// other type, in whichever order, is the type parameter narrowed to that type. Nothing else is a
/// type parameter, in particular no intersection of two type parameters.
pub proof fn lemma_as_quantified(t: TypeView, q: QuantifiedView, u: TypeView, fallback: TypeView)
    ensures
        as_quantified_of(TypeView::Quantified(Box::new(q))) == Some((q, None::<TypeView>)),
        !(u is Quantified) ==> as_quantified_of(
            TypeView::Intersect(
                Box::new((seq![TypeView::Quantified(Box::new(q)), u], fallback)),
            ),
        ) == Some((q, Some(u))),
        !(u is Quantified) ==> as_quantified_of(
            TypeView::Intersect(
                Box::new((seq![u, TypeView::Quantified(Box::new(q))], fallback)),
            ),
        ) == Some((q, Some(u))),
        t is Intersect && t->Intersect_0.0.len() != 2 ==> as_quantified_of(t) is None,
        t is Intersect && t->Intersect_0.0.len() == 2 && (t->Intersect_0.0[0] is Quantified
            == t->Intersect_0.0[1] is Quantified) ==> as_quantified_of(t) is None,
        !(t is Quantified || t is Intersect) ==> as_quantified_of(t) is None,
{
}

/// The truth value of a literal, where it is known without its class.
pub open spec fn lit_truth(lit: LitView) -> Option<bool> {
    match lit {
        LitView::Bool(b) => Some(b),
        LitView::Int(n) => Some(n.nonzero()),
        LitView::Bytes(b) => Some(b.len() > 0),
        LitView::Str(s) => Some(s.len() > 0),
        LitView::Enum(_) => None,
    }
}

/// What `bool()` gives for every value of the type, if it gives the same for all of them and that
/// is known.
pub open spec fn truth_of(t: TypeView) -> Option<bool>
    decreases t,
{
    match t {
        TypeView::Literal(lit) => lit_truth(lit.value),
        TypeView::Type(_) => Some(true),
        TypeView::NoneType => Some(false),
        TypeView::Sentinel(_) => Some(true),
        TypeView::Tuple(TupleView::Concrete(elements)) => Some(elements.len() > 0),
        TypeView::Union(u) => if u.members.len() > 0 && truth_of(u.members[0]) is Some && (
        forall|i: int|
            if 0 <= i < u.members.len() {
                truth_of(#[trigger] u.members[i]) == truth_of(u.members[0])
            } else {
                true
            }) {
            truth_of(u.members[0])
        } else {
            None
        },
        _ => None,
    }
}

/// A number is true unless it is zero, and a text or a tuple unless it is empty. `None` is false;
/// classes and sentinels are true. A union has a truth value just if it has members and they all
/// have that one. Of anything else it is not known.
pub proof fn lemma_truth(t: TypeView, b: bool)
    ensures
        t is Literal && t->Literal_0.value is Bool ==> truth_of(t) == Some(
            t->Literal_0.value->Bool_0,
        ),
        t is Literal && t->Literal_0.value is Int ==> truth_of(t) == Some(
            !(forall|i: int|
                0 <= i < t->Literal_0.value->Int_0.magnitude.len()
                    ==> t->Literal_0.value->Int_0.magnitude[i] == 0),
        ),
        t is Literal && t->Literal_0.value is Str ==> truth_of(t) == Some(
            t->Literal_0.value->Str_0.len() > 0,
        ),
        t is Literal && t->Literal_0.value is Bytes ==> truth_of(t) == Some(
            t->Literal_0.value->Bytes_0.len() > 0,
        ),
        t is Literal && t->Literal_0.value is Enum ==> truth_of(t) is None,
        t is NoneType ==> truth_of(t) == Some(false),
        t is Type || t is Sentinel ==> truth_of(t) == Some(true),
        t is Tuple && t->Tuple_0 is Concrete ==> truth_of(t) == Some(
            t->Tuple_0->Concrete_0.len() > 0,
        ),
        t is Tuple && !(t->Tuple_0 is Concrete) ==> truth_of(t) is None,
        t is Union ==> (truth_of(t) == Some(b)) == (t->Union_0.members.len() > 0 && forall|i: int|
            0 <= i < t->Union_0.members.len() ==> truth_of(#[trigger] t->Union_0.members[i])
                == Some(b)),
        !(t is Literal || t is NoneType || t is Type || t is Sentinel || t is Tuple || t is Union)
            ==> truth_of(t) is None,
{
    if let TypeView::Literal(lit) = t {
        if let LitView::Int(n) = lit.value {
            assert(n.nonzero() == !(forall|i: int|
                0 <= i < n.magnitude.len() ==> n.magnitude[i] == 0));
        }
    }
    if let TypeView::Union(u) = t {
        lemma_type_parts(t);
        lemma_union_parts(*u);
        if u.members.len() > 0 {
            let first = truth_of(u.members[0]);
            if forall|i: int|
                0 <= i < u.members.len() ==> truth_of(#[trigger] u.members[i]) == Some(b) {
                assert(truth_of(t) == Some(b));
            }
        }
    }
}

/// The alternatives of a type: the members of a union, or the type itself.
pub open spec fn alternatives(t: TypeView) -> Seq<TypeView> {
    match t {
        TypeView::Union(u) => u.members,
        _ => seq![t],
    }
}

/// A union has the alternatives that it was made of.
pub proof fn lemma_alternatives_of_union(ts: Seq<TypeView>)
    ensures
        alternatives(union_view(ts)) == ts,
{
}

/// `t` or `None`. `None` stands last, as it does in the order of types.
pub open spec fn optional_of(t: TypeView) -> TypeView {
    match t {
        TypeView::NoneType => t,
        TypeView::Union(u) => if u.members.len() > 0 && u.members.last() is NoneType {
            union_view(u.members)
        } else {
            union_view(u.members.push(TypeView::NoneType))
        },
        _ => union_view(seq![t, TypeView::NoneType]),
    }
}

/// A union has its members for alternatives, and any other type itself. An optional type has those
/// of the type and `None` after them, unless `None` is the last of them already; `None` itself
/// stays as it is.
pub proof fn lemma_optional(t: TypeView)
    ensures
        t is Union ==> alternatives(t) == t->Union_0.members,
        !(t is Union) ==> alternatives(t) == seq![t],
        t is NoneType ==> optional_of(t) == t,
        !(t is NoneType) ==> optional_of(t) is Union && optional_of(
            t,
        )->Union_0.display_name is None,
        alternatives(optional_of(t)) == if alternatives(t).len() > 0
            && alternatives(t).last() is NoneType {
            alternatives(t)
        } else {
            alternatives(t).push(TypeView::NoneType)
        },
{
    assert(seq![t].push(TypeView::NoneType) =~= seq![t, TypeView::NoneType]);
}

/// Every type but `None` itself stands before `None`.
pub proof fn lemma_none_stands_last(t: TypeView)
    ensures
        rank_tokens(tokens_type(t), tokens_type(TypeView::NoneType)) == if t is NoneType {
            Rank::Same
        } else {
            Rank::Before
        },
{
    let (a, b) = (tokens_type(t), tokens_type(TypeView::NoneType));
    lemma_tokens_type(t);
    lemma_tokens_type(TypeView::NoneType);
    lemma_rank_same(a, b);
    assert(b =~= seq![(0u8, 53u64)]);
    assert(a[0].0 == 0u8);
}

/// Making a type optional a second time changes nothing.
pub proof fn lemma_optional_twice(t: TypeView)
    ensures
        optional_of(optional_of(t)) == optional_of(t),
{
}

/// Are the types in order?
pub open spec fn is_sorted(ts: Seq<TypeView>) -> bool {
    forall|i: int, j: int|
        0 <= i < j < ts.len() ==> !(rank_tokens(
            tokens_type(#[trigger] ts[i]),
            tokens_type(#[trigger] ts[j]),
        ) is After)
}

/// An optional type allows `None` and all that the type allowed, and its alternatives are in order
/// if those of the type were.
pub proof fn lemma_optional_sorted(t: TypeView)
    requires
        is_sorted(alternatives(t)),
    ensures
        is_sorted(alternatives(optional_of(t))),
        alternatives(optional_of(t)).contains(TypeView::NoneType),
        forall|i: int|
            0 <= i < alternatives(t).len() ==> alternatives(optional_of(t)).contains(
                #[trigger] alternatives(t)[i],
            ),
{
    let (a, b) = (alternatives(t), alternatives(optional_of(t)));
    assert forall|i: int, j: int| 0 <= i < j < b.len() implies !(rank_tokens(
        tokens_type(#[trigger] b[i]),
        tokens_type(#[trigger] b[j]),
    ) is After) by {
        if j < a.len() {
            assert(b[i] == a[i] && b[j] == a[j]);
        } else {
            lemma_none_stands_last(b[i]);
        }
    }
    assert(b[b.len() - 1] == TypeView::NoneType);
    assert forall|i: int| 0 <= i < a.len() implies b.contains(#[trigger] a[i]) by {
        assert(b[i] == a[i]);
    }
}

impl Type {
    /// The type out of a shared pointer to it.
    pub fn arc_clone(self: Arc<Self>) -> (r: Type)
        ensures
            r@ == (*self)@,
    {
        (*self).clone()
    }

    pub fn never() -> (r: Type)
        ensures
            r@ == TypeView::Never(NeverStyle::Never),
    {
        broadcast use lemma_type_view;

        Type::Never(NeverStyle::Never)
    }

    pub fn as_module(&self) -> (r: Option<&ModuleType>)
        ensures
            match r {
                Some(m) => self@ == TypeView::Module(m@),
                None => !(self@ is Module),
            },
    {
        proof {
            lemma_type_view(*self);
        }
        match self {
            Type::Module(m) => Some(m),
            _ => None,
        }
    }

    pub fn callable(params: Vec<Param>, ret: Type) -> (r: Type)
        ensures
            r@ == TypeView::Callable(
                Box::new(
                    CallableView {
                        params: ParamsView::List(view_param_seq(params@)),
                        ret: ret@,
                    },
                ),
            ),
    {
        broadcast use lemma_type_view;

        Type::Callable(Box::new(Callable::list(ParamList::new(params), ret)))
    }

    pub fn callable_ellipsis(ret: Type) -> (r: Type)
        ensures
            r@ == TypeView::Callable(
                Box::new(CallableView { params: ParamsView::Ellipsis, ret: ret@ }),
            ),
    {
        broadcast use lemma_type_view;

        Type::Callable(Box::new(Callable::ellipsis(ret)))
    }

    pub fn callable_param_spec(p: Type, ret: Type) -> (r: Type)
        ensures
            r@ == TypeView::Callable(
                Box::new(
                    CallableView {
                        params: ParamsView::ParamSpec(Seq::empty(), p@),
                        ret: ret@,
                    },
                ),
            ),
    {
        broadcast use lemma_type_view;

        Type::Callable(Box::new(Callable::param_spec(p, ret)))
    }

    pub fn callable_concatenate(args: Vec<PrefixParam>, param_spec: Type, ret: Type) -> (r: Type)
        ensures
            r@ == TypeView::Callable(
                Box::new(
                    CallableView {
                        params: ParamsView::ParamSpec(view_param_seq(args@), param_spec@),
                        ret: ret@,
                    },
                ),
            ),
    {
        broadcast use lemma_type_view;

        Type::Callable(Box::new(Callable::concatenate(args, param_spec, ret)))
    }

    pub fn is_union(&self) -> (r: bool)
        ensures
            r == (self@ is Union),
    {
        proof {
            lemma_type_view(*self);
        }
        matches!(self, Type::Union(_))
    }

    /// The number of top-level alternatives in a union, or 1 for other types.
    pub fn union_width(&self) -> (r: usize)
        ensures
            r == alternatives(self@).len(),
    {
        proof {
            lemma_type_view(*self);
        }
        match self {
            Type::Union(u) => {
                proof {
                    lemma_union_view(**u);
                }
                u.members.len()
            },
            _ => 1,
        }
    }

    pub fn is_never(&self) -> (r: bool)
        ensures
            r == (self@ is Never),
    {
        proof {
            lemma_type_view(*self);
        }
        matches!(self, Type::Never(_))
    }

    pub fn is_implicit_literal(&self) -> (r: bool)
        ensures
            r == is_implicit_literal(self@),
    {
        proof {
            lemma_type_view(*self);
        }
        match self {
            Type::Literal(lit) => {
                proof {
                    lemma_literal_view(**lit);
                }
                matches!(lit.style, LitStyle::Implicit)
            },
            Type::LiteralString(LitStyle::Implicit) => true,
            _ => false,
        }
    }

    pub fn is_literal_string(&self) -> (r: bool)
        ensures
            r == (lit_string_style_of(self@) is Some),
    {
        self.lit_string_style().is_some()
    }

    /// A scalar type cannot decompose into a container element type.
    pub fn is_scalar(&self) -> (r: bool)
        ensures
            r == (self@ is Literal || self@ is LiteralString || self@ is NoneType),
    {
        proof {
            lemma_type_view(*self);
        }
        matches!(self, Type::Literal(_) | Type::LiteralString(_) | Type::NoneType)
    }

    /// If this type is a literal string (either `LiteralString` or a `Literal` string value), its
    /// style.
    pub fn lit_string_style(&self) -> (r: Option<&LitStyle>)
        ensures
            match r {
                Some(style) => lit_string_style_of(self@) == Some(*style),
                None => lit_string_style_of(self@) is None,
            },
    {
        proof {
            lemma_type_view(*self);
        }
        match self {
            Type::LiteralString(style) => Some(style),
            Type::Literal(l) => {
                proof {
                    lemma_literal_view(**l);
                }
                if l.value.is_string() {
                    Some(&l.style)
                } else {
                    None
                }
            },
            _ => None,
        }
    }

    pub fn is_unpack(&self) -> (r: bool)
        ensures
            r == (self@ is Unpack),
    {
        proof {
            lemma_type_view(*self);
        }
        matches!(self, Type::Unpack(_))
    }

    /// The `TypedDict` of an `Unpack[TypedDict]`, the annotation form a `**kwargs` parameter uses
    /// to accept each field as a keyword argument. `None` for any other type, including `Unpack`
    /// of a non-`TypedDict` such as a `TypeVarTuple`.
    pub fn unpacked_typed_dict(&self) -> (r: Option<&TypedDict>)
        ensures
            match r {
                Some(td) => self@ matches TypeView::Unpack(inner) && *inner == TypeView::TypedDict(
                    td@,
                ),
                None => !(self@ matches TypeView::Unpack(inner) && *inner is TypedDict),
            },
    {
        proof {
            lemma_type_view(*self);
        }
        match self {
            Type::Unpack(inner) => {
                proof {
                    lemma_type_view(**inner);
                }
                match &**inner {
                    Type::TypedDict(typed_dict) => Some(typed_dict),
                    _ => None,
                }
            },
            _ => None,
        }
    }

    pub fn type_of(inner: Type) -> (r: Type)
        ensures
            r@ == TypeView::Type(Box::new(inner@)),
    {
        broadcast use lemma_type_view;

        Type::Type(Box::new(inner))
    }

    pub fn concrete_tuple(elts: Vec<Type>) -> (r: Type)
        ensures
            r@ == TypeView::Tuple(TupleView::Concrete(view_types(elts@))),
    {
        broadcast use {lemma_type_view, lemma_tuple_view};

        Type::Tuple(Tuple::Concrete(elts))
    }

    pub fn is_any(&self) -> (r: bool)
        ensures
            r == (self@ is Any),
    {
        proof {
            lemma_type_view(*self);
        }
        matches!(self, Type::Any(_))
    }

    pub fn is_typed_dict(&self) -> (r: bool)
        ensures
            r == (self@ is TypedDict || self@ is PartialTypedDict),
    {
        proof {
            lemma_type_view(*self);
        }
        matches!(self, Type::TypedDict(_) | Type::PartialTypedDict(_))
    }

    pub fn is_error(&self) -> (r: bool)
        ensures
            r == (self@ == TypeView::Any(AnyStyle::Error)),
    {
        proof {
            lemma_type_view(*self);
        }
        matches!(self, Type::Any(AnyStyle::Error))
    }

    pub fn is_kind_type_var_tuple(&self) -> (r: bool)
        ensures
            r == match self@ {
                TypeView::TypeVarTuple(_) => true,
                TypeView::Quantified(q) => q.kind is TypeVarTuple,
                _ => false,
            },
    {
        proof {
            lemma_type_view(*self);
        }
        match self {
            Type::TypeVarTuple(_) => true,
            Type::Quantified(q) => q.is_type_var_tuple(),
            _ => false,
        }
    }

    pub fn is_kind_param_spec(&self) -> (r: bool)
        ensures
            r == match self@ {
                TypeView::Ellipsis => true,
                TypeView::ParamSpec(_) => true,
                TypeView::ParamSpecValue(_) => true,
                TypeView::Concatenate(_, _) => true,
                TypeView::Quantified(q) => q.kind is ParamSpec,
                _ => false,
            },
    {
        proof {
            lemma_type_view(*self);
        }
        match self {
            Type::Ellipsis
            | Type::ParamSpec(_)
            | Type::ParamSpecValue(_)
            | Type::Concatenate(_, _) => true,
            Type::Quantified(q) => q.is_param_spec(),
            _ => false,
        }
    }

    /// Is this type an explicit type variable, that is, a type variable or legacy `TypeVar` that
    /// a user wrote in an annotation?
    pub fn is_explicit_type_variable(&self) -> (r: bool)
        ensures
            r == match self@ {
                TypeView::Quantified(q) => q.kind is TypeVar,
                TypeView::TypeVar(_) => true,
                _ => false,
            },
    {
        proof {
            lemma_type_view(*self);
        }
        match self {
            Type::Quantified(q) => q.is_type_var(),
            Type::TypeVar(_) => true,
            _ => false,
        }
    }

    pub fn is_none(&self) -> (r: bool)
        ensures
            r == (self@ is NoneType),
    {
        proof {
            lemma_type_view(*self);
        }
        matches!(self, Type::NoneType)
    }

    /// If this type represents a (possibly narrowed) type parameter (that is, `Q` or `Q & T`),
    /// the type parameter `Q` plus the type `T` it is narrowed to.
    pub fn as_quantified(&self) -> (r: Option<(&Quantified, Option<&Type>)>)
        ensures
            match r {
                Some((q, t)) => as_quantified_of(self@) == Some(
                    (
                        q@,
                        match t {
                            Some(t) => Some(t@),
                            None => None,
                        },
                    ),
                ),
                None => as_quantified_of(self@) is None,
            },
    {
        proof {
            lemma_type_view(*self);
        }
        match self {
            Type::Quantified(q) => Some((&**q, None)),
            Type::Intersect(x) => {
                let ts = &x.0;
                if ts.len() != 2 {
                    return None;
                }
                proof {
                    assert(view_types(ts@)[0] == ts@[0]@);
                    assert(view_types(ts@)[1] == ts@[1]@);
                    lemma_type_view(ts@[0]);
                    lemma_type_view(ts@[1]);
                }
                match (&ts[0], &ts[1]) {
                    (Type::Quantified(_), Type::Quantified(_)) => None,
                    (Type::Quantified(q), t) => Some((&**q, Some(t))),
                    (t, Type::Quantified(q)) => Some((&**q, Some(t))),
                    _ => None,
                }
            },
            _ => None,
        }
    }

    /// The value of a literal dimension, if this is one.
    pub fn as_shape_literal(&self) -> (r: Option<i64>)
        ensures
            match r {
                Some(n) => self@ == TypeView::Int(IntView::Literal(n)),
                None => !(self@ matches TypeView::Int(d) && d is Literal),
            },
    {
        broadcast use lemma_int_view;

        proof {
            lemma_type_view(*self);
        }
        match self {
            Type::Int(Int::Literal(n)) => Some(*n),
            _ => None,
        }
    }

    /// The members of a union, or the type itself.
    pub fn into_unions(self) -> (r: Vec<Type>)
        ensures
            view_types(r@) == alternatives(self@),
    {
        proof {
            lemma_type_view(self);
        }
        match self {
            Type::Union(u) => {
                proof {
                    lemma_union_view(*u);
                }
                u.members
            },
            _ => {
                let ghost t = self@;
                let mut r: Vec<Type> = Vec::new();
                r.push(self);
                assert(view_types(r@) =~= seq![t]);
                r
            },
        }
    }

    /// The type or `None`. The result is not nested, and it is well sorted if the members of a
    /// union were.
    pub fn optional(x: Type) -> (r: Type)
        ensures
            r@ == optional_of(x@),
    {
        broadcast use {lemma_type_view, lemma_union_view};

        match x {
            Type::NoneType => Type::NoneType,
            Type::Union(u) => {
                let mut members = u.members;
                let ghost ms = view_types(members@);
                let n = members.len();
                if n > 0 {
                    assert(ms.last() == members@[n - 1]@);
                }
                if n > 0 && matches!(members[n - 1], Type::NoneType) {
                    Type::union(members)
                } else {
                    let ghost v = members@;
                    members.push(Type::NoneType);
                    proof {
                        lemma_types_push(v, Type::NoneType);
                    }
                    Type::union(members)
                }
            },
            _ => {
                let ghost t = x@;
                let mut members: Vec<Type> = Vec::new();
                members.push(x);
                members.push(Type::NoneType);
                assert(view_types(members@) =~= seq![t, TypeView::NoneType]);
                Type::union(members)
            },
        }
    }

    /// The qualified name that goes with the type, if there is one.
    pub fn qname(&self) -> (r: Option<&QName>)
        ensures
            match r {
                Some(n) => qname_of(self@) == Some(n@),
                None => qname_of(self@) is None,
            },
    {
        broadcast use {
            lemma_typed_dict_view,
            lemma_literal_view,
            lemma_lit_view,
            lemma_lit_enum_view,
        };

        proof {
            lemma_type_view(*self);
        }
        match self {
            Type::ClassDef(cls) => Some(cls.qname()),
            Type::ClassType(c) => Some(c.qname()),
            Type::TypedDict(TypedDict::TypedDict(c)) => Some(c.qname()),
            Type::PartialTypedDict(TypedDict::TypedDict(c)) => Some(c.qname()),
            Type::TypeVar(t) => Some(t.qname()),
            Type::TypeVarTuple(t) => Some(t.qname()),
            Type::ParamSpec(t) => Some(t.qname()),
            Type::SelfType(cls) => Some(cls.qname()),
            Type::Literal(lit) => match &lit.value {
                Lit::Enum(e) => Some(e.class.qname()),
                _ => None,
            },
            Type::Sentinel(s) => Some(s.qname()),
            _ => None,
        }
    }

    /// The result of calling bool() on a value of this type if we can get a definitive answer,
    /// `None` otherwise.
    pub fn as_bool(&self) -> (r: Option<bool>)
        ensures
            r == truth_of(self@),
        decreases self@,
    {
        broadcast use {lemma_literal_view, lemma_lit_view, lemma_tuple_view};

        let ghost t = self@;
        proof {
            lemma_type_view(*self);
        }
        match self {
            Type::Literal(lit) => match &lit.value {
                Lit::Bool(x) => Some(*x),
                Lit::Int(x) => Some(x.as_bool()),
                Lit::Bytes(x) => Some(x.len() > 0),
                Lit::Str(x) => Some(!x.as_str().is_empty()),
                Lit::Enum(_) => None,
            },
            Type::Type(_) => Some(true),
            Type::NoneType => Some(false),
            Type::Sentinel(_) => Some(true),
            Type::Tuple(Tuple::Concrete(elements)) => Some(elements.len() > 0),
            Type::Union(u) => {
                proof {
                    lemma_union_view(**u);
                    lemma_type_parts(t);
                    lemma_union_parts((**u)@);
                }
                let ghost ms = view_types(u.members@);
                let mut answer: Option<bool> = None;
                for i in 0..u.members.len()
                    invariant
                        t == self@,
                        ms == view_types(u.members@),
                        t matches TypeView::Union(v) && v.members == ms,
                        decreases_to!(t => ms),
                        i == 0 ==> answer is None,
                        i > 0 ==> answer is Some,
                        forall|j: int| 0 <= j < i ==> truth_of(#[trigger] ms[j]) == answer,
                    decreases u.members.len() - i,
                {
                    proof {
                        assert(ms[i as int] == u.members@[i as int]@);
                        assert(decreases_to!(ms => ms[i as int]));
                    }
                    let option = u.members[i].as_bool();
                    if option.is_none() {
                        assert(truth_of(ms[i as int]) is None);
                        assert(truth_of(t) is None);
                        return None;
                    }
                    if answer.is_none() {
                        answer = option;
                    } else if answer != option {
                        assert(truth_of(ms[0]) == answer);
                        assert(truth_of(ms[i as int]) != truth_of(ms[0]));
                        return None;
                    }
                }
                assert(ms.len() > 0 ==> truth_of(ms[0]) == answer);
                answer
            },
            _ => None,
        }
    }
}

} // verus!
