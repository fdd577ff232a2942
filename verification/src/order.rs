//! The order of types.
use std::cmp::Ordering;

use vstd::prelude::*;
use vstd::seq_lib::group_to_multiset_ensures;
use vstd::std_specs::cmp::PartialOrdSpecImpl;
use vstd::utf8::encode_utf8;

use crate::data::{NNModuleType, Type, Union};
use crate::names::Var;
use crate::same::{
    has_field, is_field, lemma_same_nn_module_type, lemma_same_union, same_class_type,
    same_nn_module_type, same_type, same_union,
};
use crate::spelling::{
    lemma_fields_front, lemma_spelled_alike, lemma_spelled_class_type,
    lemma_spelled_nn_module_type, lemma_spelled_text, lemma_spelled_type, lemma_types_front,
};
use crate::tokens::{
    lemma_tokens_field, lemma_tokens_int, lemma_tokens_nn_module_type, lemma_tokens_type,
    lemma_tokens_union, order_of_i64, tokens_bytes, tokens_class_type, tokens_field, tokens_fields,
    tokens_module_fields, tokens_nn_module_type, tokens_text, tokens_type, tokens_types,
    tokens_union, word, Token,
};
use crate::view::{ClassTypeView, FieldView, IntView, NNModuleTypeView, TypeView, UnionView};

verus! {

/// How one thing stands to another in an order.
#[derive(Debug, Clone, Copy, PartialEq, Eq, Structural)]
pub enum Rank {
    Before,
    Same,
    After,
}

impl Rank {
    /// The same comparison, seen from the other side.
    pub open spec fn reversed(self) -> Rank {
        match self {
            Rank::Before => Rank::After,
            Rank::Same => Rank::Same,
            Rank::After => Rank::Before,
        }
    }
}

/// Words are ordered by their first component, and then by their second.
pub open spec fn token_before(a: Token, b: Token) -> bool {
    a.0 < b.0 || (a.0 == b.0 && a.1 < b.1)
}

/// The lexicographic order of spellings.
pub open spec fn rank_tokens(a: Seq<Token>, b: Seq<Token>) -> Rank
    decreases a.len(),
{
    if a.len() == 0 {
        if b.len() == 0 {
            Rank::Same
        } else {
            Rank::Before
        }
    } else if b.len() == 0 {
        Rank::After
    } else if a[0] == b[0] {
        rank_tokens(a.skip(1), b.skip(1))
    } else if token_before(a[0], b[0]) {
        Rank::Before
    } else {
        Rank::After
    }
}

/// Spellings stand at the same place in the order only if they are the same.
pub proof fn lemma_rank_same(a: Seq<Token>, b: Seq<Token>)
    ensures
        (rank_tokens(a, b) is Same) == (a == b),
    decreases a.len(),
{
    if a.len() > 0 && b.len() > 0 {
        if a[0] == b[0] {
            lemma_rank_same(a.skip(1), b.skip(1));
            if a.skip(1) == b.skip(1) {
                assert(a =~= seq![a[0]] + a.skip(1));
                assert(b =~= seq![b[0]] + b.skip(1));
            }
        }
    } else if a.len() == 0 && b.len() == 0 {
        assert(a =~= b);
    }
}

/// Comparing the other way round turns the result round.
pub proof fn lemma_rank_reversed(a: Seq<Token>, b: Seq<Token>)
    ensures
        rank_tokens(b, a) == rank_tokens(a, b).reversed(),
    decreases a.len(),
{
    if a.len() > 0 && b.len() > 0 && a[0] == b[0] {
        lemma_rank_reversed(a.skip(1), b.skip(1));
    }
}

/// What stands before something stands before all that this stands before.
pub proof fn lemma_rank_transitive(a: Seq<Token>, b: Seq<Token>, c: Seq<Token>)
    requires
        rank_tokens(a, b) is Before,
        rank_tokens(b, c) is Before,
    ensures
        rank_tokens(a, c) is Before,
    decreases a.len(),
{
    if a.len() > 0 && b.len() > 0 && c.len() > 0 && a[0] == b[0] && b[0] == c[0] {
        lemma_rank_transitive(a.skip(1), b.skip(1), c.skip(1));
    }
}

/// Types that stand at the same place in the order are equal.
pub proof fn lemma_same_place(a: TypeView, b: TypeView)
    requires
        rank_tokens(tokens_type(a), tokens_type(b)) is Same,
    ensures
        same_type(a, b),
{
    lemma_rank_same(tokens_type(a), tokens_type(b));
    lemma_spelled_alike(a, b);
}

/// Every type is equal to itself, and stands at the same place in the order as itself.
pub proof fn lemma_equal_to_itself(t: TypeView)
    ensures
        same_type(t, t),
        rank_tokens(tokens_type(t), tokens_type(t)) is Same,
{
    lemma_spelled_alike(t, t);
    lemma_rank_same(tokens_type(t), tokens_type(t));
}

/// The name that a union is displayed by does not count when unions are compared for equality or
/// for order, and it is not spelled, so that it does not count when they are hashed either.
pub proof fn lemma_display_name_ignored(a: UnionView, b: UnionView)
    requires
        a.members == b.members,
    ensures
        same_union(a, b),
        tokens_union(a) == tokens_union(b),
        rank_tokens(tokens_union(a), tokens_union(b)) is Same,
{
    lemma_same_union(a, b);
    assert forall|i: int| 0 <= i < a.members.len() implies same_type(
        #[trigger] a.members[i],
        b.members[i],
    ) by {
        lemma_equal_to_itself(a.members[i]);
    }
    lemma_tokens_union(a);
    lemma_tokens_union(b);
    lemma_rank_same(tokens_union(a), tokens_union(b));
}

/// What spellings have in common at the start does not count.
pub(crate) proof fn lemma_rank_common(p: Seq<Token>, x: Seq<Token>, y: Seq<Token>)
    ensures
        rank_tokens(p + x, p + y) == rank_tokens(x, y),
    decreases p.len(),
{
    if p.len() == 0 {
        assert(p + x =~= x);
        assert(p + y =~= y);
    } else {
        assert((p + x).skip(1) =~= p.skip(1) + x);
        assert((p + y).skip(1) =~= p.skip(1) + y);
        lemma_rank_common(p.skip(1), x, y);
    }
}

/// Where neither of two spellings is the start of the other, what follows them does not count.
pub(crate) proof fn lemma_rank_decided(p: Seq<Token>, q: Seq<Token>, x: Seq<Token>, y: Seq<Token>)
    requires
        !p.is_prefix_of(q),
        !q.is_prefix_of(p),
    ensures
        rank_tokens(p + x, q + y) == rank_tokens(p, q),
    decreases p.len(),
{
    if p[0] == q[0] {
        let (r, s) = (p.skip(1), q.skip(1));
        assert((p + x).skip(1) =~= r + x);
        assert((q + y).skip(1) =~= s + y);
        if r.is_prefix_of(s) {
            assert forall|i: int| 0 <= i < p.len() implies p[i] == q[i] by {
                if i > 0 {
                    assert(r[i - 1] == s.subrange(0, r.len() as int)[i - 1]);
                }
            }
            assert(p =~= q.subrange(0, p.len() as int));
        }
        if s.is_prefix_of(r) {
            assert forall|i: int| 0 <= i < q.len() implies q[i] == p[i] by {
                if i > 0 {
                    assert(s[i - 1] == r.subrange(0, s.len() as int)[i - 1]);
                }
            }
            assert(q =~= p.subrange(0, q.len() as int));
        }
        lemma_rank_decided(r, s, x, y);
    }
}

/// A spelling that starts with another is that one and what is left.
pub(crate) proof fn lemma_prefix_left(p: Seq<Token>, q: Seq<Token>)
    requires
        p.is_prefix_of(q),
    ensures
        p + q.skip(p.len() as int) == q + Seq::<Token>::empty(),
{
    assert(p + q.skip(p.len() as int) =~= q + Seq::<Token>::empty());
}

/// Of two classes that are spelled differently, the spellings alone decide.
proof fn lemma_class_decides(a: ClassTypeView, b: ClassTypeView, x: Seq<Token>, y: Seq<Token>)
    requires
        tokens_class_type(a) != tokens_class_type(b),
    ensures
        rank_tokens(tokens_class_type(a) + x, tokens_class_type(b) + y) == rank_tokens(
            tokens_class_type(a),
            tokens_class_type(b),
        ),
{
    let (p, q) = (tokens_class_type(a), tokens_class_type(b));
    let none = Seq::<Token>::empty();
    if p.is_prefix_of(q) {
        lemma_prefix_left(p, q);
        lemma_spelled_class_type(a, b, q.skip(p.len() as int), none);
        assert(p =~= q);
    }
    if q.is_prefix_of(p) {
        lemma_prefix_left(q, p);
        lemma_spelled_class_type(b, a, p.skip(q.len() as int), none);
        assert(p =~= q);
    }
    lemma_rank_decided(p, q, x, y);
}

/// Of two texts that differ, the spellings alone decide.
proof fn lemma_text_decides(a: Seq<char>, b: Seq<char>, x: Seq<Token>, y: Seq<Token>)
    requires
        a != b,
    ensures
        rank_tokens(tokens_text(a) + x, tokens_text(b) + y) == rank_tokens(
            tokens_text(a),
            tokens_text(b),
        ),
{
    let (p, q) = (tokens_text(a), tokens_text(b));
    let none = Seq::<Token>::empty();
    if p.is_prefix_of(q) {
        lemma_prefix_left(p, q);
        lemma_spelled_text(a, b, q.skip(p.len() as int), none);
    }
    if q.is_prefix_of(p) {
        lemma_prefix_left(q, p);
        lemma_spelled_text(b, a, p.skip(q.len() as int), none);
    }
    lemma_rank_decided(p, q, x, y);
}

/// Of two types that are spelled differently, the spellings alone decide.
proof fn lemma_type_decides(a: TypeView, b: TypeView, x: Seq<Token>, y: Seq<Token>)
    requires
        tokens_type(a) != tokens_type(b),
    ensures
        rank_tokens(tokens_type(a) + x, tokens_type(b) + y) == rank_tokens(
            tokens_type(a),
            tokens_type(b),
        ),
{
    let (p, q) = (tokens_type(a), tokens_type(b));
    let none = Seq::<Token>::empty();
    if p.is_prefix_of(q) {
        lemma_prefix_left(p, q);
        lemma_spelled_type(a, b, q.skip(p.len() as int), none);
        assert(p =~= q);
    }
    if q.is_prefix_of(p) {
        lemma_prefix_left(q, p);
        lemma_spelled_type(b, a, p.skip(q.len() as int), none);
        assert(p =~= q);
    }
    lemma_rank_decided(p, q, x, y);
}

/// The lexicographic order of fields: field by field, first by the name and then by the type.
pub open spec fn rank_fields(a: Seq<FieldView>, b: Seq<FieldView>) -> Rank
    decreases a.len(),
{
    if a.len() == 0 {
        if b.len() == 0 {
            Rank::Same
        } else {
            Rank::Before
        }
    } else if b.len() == 0 {
        Rank::After
    } else if a[0].name != b[0].name {
        rank_tokens(tokens_text(a[0].name), tokens_text(b[0].name))
    } else if tokens_type(a[0].ty) != tokens_type(b[0].ty) {
        rank_tokens(tokens_type(a[0].ty), tokens_type(b[0].ty))
    } else {
        rank_fields(a.skip(1), b.skip(1))
    }
}

/// Spelled, fields are ordered field by field.
proof fn lemma_rank_fields(a: Seq<FieldView>, b: Seq<FieldView>)
    ensures
        rank_tokens(tokens_fields(a), tokens_fields(b)) == rank_fields(a, b),
    decreases a.len(),
{
    if a.len() > 0 {
        lemma_fields_front(a);
        assert(tokens_fields(a) =~= word(1) + (tokens_field(a[0]) + tokens_fields(a.skip(1))));
    } else {
        assert(tokens_fields(a) =~= word(0));
    }
    if b.len() > 0 {
        lemma_fields_front(b);
        assert(tokens_fields(b) =~= word(1) + (tokens_field(b[0]) + tokens_fields(b.skip(1))));
    } else {
        assert(tokens_fields(b) =~= word(0));
    }
    if a.len() > 0 && b.len() > 0 {
        let (c, d) = (tokens_fields(a.skip(1)), tokens_fields(b.skip(1)));
        let (s, t) = (tokens_text(a[0].name), tokens_text(b[0].name));
        let (p, q) = (tokens_type(a[0].ty), tokens_type(b[0].ty));
        lemma_rank_common(word(1), tokens_field(a[0]) + c, tokens_field(b[0]) + d);
        lemma_tokens_field(a[0]);
        lemma_tokens_field(b[0]);
        assert(tokens_field(a[0]) + c =~= s + (p + c));
        assert(tokens_field(b[0]) + d =~= t + (q + d));
        if a[0].name != b[0].name {
            lemma_text_decides(a[0].name, b[0].name, p + c, q + d);
        } else {
            lemma_rank_common(s, p + c, q + d);
            if p != q {
                lemma_type_decides(a[0].ty, b[0].ty, c, d);
            } else {
                lemma_rank_common(p, c, d);
                lemma_rank_fields(a.skip(1), b.skip(1));
            }
        }
    } else if a.len() == 0 && b.len() == 0 {
        lemma_rank_same(word(0), word(0));
    }
}

/// Modules whose classes differ are ordered by the classes. Of modules of one class, the one with
/// fewer captured arguments comes first, whatever they are called; where there are as many, the
/// arguments are compared in place, first by the name and then by the type. Modules that stand at
/// the same place in the order are equal. The numbers of arguments are those that a machine can
/// count.
pub proof fn lemma_nn_module_order(a: NNModuleTypeView, b: NNModuleTypeView)
    requires
        a.fields.len() <= u64::MAX,
        b.fields.len() <= u64::MAX,
    ensures
        rank_tokens(tokens_nn_module_type(a), tokens_nn_module_type(b)) == (if tokens_class_type(
            a.class,
        ) != tokens_class_type(b.class) {
            rank_tokens(tokens_class_type(a.class), tokens_class_type(b.class))
        } else if a.fields.len() < b.fields.len() {
            Rank::Before
        } else if a.fields.len() > b.fields.len() {
            Rank::After
        } else {
            rank_fields(a.fields, b.fields)
        }),
        rank_tokens(tokens_nn_module_type(a), tokens_nn_module_type(b)) is Same
            ==> same_nn_module_type(a, b),
{
    let (m, n) = (tokens_nn_module_type(a), tokens_nn_module_type(b));
    let (p, q) = (tokens_class_type(a.class), tokens_class_type(b.class));
    let (x, y) = (tokens_module_fields(a.fields), tokens_module_fields(b.fields));
    lemma_tokens_nn_module_type(a);
    lemma_tokens_nn_module_type(b);
    if p != q {
        lemma_class_decides(a.class, b.class, x, y);
    } else {
        lemma_rank_common(p, x, y);
        let (k, l) = (a.fields.len() as u64, b.fields.len() as u64);
        assert(x[0] == (0u8, k));
        assert(y[0] == (0u8, l));
        if k == l {
            lemma_rank_common(word(k), tokens_fields(a.fields), tokens_fields(b.fields));
            lemma_rank_fields(a.fields, b.fields);
        }
    }
    lemma_rank_same(m, n);
    if m == n {
        let none = Seq::<Token>::empty();
        lemma_spelled_nn_module_type(a, b, none, none);
    }
}

/// The place of a kind of type among the kinds of types.
pub open spec fn kind_place(t: TypeView) -> nat {
    match t {
        TypeView::Literal(_) => 0,
        TypeView::LiteralString(_) => 1,
        TypeView::Callable(_) => 2,
        TypeView::CallableResidual(_) => 3,
        TypeView::TypeLevelDslCall(_) => 4,
        TypeView::Function(_) => 5,
        TypeView::BoundMethod(_) => 6,
        TypeView::Overload(_) => 7,
        TypeView::Union(_) => 8,
        TypeView::Intersect(_) => 9,
        TypeView::ClassDef(_) => 10,
        TypeView::ClassType(_) => 11,
        TypeView::TypedDict(_) => 12,
        TypeView::PartialTypedDict(_) => 13,
        TypeView::ShapedArray(_) => 14,
        TypeView::IntTuple(_) => 15,
        TypeView::NNModule(_) => 16,
        TypeView::DataFrame(_) => 17,
        TypeView::Series(_) => 18,
        TypeView::Int(_) => 19,
        TypeView::Tuple(_) => 20,
        TypeView::Module(_) => 21,
        TypeView::Forall(_) => 22,
        TypeView::Var(_) => 23,
        TypeView::Quantified(_) => 24,
        TypeView::QuantifiedValue(_) => 25,
        TypeView::ElementOfTypeVarTuple(_) => 26,
        TypeView::TypeGuard(_) => 27,
        TypeView::TypeIs(_) => 28,
        TypeView::Annotated(_, _) => 29,
        TypeView::Unpack(_) => 30,
        TypeView::TypeVar(_) => 31,
        TypeView::ParamSpec(_) => 32,
        TypeView::TypeVarTuple(_) => 33,
        TypeView::SpecialForm(_) => 34,
        TypeView::Concatenate(_, _) => 35,
        TypeView::ParamSpecValue(_) => 36,
        TypeView::Args(_) => 37,
        TypeView::Kwargs(_) => 38,
        TypeView::ArgsValue(_) => 39,
        TypeView::KwargsValue(_) => 40,
        TypeView::Type(_) => 41,
        TypeView::TypeForm(_) => 42,
        TypeView::Ellipsis => 43,
        TypeView::Any(_) => 44,
        TypeView::Never(_) => 45,
        TypeView::TypeAlias(_) => 46,
        TypeView::UntypedAlias(_) => 47,
        TypeView::Sentinel(_) => 48,
        TypeView::SuperInstance(_) => 49,
        TypeView::SelfType(_) => 50,
        TypeView::KwCall(_) => 51,
        TypeView::Materialization => 52,
        TypeView::NoneType => 53,
    }
}

/// Types of different kinds stand in the order of their kinds, whatever they hold: literals first,
/// for the sake of unions of them, and `None` last.
#[verifier::rlimit(40)]
#[verifier::spinoff_prover]
pub proof fn lemma_kind_order(a: TypeView, b: TypeView)
    requires
        kind_place(a) < kind_place(b),
    ensures
        rank_tokens(tokens_type(a), tokens_type(b)) is Before,
{
    lemma_tokens_type(a);
    lemma_tokens_type(b);
    assert(tokens_type(a)[0] == (0u8, kind_place(a) as u64));
    assert(tokens_type(b)[0] == (0u8, kind_place(b) as u64));
}

/// The lexicographic order of types, one after the other.
pub open spec fn rank_types(a: Seq<TypeView>, b: Seq<TypeView>) -> Rank
    decreases a.len(),
{
    if a.len() == 0 {
        if b.len() == 0 {
            Rank::Same
        } else {
            Rank::Before
        }
    } else if b.len() == 0 {
        Rank::After
    } else if tokens_type(a[0]) != tokens_type(b[0]) {
        rank_tokens(tokens_type(a[0]), tokens_type(b[0]))
    } else {
        rank_types(a.skip(1), b.skip(1))
    }
}

proof fn lemma_rank_types(a: Seq<TypeView>, b: Seq<TypeView>)
    ensures
        rank_tokens(tokens_types(a), tokens_types(b)) == rank_types(a, b),
    decreases a.len(),
{
    if a.len() > 0 {
        lemma_types_front(a);
        assert(tokens_types(a) =~= word(1) + (tokens_type(a[0]) + tokens_types(a.skip(1))));
    } else {
        assert(tokens_types(a) =~= word(0));
    }
    if b.len() > 0 {
        lemma_types_front(b);
        assert(tokens_types(b) =~= word(1) + (tokens_type(b[0]) + tokens_types(b.skip(1))));
    } else {
        assert(tokens_types(b) =~= word(0));
    }
    if a.len() > 0 && b.len() > 0 {
        let (c, d) = (tokens_types(a.skip(1)), tokens_types(b.skip(1)));
        let (p, q) = (tokens_type(a[0]), tokens_type(b[0]));
        lemma_rank_common(word(1), p + c, q + d);
        if p != q {
            lemma_type_decides(a[0], b[0], c, d);
        } else {
            lemma_rank_common(p, c, d);
            lemma_rank_types(a.skip(1), b.skip(1));
        }
    } else if a.len() == 0 && b.len() == 0 {
        lemma_rank_same(word(0), word(0));
    }
}

/// Unions are ordered by their members, one after the other; of two that agree as far as they go,
/// the shorter comes first.
pub proof fn lemma_union_order(a: UnionView, b: UnionView)
    ensures
        rank_tokens(tokens_union(a), tokens_union(b)) == rank_types(a.members, b.members),
{
    lemma_tokens_union(a);
    lemma_tokens_union(b);
    lemma_rank_types(a.members, b.members);
}

/// The order of the captured arguments does not count when modules are compared for equality.
pub proof fn lemma_argument_order_ignored(a: NNModuleTypeView, b: NNModuleTypeView)
    requires
        a.class == b.class,
        a.fields.to_multiset() == b.fields.to_multiset(),
    ensures
        same_nn_module_type(a, b),
{
    broadcast use group_to_multiset_ensures;

    lemma_same_nn_module_type(a, b);
    lemma_same_class(a.class);
    assert(a.fields.len() == a.fields.to_multiset().len());
    assert(b.fields.len() == b.fields.to_multiset().len());
    reveal(has_field);
    reveal(is_field);
    assert forall|i: int| 0 <= i < a.fields.len() implies has_field(
        b.fields,
        (#[trigger] a.fields[i]).name,
        a.fields[i].ty,
    ) by {
        assert(a.fields.contains(a.fields[i]));
        assert(b.fields.to_multiset().contains(a.fields[i]));
        let j = choose|j: int| 0 <= j < b.fields.len() && b.fields[j] == a.fields[i];
        lemma_equal_to_itself(a.fields[i].ty);
        assert(b.fields[j].name == a.fields[i].name && same_type(a.fields[i].ty, b.fields[j].ty));
    }
    assert forall|j: int| 0 <= j < b.fields.len() implies is_field(
        a.fields,
        (#[trigger] b.fields[j]).name,
        b.fields[j].ty,
    ) by {
        assert(b.fields.contains(b.fields[j]));
        assert(a.fields.to_multiset().contains(b.fields[j]));
        let i = choose|i: int| 0 <= i < a.fields.len() && a.fields[i] == b.fields[j];
        lemma_equal_to_itself(b.fields[j].ty);
        assert(a.fields[i].name == b.fields[j].name && same_type(a.fields[i].ty, b.fields[j].ty));
    }
}

/// A class is equal to itself.
proof fn lemma_same_class(c: ClassTypeView)
    ensures
        same_class_type(c, c),
{
    let none = Seq::<Token>::empty();
    lemma_spelled_class_type(c, c, none, none);
}

/// The lexicographic order of bytes.
pub open spec fn rank_bytes(a: Seq<u8>, b: Seq<u8>) -> Rank
    decreases a.len(),
{
    if a.len() == 0 {
        if b.len() == 0 {
            Rank::Same
        } else {
            Rank::Before
        }
    } else if b.len() == 0 {
        Rank::After
    } else if a[0] < b[0] {
        Rank::Before
    } else if b[0] < a[0] {
        Rank::After
    } else {
        rank_bytes(a.skip(1), b.skip(1))
    }
}

proof fn lemma_rank_bytes(a: Seq<u8>, b: Seq<u8>)
    ensures
        rank_tokens(tokens_bytes(a), tokens_bytes(b)) == rank_bytes(a, b),
    decreases a.len(),
{
    let (p, q) = (tokens_bytes(a), tokens_bytes(b));
    if a.len() > 0 {
        assert(p.skip(1) =~= tokens_bytes(a.skip(1)));
        assert(p[0] == (0u8, (a[0] + 1) as u64));
    } else {
        assert(p =~= word(0));
    }
    if b.len() > 0 {
        assert(q.skip(1) =~= tokens_bytes(b.skip(1)));
        assert(q[0] == (0u8, (b[0] + 1) as u64));
    } else {
        assert(q =~= word(0));
    }
    if a.len() > 0 && b.len() > 0 {
        lemma_rank_bytes(a.skip(1), b.skip(1));
    } else if a.len() == 0 && b.len() == 0 {
        lemma_rank_same(word(0), word(0));
    }
}

/// Texts are ordered by their bytes in UTF-8; variables of the solver and dimensions that are
/// numbers by their numbers, the negative ones first.
pub proof fn lemma_leaf_order(a: Seq<char>, b: Seq<char>, x: Var, y: Var, m: i64, n: i64)
    ensures
        rank_tokens(tokens_text(a), tokens_text(b)) == rank_bytes(encode_utf8(a), encode_utf8(b)),
        rank_tokens(tokens_type(TypeView::Var(x)), tokens_type(TypeView::Var(y))) is Before == (
        x.unique.id < y.unique.id),
        rank_tokens(
            tokens_type(TypeView::Int(IntView::Literal(m))),
            tokens_type(TypeView::Int(IntView::Literal(n))),
        ) is Before == (m < n),
{
    lemma_rank_bytes(encode_utf8(a), encode_utf8(b));
    let (p, q) = (tokens_type(TypeView::Var(x)), tokens_type(TypeView::Var(y)));
    lemma_tokens_type(TypeView::Var(x));
    lemma_tokens_type(TypeView::Var(y));
    let (e, f) = (seq![(1u8, x.unique.id)], seq![(1u8, y.unique.id)]);
    assert(p =~= p.take(1) + e);
    assert(q =~= p.take(1) + f);
    lemma_rank_common(p.take(1), e, f);
    assert(e.skip(1) =~= f.skip(1));
    lemma_rank_same(e.skip(1), f.skip(1));
    let (u, v) = (IntView::Literal(m), IntView::Literal(n));
    let (s, t) = (tokens_type(TypeView::Int(u)), tokens_type(TypeView::Int(v)));
    lemma_tokens_type(TypeView::Int(u));
    lemma_tokens_type(TypeView::Int(v));
    lemma_tokens_int(u);
    lemma_tokens_int(v);
    let (c, d) = (word(order_of_i64(m)), word(order_of_i64(n)));
    let front = s.take(2);
    assert(s =~= front + c);
    assert(t =~= front + d);
    lemma_rank_common(front, c, d);
    assert(c.skip(1) =~= d.skip(1));
    lemma_rank_same(c.skip(1), d.skip(1));
}

/// Compares two spellings.
fn rank(a: &Vec<Token>, b: &Vec<Token>) -> (r: Rank)
    ensures
        r == rank_tokens(a@, b@),
{
    let n = if a.len() <= b.len() {
        a.len()
    } else {
        b.len()
    };
    assert(a@.skip(0) =~= a@);
    assert(b@.skip(0) =~= b@);
    for i in 0..n
        invariant
            n <= a@.len(),
            n <= b@.len(),
            rank_tokens(a@, b@) == rank_tokens(a@.skip(i as int), b@.skip(i as int)),
    {
        let (x, y) = (a[i], b[i]);
        assert(a@.skip(i as int).skip(1) =~= a@.skip(i + 1));
        assert(b@.skip(i as int).skip(1) =~= b@.skip(i + 1));
        if x.0 != y.0 || x.1 != y.1 {
            return if x.0 < y.0 || (x.0 == y.0 && x.1 < y.1) {
                Rank::Before
            } else {
                Rank::After
            };
        }
    }
    if a.len() == b.len() {
        Rank::Same
    } else if a.len() < b.len() {
        Rank::Before
    } else {
        Rank::After
    }
}

/// The place in an order that a rank stands for.
pub open spec fn ordering_of(r: Rank) -> Ordering {
    match r {
        Rank::Before => Ordering::Less,
        Rank::Same => Ordering::Equal,
        Rank::After => Ordering::Greater,
    }
}

/// What stands before is less, what stands after is greater, and only what stands at the same place
/// is equal.
pub proof fn lemma_ordering(r: Rank)
    ensures
        r is Before == (ordering_of(r) is Less),
        r is Same == (ordering_of(r) is Equal),
        r is After == (ordering_of(r) is Greater),
{
}

fn to_ordering(r: Rank) -> (o: Ordering)
    ensures
        o == ordering_of(r),
{
    match r {
        Rank::Before => Ordering::Less,
        Rank::Same => Ordering::Equal,
        Rank::After => Ordering::Greater,
    }
}

impl Type {
    /// Orders types by their spellings.
    pub fn cmp(&self, other: &Type) -> (r: Ordering)
        ensures
            r == ordering_of(rank_tokens(tokens_type(self@), tokens_type(other@))),
    {
        to_ordering(rank(&self.tokens(), &other.tokens()))
    }
}

impl Union {
    /// Orders unions by their members alone.
    pub fn cmp(&self, other: &Union) -> (r: Ordering)
        ensures
            r == ordering_of(rank_tokens(tokens_union(self@), tokens_union(other@))),
    {
        to_ordering(rank(&self.tokens(), &other.tokens()))
    }
}

impl NNModuleType {
    /// Orders by the class, then by the number of captured arguments, then by the arguments, one
    /// by one.
    pub fn cmp(&self, other: &NNModuleType) -> (r: Ordering)
        ensures
            r == ordering_of(
                rank_tokens(tokens_nn_module_type(self@), tokens_nn_module_type(other@)),
            ),
    {
        to_ordering(rank(&self.tokens(), &other.tokens()))
    }
}

impl PartialOrd for Type {
    fn partial_cmp(&self, other: &Self) -> (r: Option<Ordering>) {
        Some(self.cmp(other))
    }
}

impl PartialOrdSpecImpl for Type {
    open spec fn obeys_partial_cmp_spec() -> bool {
        true
    }

    open spec fn partial_cmp_spec(&self, other: &Self) -> Option<Ordering> {
        Some(ordering_of(rank_tokens(tokens_type(self@), tokens_type(other@))))
    }
}

impl PartialOrd for Union {
    fn partial_cmp(&self, other: &Self) -> (r: Option<Ordering>) {
        Some(self.cmp(other))
    }
}

impl PartialOrdSpecImpl for Union {
    open spec fn obeys_partial_cmp_spec() -> bool {
        true
    }

    open spec fn partial_cmp_spec(&self, other: &Self) -> Option<Ordering> {
        Some(ordering_of(rank_tokens(tokens_union(self@), tokens_union(other@))))
    }
}

impl PartialOrd for NNModuleType {
    fn partial_cmp(&self, other: &Self) -> (r: Option<Ordering>) {
        Some(self.cmp(other))
    }
}

impl PartialOrdSpecImpl for NNModuleType {
    open spec fn obeys_partial_cmp_spec() -> bool {
        true
    }

    open spec fn partial_cmp_spec(&self, other: &Self) -> Option<Ordering> {
        Some(
            ordering_of(rank_tokens(tokens_nn_module_type(self@), tokens_nn_module_type(other@))),
        )
    }
}

} // verus!
