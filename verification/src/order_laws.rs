//! Types are ordered part by part.
use vstd::prelude::*;

use crate::names::{
    ClassView,
    FunctionKindView,
    QNameView,
    QuantifiedIdentityView,
    Var,
};
use crate::order::{
    kind_place,
    lemma_kind_order,
    lemma_prefix_left,
    lemma_rank_common,
    lemma_rank_decided,
    lemma_rank_reversed,
    lemma_rank_same,
    rank_tokens,
    Rank,
};
use crate::spelling::{
    lemma_append,
    lemma_dims_front,
    lemma_overloads_front,
    lemma_param_seq_front,
    lemma_quantifieds_front,
    lemma_spelled_callable,
    lemma_spelled_class,
    lemma_spelled_class_type,
    lemma_spelled_fields,
    lemma_spelled_function_kind,
    lemma_spelled_int,
    lemma_spelled_lit,
    lemma_spelled_overload_type,
    lemma_spelled_overloads,
    lemma_spelled_param,
    lemma_spelled_param_seq,
    lemma_spelled_params,
    lemma_spelled_quantified,
    lemma_spelled_quantified_identity,
    lemma_spelled_quantifieds,
    lemma_spelled_restriction,
    lemma_spelled_text,
    lemma_spelled_type,
    lemma_spelled_types,
    lemma_spelled_word,
};
use crate::styles::{
    AnyStyle,
    LitStyle,
    NeverStyle,
    SpecialForm,
};
use crate::tokens::{
    Token,
    lemma_tokens_bound_method,
    lemma_tokens_bound_method_type,
    lemma_tokens_callable,
    lemma_tokens_callable_residual,
    lemma_tokens_class_type,
    lemma_tokens_data_frame_schema,
    lemma_tokens_field,
    lemma_tokens_forallable,
    lemma_tokens_func_metadata,
    lemma_tokens_function,
    lemma_tokens_int,
    lemma_tokens_kw_call,
    lemma_tokens_lit,
    lemma_tokens_lit_enum,
    lemma_tokens_literal,
    lemma_tokens_overload,
    lemma_tokens_overload_type,
    lemma_tokens_param,
    lemma_tokens_params,
    lemma_tokens_property_metadata,
    lemma_tokens_quantified,
    lemma_tokens_restriction,
    lemma_tokens_series_schema,
    lemma_tokens_shaped_array_type,
    lemma_tokens_super_obj,
    lemma_tokens_targs,
    lemma_tokens_tuple,
    lemma_tokens_type,
    lemma_tokens_type_alias,
    lemma_tokens_type_alias_data,
    lemma_tokens_type_alias_ref,
    lemma_tokens_type_level_dsl_call,
    lemma_tokens_typed_dict,
    order_of_i64,
    tokens_bound_method,
    tokens_bound_method_type,
    tokens_bytes,
    tokens_callable,
    tokens_callable_residual,
    tokens_class,
    tokens_class_type,
    tokens_data_frame_schema,
    tokens_dims,
    tokens_field,
    tokens_fields,
    tokens_forall_forallable,
    tokens_forall_function,
    tokens_forallable,
    tokens_func_flags,
    tokens_func_metadata,
    tokens_function,
    tokens_function_kind,
    tokens_int,
    tokens_kw_call,
    tokens_lit,
    tokens_lit_enum,
    tokens_lit_int,
    tokens_literal,
    tokens_nn_module_type,
    tokens_overload,
    tokens_overload_type,
    tokens_overloads,
    tokens_param,
    tokens_param_seq,
    tokens_params,
    tokens_property_metadata,
    tokens_qname,
    tokens_quantified,
    tokens_quantified_identity,
    tokens_quantifieds,
    tokens_restriction,
    tokens_series_schema,
    tokens_shaped_array_type,
    tokens_super_obj,
    tokens_targs,
    tokens_text,
    tokens_tuple,
    tokens_type,
    tokens_type_alias,
    tokens_type_alias_data,
    tokens_type_alias_ref,
    tokens_type_level_dsl_call,
    tokens_typed_dict,
    tokens_types,
    tokens_union,
    var_token,
    word,
    word_of_bool,
};
use crate::view::{
    BoundMethodTypeView,
    BoundMethodView,
    CallableResidualView,
    CallableView,
    ClassTypeView,
    DataFrameSchemaView,
    FieldView,
    ForallView,
    ForallableView,
    FuncMetadataView,
    FunctionView,
    IntView,
    KwCallView,
    LitEnumView,
    LitView,
    LiteralView,
    NNModuleTypeView,
    OverloadTypeView,
    OverloadView,
    ParamView,
    ParamsView,
    PropertyMetadataView,
    QuantifiedView,
    RestrictionView,
    SeriesSchemaView,
    ShapedArrayTypeView,
    SuperObjView,
    TArgsView,
    TupleView,
    TypeAliasDataView,
    TypeAliasRefView,
    TypeAliasView,
    TypeLevelDslCallView,
    TypeView,
    TypedDictView,
    UnionView,
};

verus! {

/// What decides first; if it does not, what decides next.
pub open spec fn decided_by(first: Rank, next: Rank) -> Rank {
    if first is Same {
        next
    } else {
        first
    }
}

/// Is neither spelling the start of the other, unless they are the same?
spec fn are_apart(p: Seq<Token>, q: Seq<Token>) -> bool {
    p.is_prefix_of(q) || q.is_prefix_of(p) ==> p == q
}

proof fn lemma_apart_words(p: Seq<Token>, q: Seq<Token>)
    requires
        p.len() == q.len(),
    ensures
        are_apart(p, q),
{
    if p.is_prefix_of(q) || q.is_prefix_of(p) {
        assert(p =~= q);
    }
}

proof fn lemma_rank_parts(p: Seq<Token>, q: Seq<Token>, x: Seq<Token>, y: Seq<Token>)
    requires
        are_apart(p, q),
    ensures
        rank_tokens(p + x, q + y) == decided_by(rank_tokens(p, q), rank_tokens(x, y)),
{
    lemma_rank_same(p, q);
    if p == q {
        lemma_rank_common(p, x, y);
    } else {
        lemma_rank_decided(p, q, x, y);
    }
}

proof fn lemma_apart_callable(a: CallableView, b: CallableView)
    ensures
        are_apart(tokens_callable(a), tokens_callable(b)),
{
    let (p, q) = (tokens_callable(a), tokens_callable(b));
    let none = Seq::<Token>::empty();
    if p.is_prefix_of(q) {
        lemma_prefix_left(p, q);
        lemma_spelled_callable(a, b, q.skip(p.len() as int), none);
        assert(p =~= q);
    }
    if q.is_prefix_of(p) {
        lemma_prefix_left(q, p);
        lemma_spelled_callable(b, a, p.skip(q.len() as int), none);
        assert(p =~= q);
    }
}

proof fn lemma_apart_class(a: ClassView, b: ClassView)
    ensures
        are_apart(tokens_class(a), tokens_class(b)),
{
    let (p, q) = (tokens_class(a), tokens_class(b));
    let none = Seq::<Token>::empty();
    if p.is_prefix_of(q) {
        lemma_prefix_left(p, q);
        lemma_spelled_class(a, b, q.skip(p.len() as int), none);
        assert(p =~= q);
    }
    if q.is_prefix_of(p) {
        lemma_prefix_left(q, p);
        lemma_spelled_class(b, a, p.skip(q.len() as int), none);
        assert(p =~= q);
    }
}

proof fn lemma_apart_class_type(a: ClassTypeView, b: ClassTypeView)
    ensures
        are_apart(tokens_class_type(a), tokens_class_type(b)),
{
    let (p, q) = (tokens_class_type(a), tokens_class_type(b));
    let none = Seq::<Token>::empty();
    if p.is_prefix_of(q) {
        lemma_prefix_left(p, q);
        lemma_spelled_class_type(a, b, q.skip(p.len() as int), none);
        assert(p =~= q);
    }
    if q.is_prefix_of(p) {
        lemma_prefix_left(q, p);
        lemma_spelled_class_type(b, a, p.skip(q.len() as int), none);
        assert(p =~= q);
    }
}

proof fn lemma_apart_fields(a: Seq<FieldView>, b: Seq<FieldView>)
    ensures
        are_apart(tokens_fields(a), tokens_fields(b)),
{
    let (p, q) = (tokens_fields(a), tokens_fields(b));
    let none = Seq::<Token>::empty();
    if p.is_prefix_of(q) {
        lemma_prefix_left(p, q);
        lemma_spelled_fields(a, b, q.skip(p.len() as int), none);
        assert(p =~= q);
    }
    if q.is_prefix_of(p) {
        lemma_prefix_left(q, p);
        lemma_spelled_fields(b, a, p.skip(q.len() as int), none);
        assert(p =~= q);
    }
}

proof fn lemma_apart_function_kind(a: FunctionKindView, b: FunctionKindView)
    ensures
        are_apart(tokens_function_kind(a), tokens_function_kind(b)),
{
    let (p, q) = (tokens_function_kind(a), tokens_function_kind(b));
    let none = Seq::<Token>::empty();
    if p.is_prefix_of(q) {
        lemma_prefix_left(p, q);
        lemma_spelled_function_kind(a, b, q.skip(p.len() as int), none);
        assert(p =~= q);
    }
    if q.is_prefix_of(p) {
        lemma_prefix_left(q, p);
        lemma_spelled_function_kind(b, a, p.skip(q.len() as int), none);
        assert(p =~= q);
    }
}

proof fn lemma_apart_int(a: IntView, b: IntView)
    ensures
        are_apart(tokens_int(a), tokens_int(b)),
{
    let (p, q) = (tokens_int(a), tokens_int(b));
    let none = Seq::<Token>::empty();
    if p.is_prefix_of(q) {
        lemma_prefix_left(p, q);
        lemma_spelled_int(a, b, q.skip(p.len() as int), none);
        assert(p =~= q);
    }
    if q.is_prefix_of(p) {
        lemma_prefix_left(q, p);
        lemma_spelled_int(b, a, p.skip(q.len() as int), none);
        assert(p =~= q);
    }
}

proof fn lemma_apart_lit(a: LitView, b: LitView)
    ensures
        are_apart(tokens_lit(a), tokens_lit(b)),
{
    let (p, q) = (tokens_lit(a), tokens_lit(b));
    let none = Seq::<Token>::empty();
    if p.is_prefix_of(q) {
        lemma_prefix_left(p, q);
        lemma_spelled_lit(a, b, q.skip(p.len() as int), none);
        assert(p =~= q);
    }
    if q.is_prefix_of(p) {
        lemma_prefix_left(q, p);
        lemma_spelled_lit(b, a, p.skip(q.len() as int), none);
        assert(p =~= q);
    }
}

proof fn lemma_apart_optional_text(a: Option<Seq<char>>, b: Option<Seq<char>>)
    ensures
        are_apart(match a { Some(x) => word(1) + tokens_text(x), None => word(0) }, match b {
            Some(x) => word(1) + tokens_text(x),
            None => word(0),
        }),
{
    let (p, q) = (match a { Some(x) => word(1) + tokens_text(x), None => word(0) }, match b {
        Some(x) => word(1) + tokens_text(x),
        None => word(0),
    });
    let none = Seq::<Token>::empty();
    if p.is_prefix_of(q) {
        lemma_prefix_left(p, q);
        match (a, b) {
            (Some(x), Some(y)) => {
                lemma_append(word(1), tokens_text(x), q.skip(p.len() as int));
                lemma_append(word(1), tokens_text(y), none);
                lemma_spelled_word(
                    1,
                    1,
                    tokens_text(x) + q.skip(p.len() as int),
                    tokens_text(y) + none,
                );
                lemma_spelled_text(x, y, q.skip(p.len() as int), none);
            },
            (Some(x), None) => {
                lemma_append(word(1), tokens_text(x), q.skip(p.len() as int));
                lemma_spelled_word(1, 0, tokens_text(x) + q.skip(p.len() as int), none);
            },
            (None, Some(y)) => {
                lemma_append(word(1), tokens_text(y), none);
                lemma_spelled_word(0, 1, q.skip(p.len() as int), tokens_text(y) + none);
            },
            (None, None) => {
                lemma_spelled_word(0, 0, q.skip(p.len() as int), none);
            },
        }
        assert(p =~= q);
    }
    if q.is_prefix_of(p) {
        lemma_prefix_left(q, p);
        match (b, a) {
            (Some(x), Some(y)) => {
                lemma_append(word(1), tokens_text(x), p.skip(q.len() as int));
                lemma_append(word(1), tokens_text(y), none);
                lemma_spelled_word(
                    1,
                    1,
                    tokens_text(x) + p.skip(q.len() as int),
                    tokens_text(y) + none,
                );
                lemma_spelled_text(x, y, p.skip(q.len() as int), none);
            },
            (Some(x), None) => {
                lemma_append(word(1), tokens_text(x), p.skip(q.len() as int));
                lemma_spelled_word(1, 0, tokens_text(x) + p.skip(q.len() as int), none);
            },
            (None, Some(y)) => {
                lemma_append(word(1), tokens_text(y), none);
                lemma_spelled_word(0, 1, p.skip(q.len() as int), tokens_text(y) + none);
            },
            (None, None) => {
                lemma_spelled_word(0, 0, p.skip(q.len() as int), none);
            },
        }
        assert(p =~= q);
    }
}

proof fn lemma_apart_optional_type(a: Option<TypeView>, b: Option<TypeView>)
    ensures
        are_apart(match a { Some(x) => word(1) + tokens_type(x), None => word(0) }, match b {
            Some(x) => word(1) + tokens_type(x),
            None => word(0),
        }),
{
    let (p, q) = (match a { Some(x) => word(1) + tokens_type(x), None => word(0) }, match b {
        Some(x) => word(1) + tokens_type(x),
        None => word(0),
    });
    let none = Seq::<Token>::empty();
    if p.is_prefix_of(q) {
        lemma_prefix_left(p, q);
        match (a, b) {
            (Some(x), Some(y)) => {
                lemma_append(word(1), tokens_type(x), q.skip(p.len() as int));
                lemma_append(word(1), tokens_type(y), none);
                lemma_spelled_word(
                    1,
                    1,
                    tokens_type(x) + q.skip(p.len() as int),
                    tokens_type(y) + none,
                );
                lemma_spelled_type(x, y, q.skip(p.len() as int), none);
            },
            (Some(x), None) => {
                lemma_append(word(1), tokens_type(x), q.skip(p.len() as int));
                lemma_spelled_word(1, 0, tokens_type(x) + q.skip(p.len() as int), none);
            },
            (None, Some(y)) => {
                lemma_append(word(1), tokens_type(y), none);
                lemma_spelled_word(0, 1, q.skip(p.len() as int), tokens_type(y) + none);
            },
            (None, None) => {
                lemma_spelled_word(0, 0, q.skip(p.len() as int), none);
            },
        }
        assert(p =~= q);
    }
    if q.is_prefix_of(p) {
        lemma_prefix_left(q, p);
        match (b, a) {
            (Some(x), Some(y)) => {
                lemma_append(word(1), tokens_type(x), p.skip(q.len() as int));
                lemma_append(word(1), tokens_type(y), none);
                lemma_spelled_word(
                    1,
                    1,
                    tokens_type(x) + p.skip(q.len() as int),
                    tokens_type(y) + none,
                );
                lemma_spelled_type(x, y, p.skip(q.len() as int), none);
            },
            (Some(x), None) => {
                lemma_append(word(1), tokens_type(x), p.skip(q.len() as int));
                lemma_spelled_word(1, 0, tokens_type(x) + p.skip(q.len() as int), none);
            },
            (None, Some(y)) => {
                lemma_append(word(1), tokens_type(y), none);
                lemma_spelled_word(0, 1, p.skip(q.len() as int), tokens_type(y) + none);
            },
            (None, None) => {
                lemma_spelled_word(0, 0, p.skip(q.len() as int), none);
            },
        }
        assert(p =~= q);
    }
}

proof fn lemma_apart_overload_type(a: OverloadTypeView, b: OverloadTypeView)
    ensures
        are_apart(tokens_overload_type(a), tokens_overload_type(b)),
{
    let (p, q) = (tokens_overload_type(a), tokens_overload_type(b));
    let none = Seq::<Token>::empty();
    if p.is_prefix_of(q) {
        lemma_prefix_left(p, q);
        lemma_spelled_overload_type(a, b, q.skip(p.len() as int), none);
        assert(p =~= q);
    }
    if q.is_prefix_of(p) {
        lemma_prefix_left(q, p);
        lemma_spelled_overload_type(b, a, p.skip(q.len() as int), none);
        assert(p =~= q);
    }
}

proof fn lemma_apart_overloads(a: Seq<OverloadTypeView>, b: Seq<OverloadTypeView>)
    ensures
        are_apart(tokens_overloads(a), tokens_overloads(b)),
{
    let (p, q) = (tokens_overloads(a), tokens_overloads(b));
    let none = Seq::<Token>::empty();
    if p.is_prefix_of(q) {
        lemma_prefix_left(p, q);
        lemma_spelled_overloads(a, b, q.skip(p.len() as int), none);
        assert(p =~= q);
    }
    if q.is_prefix_of(p) {
        lemma_prefix_left(q, p);
        lemma_spelled_overloads(b, a, p.skip(q.len() as int), none);
        assert(p =~= q);
    }
}

proof fn lemma_apart_param(a: ParamView, b: ParamView)
    ensures
        are_apart(tokens_param(a), tokens_param(b)),
{
    let (p, q) = (tokens_param(a), tokens_param(b));
    let none = Seq::<Token>::empty();
    if p.is_prefix_of(q) {
        lemma_prefix_left(p, q);
        lemma_spelled_param(a, b, q.skip(p.len() as int), none);
        assert(p =~= q);
    }
    if q.is_prefix_of(p) {
        lemma_prefix_left(q, p);
        lemma_spelled_param(b, a, p.skip(q.len() as int), none);
        assert(p =~= q);
    }
}

proof fn lemma_apart_param_seq(a: Seq<ParamView>, b: Seq<ParamView>)
    ensures
        are_apart(tokens_param_seq(a), tokens_param_seq(b)),
{
    let (p, q) = (tokens_param_seq(a), tokens_param_seq(b));
    let none = Seq::<Token>::empty();
    if p.is_prefix_of(q) {
        lemma_prefix_left(p, q);
        lemma_spelled_param_seq(a, b, q.skip(p.len() as int), none);
        assert(p =~= q);
    }
    if q.is_prefix_of(p) {
        lemma_prefix_left(q, p);
        lemma_spelled_param_seq(b, a, p.skip(q.len() as int), none);
        assert(p =~= q);
    }
}

proof fn lemma_apart_params(a: ParamsView, b: ParamsView)
    ensures
        are_apart(tokens_params(a), tokens_params(b)),
{
    let (p, q) = (tokens_params(a), tokens_params(b));
    let none = Seq::<Token>::empty();
    if p.is_prefix_of(q) {
        lemma_prefix_left(p, q);
        lemma_spelled_params(a, b, q.skip(p.len() as int), none);
        assert(p =~= q);
    }
    if q.is_prefix_of(p) {
        lemma_prefix_left(q, p);
        lemma_spelled_params(b, a, p.skip(q.len() as int), none);
        assert(p =~= q);
    }
}

proof fn lemma_apart_quantified(a: QuantifiedView, b: QuantifiedView)
    ensures
        are_apart(tokens_quantified(a), tokens_quantified(b)),
{
    let (p, q) = (tokens_quantified(a), tokens_quantified(b));
    let none = Seq::<Token>::empty();
    if p.is_prefix_of(q) {
        lemma_prefix_left(p, q);
        lemma_spelled_quantified(a, b, q.skip(p.len() as int), none);
        assert(p =~= q);
    }
    if q.is_prefix_of(p) {
        lemma_prefix_left(q, p);
        lemma_spelled_quantified(b, a, p.skip(q.len() as int), none);
        assert(p =~= q);
    }
}

proof fn lemma_apart_quantified_identity(a: QuantifiedIdentityView, b: QuantifiedIdentityView)
    ensures
        are_apart(tokens_quantified_identity(a), tokens_quantified_identity(b)),
{
    let (p, q) = (tokens_quantified_identity(a), tokens_quantified_identity(b));
    let none = Seq::<Token>::empty();
    if p.is_prefix_of(q) {
        lemma_prefix_left(p, q);
        lemma_spelled_quantified_identity(a, b, q.skip(p.len() as int), none);
        assert(p =~= q);
    }
    if q.is_prefix_of(p) {
        lemma_prefix_left(q, p);
        lemma_spelled_quantified_identity(b, a, p.skip(q.len() as int), none);
        assert(p =~= q);
    }
}

proof fn lemma_apart_quantifieds(a: Seq<QuantifiedView>, b: Seq<QuantifiedView>)
    ensures
        are_apart(tokens_quantifieds(a), tokens_quantifieds(b)),
{
    let (p, q) = (tokens_quantifieds(a), tokens_quantifieds(b));
    let none = Seq::<Token>::empty();
    if p.is_prefix_of(q) {
        lemma_prefix_left(p, q);
        lemma_spelled_quantifieds(a, b, q.skip(p.len() as int), none);
        assert(p =~= q);
    }
    if q.is_prefix_of(p) {
        lemma_prefix_left(q, p);
        lemma_spelled_quantifieds(b, a, p.skip(q.len() as int), none);
        assert(p =~= q);
    }
}

proof fn lemma_apart_restriction(a: RestrictionView, b: RestrictionView)
    ensures
        are_apart(tokens_restriction(a), tokens_restriction(b)),
{
    let (p, q) = (tokens_restriction(a), tokens_restriction(b));
    let none = Seq::<Token>::empty();
    if p.is_prefix_of(q) {
        lemma_prefix_left(p, q);
        lemma_spelled_restriction(a, b, q.skip(p.len() as int), none);
        assert(p =~= q);
    }
    if q.is_prefix_of(p) {
        lemma_prefix_left(q, p);
        lemma_spelled_restriction(b, a, p.skip(q.len() as int), none);
        assert(p =~= q);
    }
}

proof fn lemma_apart_text(a: Seq<char>, b: Seq<char>)
    ensures
        are_apart(tokens_text(a), tokens_text(b)),
{
    let (p, q) = (tokens_text(a), tokens_text(b));
    let none = Seq::<Token>::empty();
    if p.is_prefix_of(q) {
        lemma_prefix_left(p, q);
        lemma_spelled_text(a, b, q.skip(p.len() as int), none);
        assert(p =~= q);
    }
    if q.is_prefix_of(p) {
        lemma_prefix_left(q, p);
        lemma_spelled_text(b, a, p.skip(q.len() as int), none);
        assert(p =~= q);
    }
}

proof fn lemma_apart_type(a: TypeView, b: TypeView)
    ensures
        are_apart(tokens_type(a), tokens_type(b)),
{
    let (p, q) = (tokens_type(a), tokens_type(b));
    let none = Seq::<Token>::empty();
    if p.is_prefix_of(q) {
        lemma_prefix_left(p, q);
        lemma_spelled_type(a, b, q.skip(p.len() as int), none);
        assert(p =~= q);
    }
    if q.is_prefix_of(p) {
        lemma_prefix_left(q, p);
        lemma_spelled_type(b, a, p.skip(q.len() as int), none);
        assert(p =~= q);
    }
}

proof fn lemma_apart_types(a: Seq<TypeView>, b: Seq<TypeView>)
    ensures
        are_apart(tokens_types(a), tokens_types(b)),
{
    let (p, q) = (tokens_types(a), tokens_types(b));
    let none = Seq::<Token>::empty();
    if p.is_prefix_of(q) {
        lemma_prefix_left(p, q);
        lemma_spelled_types(a, b, q.skip(p.len() as int), none);
        assert(p =~= q);
    }
    if q.is_prefix_of(p) {
        lemma_prefix_left(q, p);
        lemma_spelled_types(b, a, p.skip(q.len() as int), none);
        assert(p =~= q);
    }
}

/// The lexicographic order of the elements, one after the other.
pub open spec fn rank_param_seq(a: Seq<ParamView>, b: Seq<ParamView>) -> Rank
    decreases a.len(),
{
    if a.len() == 0 {
        if b.len() == 0 {
            Rank::Same
        } else {
            Rank::Before
        }
    } else if b.len() == 0 {
        Rank::After
    } else {
        decided_by(
            rank_tokens(tokens_param(a[0]), tokens_param(b[0])),
            rank_param_seq(a.skip(1), b.skip(1)),
        )
    }
}

/// Sequences are ordered by their elements, one after the other; of two that agree as far as they
/// go, the shorter comes first.
pub proof fn lemma_order_of_param_seq(a: Seq<ParamView>, b: Seq<ParamView>)
    ensures
        rank_tokens(tokens_param_seq(a), tokens_param_seq(b)) == rank_param_seq(a, b),
    decreases a.len(),
{
    if a.len() > 0 {
        lemma_param_seq_front(a);
        assert(
            tokens_param_seq(a) =~= word(1) + (tokens_param(a[0]) + tokens_param_seq(a.skip(1)))
        );
    } else {
        assert(tokens_param_seq(a) =~= word(0));
    }
    if b.len() > 0 {
        lemma_param_seq_front(b);
        assert(
            tokens_param_seq(b) =~= word(1) + (tokens_param(b[0]) + tokens_param_seq(b.skip(1)))
        );
    } else {
        assert(tokens_param_seq(b) =~= word(0));
    }
    if a.len() > 0 && b.len() > 0 {
        let (p, q) = (tokens_param(a[0]), tokens_param(b[0]));
        let (c, d) = (tokens_param_seq(a.skip(1)), tokens_param_seq(b.skip(1)));
        lemma_rank_common(word(1), p + c, q + d);
        lemma_apart_param(a[0], b[0]);
        lemma_rank_parts(p, q, c, d);
        lemma_order_of_param_seq(a.skip(1), b.skip(1));
    } else if a.len() == 0 && b.len() == 0 {
        lemma_rank_same(word(0), word(0));
    }
}

/// The lexicographic order of the elements, one after the other.
pub open spec fn rank_quantifieds(a: Seq<QuantifiedView>, b: Seq<QuantifiedView>) -> Rank
    decreases a.len(),
{
    if a.len() == 0 {
        if b.len() == 0 {
            Rank::Same
        } else {
            Rank::Before
        }
    } else if b.len() == 0 {
        Rank::After
    } else {
        decided_by(
            rank_tokens(tokens_quantified(a[0]), tokens_quantified(b[0])),
            rank_quantifieds(a.skip(1), b.skip(1)),
        )
    }
}

/// Sequences are ordered by their elements, one after the other; of two that agree as far as they
/// go, the shorter comes first.
pub proof fn lemma_order_of_quantifieds(a: Seq<QuantifiedView>, b: Seq<QuantifiedView>)
    ensures
        rank_tokens(tokens_quantifieds(a), tokens_quantifieds(b)) == rank_quantifieds(a, b),
    decreases a.len(),
{
    if a.len() > 0 {
        lemma_quantifieds_front(a);
        assert(
            tokens_quantifieds(a) =~= word(1)
                + (tokens_quantified(a[0]) + tokens_quantifieds(a.skip(1)))
        );
    } else {
        assert(tokens_quantifieds(a) =~= word(0));
    }
    if b.len() > 0 {
        lemma_quantifieds_front(b);
        assert(
            tokens_quantifieds(b) =~= word(1)
                + (tokens_quantified(b[0]) + tokens_quantifieds(b.skip(1)))
        );
    } else {
        assert(tokens_quantifieds(b) =~= word(0));
    }
    if a.len() > 0 && b.len() > 0 {
        let (p, q) = (tokens_quantified(a[0]), tokens_quantified(b[0]));
        let (c, d) = (tokens_quantifieds(a.skip(1)), tokens_quantifieds(b.skip(1)));
        lemma_rank_common(word(1), p + c, q + d);
        lemma_apart_quantified(a[0], b[0]);
        lemma_rank_parts(p, q, c, d);
        lemma_order_of_quantifieds(a.skip(1), b.skip(1));
    } else if a.len() == 0 && b.len() == 0 {
        lemma_rank_same(word(0), word(0));
    }
}

/// The lexicographic order of the elements, one after the other.
pub open spec fn rank_overloads(a: Seq<OverloadTypeView>, b: Seq<OverloadTypeView>) -> Rank
    decreases a.len(),
{
    if a.len() == 0 {
        if b.len() == 0 {
            Rank::Same
        } else {
            Rank::Before
        }
    } else if b.len() == 0 {
        Rank::After
    } else {
        decided_by(
            rank_tokens(tokens_overload_type(a[0]), tokens_overload_type(b[0])),
            rank_overloads(a.skip(1), b.skip(1)),
        )
    }
}

/// Sequences are ordered by their elements, one after the other; of two that agree as far as they
/// go, the shorter comes first.
pub proof fn lemma_order_of_overloads(a: Seq<OverloadTypeView>, b: Seq<OverloadTypeView>)
    ensures
        rank_tokens(tokens_overloads(a), tokens_overloads(b)) == rank_overloads(a, b),
    decreases a.len(),
{
    if a.len() > 0 {
        lemma_overloads_front(a);
        assert(
            tokens_overloads(a) =~= word(1)
                + (tokens_overload_type(a[0]) + tokens_overloads(a.skip(1)))
        );
    } else {
        assert(tokens_overloads(a) =~= word(0));
    }
    if b.len() > 0 {
        lemma_overloads_front(b);
        assert(
            tokens_overloads(b) =~= word(1)
                + (tokens_overload_type(b[0]) + tokens_overloads(b.skip(1)))
        );
    } else {
        assert(tokens_overloads(b) =~= word(0));
    }
    if a.len() > 0 && b.len() > 0 {
        let (p, q) = (tokens_overload_type(a[0]), tokens_overload_type(b[0]));
        let (c, d) = (tokens_overloads(a.skip(1)), tokens_overloads(b.skip(1)));
        lemma_rank_common(word(1), p + c, q + d);
        lemma_apart_overload_type(a[0], b[0]);
        lemma_rank_parts(p, q, c, d);
        lemma_order_of_overloads(a.skip(1), b.skip(1));
    } else if a.len() == 0 && b.len() == 0 {
        lemma_rank_same(word(0), word(0));
    }
}

/// The lexicographic order of the elements, one after the other.
pub open spec fn rank_dims(a: Seq<IntView>, b: Seq<IntView>) -> Rank
    decreases a.len(),
{
    if a.len() == 0 {
        if b.len() == 0 {
            Rank::Same
        } else {
            Rank::Before
        }
    } else if b.len() == 0 {
        Rank::After
    } else {
        decided_by(
            rank_tokens(tokens_int(a[0]), tokens_int(b[0])),
            rank_dims(a.skip(1), b.skip(1)),
        )
    }
}

/// Sequences are ordered by their elements, one after the other; of two that agree as far as they
/// go, the shorter comes first.
pub proof fn lemma_order_of_dims(a: Seq<IntView>, b: Seq<IntView>)
    ensures
        rank_tokens(tokens_dims(a), tokens_dims(b)) == rank_dims(a, b),
    decreases a.len(),
{
    if a.len() > 0 {
        lemma_dims_front(a);
        assert(tokens_dims(a) =~= word(1) + (tokens_int(a[0]) + tokens_dims(a.skip(1))));
    } else {
        assert(tokens_dims(a) =~= word(0));
    }
    if b.len() > 0 {
        lemma_dims_front(b);
        assert(tokens_dims(b) =~= word(1) + (tokens_int(b[0]) + tokens_dims(b.skip(1))));
    } else {
        assert(tokens_dims(b) =~= word(0));
    }
    if a.len() > 0 && b.len() > 0 {
        let (p, q) = (tokens_int(a[0]), tokens_int(b[0]));
        let (c, d) = (tokens_dims(a.skip(1)), tokens_dims(b.skip(1)));
        lemma_rank_common(word(1), p + c, q + d);
        lemma_apart_int(a[0], b[0]);
        lemma_rank_parts(p, q, c, d);
        lemma_order_of_dims(a.skip(1), b.skip(1));
    } else if a.len() == 0 && b.len() == 0 {
        lemma_rank_same(word(0), word(0));
    }
}

/// Something generic is ordered by its type parameters, and then by what it is generic over.
pub proof fn lemma_order_of_forall_function(
    a: ForallView<FunctionView>,
    b: ForallView<FunctionView>,
)
    ensures
        rank_tokens(tokens_forall_function(a), tokens_forall_function(b)) == decided_by(
            rank_tokens(tokens_quantifieds(a.tparams), tokens_quantifieds(b.tparams)),
            rank_tokens(tokens_function(a.body), tokens_function(b.body)),
        ),
{
    lemma_apart_quantifieds(a.tparams, b.tparams);
    lemma_rank_parts(
        tokens_quantifieds(a.tparams),
        tokens_quantifieds(b.tparams),
        tokens_function(a.body),
        tokens_function(b.body),
    );
}

/// Something generic is ordered by its type parameters, and then by what it is generic over.
pub proof fn lemma_order_of_forall_forallable(
    a: ForallView<ForallableView>,
    b: ForallView<ForallableView>,
)
    ensures
        rank_tokens(tokens_forall_forallable(a), tokens_forall_forallable(b)) == decided_by(
            rank_tokens(tokens_quantifieds(a.tparams), tokens_quantifieds(b.tparams)),
            rank_tokens(tokens_forallable(a.body), tokens_forallable(b.body)),
        ),
{
    lemma_apart_quantifieds(a.tparams, b.tparams);
    lemma_rank_parts(
        tokens_quantifieds(a.tparams),
        tokens_quantifieds(b.tparams),
        tokens_forallable(a.body),
        tokens_forallable(b.body),
    );
}

/// The place of a form of [`Restriction`](crate::data::Restriction) among its forms.
pub open spec fn restriction_place(m: RestrictionView) -> nat {
    match m {
        RestrictionView::Bound(_) => 0,
        RestrictionView::Constraints(_) => 1,
        RestrictionView::Unrestricted => 2,
    }
}

/// The forms of [`Restriction`](crate::data::Restriction) stand in the order in which they are
/// declared; within one, what is held decides, part by part.
pub proof fn lemma_order_of_restriction(a: RestrictionView, b: RestrictionView)
    ensures
        rank_tokens(tokens_restriction(a), tokens_restriction(b))
            == (if restriction_place(a) < restriction_place(b) {
            Rank::Before
        } else if restriction_place(a) > restriction_place(b) {
            Rank::After
        } else {
            match a {
                RestrictionView::Bound(x) => rank_tokens(tokens_type(x), tokens_type(b->Bound_0)),
                RestrictionView::Constraints(x) => {
                    rank_tokens(tokens_types(x), tokens_types(b->Constraints_0))
                },
                _ => Rank::Same,
            }
        }),
{
    lemma_tokens_restriction(a);
    lemma_tokens_restriction(b);
    if restriction_place(a) != restriction_place(b) {
        assert(tokens_restriction(a)[0] == (0u8, restriction_place(a) as u64));
        assert(tokens_restriction(b)[0] == (0u8, restriction_place(b) as u64));
    } else {
        match a {
            RestrictionView::Bound(x) => {
                lemma_rank_common(word(0), tokens_type(x), tokens_type(b->Bound_0));
            },
            RestrictionView::Constraints(x) => {
                lemma_rank_common(word(1), tokens_types(x), tokens_types(b->Constraints_0));
            },
            _ => {
                lemma_rank_same(tokens_restriction(a), tokens_restriction(b));
            },
        }
    }
}

/// A [`Quantified`](crate::data::Quantified) is ordered by its fields, in the order in which they
/// are declared.
pub proof fn lemma_order_of_quantified(a: QuantifiedView, b: QuantifiedView)
    ensures
        rank_tokens(tokens_quantified(a), tokens_quantified(b)) == decided_by(
            rank_tokens(
                tokens_quantified_identity(a.identity),
                tokens_quantified_identity(b.identity),
            ),
            decided_by(
                rank_tokens(tokens_text(a.name), tokens_text(b.name)),
                decided_by(
                    rank_tokens(word(a.kind.rank_spec()), word(b.kind.rank_spec())),
                    decided_by(
                        rank_tokens(match a.default {
                            Some(x) => word(1) + tokens_type(x),
                            None => word(0),
                        }, match b.default {
                            Some(x) => word(1) + tokens_type(x),
                            None => word(0),
                        }),
                        decided_by(
                            rank_tokens(
                                tokens_restriction(a.restriction),
                                tokens_restriction(b.restriction),
                            ),
                            rank_tokens(word(a.variance.rank_spec()), word(b.variance.rank_spec())),
                        ),
                    ),
                ),
            ),
        ),
{
    lemma_tokens_quantified(a);
    lemma_tokens_quantified(b);
    let (a4, b4) = (
        tokens_restriction(a.restriction) + word(a.variance.rank_spec()),
        tokens_restriction(b.restriction) + word(b.variance.rank_spec()),
    );
    let (a3, b3) = (
        (match a.default { Some(x) => word(1) + tokens_type(x), None => word(0) }) + a4,
        (match b.default { Some(x) => word(1) + tokens_type(x), None => word(0) }) + b4,
    );
    let (a2, b2) = (word(a.kind.rank_spec()) + a3, word(b.kind.rank_spec()) + b3);
    let (a1, b1) = (tokens_text(a.name) + a2, tokens_text(b.name) + b2);
    lemma_append(
        tokens_quantified_identity(a.identity)
            + tokens_text(a.name)
            + word(a.kind.rank_spec())
            + (match a.default { Some(x) => word(1) + tokens_type(x), None => word(0) }),
        tokens_restriction(a.restriction),
        word(a.variance.rank_spec()),
    );
    lemma_append(
        tokens_quantified_identity(a.identity) + tokens_text(a.name) + word(a.kind.rank_spec()),
        (match a.default { Some(x) => word(1) + tokens_type(x), None => word(0) }),
        a4,
    );
    lemma_append(
        tokens_quantified_identity(a.identity) + tokens_text(a.name),
        word(a.kind.rank_spec()),
        a3,
    );
    lemma_append(tokens_quantified_identity(a.identity), tokens_text(a.name), a2);
    lemma_append(
        tokens_quantified_identity(b.identity)
            + tokens_text(b.name)
            + word(b.kind.rank_spec())
            + (match b.default { Some(x) => word(1) + tokens_type(x), None => word(0) }),
        tokens_restriction(b.restriction),
        word(b.variance.rank_spec()),
    );
    lemma_append(
        tokens_quantified_identity(b.identity) + tokens_text(b.name) + word(b.kind.rank_spec()),
        (match b.default { Some(x) => word(1) + tokens_type(x), None => word(0) }),
        b4,
    );
    lemma_append(
        tokens_quantified_identity(b.identity) + tokens_text(b.name),
        word(b.kind.rank_spec()),
        b3,
    );
    lemma_append(tokens_quantified_identity(b.identity), tokens_text(b.name), b2);
    lemma_apart_quantified_identity(a.identity, b.identity);
    lemma_rank_parts(
        tokens_quantified_identity(a.identity),
        tokens_quantified_identity(b.identity),
        a1,
        b1,
    );
    lemma_apart_text(a.name, b.name);
    lemma_rank_parts(tokens_text(a.name), tokens_text(b.name), a2, b2);
    lemma_apart_words(word(a.kind.rank_spec()), word(b.kind.rank_spec()));
    lemma_rank_parts(word(a.kind.rank_spec()), word(b.kind.rank_spec()), a3, b3);
    lemma_apart_optional_type(a.default, b.default);
    lemma_rank_parts(
        (match a.default { Some(x) => word(1) + tokens_type(x), None => word(0) }),
        (match b.default { Some(x) => word(1) + tokens_type(x), None => word(0) }),
        a4,
        b4,
    );
    lemma_apart_restriction(a.restriction, b.restriction);
    lemma_rank_parts(
        tokens_restriction(a.restriction),
        tokens_restriction(b.restriction),
        word(a.variance.rank_spec()),
        word(b.variance.rank_spec()),
    );
}

/// A [`TArgs`](crate::data::TArgs) is ordered by its fields, in the order in which they are
/// declared.
pub proof fn lemma_order_of_targs(a: TArgsView, b: TArgsView)
    ensures
        rank_tokens(tokens_targs(a), tokens_targs(b)) == decided_by(
            rank_tokens(tokens_quantifieds(a.tparams), tokens_quantifieds(b.tparams)),
            rank_tokens(tokens_types(a.args), tokens_types(b.args)),
        ),
{
    lemma_tokens_targs(a);
    lemma_tokens_targs(b);
    assert(tokens_targs(a) =~= tokens_quantifieds(a.tparams) + tokens_types(a.args));
    assert(tokens_targs(b) =~= tokens_quantifieds(b.tparams) + tokens_types(b.args));
    lemma_apart_quantifieds(a.tparams, b.tparams);
    lemma_rank_parts(
        tokens_quantifieds(a.tparams),
        tokens_quantifieds(b.tparams),
        tokens_types(a.args),
        tokens_types(b.args),
    );
}

/// A [`ClassType`](crate::data::ClassType) is ordered by its fields, in the order in which they are
/// declared.
pub proof fn lemma_order_of_class_type(a: ClassTypeView, b: ClassTypeView)
    ensures
        rank_tokens(tokens_class_type(a), tokens_class_type(b)) == decided_by(
            rank_tokens(tokens_class(a.class), tokens_class(b.class)),
            rank_tokens(tokens_targs(a.targs), tokens_targs(b.targs)),
        ),
{
    lemma_tokens_class_type(a);
    lemma_tokens_class_type(b);
    assert(tokens_class_type(a) =~= tokens_class(a.class) + tokens_targs(a.targs));
    assert(tokens_class_type(b) =~= tokens_class(b.class) + tokens_targs(b.targs));
    lemma_apart_class(a.class, b.class);
    lemma_rank_parts(
        tokens_class(a.class),
        tokens_class(b.class),
        tokens_targs(a.targs),
        tokens_targs(b.targs),
    );
}

/// A [`LitEnum`](crate::data::LitEnum) is ordered by its fields, in the order in which they are
/// declared.
pub proof fn lemma_order_of_lit_enum(a: LitEnumView, b: LitEnumView)
    ensures
        rank_tokens(tokens_lit_enum(a), tokens_lit_enum(b)) == decided_by(
            rank_tokens(tokens_class_type(a.class), tokens_class_type(b.class)),
            rank_tokens(tokens_text(a.member), tokens_text(b.member)),
        ),
{
    lemma_tokens_lit_enum(a);
    lemma_tokens_lit_enum(b);
    assert(tokens_lit_enum(a) =~= tokens_class_type(a.class) + tokens_text(a.member));
    assert(tokens_lit_enum(b) =~= tokens_class_type(b.class) + tokens_text(b.member));
    lemma_apart_class_type(a.class, b.class);
    lemma_rank_parts(
        tokens_class_type(a.class),
        tokens_class_type(b.class),
        tokens_text(a.member),
        tokens_text(b.member),
    );
}

/// The place of a form of [`Lit`](crate::data::Lit) among its forms.
pub open spec fn lit_place(m: LitView) -> nat {
    match m {
        LitView::Str(_) => 0,
        LitView::Int(_) => 1,
        LitView::Bool(_) => 2,
        LitView::Bytes(_) => 3,
        LitView::Enum(_) => 4,
    }
}

/// The forms of [`Lit`](crate::data::Lit) stand in the order in which they are declared; within
/// one, what is held decides, part by part.
pub proof fn lemma_order_of_lit(a: LitView, b: LitView)
    ensures
        rank_tokens(tokens_lit(a), tokens_lit(b)) == (if lit_place(a) < lit_place(b) {
            Rank::Before
        } else if lit_place(a) > lit_place(b) {
            Rank::After
        } else {
            match a {
                LitView::Str(x) => rank_tokens(tokens_text(x), tokens_text(b->Str_0)),
                LitView::Int(x) => rank_tokens(tokens_lit_int(x), tokens_lit_int(b->Int_0)),
                LitView::Bool(x) => rank_tokens(word_of_bool(x), word_of_bool(b->Bool_0)),
                LitView::Bytes(x) => rank_tokens(tokens_bytes(x), tokens_bytes(b->Bytes_0)),
                LitView::Enum(x) => rank_tokens(tokens_lit_enum(*x), tokens_lit_enum(*b->Enum_0)),
            }
        }),
{
    lemma_tokens_lit(a);
    lemma_tokens_lit(b);
    if lit_place(a) != lit_place(b) {
        assert(tokens_lit(a)[0] == (0u8, lit_place(a) as u64));
        assert(tokens_lit(b)[0] == (0u8, lit_place(b) as u64));
    } else {
        match a {
            LitView::Str(x) => {
                lemma_rank_common(word(0), tokens_text(x), tokens_text(b->Str_0));
            },
            LitView::Int(x) => {
                lemma_rank_common(word(1), tokens_lit_int(x), tokens_lit_int(b->Int_0));
            },
            LitView::Bool(x) => {
                lemma_rank_common(word(2), word_of_bool(x), word_of_bool(b->Bool_0));
            },
            LitView::Bytes(x) => {
                lemma_rank_common(word(3), tokens_bytes(x), tokens_bytes(b->Bytes_0));
            },
            LitView::Enum(x) => {
                lemma_rank_common(word(4), tokens_lit_enum(*x), tokens_lit_enum(*b->Enum_0));
            },
        }
    }
}

/// A [`Literal`](crate::data::Literal) is ordered by its fields, in the order in which they are
/// declared.
pub proof fn lemma_order_of_literal(a: LiteralView, b: LiteralView)
    ensures
        rank_tokens(tokens_literal(a), tokens_literal(b)) == decided_by(
            rank_tokens(tokens_lit(a.value), tokens_lit(b.value)),
            rank_tokens(word(a.style.rank_spec()), word(b.style.rank_spec())),
        ),
{
    lemma_tokens_literal(a);
    lemma_tokens_literal(b);
    assert(tokens_literal(a) =~= tokens_lit(a.value) + word(a.style.rank_spec()));
    assert(tokens_literal(b) =~= tokens_lit(b.value) + word(b.style.rank_spec()));
    lemma_apart_lit(a.value, b.value);
    lemma_rank_parts(
        tokens_lit(a.value),
        tokens_lit(b.value),
        word(a.style.rank_spec()),
        word(b.style.rank_spec()),
    );
}

/// A [`Param`](crate::data::Param) is ordered by its fields, in the order in which they are
/// declared.
pub proof fn lemma_order_of_param(a: ParamView, b: ParamView)
    ensures
        rank_tokens(tokens_param(a), tokens_param(b)) == decided_by(
            rank_tokens(match a.name {
                Some(x) => word(1) + tokens_text(x),
                None => word(0),
            }, match b.name {
                Some(x) => word(1) + tokens_text(x),
                None => word(0),
            }),
            decided_by(
                rank_tokens(word(a.kind.rank_spec()), word(b.kind.rank_spec())),
                decided_by(
                    rank_tokens(word_of_bool(a.required), word_of_bool(b.required)),
                    rank_tokens(tokens_type(a.ty), tokens_type(b.ty)),
                ),
            ),
        ),
{
    lemma_tokens_param(a);
    lemma_tokens_param(b);
    let (a2, b2) = (
        word_of_bool(a.required) + tokens_type(a.ty),
        word_of_bool(b.required) + tokens_type(b.ty),
    );
    let (a1, b1) = (word(a.kind.rank_spec()) + a2, word(b.kind.rank_spec()) + b2);
    assert(
        tokens_param(a) =~= (match a.name { Some(x) => word(1) + tokens_text(x), None => word(0) })
            + a1
    );
    assert(
        tokens_param(b) =~= (match b.name { Some(x) => word(1) + tokens_text(x), None => word(0) })
            + b1
    );
    lemma_apart_optional_text(a.name, b.name);
    lemma_rank_parts(
        (match a.name { Some(x) => word(1) + tokens_text(x), None => word(0) }),
        (match b.name { Some(x) => word(1) + tokens_text(x), None => word(0) }),
        a1,
        b1,
    );
    lemma_apart_words(word(a.kind.rank_spec()), word(b.kind.rank_spec()));
    lemma_rank_parts(word(a.kind.rank_spec()), word(b.kind.rank_spec()), a2, b2);
    lemma_apart_words(word_of_bool(a.required), word_of_bool(b.required));
    lemma_rank_parts(
        word_of_bool(a.required),
        word_of_bool(b.required),
        tokens_type(a.ty),
        tokens_type(b.ty),
    );
}

/// The place of a form of [`Params`](crate::data::Params) among its forms.
pub open spec fn params_place(m: ParamsView) -> nat {
    match m {
        ParamsView::List(_) => 0,
        ParamsView::Ellipsis => 1,
        ParamsView::Materialization => 2,
        ParamsView::ParamSpec(_, _) => 3,
    }
}

/// The forms of [`Params`](crate::data::Params) stand in the order in which they are declared;
/// within one, what is held decides, part by part.
pub proof fn lemma_order_of_params(a: ParamsView, b: ParamsView)
    ensures
        rank_tokens(tokens_params(a), tokens_params(b)) == (if params_place(a) < params_place(b) {
            Rank::Before
        } else if params_place(a) > params_place(b) {
            Rank::After
        } else {
            match a {
                ParamsView::List(x) => {
                    rank_tokens(tokens_param_seq(x), tokens_param_seq(b->List_0))
                },
                ParamsView::ParamSpec(x, x2) => decided_by(
                    rank_tokens(tokens_param_seq(x), tokens_param_seq(b->ParamSpec_0)),
                    rank_tokens(tokens_type(x2), tokens_type(b->ParamSpec_1)),
                ),
                _ => Rank::Same,
            }
        }),
{
    lemma_tokens_params(a);
    lemma_tokens_params(b);
    if params_place(a) != params_place(b) {
        assert(tokens_params(a)[0] == (0u8, params_place(a) as u64));
        assert(tokens_params(b)[0] == (0u8, params_place(b) as u64));
    } else {
        match a {
            ParamsView::List(x) => {
                lemma_rank_common(word(0), tokens_param_seq(x), tokens_param_seq(b->List_0));
            },
            ParamsView::ParamSpec(x, x2) => {
                let (a0, b0) = (
                    tokens_param_seq(x) + tokens_type(x2),
                    tokens_param_seq(b->ParamSpec_0) + tokens_type(b->ParamSpec_1),
                );
                assert(tokens_params(a) =~= word(3) + a0);
                assert(tokens_params(b) =~= word(3) + b0);
                lemma_rank_common(word(3), a0, b0);
                lemma_apart_param_seq(x, b->ParamSpec_0);
                lemma_rank_parts(
                    tokens_param_seq(x),
                    tokens_param_seq(b->ParamSpec_0),
                    tokens_type(x2),
                    tokens_type(b->ParamSpec_1),
                );
            },
            _ => {
                lemma_rank_same(tokens_params(a), tokens_params(b));
            },
        }
    }
}

/// A [`Callable`](crate::data::Callable) is ordered by its fields, in the order in which they are
/// declared.
pub proof fn lemma_order_of_callable(a: CallableView, b: CallableView)
    ensures
        rank_tokens(tokens_callable(a), tokens_callable(b)) == decided_by(
            rank_tokens(tokens_params(a.params), tokens_params(b.params)),
            rank_tokens(tokens_type(a.ret), tokens_type(b.ret)),
        ),
{
    lemma_tokens_callable(a);
    lemma_tokens_callable(b);
    assert(tokens_callable(a) =~= tokens_params(a.params) + tokens_type(a.ret));
    assert(tokens_callable(b) =~= tokens_params(b.params) + tokens_type(b.ret));
    lemma_apart_params(a.params, b.params);
    lemma_rank_parts(
        tokens_params(a.params),
        tokens_params(b.params),
        tokens_type(a.ret),
        tokens_type(b.ret),
    );
}

/// A [`PropertyMetadata`](crate::data::PropertyMetadata) is ordered by its fields, in the order in
/// which they are declared.
pub proof fn lemma_order_of_property_metadata(a: PropertyMetadataView, b: PropertyMetadataView)
    ensures
        rank_tokens(tokens_property_metadata(a), tokens_property_metadata(b)) == decided_by(
            rank_tokens(word(a.role.rank_spec()), word(b.role.rank_spec())),
            rank_tokens(tokens_type(a.getter), tokens_type(b.getter)),
        ),
{
    lemma_tokens_property_metadata(a);
    lemma_tokens_property_metadata(b);
    assert(tokens_property_metadata(a) =~= word(a.role.rank_spec()) + tokens_type(a.getter));
    assert(tokens_property_metadata(b) =~= word(b.role.rank_spec()) + tokens_type(b.getter));
    lemma_apart_words(word(a.role.rank_spec()), word(b.role.rank_spec()));
    lemma_rank_parts(
        word(a.role.rank_spec()),
        word(b.role.rank_spec()),
        tokens_type(a.getter),
        tokens_type(b.getter),
    );
}

/// A [`FuncMetadata`](crate::data::FuncMetadata) is ordered by its fields, in the order in which
/// they are declared.
pub proof fn lemma_order_of_func_metadata(a: FuncMetadataView, b: FuncMetadataView)
    ensures
        rank_tokens(tokens_func_metadata(a), tokens_func_metadata(b)) == decided_by(
            rank_tokens(tokens_function_kind(a.kind), tokens_function_kind(b.kind)),
            rank_tokens(tokens_func_flags(a.flags), tokens_func_flags(b.flags)),
        ),
{
    lemma_tokens_func_metadata(a);
    lemma_tokens_func_metadata(b);
    assert(tokens_func_metadata(a) =~= tokens_function_kind(a.kind) + tokens_func_flags(a.flags));
    assert(tokens_func_metadata(b) =~= tokens_function_kind(b.kind) + tokens_func_flags(b.flags));
    lemma_apart_function_kind(a.kind, b.kind);
    lemma_rank_parts(
        tokens_function_kind(a.kind),
        tokens_function_kind(b.kind),
        tokens_func_flags(a.flags),
        tokens_func_flags(b.flags),
    );
}

/// A [`Function`](crate::data::Function) is ordered by its fields, in the order in which they are
/// declared.
pub proof fn lemma_order_of_function(a: FunctionView, b: FunctionView)
    ensures
        rank_tokens(tokens_function(a), tokens_function(b)) == decided_by(
            rank_tokens(tokens_callable(a.signature), tokens_callable(b.signature)),
            rank_tokens(tokens_func_metadata(a.metadata), tokens_func_metadata(b.metadata)),
        ),
{
    lemma_tokens_function(a);
    lemma_tokens_function(b);
    assert(tokens_function(a) =~= tokens_callable(a.signature) + tokens_func_metadata(a.metadata));
    assert(tokens_function(b) =~= tokens_callable(b.signature) + tokens_func_metadata(b.metadata));
    lemma_apart_callable(a.signature, b.signature);
    lemma_rank_parts(
        tokens_callable(a.signature),
        tokens_callable(b.signature),
        tokens_func_metadata(a.metadata),
        tokens_func_metadata(b.metadata),
    );
}

/// A [`TypeAlias`](crate::data::TypeAlias) is ordered by its fields, in the order in which they are
/// declared.
pub proof fn lemma_order_of_type_alias(a: TypeAliasView, b: TypeAliasView)
    ensures
        rank_tokens(tokens_type_alias(a), tokens_type_alias(b)) == decided_by(
            rank_tokens(tokens_text(a.name), tokens_text(b.name)),
            rank_tokens(tokens_type(a.ty), tokens_type(b.ty)),
        ),
{
    lemma_tokens_type_alias(a);
    lemma_tokens_type_alias(b);
    assert(tokens_type_alias(a) =~= tokens_text(a.name) + tokens_type(a.ty));
    assert(tokens_type_alias(b) =~= tokens_text(b.name) + tokens_type(b.ty));
    lemma_apart_text(a.name, b.name);
    lemma_rank_parts(
        tokens_text(a.name),
        tokens_text(b.name),
        tokens_type(a.ty),
        tokens_type(b.ty),
    );
}

/// A [`TypeAliasRef`](crate::data::TypeAliasRef) is ordered by its fields, in the order in which
/// they are declared.
pub proof fn lemma_order_of_type_alias_ref(a: TypeAliasRefView, b: TypeAliasRefView)
    ensures
        rank_tokens(tokens_type_alias_ref(a), tokens_type_alias_ref(b)) == decided_by(
            rank_tokens(tokens_text(a.name), tokens_text(b.name)),
            rank_tokens(match a.args {
                Some(x) => word(1) + tokens_targs(x),
                None => word(0),
            }, match b.args {
                Some(x) => word(1) + tokens_targs(x),
                None => word(0),
            }),
        ),
{
    lemma_tokens_type_alias_ref(a);
    lemma_tokens_type_alias_ref(b);
    assert(
        tokens_type_alias_ref(a) =~= tokens_text(a.name)
            + (match a.args { Some(x) => word(1) + tokens_targs(x), None => word(0) })
    );
    assert(
        tokens_type_alias_ref(b) =~= tokens_text(b.name)
            + (match b.args { Some(x) => word(1) + tokens_targs(x), None => word(0) })
    );
    lemma_apart_text(a.name, b.name);
    lemma_rank_parts(
        tokens_text(a.name),
        tokens_text(b.name),
        (match a.args { Some(x) => word(1) + tokens_targs(x), None => word(0) }),
        (match b.args { Some(x) => word(1) + tokens_targs(x), None => word(0) }),
    );
}

/// The place of a form of [`TypeAliasData`](crate::data::TypeAliasData) among its forms.
pub open spec fn type_alias_data_place(m: TypeAliasDataView) -> nat {
    match m {
        TypeAliasDataView::Value(_) => 0,
        TypeAliasDataView::Ref(_) => 1,
    }
}

/// The forms of [`TypeAliasData`](crate::data::TypeAliasData) stand in the order in which they are
/// declared; within one, what is held decides, part by part.
pub proof fn lemma_order_of_type_alias_data(a: TypeAliasDataView, b: TypeAliasDataView)
    ensures
        rank_tokens(tokens_type_alias_data(a), tokens_type_alias_data(b))
            == (if type_alias_data_place(a) < type_alias_data_place(b) {
            Rank::Before
        } else if type_alias_data_place(a) > type_alias_data_place(b) {
            Rank::After
        } else {
            match a {
                TypeAliasDataView::Value(x) => {
                    rank_tokens(tokens_type_alias(x), tokens_type_alias(b->Value_0))
                },
                TypeAliasDataView::Ref(x) => {
                    rank_tokens(tokens_type_alias_ref(x), tokens_type_alias_ref(b->Ref_0))
                },
            }
        }),
{
    lemma_tokens_type_alias_data(a);
    lemma_tokens_type_alias_data(b);
    if type_alias_data_place(a) != type_alias_data_place(b) {
        assert(tokens_type_alias_data(a)[0] == (0u8, type_alias_data_place(a) as u64));
        assert(tokens_type_alias_data(b)[0] == (0u8, type_alias_data_place(b) as u64));
    } else {
        match a {
            TypeAliasDataView::Value(x) => {
                lemma_rank_common(word(0), tokens_type_alias(x), tokens_type_alias(b->Value_0));
            },
            TypeAliasDataView::Ref(x) => {
                lemma_rank_common(
                    word(1),
                    tokens_type_alias_ref(x),
                    tokens_type_alias_ref(b->Ref_0),
                );
            },
        }
    }
}

/// The place of a form of [`Forallable`](crate::data::Forallable) among its forms.
pub open spec fn forallable_place(m: ForallableView) -> nat {
    match m {
        ForallableView::TypeAlias(_) => 0,
        ForallableView::Function(_) => 1,
        ForallableView::Callable(_) => 2,
    }
}

/// The forms of [`Forallable`](crate::data::Forallable) stand in the order in which they are
/// declared; within one, what is held decides, part by part.
pub proof fn lemma_order_of_forallable(a: ForallableView, b: ForallableView)
    ensures
        rank_tokens(tokens_forallable(a), tokens_forallable(b))
            == (if forallable_place(a) < forallable_place(b) {
            Rank::Before
        } else if forallable_place(a) > forallable_place(b) {
            Rank::After
        } else {
            match a {
                ForallableView::TypeAlias(x) => {
                    rank_tokens(tokens_type_alias_data(x), tokens_type_alias_data(b->TypeAlias_0))
                },
                ForallableView::Function(x) => {
                    rank_tokens(tokens_function(x), tokens_function(b->Function_0))
                },
                ForallableView::Callable(x) => {
                    rank_tokens(tokens_callable(x), tokens_callable(b->Callable_0))
                },
            }
        }),
{
    lemma_tokens_forallable(a);
    lemma_tokens_forallable(b);
    if forallable_place(a) != forallable_place(b) {
        assert(tokens_forallable(a)[0] == (0u8, forallable_place(a) as u64));
        assert(tokens_forallable(b)[0] == (0u8, forallable_place(b) as u64));
    } else {
        match a {
            ForallableView::TypeAlias(x) => {
                lemma_rank_common(
                    word(0),
                    tokens_type_alias_data(x),
                    tokens_type_alias_data(b->TypeAlias_0),
                );
            },
            ForallableView::Function(x) => {
                lemma_rank_common(word(1), tokens_function(x), tokens_function(b->Function_0));
            },
            ForallableView::Callable(x) => {
                lemma_rank_common(word(2), tokens_callable(x), tokens_callable(b->Callable_0));
            },
        }
    }
}

/// The place of a form of [`OverloadType`](crate::data::OverloadType) among its forms.
pub open spec fn overload_type_place(m: OverloadTypeView) -> nat {
    match m {
        OverloadTypeView::Function(_) => 0,
        OverloadTypeView::Forall(_) => 1,
    }
}

/// The forms of [`OverloadType`](crate::data::OverloadType) stand in the order in which they are
/// declared; within one, what is held decides, part by part.
pub proof fn lemma_order_of_overload_type(a: OverloadTypeView, b: OverloadTypeView)
    ensures
        rank_tokens(tokens_overload_type(a), tokens_overload_type(b))
            == (if overload_type_place(a) < overload_type_place(b) {
            Rank::Before
        } else if overload_type_place(a) > overload_type_place(b) {
            Rank::After
        } else {
            match a {
                OverloadTypeView::Function(x) => {
                    rank_tokens(tokens_function(x), tokens_function(b->Function_0))
                },
                OverloadTypeView::Forall(x) => {
                    rank_tokens(tokens_forall_function(x), tokens_forall_function(b->Forall_0))
                },
            }
        }),
{
    lemma_tokens_overload_type(a);
    lemma_tokens_overload_type(b);
    if overload_type_place(a) != overload_type_place(b) {
        assert(tokens_overload_type(a)[0] == (0u8, overload_type_place(a) as u64));
        assert(tokens_overload_type(b)[0] == (0u8, overload_type_place(b) as u64));
    } else {
        match a {
            OverloadTypeView::Function(x) => {
                lemma_rank_common(word(0), tokens_function(x), tokens_function(b->Function_0));
            },
            OverloadTypeView::Forall(x) => {
                lemma_rank_common(
                    word(1),
                    tokens_forall_function(x),
                    tokens_forall_function(b->Forall_0),
                );
            },
        }
    }
}

/// A [`Overload`](crate::data::Overload) is ordered by its fields, in the order in which they are
/// declared.
pub proof fn lemma_order_of_overload(a: OverloadView, b: OverloadView)
    ensures
        rank_tokens(tokens_overload(a), tokens_overload(b)) == decided_by(
            rank_tokens(tokens_overloads(a.signatures), tokens_overloads(b.signatures)),
            rank_tokens(tokens_func_metadata(*a.metadata), tokens_func_metadata(*b.metadata)),
        ),
{
    lemma_tokens_overload(a);
    lemma_tokens_overload(b);
    assert(
        tokens_overload(a) =~= tokens_overloads(a.signatures) + tokens_func_metadata(*a.metadata)
    );
    assert(
        tokens_overload(b) =~= tokens_overloads(b.signatures) + tokens_func_metadata(*b.metadata)
    );
    lemma_apart_overloads(a.signatures, b.signatures);
    lemma_rank_parts(
        tokens_overloads(a.signatures),
        tokens_overloads(b.signatures),
        tokens_func_metadata(*a.metadata),
        tokens_func_metadata(*b.metadata),
    );
}

/// The place of a form of [`BoundMethodType`](crate::data::BoundMethodType) among its forms.
pub open spec fn bound_method_type_place(m: BoundMethodTypeView) -> nat {
    match m {
        BoundMethodTypeView::Function(_) => 0,
        BoundMethodTypeView::Forall(_) => 1,
        BoundMethodTypeView::Overload(_) => 2,
    }
}

/// The forms of [`BoundMethodType`](crate::data::BoundMethodType) stand in the order in which they
/// are declared; within one, what is held decides, part by part.
pub proof fn lemma_order_of_bound_method_type(a: BoundMethodTypeView, b: BoundMethodTypeView)
    ensures
        rank_tokens(tokens_bound_method_type(a), tokens_bound_method_type(b))
            == (if bound_method_type_place(a) < bound_method_type_place(b) {
            Rank::Before
        } else if bound_method_type_place(a) > bound_method_type_place(b) {
            Rank::After
        } else {
            match a {
                BoundMethodTypeView::Function(x) => {
                    rank_tokens(tokens_function(x), tokens_function(b->Function_0))
                },
                BoundMethodTypeView::Forall(x) => {
                    rank_tokens(tokens_forall_function(x), tokens_forall_function(b->Forall_0))
                },
                BoundMethodTypeView::Overload(x) => {
                    rank_tokens(tokens_overload(x), tokens_overload(b->Overload_0))
                },
            }
        }),
{
    lemma_tokens_bound_method_type(a);
    lemma_tokens_bound_method_type(b);
    if bound_method_type_place(a) != bound_method_type_place(b) {
        assert(tokens_bound_method_type(a)[0] == (0u8, bound_method_type_place(a) as u64));
        assert(tokens_bound_method_type(b)[0] == (0u8, bound_method_type_place(b) as u64));
    } else {
        match a {
            BoundMethodTypeView::Function(x) => {
                lemma_rank_common(word(0), tokens_function(x), tokens_function(b->Function_0));
            },
            BoundMethodTypeView::Forall(x) => {
                lemma_rank_common(
                    word(1),
                    tokens_forall_function(x),
                    tokens_forall_function(b->Forall_0),
                );
            },
            BoundMethodTypeView::Overload(x) => {
                lemma_rank_common(word(2), tokens_overload(x), tokens_overload(b->Overload_0));
            },
        }
    }
}

/// A [`BoundMethod`](crate::data::BoundMethod) is ordered by its fields, in the order in which they
/// are declared.
pub proof fn lemma_order_of_bound_method(a: BoundMethodView, b: BoundMethodView)
    ensures
        rank_tokens(tokens_bound_method(a), tokens_bound_method(b)) == decided_by(
            rank_tokens(tokens_type(a.obj), tokens_type(b.obj)),
            rank_tokens(tokens_bound_method_type(a.func), tokens_bound_method_type(b.func)),
        ),
{
    lemma_tokens_bound_method(a);
    lemma_tokens_bound_method(b);
    assert(tokens_bound_method(a) =~= tokens_type(a.obj) + tokens_bound_method_type(a.func));
    assert(tokens_bound_method(b) =~= tokens_type(b.obj) + tokens_bound_method_type(b.func));
    lemma_apart_type(a.obj, b.obj);
    lemma_rank_parts(
        tokens_type(a.obj),
        tokens_type(b.obj),
        tokens_bound_method_type(a.func),
        tokens_bound_method_type(b.func),
    );
}

/// The place of a form of [`TypedDict`](crate::data::TypedDict) among its forms.
pub open spec fn typed_dict_place(m: TypedDictView) -> nat {
    match m {
        TypedDictView::TypedDict(_) => 0,
        TypedDictView::Anonymous(_) => 1,
    }
}

/// The forms of [`TypedDict`](crate::data::TypedDict) stand in the order in which they are
/// declared; within one, what is held decides, part by part.
pub proof fn lemma_order_of_typed_dict(a: TypedDictView, b: TypedDictView)
    ensures
        rank_tokens(tokens_typed_dict(a), tokens_typed_dict(b))
            == (if typed_dict_place(a) < typed_dict_place(b) {
            Rank::Before
        } else if typed_dict_place(a) > typed_dict_place(b) {
            Rank::After
        } else {
            match a {
                TypedDictView::TypedDict(x) => {
                    rank_tokens(tokens_class_type(x), tokens_class_type(b->TypedDict_0))
                },
                TypedDictView::Anonymous(x) => {
                    rank_tokens(tokens_fields(x), tokens_fields(b->Anonymous_0))
                },
            }
        }),
{
    lemma_tokens_typed_dict(a);
    lemma_tokens_typed_dict(b);
    if typed_dict_place(a) != typed_dict_place(b) {
        assert(tokens_typed_dict(a)[0] == (0u8, typed_dict_place(a) as u64));
        assert(tokens_typed_dict(b)[0] == (0u8, typed_dict_place(b) as u64));
    } else {
        match a {
            TypedDictView::TypedDict(x) => {
                lemma_rank_common(word(0), tokens_class_type(x), tokens_class_type(b->TypedDict_0));
            },
            TypedDictView::Anonymous(x) => {
                lemma_rank_common(word(1), tokens_fields(x), tokens_fields(b->Anonymous_0));
            },
        }
    }
}

/// A [`Field`](crate::data::Field) is ordered by its fields, in the order in which they are
/// declared.
pub proof fn lemma_order_of_field(a: FieldView, b: FieldView)
    ensures
        rank_tokens(tokens_field(a), tokens_field(b)) == decided_by(
            rank_tokens(tokens_text(a.name), tokens_text(b.name)),
            rank_tokens(tokens_type(a.ty), tokens_type(b.ty)),
        ),
{
    lemma_tokens_field(a);
    lemma_tokens_field(b);
    assert(tokens_field(a) =~= tokens_text(a.name) + tokens_type(a.ty));
    assert(tokens_field(b) =~= tokens_text(b.name) + tokens_type(b.ty));
    lemma_apart_text(a.name, b.name);
    lemma_rank_parts(
        tokens_text(a.name),
        tokens_text(b.name),
        tokens_type(a.ty),
        tokens_type(b.ty),
    );
}

/// The place of a form of [`Int`](crate::data::Int) among its forms.
pub open spec fn int_place(m: IntView) -> nat {
    match m {
        IntView::Literal(_) => 0,
        IntView::Symbolic(_) => 1,
        IntView::Gradual => 2,
        IntView::Materialization => 3,
    }
}

/// The forms of [`Int`](crate::data::Int) stand in the order in which they are declared; within
/// one, what is held decides, part by part.
pub proof fn lemma_order_of_int(a: IntView, b: IntView)
    ensures
        rank_tokens(tokens_int(a), tokens_int(b)) == (if int_place(a) < int_place(b) {
            Rank::Before
        } else if int_place(a) > int_place(b) {
            Rank::After
        } else {
            match a {
                IntView::Literal(x) => {
                    rank_tokens(word(order_of_i64(x)), word(order_of_i64(b->Literal_0)))
                },
                IntView::Symbolic(x) => rank_tokens(tokens_type(*x), tokens_type(*b->Symbolic_0)),
                _ => Rank::Same,
            }
        }),
{
    lemma_tokens_int(a);
    lemma_tokens_int(b);
    if int_place(a) != int_place(b) {
        assert(tokens_int(a)[0] == (0u8, int_place(a) as u64));
        assert(tokens_int(b)[0] == (0u8, int_place(b) as u64));
    } else {
        match a {
            IntView::Literal(x) => {
                lemma_rank_common(word(0), word(order_of_i64(x)), word(order_of_i64(b->Literal_0)));
            },
            IntView::Symbolic(x) => {
                lemma_rank_common(word(1), tokens_type(*x), tokens_type(*b->Symbolic_0));
            },
            _ => {
                lemma_rank_same(tokens_int(a), tokens_int(b));
            },
        }
    }
}

/// A [`ShapedArrayType`](crate::data::ShapedArrayType) is ordered by its fields, in the order in
/// which they are declared.
pub proof fn lemma_order_of_shaped_array_type(a: ShapedArrayTypeView, b: ShapedArrayTypeView)
    ensures
        rank_tokens(tokens_shaped_array_type(a), tokens_shaped_array_type(b)) == decided_by(
            rank_tokens(tokens_class_type(a.base_class), tokens_class_type(b.base_class)),
            rank_tokens(tokens_dims(a.shape), tokens_dims(b.shape)),
        ),
{
    lemma_tokens_shaped_array_type(a);
    lemma_tokens_shaped_array_type(b);
    assert(tokens_shaped_array_type(a) =~= tokens_class_type(a.base_class) + tokens_dims(a.shape));
    assert(tokens_shaped_array_type(b) =~= tokens_class_type(b.base_class) + tokens_dims(b.shape));
    lemma_apart_class_type(a.base_class, b.base_class);
    lemma_rank_parts(
        tokens_class_type(a.base_class),
        tokens_class_type(b.base_class),
        tokens_dims(a.shape),
        tokens_dims(b.shape),
    );
}

/// A [`DataFrameSchema`](crate::data::DataFrameSchema) is ordered by its fields, in the order in
/// which they are declared.
pub proof fn lemma_order_of_data_frame_schema(a: DataFrameSchemaView, b: DataFrameSchemaView)
    ensures
        rank_tokens(tokens_data_frame_schema(a), tokens_data_frame_schema(b)) == decided_by(
            rank_tokens(tokens_class_type(a.class), tokens_class_type(b.class)),
            rank_tokens(tokens_fields(a.columns), tokens_fields(b.columns)),
        ),
{
    lemma_tokens_data_frame_schema(a);
    lemma_tokens_data_frame_schema(b);
    assert(tokens_data_frame_schema(a) =~= tokens_class_type(a.class) + tokens_fields(a.columns));
    assert(tokens_data_frame_schema(b) =~= tokens_class_type(b.class) + tokens_fields(b.columns));
    lemma_apart_class_type(a.class, b.class);
    lemma_rank_parts(
        tokens_class_type(a.class),
        tokens_class_type(b.class),
        tokens_fields(a.columns),
        tokens_fields(b.columns),
    );
}

/// A [`SeriesSchema`](crate::data::SeriesSchema) is ordered by its fields, in the order in which
/// they are declared.
pub proof fn lemma_order_of_series_schema(a: SeriesSchemaView, b: SeriesSchemaView)
    ensures
        rank_tokens(tokens_series_schema(a), tokens_series_schema(b)) == decided_by(
            rank_tokens(tokens_class_type(a.class), tokens_class_type(b.class)),
            rank_tokens(tokens_type(a.element), tokens_type(b.element)),
        ),
{
    lemma_tokens_series_schema(a);
    lemma_tokens_series_schema(b);
    assert(tokens_series_schema(a) =~= tokens_class_type(a.class) + tokens_type(a.element));
    assert(tokens_series_schema(b) =~= tokens_class_type(b.class) + tokens_type(b.element));
    lemma_apart_class_type(a.class, b.class);
    lemma_rank_parts(
        tokens_class_type(a.class),
        tokens_class_type(b.class),
        tokens_type(a.element),
        tokens_type(b.element),
    );
}

/// The place of a form of [`Tuple`](crate::data::Tuple) among its forms.
pub open spec fn tuple_place(m: TupleView) -> nat {
    match m {
        TupleView::Concrete(_) => 0,
        TupleView::Unbounded(_) => 1,
        TupleView::Unpacked(_) => 2,
    }
}

/// The forms of [`Tuple`](crate::data::Tuple) stand in the order in which they are declared; within
/// one, what is held decides, part by part.
pub proof fn lemma_order_of_tuple(a: TupleView, b: TupleView)
    ensures
        rank_tokens(tokens_tuple(a), tokens_tuple(b)) == (if tuple_place(a) < tuple_place(b) {
            Rank::Before
        } else if tuple_place(a) > tuple_place(b) {
            Rank::After
        } else {
            match a {
                TupleView::Concrete(x) => rank_tokens(tokens_types(x), tokens_types(b->Concrete_0)),
                TupleView::Unbounded(x) => {
                    rank_tokens(tokens_type(*x), tokens_type(*b->Unbounded_0))
                },
                TupleView::Unpacked(x) => decided_by(
                    rank_tokens(tokens_types(x.0), tokens_types(b->Unpacked_0.0)),
                    decided_by(
                        rank_tokens(tokens_type(x.1), tokens_type(b->Unpacked_0.1)),
                        rank_tokens(tokens_types(x.2), tokens_types(b->Unpacked_0.2)),
                    ),
                ),
            }
        }),
{
    lemma_tokens_tuple(a);
    lemma_tokens_tuple(b);
    if tuple_place(a) != tuple_place(b) {
        assert(tokens_tuple(a)[0] == (0u8, tuple_place(a) as u64));
        assert(tokens_tuple(b)[0] == (0u8, tuple_place(b) as u64));
    } else {
        match a {
            TupleView::Concrete(x) => {
                lemma_rank_common(word(0), tokens_types(x), tokens_types(b->Concrete_0));
            },
            TupleView::Unbounded(x) => {
                lemma_rank_common(word(1), tokens_type(*x), tokens_type(*b->Unbounded_0));
            },
            TupleView::Unpacked(x) => {
                let (a1, b1) = (
                    tokens_type(x.1) + tokens_types(x.2),
                    tokens_type(b->Unpacked_0.1) + tokens_types(b->Unpacked_0.2),
                );
                let (a0, b0) = (tokens_types(x.0) + a1, tokens_types(b->Unpacked_0.0) + b1);
                assert(tokens_tuple(a) =~= word(2) + a0);
                assert(tokens_tuple(b) =~= word(2) + b0);
                lemma_rank_common(word(2), a0, b0);
                lemma_apart_types(x.0, b->Unpacked_0.0);
                lemma_rank_parts(tokens_types(x.0), tokens_types(b->Unpacked_0.0), a1, b1);
                lemma_apart_type(x.1, b->Unpacked_0.1);
                lemma_rank_parts(
                    tokens_type(x.1),
                    tokens_type(b->Unpacked_0.1),
                    tokens_types(x.2),
                    tokens_types(b->Unpacked_0.2),
                );
            },
        }
    }
}

/// A [`KwCall`](crate::data::KwCall) is ordered by its fields, in the order in which they are
/// declared.
pub proof fn lemma_order_of_kw_call(a: KwCallView, b: KwCallView)
    ensures
        rank_tokens(tokens_kw_call(a), tokens_kw_call(b)) == decided_by(
            rank_tokens(tokens_fields(a.keywords), tokens_fields(b.keywords)),
            rank_tokens(tokens_type(a.return_ty), tokens_type(b.return_ty)),
        ),
{
    lemma_tokens_kw_call(a);
    lemma_tokens_kw_call(b);
    assert(tokens_kw_call(a) =~= tokens_fields(a.keywords) + tokens_type(a.return_ty));
    assert(tokens_kw_call(b) =~= tokens_fields(b.keywords) + tokens_type(b.return_ty));
    lemma_apart_fields(a.keywords, b.keywords);
    lemma_rank_parts(
        tokens_fields(a.keywords),
        tokens_fields(b.keywords),
        tokens_type(a.return_ty),
        tokens_type(b.return_ty),
    );
}

/// A [`CallableResidual`](crate::data::CallableResidual) is ordered by its fields, in the order in
/// which they are declared.
pub proof fn lemma_order_of_callable_residual(a: CallableResidualView, b: CallableResidualView)
    ensures
        rank_tokens(tokens_callable_residual(a), tokens_callable_residual(b)) == decided_by(
            rank_tokens(tokens_types(a.captured), tokens_types(b.captured)),
            rank_tokens(tokens_type(a.fallback), tokens_type(b.fallback)),
        ),
{
    lemma_tokens_callable_residual(a);
    lemma_tokens_callable_residual(b);
    assert(tokens_callable_residual(a) =~= tokens_types(a.captured) + tokens_type(a.fallback));
    assert(tokens_callable_residual(b) =~= tokens_types(b.captured) + tokens_type(b.fallback));
    lemma_apart_types(a.captured, b.captured);
    lemma_rank_parts(
        tokens_types(a.captured),
        tokens_types(b.captured),
        tokens_type(a.fallback),
        tokens_type(b.fallback),
    );
}

/// A [`TypeLevelDslCall`](crate::data::TypeLevelDslCall) is ordered by its fields, in the order in
/// which they are declared.
pub proof fn lemma_order_of_type_level_dsl_call(a: TypeLevelDslCallView, b: TypeLevelDslCallView)
    ensures
        rank_tokens(tokens_type_level_dsl_call(a), tokens_type_level_dsl_call(b)) == decided_by(
            rank_tokens(tokens_text(a.function), tokens_text(b.function)),
            decided_by(
                rank_tokens(tokens_types(a.args), tokens_types(b.args)),
                rank_tokens(tokens_type(a.result_schema), tokens_type(b.result_schema)),
            ),
        ),
{
    lemma_tokens_type_level_dsl_call(a);
    lemma_tokens_type_level_dsl_call(b);
    let (a1, b1) = (
        tokens_types(a.args) + tokens_type(a.result_schema),
        tokens_types(b.args) + tokens_type(b.result_schema),
    );
    assert(tokens_type_level_dsl_call(a) =~= tokens_text(a.function) + a1);
    assert(tokens_type_level_dsl_call(b) =~= tokens_text(b.function) + b1);
    lemma_apart_text(a.function, b.function);
    lemma_rank_parts(tokens_text(a.function), tokens_text(b.function), a1, b1);
    lemma_apart_types(a.args, b.args);
    lemma_rank_parts(
        tokens_types(a.args),
        tokens_types(b.args),
        tokens_type(a.result_schema),
        tokens_type(b.result_schema),
    );
}

/// The place of a form of [`SuperObj`](crate::data::SuperObj) among its forms.
pub open spec fn super_obj_place(m: SuperObjView) -> nat {
    match m {
        SuperObjView::Instance(_) => 0,
        SuperObjView::Class(_) => 1,
    }
}

/// The forms of [`SuperObj`](crate::data::SuperObj) stand in the order in which they are declared;
/// within one, what is held decides, part by part.
pub proof fn lemma_order_of_super_obj(a: SuperObjView, b: SuperObjView)
    ensures
        rank_tokens(tokens_super_obj(a), tokens_super_obj(b))
            == (if super_obj_place(a) < super_obj_place(b) {
            Rank::Before
        } else if super_obj_place(a) > super_obj_place(b) {
            Rank::After
        } else {
            match a {
                SuperObjView::Instance(x) => {
                    rank_tokens(tokens_class_type(x), tokens_class_type(b->Instance_0))
                },
                SuperObjView::Class(x) => {
                    rank_tokens(tokens_class_type(x), tokens_class_type(b->Class_0))
                },
            }
        }),
{
    lemma_tokens_super_obj(a);
    lemma_tokens_super_obj(b);
    if super_obj_place(a) != super_obj_place(b) {
        assert(tokens_super_obj(a)[0] == (0u8, super_obj_place(a) as u64));
        assert(tokens_super_obj(b)[0] == (0u8, super_obj_place(b) as u64));
    } else {
        match a {
            SuperObjView::Instance(x) => {
                lemma_rank_common(word(0), tokens_class_type(x), tokens_class_type(b->Instance_0));
            },
            SuperObjView::Class(x) => {
                lemma_rank_common(word(1), tokens_class_type(x), tokens_class_type(b->Class_0));
            },
        }
    }
}

proof fn lemma_order_within_literal(x: Box<LiteralView>, y: Box<LiteralView>)
    ensures
        rank_tokens(tokens_type(TypeView::Literal(x)), tokens_type(TypeView::Literal(y)))
            == rank_tokens(tokens_literal(*x), tokens_literal(*y)),
{
    lemma_tokens_type(TypeView::Literal(x));
    lemma_tokens_type(TypeView::Literal(y));
    lemma_rank_common(word(0), tokens_literal(*x), tokens_literal(*y));
}

proof fn lemma_order_within_literal_string(x: LitStyle, y: LitStyle)
    ensures
        rank_tokens(
            tokens_type(TypeView::LiteralString(x)),
            tokens_type(TypeView::LiteralString(y)),
        ) == rank_tokens(word(x.rank_spec()), word(y.rank_spec())),
{
    lemma_tokens_type(TypeView::LiteralString(x));
    lemma_tokens_type(TypeView::LiteralString(y));
    lemma_rank_common(word(1), word(x.rank_spec()), word(y.rank_spec()));
}

proof fn lemma_order_within_callable(x: Box<CallableView>, y: Box<CallableView>)
    ensures
        rank_tokens(tokens_type(TypeView::Callable(x)), tokens_type(TypeView::Callable(y)))
            == rank_tokens(tokens_callable(*x), tokens_callable(*y)),
{
    lemma_tokens_type(TypeView::Callable(x));
    lemma_tokens_type(TypeView::Callable(y));
    lemma_rank_common(word(2), tokens_callable(*x), tokens_callable(*y));
}

proof fn lemma_order_within_callable_residual(
    x: Box<CallableResidualView>,
    y: Box<CallableResidualView>,
)
    ensures
        rank_tokens(
            tokens_type(TypeView::CallableResidual(x)),
            tokens_type(TypeView::CallableResidual(y)),
        ) == rank_tokens(tokens_callable_residual(*x), tokens_callable_residual(*y)),
{
    lemma_tokens_type(TypeView::CallableResidual(x));
    lemma_tokens_type(TypeView::CallableResidual(y));
    lemma_rank_common(word(3), tokens_callable_residual(*x), tokens_callable_residual(*y));
}

proof fn lemma_order_within_type_level_dsl_call(
    x: Box<TypeLevelDslCallView>,
    y: Box<TypeLevelDslCallView>,
)
    ensures
        rank_tokens(
            tokens_type(TypeView::TypeLevelDslCall(x)),
            tokens_type(TypeView::TypeLevelDslCall(y)),
        ) == rank_tokens(tokens_type_level_dsl_call(*x), tokens_type_level_dsl_call(*y)),
{
    lemma_tokens_type(TypeView::TypeLevelDslCall(x));
    lemma_tokens_type(TypeView::TypeLevelDslCall(y));
    lemma_rank_common(word(4), tokens_type_level_dsl_call(*x), tokens_type_level_dsl_call(*y));
}

proof fn lemma_order_within_function(x: Box<FunctionView>, y: Box<FunctionView>)
    ensures
        rank_tokens(tokens_type(TypeView::Function(x)), tokens_type(TypeView::Function(y)))
            == rank_tokens(tokens_function(*x), tokens_function(*y)),
{
    lemma_tokens_type(TypeView::Function(x));
    lemma_tokens_type(TypeView::Function(y));
    lemma_rank_common(word(5), tokens_function(*x), tokens_function(*y));
}

proof fn lemma_order_within_bound_method(x: Box<BoundMethodView>, y: Box<BoundMethodView>)
    ensures
        rank_tokens(tokens_type(TypeView::BoundMethod(x)), tokens_type(TypeView::BoundMethod(y)))
            == rank_tokens(tokens_bound_method(*x), tokens_bound_method(*y)),
{
    lemma_tokens_type(TypeView::BoundMethod(x));
    lemma_tokens_type(TypeView::BoundMethod(y));
    lemma_rank_common(word(6), tokens_bound_method(*x), tokens_bound_method(*y));
}

proof fn lemma_order_within_overload(x: OverloadView, y: OverloadView)
    ensures
        rank_tokens(tokens_type(TypeView::Overload(x)), tokens_type(TypeView::Overload(y)))
            == rank_tokens(tokens_overload(x), tokens_overload(y)),
{
    lemma_tokens_type(TypeView::Overload(x));
    lemma_tokens_type(TypeView::Overload(y));
    lemma_rank_common(word(7), tokens_overload(x), tokens_overload(y));
}

proof fn lemma_order_within_union(x: Box<UnionView>, y: Box<UnionView>)
    ensures
        rank_tokens(tokens_type(TypeView::Union(x)), tokens_type(TypeView::Union(y)))
            == rank_tokens(tokens_union(*x), tokens_union(*y)),
{
    lemma_tokens_type(TypeView::Union(x));
    lemma_tokens_type(TypeView::Union(y));
    lemma_rank_common(word(8), tokens_union(*x), tokens_union(*y));
}

proof fn lemma_order_within_intersect(
    x: Box<(Seq<TypeView>, TypeView)>,
    y: Box<(Seq<TypeView>, TypeView)>,
)
    ensures
        rank_tokens(tokens_type(TypeView::Intersect(x)), tokens_type(TypeView::Intersect(y)))
            == decided_by(
            rank_tokens(tokens_types(x.0), tokens_types(y.0)),
            rank_tokens(tokens_type(x.1), tokens_type(y.1)),
        ),
{
    lemma_tokens_type(TypeView::Intersect(x));
    lemma_tokens_type(TypeView::Intersect(y));
    let (a0, b0) = (tokens_types(x.0) + tokens_type(x.1), tokens_types(y.0) + tokens_type(y.1));
    assert(tokens_type(TypeView::Intersect(x)) =~= word(9) + a0);
    assert(tokens_type(TypeView::Intersect(y)) =~= word(9) + b0);
    lemma_rank_common(word(9), a0, b0);
    lemma_apart_types(x.0, y.0);
    lemma_rank_parts(tokens_types(x.0), tokens_types(y.0), tokens_type(x.1), tokens_type(y.1));
}

proof fn lemma_order_within_class_def(x: ClassView, y: ClassView)
    ensures
        rank_tokens(tokens_type(TypeView::ClassDef(x)), tokens_type(TypeView::ClassDef(y)))
            == rank_tokens(tokens_class(x), tokens_class(y)),
{
    lemma_tokens_type(TypeView::ClassDef(x));
    lemma_tokens_type(TypeView::ClassDef(y));
    lemma_rank_common(word(10), tokens_class(x), tokens_class(y));
}

proof fn lemma_order_within_class_type(x: ClassTypeView, y: ClassTypeView)
    ensures
        rank_tokens(tokens_type(TypeView::ClassType(x)), tokens_type(TypeView::ClassType(y)))
            == rank_tokens(tokens_class_type(x), tokens_class_type(y)),
{
    lemma_tokens_type(TypeView::ClassType(x));
    lemma_tokens_type(TypeView::ClassType(y));
    lemma_rank_common(word(11), tokens_class_type(x), tokens_class_type(y));
}

proof fn lemma_order_within_typed_dict(x: TypedDictView, y: TypedDictView)
    ensures
        rank_tokens(tokens_type(TypeView::TypedDict(x)), tokens_type(TypeView::TypedDict(y)))
            == rank_tokens(tokens_typed_dict(x), tokens_typed_dict(y)),
{
    lemma_tokens_type(TypeView::TypedDict(x));
    lemma_tokens_type(TypeView::TypedDict(y));
    lemma_rank_common(word(12), tokens_typed_dict(x), tokens_typed_dict(y));
}

proof fn lemma_order_within_partial_typed_dict(x: TypedDictView, y: TypedDictView)
    ensures
        rank_tokens(
            tokens_type(TypeView::PartialTypedDict(x)),
            tokens_type(TypeView::PartialTypedDict(y)),
        ) == rank_tokens(tokens_typed_dict(x), tokens_typed_dict(y)),
{
    lemma_tokens_type(TypeView::PartialTypedDict(x));
    lemma_tokens_type(TypeView::PartialTypedDict(y));
    lemma_rank_common(word(13), tokens_typed_dict(x), tokens_typed_dict(y));
}

proof fn lemma_order_within_shaped_array(x: Box<ShapedArrayTypeView>, y: Box<ShapedArrayTypeView>)
    ensures
        rank_tokens(tokens_type(TypeView::ShapedArray(x)), tokens_type(TypeView::ShapedArray(y)))
            == rank_tokens(tokens_shaped_array_type(*x), tokens_shaped_array_type(*y)),
{
    lemma_tokens_type(TypeView::ShapedArray(x));
    lemma_tokens_type(TypeView::ShapedArray(y));
    lemma_rank_common(word(14), tokens_shaped_array_type(*x), tokens_shaped_array_type(*y));
}

proof fn lemma_order_within_int_tuple(x: Box<Seq<IntView>>, y: Box<Seq<IntView>>)
    ensures
        rank_tokens(tokens_type(TypeView::IntTuple(x)), tokens_type(TypeView::IntTuple(y)))
            == rank_tokens(tokens_dims(*x), tokens_dims(*y)),
{
    lemma_tokens_type(TypeView::IntTuple(x));
    lemma_tokens_type(TypeView::IntTuple(y));
    lemma_rank_common(word(15), tokens_dims(*x), tokens_dims(*y));
}

proof fn lemma_order_within_nn_module(x: Box<NNModuleTypeView>, y: Box<NNModuleTypeView>)
    ensures
        rank_tokens(tokens_type(TypeView::NNModule(x)), tokens_type(TypeView::NNModule(y)))
            == rank_tokens(tokens_nn_module_type(*x), tokens_nn_module_type(*y)),
{
    lemma_tokens_type(TypeView::NNModule(x));
    lemma_tokens_type(TypeView::NNModule(y));
    lemma_rank_common(word(16), tokens_nn_module_type(*x), tokens_nn_module_type(*y));
}

proof fn lemma_order_within_data_frame(x: Box<DataFrameSchemaView>, y: Box<DataFrameSchemaView>)
    ensures
        rank_tokens(tokens_type(TypeView::DataFrame(x)), tokens_type(TypeView::DataFrame(y)))
            == rank_tokens(tokens_data_frame_schema(*x), tokens_data_frame_schema(*y)),
{
    lemma_tokens_type(TypeView::DataFrame(x));
    lemma_tokens_type(TypeView::DataFrame(y));
    lemma_rank_common(word(17), tokens_data_frame_schema(*x), tokens_data_frame_schema(*y));
}

proof fn lemma_order_within_series(x: Box<SeriesSchemaView>, y: Box<SeriesSchemaView>)
    ensures
        rank_tokens(tokens_type(TypeView::Series(x)), tokens_type(TypeView::Series(y)))
            == rank_tokens(tokens_series_schema(*x), tokens_series_schema(*y)),
{
    lemma_tokens_type(TypeView::Series(x));
    lemma_tokens_type(TypeView::Series(y));
    lemma_rank_common(word(18), tokens_series_schema(*x), tokens_series_schema(*y));
}

proof fn lemma_order_within_int(x: IntView, y: IntView)
    ensures
        rank_tokens(tokens_type(TypeView::Int(x)), tokens_type(TypeView::Int(y)))
            == rank_tokens(tokens_int(x), tokens_int(y)),
{
    lemma_tokens_type(TypeView::Int(x));
    lemma_tokens_type(TypeView::Int(y));
    lemma_rank_common(word(19), tokens_int(x), tokens_int(y));
}

proof fn lemma_order_within_tuple(x: TupleView, y: TupleView)
    ensures
        rank_tokens(tokens_type(TypeView::Tuple(x)), tokens_type(TypeView::Tuple(y)))
            == rank_tokens(tokens_tuple(x), tokens_tuple(y)),
{
    lemma_tokens_type(TypeView::Tuple(x));
    lemma_tokens_type(TypeView::Tuple(y));
    lemma_rank_common(word(20), tokens_tuple(x), tokens_tuple(y));
}

proof fn lemma_order_within_module(x: Seq<char>, y: Seq<char>)
    ensures
        rank_tokens(tokens_type(TypeView::Module(x)), tokens_type(TypeView::Module(y)))
            == rank_tokens(tokens_text(x), tokens_text(y)),
{
    lemma_tokens_type(TypeView::Module(x));
    lemma_tokens_type(TypeView::Module(y));
    lemma_rank_common(word(21), tokens_text(x), tokens_text(y));
}

proof fn lemma_order_within_forall(
    x: Box<ForallView<ForallableView>>,
    y: Box<ForallView<ForallableView>>,
)
    ensures
        rank_tokens(tokens_type(TypeView::Forall(x)), tokens_type(TypeView::Forall(y)))
            == rank_tokens(tokens_forall_forallable(*x), tokens_forall_forallable(*y)),
{
    lemma_tokens_type(TypeView::Forall(x));
    lemma_tokens_type(TypeView::Forall(y));
    lemma_rank_common(word(22), tokens_forall_forallable(*x), tokens_forall_forallable(*y));
}

proof fn lemma_order_within_var(x: Var, y: Var)
    ensures
        rank_tokens(tokens_type(TypeView::Var(x)), tokens_type(TypeView::Var(y)))
            == rank_tokens(var_token(x), var_token(y)),
{
    lemma_tokens_type(TypeView::Var(x));
    lemma_tokens_type(TypeView::Var(y));
    lemma_rank_common(word(23), var_token(x), var_token(y));
}

proof fn lemma_order_within_quantified(x: Box<QuantifiedView>, y: Box<QuantifiedView>)
    ensures
        rank_tokens(tokens_type(TypeView::Quantified(x)), tokens_type(TypeView::Quantified(y)))
            == rank_tokens(tokens_quantified(*x), tokens_quantified(*y)),
{
    lemma_tokens_type(TypeView::Quantified(x));
    lemma_tokens_type(TypeView::Quantified(y));
    lemma_rank_common(word(24), tokens_quantified(*x), tokens_quantified(*y));
}

proof fn lemma_order_within_quantified_value(x: Box<QuantifiedView>, y: Box<QuantifiedView>)
    ensures
        rank_tokens(
            tokens_type(TypeView::QuantifiedValue(x)),
            tokens_type(TypeView::QuantifiedValue(y)),
        ) == rank_tokens(tokens_quantified(*x), tokens_quantified(*y)),
{
    lemma_tokens_type(TypeView::QuantifiedValue(x));
    lemma_tokens_type(TypeView::QuantifiedValue(y));
    lemma_rank_common(word(25), tokens_quantified(*x), tokens_quantified(*y));
}

proof fn lemma_order_within_element_of_type_var_tuple(
    x: Box<QuantifiedView>,
    y: Box<QuantifiedView>,
)
    ensures
        rank_tokens(
            tokens_type(TypeView::ElementOfTypeVarTuple(x)),
            tokens_type(TypeView::ElementOfTypeVarTuple(y)),
        ) == rank_tokens(tokens_quantified(*x), tokens_quantified(*y)),
{
    lemma_tokens_type(TypeView::ElementOfTypeVarTuple(x));
    lemma_tokens_type(TypeView::ElementOfTypeVarTuple(y));
    lemma_rank_common(word(26), tokens_quantified(*x), tokens_quantified(*y));
}

proof fn lemma_order_within_type_guard(x: Box<TypeView>, y: Box<TypeView>)
    ensures
        rank_tokens(tokens_type(TypeView::TypeGuard(x)), tokens_type(TypeView::TypeGuard(y)))
            == rank_tokens(tokens_type(*x), tokens_type(*y)),
{
    lemma_tokens_type(TypeView::TypeGuard(x));
    lemma_tokens_type(TypeView::TypeGuard(y));
    lemma_rank_common(word(27), tokens_type(*x), tokens_type(*y));
}

proof fn lemma_order_within_type_is(x: Box<TypeView>, y: Box<TypeView>)
    ensures
        rank_tokens(tokens_type(TypeView::TypeIs(x)), tokens_type(TypeView::TypeIs(y)))
            == rank_tokens(tokens_type(*x), tokens_type(*y)),
{
    lemma_tokens_type(TypeView::TypeIs(x));
    lemma_tokens_type(TypeView::TypeIs(y));
    lemma_rank_common(word(28), tokens_type(*x), tokens_type(*y));
}

proof fn lemma_order_within_annotated(
    x: Box<TypeView>,
    x2: Seq<TypeView>,
    y: Box<TypeView>,
    y2: Seq<TypeView>,
)
    ensures
        rank_tokens(
            tokens_type(TypeView::Annotated(x, x2)),
            tokens_type(TypeView::Annotated(y, y2)),
        ) == decided_by(
            rank_tokens(tokens_type(*x), tokens_type(*y)),
            rank_tokens(tokens_types(x2), tokens_types(y2)),
        ),
{
    lemma_tokens_type(TypeView::Annotated(x, x2));
    lemma_tokens_type(TypeView::Annotated(y, y2));
    let (a0, b0) = (tokens_type(*x) + tokens_types(x2), tokens_type(*y) + tokens_types(y2));
    assert(tokens_type(TypeView::Annotated(x, x2)) =~= word(29) + a0);
    assert(tokens_type(TypeView::Annotated(y, y2)) =~= word(29) + b0);
    lemma_rank_common(word(29), a0, b0);
    lemma_apart_type(*x, *y);
    lemma_rank_parts(tokens_type(*x), tokens_type(*y), tokens_types(x2), tokens_types(y2));
}

proof fn lemma_order_within_unpack(x: Box<TypeView>, y: Box<TypeView>)
    ensures
        rank_tokens(tokens_type(TypeView::Unpack(x)), tokens_type(TypeView::Unpack(y)))
            == rank_tokens(tokens_type(*x), tokens_type(*y)),
{
    lemma_tokens_type(TypeView::Unpack(x));
    lemma_tokens_type(TypeView::Unpack(y));
    lemma_rank_common(word(30), tokens_type(*x), tokens_type(*y));
}

proof fn lemma_order_within_type_var(x: QNameView, y: QNameView)
    ensures
        rank_tokens(tokens_type(TypeView::TypeVar(x)), tokens_type(TypeView::TypeVar(y)))
            == rank_tokens(tokens_qname(x), tokens_qname(y)),
{
    lemma_tokens_type(TypeView::TypeVar(x));
    lemma_tokens_type(TypeView::TypeVar(y));
    lemma_rank_common(word(31), tokens_qname(x), tokens_qname(y));
}

proof fn lemma_order_within_param_spec(x: QNameView, y: QNameView)
    ensures
        rank_tokens(tokens_type(TypeView::ParamSpec(x)), tokens_type(TypeView::ParamSpec(y)))
            == rank_tokens(tokens_qname(x), tokens_qname(y)),
{
    lemma_tokens_type(TypeView::ParamSpec(x));
    lemma_tokens_type(TypeView::ParamSpec(y));
    lemma_rank_common(word(32), tokens_qname(x), tokens_qname(y));
}

proof fn lemma_order_within_type_var_tuple(x: QNameView, y: QNameView)
    ensures
        rank_tokens(tokens_type(TypeView::TypeVarTuple(x)), tokens_type(TypeView::TypeVarTuple(y)))
            == rank_tokens(tokens_qname(x), tokens_qname(y)),
{
    lemma_tokens_type(TypeView::TypeVarTuple(x));
    lemma_tokens_type(TypeView::TypeVarTuple(y));
    lemma_rank_common(word(33), tokens_qname(x), tokens_qname(y));
}

proof fn lemma_order_within_special_form(x: SpecialForm, y: SpecialForm)
    ensures
        rank_tokens(tokens_type(TypeView::SpecialForm(x)), tokens_type(TypeView::SpecialForm(y)))
            == rank_tokens(word(x.rank_spec()), word(y.rank_spec())),
{
    lemma_tokens_type(TypeView::SpecialForm(x));
    lemma_tokens_type(TypeView::SpecialForm(y));
    lemma_rank_common(word(34), word(x.rank_spec()), word(y.rank_spec()));
}

proof fn lemma_order_within_concatenate(
    x: Seq<ParamView>,
    x2: Box<TypeView>,
    y: Seq<ParamView>,
    y2: Box<TypeView>,
)
    ensures
        rank_tokens(
            tokens_type(TypeView::Concatenate(x, x2)),
            tokens_type(TypeView::Concatenate(y, y2)),
        ) == decided_by(
            rank_tokens(tokens_param_seq(x), tokens_param_seq(y)),
            rank_tokens(tokens_type(*x2), tokens_type(*y2)),
        ),
{
    lemma_tokens_type(TypeView::Concatenate(x, x2));
    lemma_tokens_type(TypeView::Concatenate(y, y2));
    let (a0, b0) = (tokens_param_seq(x) + tokens_type(*x2), tokens_param_seq(y) + tokens_type(*y2));
    assert(tokens_type(TypeView::Concatenate(x, x2)) =~= word(35) + a0);
    assert(tokens_type(TypeView::Concatenate(y, y2)) =~= word(35) + b0);
    lemma_rank_common(word(35), a0, b0);
    lemma_apart_param_seq(x, y);
    lemma_rank_parts(tokens_param_seq(x), tokens_param_seq(y), tokens_type(*x2), tokens_type(*y2));
}

proof fn lemma_order_within_param_spec_value(x: Seq<ParamView>, y: Seq<ParamView>)
    ensures
        rank_tokens(
            tokens_type(TypeView::ParamSpecValue(x)),
            tokens_type(TypeView::ParamSpecValue(y)),
        ) == rank_tokens(tokens_param_seq(x), tokens_param_seq(y)),
{
    lemma_tokens_type(TypeView::ParamSpecValue(x));
    lemma_tokens_type(TypeView::ParamSpecValue(y));
    lemma_rank_common(word(36), tokens_param_seq(x), tokens_param_seq(y));
}

proof fn lemma_order_within_args(x: Box<QuantifiedView>, y: Box<QuantifiedView>)
    ensures
        rank_tokens(tokens_type(TypeView::Args(x)), tokens_type(TypeView::Args(y)))
            == rank_tokens(tokens_quantified(*x), tokens_quantified(*y)),
{
    lemma_tokens_type(TypeView::Args(x));
    lemma_tokens_type(TypeView::Args(y));
    lemma_rank_common(word(37), tokens_quantified(*x), tokens_quantified(*y));
}

proof fn lemma_order_within_kwargs(x: Box<QuantifiedView>, y: Box<QuantifiedView>)
    ensures
        rank_tokens(tokens_type(TypeView::Kwargs(x)), tokens_type(TypeView::Kwargs(y)))
            == rank_tokens(tokens_quantified(*x), tokens_quantified(*y)),
{
    lemma_tokens_type(TypeView::Kwargs(x));
    lemma_tokens_type(TypeView::Kwargs(y));
    lemma_rank_common(word(38), tokens_quantified(*x), tokens_quantified(*y));
}

proof fn lemma_order_within_args_value(x: Box<QuantifiedView>, y: Box<QuantifiedView>)
    ensures
        rank_tokens(tokens_type(TypeView::ArgsValue(x)), tokens_type(TypeView::ArgsValue(y)))
            == rank_tokens(tokens_quantified(*x), tokens_quantified(*y)),
{
    lemma_tokens_type(TypeView::ArgsValue(x));
    lemma_tokens_type(TypeView::ArgsValue(y));
    lemma_rank_common(word(39), tokens_quantified(*x), tokens_quantified(*y));
}

proof fn lemma_order_within_kwargs_value(x: Box<QuantifiedView>, y: Box<QuantifiedView>)
    ensures
        rank_tokens(tokens_type(TypeView::KwargsValue(x)), tokens_type(TypeView::KwargsValue(y)))
            == rank_tokens(tokens_quantified(*x), tokens_quantified(*y)),
{
    lemma_tokens_type(TypeView::KwargsValue(x));
    lemma_tokens_type(TypeView::KwargsValue(y));
    lemma_rank_common(word(40), tokens_quantified(*x), tokens_quantified(*y));
}

proof fn lemma_order_within_type(x: Box<TypeView>, y: Box<TypeView>)
    ensures
        rank_tokens(tokens_type(TypeView::Type(x)), tokens_type(TypeView::Type(y)))
            == rank_tokens(tokens_type(*x), tokens_type(*y)),
{
    lemma_tokens_type(TypeView::Type(x));
    lemma_tokens_type(TypeView::Type(y));
    lemma_rank_common(word(41), tokens_type(*x), tokens_type(*y));
}

proof fn lemma_order_within_type_form(x: Box<TypeView>, y: Box<TypeView>)
    ensures
        rank_tokens(tokens_type(TypeView::TypeForm(x)), tokens_type(TypeView::TypeForm(y)))
            == rank_tokens(tokens_type(*x), tokens_type(*y)),
{
    lemma_tokens_type(TypeView::TypeForm(x));
    lemma_tokens_type(TypeView::TypeForm(y));
    lemma_rank_common(word(42), tokens_type(*x), tokens_type(*y));
}

proof fn lemma_order_within_any(x: AnyStyle, y: AnyStyle)
    ensures
        rank_tokens(tokens_type(TypeView::Any(x)), tokens_type(TypeView::Any(y)))
            == rank_tokens(word(x.rank_spec()), word(y.rank_spec())),
{
    lemma_tokens_type(TypeView::Any(x));
    lemma_tokens_type(TypeView::Any(y));
    lemma_rank_common(word(44), word(x.rank_spec()), word(y.rank_spec()));
}

proof fn lemma_order_within_never(x: NeverStyle, y: NeverStyle)
    ensures
        rank_tokens(tokens_type(TypeView::Never(x)), tokens_type(TypeView::Never(y)))
            == rank_tokens(word(x.rank_spec()), word(y.rank_spec())),
{
    lemma_tokens_type(TypeView::Never(x));
    lemma_tokens_type(TypeView::Never(y));
    lemma_rank_common(word(45), word(x.rank_spec()), word(y.rank_spec()));
}

proof fn lemma_order_within_type_alias(x: Box<TypeAliasDataView>, y: Box<TypeAliasDataView>)
    ensures
        rank_tokens(tokens_type(TypeView::TypeAlias(x)), tokens_type(TypeView::TypeAlias(y)))
            == rank_tokens(tokens_type_alias_data(*x), tokens_type_alias_data(*y)),
{
    lemma_tokens_type(TypeView::TypeAlias(x));
    lemma_tokens_type(TypeView::TypeAlias(y));
    lemma_rank_common(word(46), tokens_type_alias_data(*x), tokens_type_alias_data(*y));
}

proof fn lemma_order_within_untyped_alias(x: Box<TypeAliasDataView>, y: Box<TypeAliasDataView>)
    ensures
        rank_tokens(tokens_type(TypeView::UntypedAlias(x)), tokens_type(TypeView::UntypedAlias(y)))
            == rank_tokens(tokens_type_alias_data(*x), tokens_type_alias_data(*y)),
{
    lemma_tokens_type(TypeView::UntypedAlias(x));
    lemma_tokens_type(TypeView::UntypedAlias(y));
    lemma_rank_common(word(47), tokens_type_alias_data(*x), tokens_type_alias_data(*y));
}

proof fn lemma_order_within_sentinel(x: QNameView, y: QNameView)
    ensures
        rank_tokens(tokens_type(TypeView::Sentinel(x)), tokens_type(TypeView::Sentinel(y)))
            == rank_tokens(tokens_qname(x), tokens_qname(y)),
{
    lemma_tokens_type(TypeView::Sentinel(x));
    lemma_tokens_type(TypeView::Sentinel(y));
    lemma_rank_common(word(48), tokens_qname(x), tokens_qname(y));
}

proof fn lemma_order_within_super_instance(
    x: Box<(ClassTypeView, SuperObjView)>,
    y: Box<(ClassTypeView, SuperObjView)>,
)
    ensures
        rank_tokens(
            tokens_type(TypeView::SuperInstance(x)),
            tokens_type(TypeView::SuperInstance(y)),
        ) == decided_by(
            rank_tokens(tokens_class_type(x.0), tokens_class_type(y.0)),
            rank_tokens(tokens_super_obj(x.1), tokens_super_obj(y.1)),
        ),
{
    lemma_tokens_type(TypeView::SuperInstance(x));
    lemma_tokens_type(TypeView::SuperInstance(y));
    let (a0, b0) = (
        tokens_class_type(x.0) + tokens_super_obj(x.1),
        tokens_class_type(y.0) + tokens_super_obj(y.1),
    );
    assert(tokens_type(TypeView::SuperInstance(x)) =~= word(49) + a0);
    assert(tokens_type(TypeView::SuperInstance(y)) =~= word(49) + b0);
    lemma_rank_common(word(49), a0, b0);
    lemma_apart_class_type(x.0, y.0);
    lemma_rank_parts(
        tokens_class_type(x.0),
        tokens_class_type(y.0),
        tokens_super_obj(x.1),
        tokens_super_obj(y.1),
    );
}

proof fn lemma_order_within_self_type(x: ClassTypeView, y: ClassTypeView)
    ensures
        rank_tokens(tokens_type(TypeView::SelfType(x)), tokens_type(TypeView::SelfType(y)))
            == rank_tokens(tokens_class_type(x), tokens_class_type(y)),
{
    lemma_tokens_type(TypeView::SelfType(x));
    lemma_tokens_type(TypeView::SelfType(y));
    lemma_rank_common(word(50), tokens_class_type(x), tokens_class_type(y));
}

proof fn lemma_order_within_kw_call(x: Box<KwCallView>, y: Box<KwCallView>)
    ensures
        rank_tokens(tokens_type(TypeView::KwCall(x)), tokens_type(TypeView::KwCall(y)))
            == rank_tokens(tokens_kw_call(*x), tokens_kw_call(*y)),
{
    lemma_tokens_type(TypeView::KwCall(x));
    lemma_tokens_type(TypeView::KwCall(y));
    lemma_rank_common(word(51), tokens_kw_call(*x), tokens_kw_call(*y));
}

/// Types stand in the order in which they are declared; within one, what is held decides, part by
/// part.
#[verifier::rlimit(100)]
#[verifier::spinoff_prover]
pub proof fn lemma_order_of_type(a: TypeView, b: TypeView)
    ensures
        rank_tokens(tokens_type(a), tokens_type(b)) == (if kind_place(a) < kind_place(b) {
            Rank::Before
        } else if kind_place(a) > kind_place(b) {
            Rank::After
        } else {
            match a {
                TypeView::Literal(x) => {
                    rank_tokens(tokens_literal(*x), tokens_literal(*b->Literal_0))
                },
                TypeView::LiteralString(x) => {
                    rank_tokens(word(x.rank_spec()), word(b->LiteralString_0.rank_spec()))
                },
                TypeView::Callable(x) => {
                    rank_tokens(tokens_callable(*x), tokens_callable(*b->Callable_0))
                },
                TypeView::CallableResidual(x) => rank_tokens(
                    tokens_callable_residual(*x),
                    tokens_callable_residual(*b->CallableResidual_0),
                ),
                TypeView::TypeLevelDslCall(x) => rank_tokens(
                    tokens_type_level_dsl_call(*x),
                    tokens_type_level_dsl_call(*b->TypeLevelDslCall_0),
                ),
                TypeView::Function(x) => {
                    rank_tokens(tokens_function(*x), tokens_function(*b->Function_0))
                },
                TypeView::BoundMethod(x) => {
                    rank_tokens(tokens_bound_method(*x), tokens_bound_method(*b->BoundMethod_0))
                },
                TypeView::Overload(x) => {
                    rank_tokens(tokens_overload(x), tokens_overload(b->Overload_0))
                },
                TypeView::Union(x) => rank_tokens(tokens_union(*x), tokens_union(*b->Union_0)),
                TypeView::Intersect(x) => decided_by(
                    rank_tokens(tokens_types(x.0), tokens_types(b->Intersect_0.0)),
                    rank_tokens(tokens_type(x.1), tokens_type(b->Intersect_0.1)),
                ),
                TypeView::ClassDef(x) => rank_tokens(tokens_class(x), tokens_class(b->ClassDef_0)),
                TypeView::ClassType(x) => {
                    rank_tokens(tokens_class_type(x), tokens_class_type(b->ClassType_0))
                },
                TypeView::TypedDict(x) => {
                    rank_tokens(tokens_typed_dict(x), tokens_typed_dict(b->TypedDict_0))
                },
                TypeView::PartialTypedDict(x) => {
                    rank_tokens(tokens_typed_dict(x), tokens_typed_dict(b->PartialTypedDict_0))
                },
                TypeView::ShapedArray(x) => rank_tokens(
                    tokens_shaped_array_type(*x),
                    tokens_shaped_array_type(*b->ShapedArray_0),
                ),
                TypeView::IntTuple(x) => rank_tokens(tokens_dims(*x), tokens_dims(*b->IntTuple_0)),
                TypeView::NNModule(x) => {
                    rank_tokens(tokens_nn_module_type(*x), tokens_nn_module_type(*b->NNModule_0))
                },
                TypeView::DataFrame(x) => rank_tokens(
                    tokens_data_frame_schema(*x),
                    tokens_data_frame_schema(*b->DataFrame_0),
                ),
                TypeView::Series(x) => {
                    rank_tokens(tokens_series_schema(*x), tokens_series_schema(*b->Series_0))
                },
                TypeView::Int(x) => rank_tokens(tokens_int(x), tokens_int(b->Int_0)),
                TypeView::Tuple(x) => rank_tokens(tokens_tuple(x), tokens_tuple(b->Tuple_0)),
                TypeView::Module(x) => rank_tokens(tokens_text(x), tokens_text(b->Module_0)),
                TypeView::Forall(x) => rank_tokens(
                    tokens_forall_forallable(*x),
                    tokens_forall_forallable(*b->Forall_0),
                ),
                TypeView::Var(x) => rank_tokens(var_token(x), var_token(b->Var_0)),
                TypeView::Quantified(x) => {
                    rank_tokens(tokens_quantified(*x), tokens_quantified(*b->Quantified_0))
                },
                TypeView::QuantifiedValue(x) => {
                    rank_tokens(tokens_quantified(*x), tokens_quantified(*b->QuantifiedValue_0))
                },
                TypeView::ElementOfTypeVarTuple(x) => rank_tokens(
                    tokens_quantified(*x),
                    tokens_quantified(*b->ElementOfTypeVarTuple_0),
                ),
                TypeView::TypeGuard(x) => {
                    rank_tokens(tokens_type(*x), tokens_type(*b->TypeGuard_0))
                },
                TypeView::TypeIs(x) => rank_tokens(tokens_type(*x), tokens_type(*b->TypeIs_0)),
                TypeView::Annotated(x, x2) => decided_by(
                    rank_tokens(tokens_type(*x), tokens_type(*b->Annotated_0)),
                    rank_tokens(tokens_types(x2), tokens_types(b->Annotated_1)),
                ),
                TypeView::Unpack(x) => rank_tokens(tokens_type(*x), tokens_type(*b->Unpack_0)),
                TypeView::TypeVar(x) => rank_tokens(tokens_qname(x), tokens_qname(b->TypeVar_0)),
                TypeView::ParamSpec(x) => {
                    rank_tokens(tokens_qname(x), tokens_qname(b->ParamSpec_0))
                },
                TypeView::TypeVarTuple(x) => {
                    rank_tokens(tokens_qname(x), tokens_qname(b->TypeVarTuple_0))
                },
                TypeView::SpecialForm(x) => {
                    rank_tokens(word(x.rank_spec()), word(b->SpecialForm_0.rank_spec()))
                },
                TypeView::Concatenate(x, x2) => decided_by(
                    rank_tokens(tokens_param_seq(x), tokens_param_seq(b->Concatenate_0)),
                    rank_tokens(tokens_type(*x2), tokens_type(*b->Concatenate_1)),
                ),
                TypeView::ParamSpecValue(x) => {
                    rank_tokens(tokens_param_seq(x), tokens_param_seq(b->ParamSpecValue_0))
                },
                TypeView::Args(x) => {
                    rank_tokens(tokens_quantified(*x), tokens_quantified(*b->Args_0))
                },
                TypeView::Kwargs(x) => {
                    rank_tokens(tokens_quantified(*x), tokens_quantified(*b->Kwargs_0))
                },
                TypeView::ArgsValue(x) => {
                    rank_tokens(tokens_quantified(*x), tokens_quantified(*b->ArgsValue_0))
                },
                TypeView::KwargsValue(x) => {
                    rank_tokens(tokens_quantified(*x), tokens_quantified(*b->KwargsValue_0))
                },
                TypeView::Type(x) => rank_tokens(tokens_type(*x), tokens_type(*b->Type_0)),
                TypeView::TypeForm(x) => rank_tokens(tokens_type(*x), tokens_type(*b->TypeForm_0)),
                TypeView::Any(x) => rank_tokens(word(x.rank_spec()), word(b->Any_0.rank_spec())),
                TypeView::Never(x) => {
                    rank_tokens(word(x.rank_spec()), word(b->Never_0.rank_spec()))
                },
                TypeView::TypeAlias(x) => rank_tokens(
                    tokens_type_alias_data(*x),
                    tokens_type_alias_data(*b->TypeAlias_0),
                ),
                TypeView::UntypedAlias(x) => rank_tokens(
                    tokens_type_alias_data(*x),
                    tokens_type_alias_data(*b->UntypedAlias_0),
                ),
                TypeView::Sentinel(x) => rank_tokens(tokens_qname(x), tokens_qname(b->Sentinel_0)),
                TypeView::SuperInstance(x) => decided_by(
                    rank_tokens(tokens_class_type(x.0), tokens_class_type(b->SuperInstance_0.0)),
                    rank_tokens(tokens_super_obj(x.1), tokens_super_obj(b->SuperInstance_0.1)),
                ),
                TypeView::SelfType(x) => {
                    rank_tokens(tokens_class_type(x), tokens_class_type(b->SelfType_0))
                },
                TypeView::KwCall(x) => {
                    rank_tokens(tokens_kw_call(*x), tokens_kw_call(*b->KwCall_0))
                },
                _ => Rank::Same,
            }
        }),
{
    if kind_place(a) < kind_place(b) {
        lemma_kind_order(a, b);
    } else if kind_place(a) > kind_place(b) {
        lemma_kind_order(b, a);
        lemma_rank_reversed(tokens_type(b), tokens_type(a));
    } else {
        match a {
            TypeView::Literal(x) => {
                lemma_order_within_literal(x, b->Literal_0);
            },
            TypeView::LiteralString(x) => {
                lemma_order_within_literal_string(x, b->LiteralString_0);
            },
            TypeView::Callable(x) => {
                lemma_order_within_callable(x, b->Callable_0);
            },
            TypeView::CallableResidual(x) => {
                lemma_order_within_callable_residual(x, b->CallableResidual_0);
            },
            TypeView::TypeLevelDslCall(x) => {
                lemma_order_within_type_level_dsl_call(x, b->TypeLevelDslCall_0);
            },
            TypeView::Function(x) => {
                lemma_order_within_function(x, b->Function_0);
            },
            TypeView::BoundMethod(x) => {
                lemma_order_within_bound_method(x, b->BoundMethod_0);
            },
            TypeView::Overload(x) => {
                lemma_order_within_overload(x, b->Overload_0);
            },
            TypeView::Union(x) => {
                lemma_order_within_union(x, b->Union_0);
            },
            TypeView::Intersect(x) => {
                lemma_order_within_intersect(x, b->Intersect_0);
            },
            TypeView::ClassDef(x) => {
                lemma_order_within_class_def(x, b->ClassDef_0);
            },
            TypeView::ClassType(x) => {
                lemma_order_within_class_type(x, b->ClassType_0);
            },
            TypeView::TypedDict(x) => {
                lemma_order_within_typed_dict(x, b->TypedDict_0);
            },
            TypeView::PartialTypedDict(x) => {
                lemma_order_within_partial_typed_dict(x, b->PartialTypedDict_0);
            },
            TypeView::ShapedArray(x) => {
                lemma_order_within_shaped_array(x, b->ShapedArray_0);
            },
            TypeView::IntTuple(x) => {
                lemma_order_within_int_tuple(x, b->IntTuple_0);
            },
            TypeView::NNModule(x) => {
                lemma_order_within_nn_module(x, b->NNModule_0);
            },
            TypeView::DataFrame(x) => {
                lemma_order_within_data_frame(x, b->DataFrame_0);
            },
            TypeView::Series(x) => {
                lemma_order_within_series(x, b->Series_0);
            },
            TypeView::Int(x) => {
                lemma_order_within_int(x, b->Int_0);
            },
            TypeView::Tuple(x) => {
                lemma_order_within_tuple(x, b->Tuple_0);
            },
            TypeView::Module(x) => {
                lemma_order_within_module(x, b->Module_0);
            },
            TypeView::Forall(x) => {
                lemma_order_within_forall(x, b->Forall_0);
            },
            TypeView::Var(x) => {
                lemma_order_within_var(x, b->Var_0);
            },
            TypeView::Quantified(x) => {
                lemma_order_within_quantified(x, b->Quantified_0);
            },
            TypeView::QuantifiedValue(x) => {
                lemma_order_within_quantified_value(x, b->QuantifiedValue_0);
            },
            TypeView::ElementOfTypeVarTuple(x) => {
                lemma_order_within_element_of_type_var_tuple(x, b->ElementOfTypeVarTuple_0);
            },
            TypeView::TypeGuard(x) => {
                lemma_order_within_type_guard(x, b->TypeGuard_0);
            },
            TypeView::TypeIs(x) => {
                lemma_order_within_type_is(x, b->TypeIs_0);
            },
            TypeView::Annotated(x, x2) => {
                lemma_order_within_annotated(x, x2, b->Annotated_0, b->Annotated_1);
            },
            TypeView::Unpack(x) => {
                lemma_order_within_unpack(x, b->Unpack_0);
            },
            TypeView::TypeVar(x) => {
                lemma_order_within_type_var(x, b->TypeVar_0);
            },
            TypeView::ParamSpec(x) => {
                lemma_order_within_param_spec(x, b->ParamSpec_0);
            },
            TypeView::TypeVarTuple(x) => {
                lemma_order_within_type_var_tuple(x, b->TypeVarTuple_0);
            },
            TypeView::SpecialForm(x) => {
                lemma_order_within_special_form(x, b->SpecialForm_0);
            },
            TypeView::Concatenate(x, x2) => {
                lemma_order_within_concatenate(x, x2, b->Concatenate_0, b->Concatenate_1);
            },
            TypeView::ParamSpecValue(x) => {
                lemma_order_within_param_spec_value(x, b->ParamSpecValue_0);
            },
            TypeView::Args(x) => {
                lemma_order_within_args(x, b->Args_0);
            },
            TypeView::Kwargs(x) => {
                lemma_order_within_kwargs(x, b->Kwargs_0);
            },
            TypeView::ArgsValue(x) => {
                lemma_order_within_args_value(x, b->ArgsValue_0);
            },
            TypeView::KwargsValue(x) => {
                lemma_order_within_kwargs_value(x, b->KwargsValue_0);
            },
            TypeView::Type(x) => {
                lemma_order_within_type(x, b->Type_0);
            },
            TypeView::TypeForm(x) => {
                lemma_order_within_type_form(x, b->TypeForm_0);
            },
            TypeView::Any(x) => {
                lemma_order_within_any(x, b->Any_0);
            },
            TypeView::Never(x) => {
                lemma_order_within_never(x, b->Never_0);
            },
            TypeView::TypeAlias(x) => {
                lemma_order_within_type_alias(x, b->TypeAlias_0);
            },
            TypeView::UntypedAlias(x) => {
                lemma_order_within_untyped_alias(x, b->UntypedAlias_0);
            },
            TypeView::Sentinel(x) => {
                lemma_order_within_sentinel(x, b->Sentinel_0);
            },
            TypeView::SuperInstance(x) => {
                lemma_order_within_super_instance(x, b->SuperInstance_0);
            },
            TypeView::SelfType(x) => {
                lemma_order_within_self_type(x, b->SelfType_0);
            },
            TypeView::KwCall(x) => {
                lemma_order_within_kw_call(x, b->KwCall_0);
            },
            _ => {
                assert(a == b);
                lemma_rank_same(tokens_type(a), tokens_type(b));
            },
        }
    }
}

} // verus!
