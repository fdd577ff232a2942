//! Spellings tell types apart.
//!
//! No spelling is the beginning of another, so that the parts of a type can be read off its
//! spelling one after the other.
use vstd::prelude::*;
use vstd::utf8::{encode_utf8, encode_utf8_decode_utf8};

use crate::names::{
    ClassView, DeprecationView, FunctionKindView, LitIntView, QNameView, QuantifiedIdentityView,
    Var,
};
use crate::parts::{
    lemma_bound_method_parts,
    lemma_bound_method_type_parts,
    lemma_callable_parts,
    lemma_callable_residual_parts,
    lemma_class_type_parts,
    lemma_data_frame_schema_parts,
    lemma_field_parts,
    lemma_forall_forallable_parts,
    lemma_forall_function_parts,
    lemma_forallable_parts,
    lemma_func_flags_parts,
    lemma_func_metadata_parts,
    lemma_function_parts,
    lemma_int_parts,
    lemma_kw_call_parts,
    lemma_lit_enum_parts,
    lemma_lit_parts,
    lemma_literal_parts,
    lemma_nn_module_type_parts,
    lemma_overload_parts,
    lemma_overload_type_parts,
    lemma_param_parts,
    lemma_params_parts,
    lemma_property_metadata_parts,
    lemma_quantified_parts,
    lemma_restriction_parts,
    lemma_series_schema_parts,
    lemma_shaped_array_type_parts,
    lemma_super_obj_parts,
    lemma_targs_parts,
    lemma_tuple_parts,
    lemma_type_alias_data_parts,
    lemma_type_alias_parts,
    lemma_type_alias_ref_parts,
    lemma_type_level_dsl_call_parts,
    lemma_type_parts,
    lemma_typed_dict_parts,
    lemma_union_parts,
};
use crate::same::{
    has_field,
    is_field,
    lemma_same_bound_method,
    lemma_same_bound_method_type,
    lemma_same_callable,
    lemma_same_callable_residual,
    lemma_same_class_type,
    lemma_same_data_frame_schema,
    lemma_same_field,
    lemma_same_forallable,
    lemma_same_func_flags,
    lemma_same_func_metadata,
    lemma_same_function,
    lemma_same_int,
    lemma_same_kw_call,
    lemma_same_lit,
    lemma_same_lit_enum,
    lemma_same_literal,
    lemma_same_nn_module_type,
    lemma_same_overload,
    lemma_same_overload_type,
    lemma_same_param,
    lemma_same_params,
    lemma_same_property_metadata,
    lemma_same_quantified,
    lemma_same_restriction,
    lemma_same_series_schema,
    lemma_same_shaped_array_type,
    lemma_same_super_obj,
    lemma_same_targs,
    lemma_same_tuple,
    lemma_same_type,
    lemma_same_type_alias,
    lemma_same_type_alias_data,
    lemma_same_type_alias_ref,
    lemma_same_type_level_dsl_call,
    lemma_same_typed_dict,
    lemma_same_union,
    same_bound_method,
    same_bound_method_type,
    same_callable,
    same_callable_residual,
    same_class_type,
    same_data_frame_schema,
    same_dims,
    same_field,
    same_fields,
    same_forall_forallable,
    same_forall_function,
    same_forallable,
    same_func_flags,
    same_func_metadata,
    same_function,
    same_int,
    same_kw_call,
    same_lit,
    same_lit_enum,
    same_literal,
    same_module_fields,
    same_nn_module_type,
    same_overload,
    same_overload_type,
    same_overloads,
    same_param,
    same_param_seq,
    same_params,
    same_property_metadata,
    same_quantified,
    same_quantifieds,
    same_restriction,
    same_series_schema,
    same_shaped_array_type,
    same_super_obj,
    same_targs,
    same_tuple,
    same_type,
    same_type_alias,
    same_type_alias_data,
    same_type_alias_ref,
    same_type_level_dsl_call,
    same_typed_dict,
    same_types,
    same_union,
};
use crate::styles::DataclassTransformMetadata;
use crate::tokens::{
    Token,
    items_dims,
    items_fields,
    items_overloads,
    items_param_seq,
    items_quantifieds,
    items_types,
    items_words,
    lemma_tokens_bound_method,
    lemma_tokens_bound_method_type,
    lemma_tokens_callable,
    lemma_tokens_callable_residual,
    lemma_tokens_class_type,
    lemma_tokens_data_frame_schema,
    lemma_tokens_field,
    lemma_tokens_forallable,
    lemma_tokens_func_flags,
    lemma_tokens_func_metadata,
    lemma_tokens_function,
    lemma_tokens_int,
    lemma_tokens_kw_call,
    lemma_tokens_lit,
    lemma_tokens_lit_enum,
    lemma_tokens_literal,
    lemma_tokens_nn_module_type,
    lemma_tokens_overload,
    lemma_tokens_overload_type,
    lemma_tokens_param,
    lemma_tokens_params,
    lemma_tokens_property_metadata,
    lemma_tokens_quantified,
    lemma_tokens_restriction,
    lemma_tokens_series_schema,
    lemma_tokens_shaped_array_type,
    lemma_tokens_super_obj,
    lemma_tokens_targs,
    lemma_tokens_tuple,
    lemma_tokens_type,
    lemma_tokens_type_alias,
    lemma_tokens_type_alias_data,
    lemma_tokens_type_alias_ref,
    lemma_tokens_type_level_dsl_call,
    lemma_tokens_typed_dict,
    lemma_tokens_union,
    order_of_i64,
    tokens_bound_method,
    tokens_bound_method_type,
    tokens_bytes,
    tokens_callable,
    tokens_callable_residual,
    tokens_class,
    tokens_class_type,
    tokens_data_frame_schema,
    tokens_deprecation,
    tokens_dims,
    tokens_field,
    tokens_fields,
    tokens_forall_forallable,
    tokens_forall_function,
    tokens_forallable,
    tokens_func_flags,
    tokens_func_metadata,
    tokens_function,
    tokens_function_kind,
    tokens_int,
    tokens_kw_call,
    tokens_lit,
    tokens_lit_enum,
    tokens_lit_int,
    tokens_literal,
    tokens_module_fields,
    tokens_nn_module_type,
    tokens_overload,
    tokens_overload_type,
    tokens_overloads,
    tokens_param,
    tokens_param_seq,
    tokens_params,
    tokens_property_metadata,
    tokens_qname,
    tokens_quantified,
    tokens_quantified_identity,
    tokens_quantifieds,
    tokens_restriction,
    tokens_series_schema,
    tokens_shaped_array_type,
    tokens_super_obj,
    tokens_targs,
    tokens_text,
    tokens_transform,
    tokens_tuple,
    tokens_type,
    tokens_type_alias,
    tokens_type_alias_data,
    tokens_type_alias_ref,
    tokens_type_level_dsl_call,
    tokens_typed_dict,
    tokens_types,
    tokens_union,
    tokens_words,
    var_token,
    word,
    word_of_bool,
};
use crate::view::{
    BoundMethodTypeView,
    BoundMethodView,
    CallableResidualView,
    CallableView,
    ClassTypeView,
    DataFrameSchemaView,
    FieldView,
    ForallView,
    ForallableView,
    FuncFlagsView,
    FuncMetadataView,
    FunctionView,
    IntView,
    KwCallView,
    LitEnumView,
    LitView,
    LiteralView,
    NNModuleTypeView,
    OverloadTypeView,
    OverloadView,
    ParamView,
    ParamsView,
    PropertyMetadataView,
    QuantifiedView,
    RestrictionView,
    SeriesSchemaView,
    ShapedArrayTypeView,
    SuperObjView,
    TArgsView,
    TupleView,
    TypeAliasDataView,
    TypeAliasRefView,
    TypeAliasView,
    TypeLevelDslCallView,
    TypeView,
    TypedDictView,
    UnionView,
};

verus! {

pub(crate) proof fn lemma_append(a: Seq<Token>, b: Seq<Token>, c: Seq<Token>)
    ensures
        (a + b) + c == a + (b + c),
{
    assert((a + b) + c =~= a + (b + c));
}

pub(crate) proof fn lemma_spelled_word(x: u64, y: u64, u: Seq<Token>, v: Seq<Token>)
    requires
        word(x) + u == word(y) + v,
    ensures
        x == y,
        u == v,
{
    assert((word(x) + u)[0] == (0u8, x));
    assert((word(y) + v)[0] == (0u8, y));
    assert((word(x) + u).skip(1) =~= u);
    assert((word(y) + v).skip(1) =~= v);
}

pub(crate) proof fn lemma_spelled_var(x: Var, y: Var, u: Seq<Token>, v: Seq<Token>)
    requires
        var_token(x) + u == var_token(y) + v,
    ensures
        x == y,
        u == v,
{
    assert((var_token(x) + u)[0] == (1u8, x.unique.id));
    assert((var_token(y) + v)[0] == (1u8, y.unique.id));
    assert((var_token(x) + u).skip(1) =~= u);
    assert((var_token(y) + v).skip(1) =~= v);
}

pub(crate) proof fn lemma_spelled_bool(x: bool, y: bool, u: Seq<Token>, v: Seq<Token>)
    requires
        word_of_bool(x) + u == word_of_bool(y) + v,
    ensures
        x == y,
        u == v,
{
    lemma_spelled_word(
        if x {
            1
        } else {
            0
        },
        if y {
            1
        } else {
            0
        },
        u,
        v,
    );
}

pub(crate) proof fn lemma_spelled_bytes(x: Seq<u8>, y: Seq<u8>, u: Seq<Token>, v: Seq<Token>)
    requires
        tokens_bytes(x) + u == tokens_bytes(y) + v,
    ensures
        x == y,
        u == v,
    decreases x.len(),
{
    let (s, t) = (tokens_bytes(x) + u, tokens_bytes(y) + v);
    if x.len() == 0 {
        assert(s[0] == (0u8, 0u64));
        if y.len() > 0 {
            assert(t[0] == (0u8, (y[0] + 1) as u64));
        }
        assert(x =~= y);
        assert(s.skip(1) =~= u);
        assert(t.skip(1) =~= v);
    } else {
        assert(s[0] == (0u8, (x[0] + 1) as u64));
        if y.len() == 0 {
            assert(t[0] == (0u8, 0u64));
        }
        assert(t[0] == (0u8, (y[0] + 1) as u64));
        assert(s.skip(1) =~= tokens_bytes(x.skip(1)) + u);
        assert(t.skip(1) =~= tokens_bytes(y.skip(1)) + v);
        lemma_spelled_bytes(x.skip(1), y.skip(1), u, v);
        assert(x =~= seq![x[0]] + x.skip(1));
        assert(y =~= seq![y[0]] + y.skip(1));
    }
}

pub(crate) proof fn lemma_spelled_text(x: Seq<char>, y: Seq<char>, u: Seq<Token>, v: Seq<Token>)
    requires
        tokens_text(x) + u == tokens_text(y) + v,
    ensures
        x == y,
        u == v,
{
    lemma_spelled_bytes(encode_utf8(x), encode_utf8(y), u, v);
    encode_utf8_decode_utf8(x);
    encode_utf8_decode_utf8(y);
}

proof fn lemma_words_front(s: Seq<u64>)
    requires
        s.len() > 0,
    ensures
        items_words(s) == word(1) + word(s[0]) + items_words(s.skip(1)),
    decreases s.len(),
{
    let d = s.drop_last();
    if s.len() == 1 {
        assert(items_words(d) =~= Seq::empty());
        assert(items_words(s.skip(1)) =~= Seq::empty());
        assert(items_words(s) =~= word(1) + word(s[0]) + items_words(s.skip(1)));
    } else {
        lemma_words_front(d);
        assert(s.skip(1).drop_last() =~= d.skip(1));
        assert(items_words(s) =~= word(1) + word(s[0]) + items_words(s.skip(1)));
    }
}

pub(crate) proof fn lemma_spelled_words(x: Seq<u64>, y: Seq<u64>, u: Seq<Token>, v: Seq<Token>)
    requires
        tokens_words(x) + u == tokens_words(y) + v,
    ensures
        x == y,
        u == v,
    decreases x.len(),
{
    if x.len() == 0 {
        assert(tokens_words(x) + u =~= word(0) + u);
        if y.len() == 0 {
            assert(tokens_words(y) + v =~= word(0) + v);
            lemma_spelled_word(0, 0, u, v);
            assert(x =~= y);
        } else {
            lemma_words_front(y);
            let rest = word(y[0]) + items_words(y.skip(1)) + word(0) + v;
            assert(tokens_words(y) + v =~= word(1) + rest);
            lemma_spelled_word(0, 1, u, rest);
        }
    } else {
        lemma_words_front(x);
        let a = tokens_words(x.skip(1)) + u;
        assert(tokens_words(x) + u =~= word(1) + (word(x[0]) + a));
        if y.len() == 0 {
            assert(tokens_words(y) + v =~= word(0) + v);
            lemma_spelled_word(1, 0, word(x[0]) + a, v);
        } else {
            lemma_words_front(y);
            let b = tokens_words(y.skip(1)) + v;
            assert(tokens_words(y) + v =~= word(1) + (word(y[0]) + b));
            lemma_spelled_word(1, 1, word(x[0]) + a, word(y[0]) + b);
            lemma_spelled_word(x[0], y[0], a, b);
            lemma_spelled_words(x.skip(1), y.skip(1), u, v);
            assert(x =~= seq![x[0]] + x.skip(1));
            assert(y =~= seq![y[0]] + y.skip(1));
        }
    }
}

pub(crate) proof fn lemma_spelled_qname(x: QNameView, y: QNameView, u: Seq<Token>, v: Seq<Token>)
    requires
        tokens_qname(x) + u == tokens_qname(y) + v,
    ensures
        x == y,
        u == v,
{
    lemma_append(tokens_text(x.name), tokens_text(x.module), u);
    lemma_append(tokens_text(y.name), tokens_text(y.module), v);
    lemma_spelled_text(x.name, y.name, tokens_text(x.module) + u, tokens_text(y.module) + v);
    lemma_spelled_text(x.module, y.module, u, v);
}

pub(crate) proof fn lemma_spelled_quantified_identity(
    x: QuantifiedIdentityView,
    y: QuantifiedIdentityView,
    u: Seq<Token>,
    v: Seq<Token>,
)
    requires
        tokens_quantified_identity(x) + u == tokens_quantified_identity(y) + v,
    ensures
        x == y,
        u == v,
{
    let a4 = word(x.origin.rank_spec()) + u;
    let a3 = word(x.anchor.index as u64) + a4;
    let a2 = word(x.anchor.range.end as u64) + a3;
    let a1 = word(x.anchor.range.start as u64) + a2;
    let b4 = word(y.origin.rank_spec()) + v;
    let b3 = word(y.anchor.index as u64) + b4;
    let b2 = word(y.anchor.range.end as u64) + b3;
    let b1 = word(y.anchor.range.start as u64) + b2;
    assert(tokens_quantified_identity(x) + u =~= tokens_text(x.module) + a1);
    assert(tokens_quantified_identity(y) + v =~= tokens_text(y.module) + b1);
    lemma_spelled_text(x.module, y.module, a1, b1);
    lemma_spelled_word(x.anchor.range.start as u64, y.anchor.range.start as u64, a2, b2);
    lemma_spelled_word(x.anchor.range.end as u64, y.anchor.range.end as u64, a3, b3);
    lemma_spelled_word(x.anchor.index as u64, y.anchor.index as u64, a4, b4);
    lemma_spelled_word(x.origin.rank_spec(), y.origin.rank_spec(), u, v);
}

pub(crate) proof fn lemma_spelled_class(x: ClassView, y: ClassView, u: Seq<Token>, v: Seq<Token>)
    requires
        tokens_class(x) + u == tokens_class(y) + v,
    ensures
        x == y,
        u == v,
{
    let a2 = word(x.kind.rank_spec()) + u;
    let a1 = word(x.index as u64) + a2;
    let b2 = word(y.kind.rank_spec()) + v;
    let b1 = word(y.index as u64) + b2;
    assert(tokens_class(x) + u =~= tokens_qname(x.qname) + a1);
    assert(tokens_class(y) + v =~= tokens_qname(y.qname) + b1);
    lemma_spelled_qname(x.qname, y.qname, a1, b1);
    lemma_spelled_word(x.index as u64, y.index as u64, a2, b2);
    lemma_spelled_word(x.kind.rank_spec(), y.kind.rank_spec(), u, v);
}

pub(crate) proof fn lemma_spelled_function_kind(
    x: FunctionKindView,
    y: FunctionKindView,
    u: Seq<Token>,
    v: Seq<Token>,
)
    requires
        tokens_function_kind(x) + u == tokens_function_kind(y) + v,
    ensures
        x == y,
        u == v,
{
    match (x, y) {
        (FunctionKindView::AssertShape, FunctionKindView::AssertShape) => {
            lemma_spelled_word(0, 0, u, v);
        },
        (FunctionKindView::Def(a), FunctionKindView::Def(b)) => {
            lemma_append(word(1), tokens_text(a), u);
            lemma_append(word(1), tokens_text(b), v);
            lemma_spelled_word(1, 1, tokens_text(a) + u, tokens_text(b) + v);
            lemma_spelled_text(a, b, u, v);
        },
        (FunctionKindView::AssertShape, FunctionKindView::Def(b)) => {
            lemma_append(word(1), tokens_text(b), v);
            lemma_spelled_word(0, 1, u, tokens_text(b) + v);
        },
        (FunctionKindView::Def(a), FunctionKindView::AssertShape) => {
            lemma_append(word(1), tokens_text(a), u);
            lemma_spelled_word(1, 0, tokens_text(a) + u, v);
        },
    }
}

pub(crate) proof fn lemma_spelled_deprecation(
    x: DeprecationView,
    y: DeprecationView,
    u: Seq<Token>,
    v: Seq<Token>,
)
    requires
        tokens_deprecation(x) + u == tokens_deprecation(y) + v,
    ensures
        x == y,
        u == v,
{
    match (x.message, y.message) {
        (None, None) => {
            lemma_spelled_word(0, 0, u, v);
        },
        (Some(a), Some(b)) => {
            lemma_append(word(1), tokens_text(a), u);
            lemma_append(word(1), tokens_text(b), v);
            lemma_spelled_word(1, 1, tokens_text(a) + u, tokens_text(b) + v);
            lemma_spelled_text(a, b, u, v);
        },
        (None, Some(b)) => {
            lemma_append(word(1), tokens_text(b), v);
            lemma_spelled_word(0, 1, u, tokens_text(b) + v);
        },
        (Some(a), None) => {
            lemma_append(word(1), tokens_text(a), u);
            lemma_spelled_word(1, 0, tokens_text(a) + u, v);
        },
    }
}

pub(crate) proof fn lemma_spelled_lit_int(
    x: LitIntView,
    y: LitIntView,
    u: Seq<Token>,
    v: Seq<Token>,
)
    requires
        tokens_lit_int(x) + u == tokens_lit_int(y) + v,
    ensures
        x == y,
        u == v,
{
    lemma_append(word_of_bool(x.negative), tokens_words(x.magnitude), u);
    lemma_append(word_of_bool(y.negative), tokens_words(y.magnitude), v);
    lemma_spelled_bool(
        x.negative,
        y.negative,
        tokens_words(x.magnitude) + u,
        tokens_words(y.magnitude) + v,
    );
    lemma_spelled_words(x.magnitude, y.magnitude, u, v);
}

pub(crate) proof fn lemma_spelled_transform(
    x: DataclassTransformMetadata,
    y: DataclassTransformMetadata,
    u: Seq<Token>,
    v: Seq<Token>,
)
    requires
        tokens_transform(x) + u == tokens_transform(y) + v,
    ensures
        x == y,
        u == v,
{
    let a3 = word_of_bool(x.frozen_default) + u;
    let a2 = word_of_bool(x.kw_only_default) + a3;
    let a1 = word_of_bool(x.order_default) + a2;
    let b3 = word_of_bool(y.frozen_default) + v;
    let b2 = word_of_bool(y.kw_only_default) + b3;
    let b1 = word_of_bool(y.order_default) + b2;
    let (p, q) = (word_of_bool(x.eq_default), word_of_bool(y.eq_default));
    let (p2, q2) = (p + word_of_bool(x.order_default), q + word_of_bool(y.order_default));
    lemma_append(p2 + word_of_bool(x.kw_only_default), word_of_bool(x.frozen_default), u);
    lemma_append(q2 + word_of_bool(y.kw_only_default), word_of_bool(y.frozen_default), v);
    lemma_append(p2, word_of_bool(x.kw_only_default), a3);
    lemma_append(q2, word_of_bool(y.kw_only_default), b3);
    lemma_append(p, word_of_bool(x.order_default), a2);
    lemma_append(q, word_of_bool(y.order_default), b2);
    lemma_spelled_bool(x.eq_default, y.eq_default, a1, b1);
    lemma_spelled_bool(x.order_default, y.order_default, a2, b2);
    lemma_spelled_bool(x.kw_only_default, y.kw_only_default, a3, b3);
    lemma_spelled_bool(x.frozen_default, y.frozen_default, u, v);
}

pub(crate) proof fn lemma_types_front(s: Seq<TypeView>)
    requires
        s.len() > 0,
    ensures
        items_types(s) == word(1) + tokens_type(s[0]) + items_types(s.skip(1)),
    decreases s.len(),
{
    let d = s.drop_last();
    if s.len() == 1 {
        assert(items_types(d) =~= Seq::empty());
        assert(items_types(s.skip(1)) =~= Seq::empty());
        assert(items_types(s) =~= word(1) + tokens_type(s[0]) + items_types(s.skip(1)));
    } else {
        lemma_types_front(d);
        assert(s.skip(1).drop_last() =~= d.skip(1));
        assert(items_types(s) =~= word(1) + tokens_type(s[0]) + items_types(s.skip(1)));
    }
}

pub(crate) proof fn lemma_spelled_types(
    a: Seq<TypeView>,
    b: Seq<TypeView>,
    u: Seq<Token>,
    v: Seq<Token>,
)
    requires
        tokens_types(a) + u == tokens_types(b) + v,
    ensures
        same_types(a, b),
        u == v,
    decreases a, 0nat,
{
    if a.len() == 0 {
        assert(tokens_types(a) + u =~= word(0) + u);
        if b.len() == 0 {
            assert(tokens_types(b) + v =~= word(0) + v);
            lemma_spelled_word(0, 0, u, v);
        } else {
            lemma_types_front(b);
            let rest = tokens_type(b[0]) + items_types(b.skip(1)) + word(0) + v;
            assert(tokens_types(b) + v =~= word(1) + rest);
            lemma_spelled_word(0, 1, u, rest);
        }
    } else {
        lemma_types_front(a);
        let c = tokens_types(a.skip(1)) + u;
        assert(tokens_types(a) + u =~= word(1) + (tokens_type(a[0]) + c));
        if b.len() == 0 {
            assert(tokens_types(b) + v =~= word(0) + v);
            lemma_spelled_word(1, 0, tokens_type(a[0]) + c, v);
        } else {
            lemma_types_front(b);
            let d = tokens_types(b.skip(1)) + v;
            assert(tokens_types(b) + v =~= word(1) + (tokens_type(b[0]) + d));
            lemma_spelled_word(1, 1, tokens_type(a[0]) + c, tokens_type(b[0]) + d);
            assert(decreases_to!(a => a[0]));
            lemma_spelled_type(a[0], b[0], c, d);
            assert(decreases_to!(a => a.subrange(1, a.len() as int)));
            assert(a.subrange(1, a.len() as int) =~= a.skip(1));
            lemma_spelled_types(a.skip(1), b.skip(1), u, v);
            assert forall|i: int| 0 <= i < a.len() implies same_type(#[trigger] a[i], b[i]) by {
                if i > 0 {
                    assert(a.skip(1)[i - 1] == a[i]);
                    assert(b.skip(1)[i - 1] == b[i]);
                }
            }
        }
    }
}

pub(crate) proof fn lemma_param_seq_front(s: Seq<ParamView>)
    requires
        s.len() > 0,
    ensures
        items_param_seq(s) == word(1) + tokens_param(s[0]) + items_param_seq(s.skip(1)),
    decreases s.len(),
{
    let d = s.drop_last();
    if s.len() == 1 {
        assert(items_param_seq(d) =~= Seq::empty());
        assert(items_param_seq(s.skip(1)) =~= Seq::empty());
        assert(items_param_seq(s) =~= word(1) + tokens_param(s[0]) + items_param_seq(s.skip(1)));
    } else {
        lemma_param_seq_front(d);
        assert(s.skip(1).drop_last() =~= d.skip(1));
        assert(items_param_seq(s) =~= word(1) + tokens_param(s[0]) + items_param_seq(s.skip(1)));
    }
}

pub(crate) proof fn lemma_spelled_param_seq(
    a: Seq<ParamView>,
    b: Seq<ParamView>,
    u: Seq<Token>,
    v: Seq<Token>,
)
    requires
        tokens_param_seq(a) + u == tokens_param_seq(b) + v,
    ensures
        same_param_seq(a, b),
        u == v,
    decreases a, 0nat,
{
    if a.len() == 0 {
        assert(tokens_param_seq(a) + u =~= word(0) + u);
        if b.len() == 0 {
            assert(tokens_param_seq(b) + v =~= word(0) + v);
            lemma_spelled_word(0, 0, u, v);
        } else {
            lemma_param_seq_front(b);
            let rest = tokens_param(b[0]) + items_param_seq(b.skip(1)) + word(0) + v;
            assert(tokens_param_seq(b) + v =~= word(1) + rest);
            lemma_spelled_word(0, 1, u, rest);
        }
    } else {
        lemma_param_seq_front(a);
        let c = tokens_param_seq(a.skip(1)) + u;
        assert(tokens_param_seq(a) + u =~= word(1) + (tokens_param(a[0]) + c));
        if b.len() == 0 {
            assert(tokens_param_seq(b) + v =~= word(0) + v);
            lemma_spelled_word(1, 0, tokens_param(a[0]) + c, v);
        } else {
            lemma_param_seq_front(b);
            let d = tokens_param_seq(b.skip(1)) + v;
            assert(tokens_param_seq(b) + v =~= word(1) + (tokens_param(b[0]) + d));
            lemma_spelled_word(1, 1, tokens_param(a[0]) + c, tokens_param(b[0]) + d);
            assert(decreases_to!(a => a[0]));
            lemma_spelled_param(a[0], b[0], c, d);
            assert(decreases_to!(a => a.subrange(1, a.len() as int)));
            assert(a.subrange(1, a.len() as int) =~= a.skip(1));
            lemma_spelled_param_seq(a.skip(1), b.skip(1), u, v);
            assert forall|i: int| 0 <= i < a.len() implies same_param(#[trigger] a[i], b[i]) by {
                if i > 0 {
                    assert(a.skip(1)[i - 1] == a[i]);
                    assert(b.skip(1)[i - 1] == b[i]);
                }
            }
        }
    }
}

pub(crate) proof fn lemma_fields_front(s: Seq<FieldView>)
    requires
        s.len() > 0,
    ensures
        items_fields(s) == word(1) + tokens_field(s[0]) + items_fields(s.skip(1)),
    decreases s.len(),
{
    let d = s.drop_last();
    if s.len() == 1 {
        assert(items_fields(d) =~= Seq::empty());
        assert(items_fields(s.skip(1)) =~= Seq::empty());
        assert(items_fields(s) =~= word(1) + tokens_field(s[0]) + items_fields(s.skip(1)));
    } else {
        lemma_fields_front(d);
        assert(s.skip(1).drop_last() =~= d.skip(1));
        assert(items_fields(s) =~= word(1) + tokens_field(s[0]) + items_fields(s.skip(1)));
    }
}

pub(crate) proof fn lemma_spelled_fields(
    a: Seq<FieldView>,
    b: Seq<FieldView>,
    u: Seq<Token>,
    v: Seq<Token>,
)
    requires
        tokens_fields(a) + u == tokens_fields(b) + v,
    ensures
        same_fields(a, b),
        u == v,
    decreases a, 0nat,
{
    if a.len() == 0 {
        assert(tokens_fields(a) + u =~= word(0) + u);
        if b.len() == 0 {
            assert(tokens_fields(b) + v =~= word(0) + v);
            lemma_spelled_word(0, 0, u, v);
        } else {
            lemma_fields_front(b);
            let rest = tokens_field(b[0]) + items_fields(b.skip(1)) + word(0) + v;
            assert(tokens_fields(b) + v =~= word(1) + rest);
            lemma_spelled_word(0, 1, u, rest);
        }
    } else {
        lemma_fields_front(a);
        let c = tokens_fields(a.skip(1)) + u;
        assert(tokens_fields(a) + u =~= word(1) + (tokens_field(a[0]) + c));
        if b.len() == 0 {
            assert(tokens_fields(b) + v =~= word(0) + v);
            lemma_spelled_word(1, 0, tokens_field(a[0]) + c, v);
        } else {
            lemma_fields_front(b);
            let d = tokens_fields(b.skip(1)) + v;
            assert(tokens_fields(b) + v =~= word(1) + (tokens_field(b[0]) + d));
            lemma_spelled_word(1, 1, tokens_field(a[0]) + c, tokens_field(b[0]) + d);
            assert(decreases_to!(a => a[0]));
            lemma_spelled_field(a[0], b[0], c, d);
            assert(decreases_to!(a => a.subrange(1, a.len() as int)));
            assert(a.subrange(1, a.len() as int) =~= a.skip(1));
            lemma_spelled_fields(a.skip(1), b.skip(1), u, v);
            assert forall|i: int| 0 <= i < a.len() implies same_field(#[trigger] a[i], b[i]) by {
                if i > 0 {
                    assert(a.skip(1)[i - 1] == a[i]);
                    assert(b.skip(1)[i - 1] == b[i]);
                }
            }
        }
    }
}

pub(crate) proof fn lemma_quantifieds_front(s: Seq<QuantifiedView>)
    requires
        s.len() > 0,
    ensures
        items_quantifieds(s) == word(1) + tokens_quantified(s[0]) + items_quantifieds(s.skip(1)),
    decreases s.len(),
{
    let d = s.drop_last();
    if s.len() == 1 {
        assert(items_quantifieds(d) =~= Seq::empty());
        assert(items_quantifieds(s.skip(1)) =~= Seq::empty());
        assert(
            items_quantifieds(s) =~= word(1)
                + tokens_quantified(s[0])
                + items_quantifieds(s.skip(1))
        );
    } else {
        lemma_quantifieds_front(d);
        assert(s.skip(1).drop_last() =~= d.skip(1));
        assert(
            items_quantifieds(s) =~= word(1)
                + tokens_quantified(s[0])
                + items_quantifieds(s.skip(1))
        );
    }
}

pub(crate) proof fn lemma_spelled_quantifieds(
    a: Seq<QuantifiedView>,
    b: Seq<QuantifiedView>,
    u: Seq<Token>,
    v: Seq<Token>,
)
    requires
        tokens_quantifieds(a) + u == tokens_quantifieds(b) + v,
    ensures
        same_quantifieds(a, b),
        u == v,
    decreases a, 0nat,
{
    if a.len() == 0 {
        assert(tokens_quantifieds(a) + u =~= word(0) + u);
        if b.len() == 0 {
            assert(tokens_quantifieds(b) + v =~= word(0) + v);
            lemma_spelled_word(0, 0, u, v);
        } else {
            lemma_quantifieds_front(b);
            let rest = tokens_quantified(b[0]) + items_quantifieds(b.skip(1)) + word(0) + v;
            assert(tokens_quantifieds(b) + v =~= word(1) + rest);
            lemma_spelled_word(0, 1, u, rest);
        }
    } else {
        lemma_quantifieds_front(a);
        let c = tokens_quantifieds(a.skip(1)) + u;
        assert(tokens_quantifieds(a) + u =~= word(1) + (tokens_quantified(a[0]) + c));
        if b.len() == 0 {
            assert(tokens_quantifieds(b) + v =~= word(0) + v);
            lemma_spelled_word(1, 0, tokens_quantified(a[0]) + c, v);
        } else {
            lemma_quantifieds_front(b);
            let d = tokens_quantifieds(b.skip(1)) + v;
            assert(tokens_quantifieds(b) + v =~= word(1) + (tokens_quantified(b[0]) + d));
            lemma_spelled_word(1, 1, tokens_quantified(a[0]) + c, tokens_quantified(b[0]) + d);
            assert(decreases_to!(a => a[0]));
            lemma_spelled_quantified(a[0], b[0], c, d);
            assert(decreases_to!(a => a.subrange(1, a.len() as int)));
            assert(a.subrange(1, a.len() as int) =~= a.skip(1));
            lemma_spelled_quantifieds(a.skip(1), b.skip(1), u, v);
            assert forall|i: int| 0 <= i < a.len() implies same_quantified(
                #[trigger] a[i],
                b[i],
            ) by {
                if i > 0 {
                    assert(a.skip(1)[i - 1] == a[i]);
                    assert(b.skip(1)[i - 1] == b[i]);
                }
            }
        }
    }
}

pub(crate) proof fn lemma_overloads_front(s: Seq<OverloadTypeView>)
    requires
        s.len() > 0,
    ensures
        items_overloads(s) == word(1) + tokens_overload_type(s[0]) + items_overloads(s.skip(1)),
    decreases s.len(),
{
    let d = s.drop_last();
    if s.len() == 1 {
        assert(items_overloads(d) =~= Seq::empty());
        assert(items_overloads(s.skip(1)) =~= Seq::empty());
        assert(
            items_overloads(s) =~= word(1) + tokens_overload_type(s[0]) + items_overloads(s.skip(1))
        );
    } else {
        lemma_overloads_front(d);
        assert(s.skip(1).drop_last() =~= d.skip(1));
        assert(
            items_overloads(s) =~= word(1) + tokens_overload_type(s[0]) + items_overloads(s.skip(1))
        );
    }
}

pub(crate) proof fn lemma_spelled_overloads(
    a: Seq<OverloadTypeView>,
    b: Seq<OverloadTypeView>,
    u: Seq<Token>,
    v: Seq<Token>,
)
    requires
        tokens_overloads(a) + u == tokens_overloads(b) + v,
    ensures
        same_overloads(a, b),
        u == v,
    decreases a, 0nat,
{
    if a.len() == 0 {
        assert(tokens_overloads(a) + u =~= word(0) + u);
        if b.len() == 0 {
            assert(tokens_overloads(b) + v =~= word(0) + v);
            lemma_spelled_word(0, 0, u, v);
        } else {
            lemma_overloads_front(b);
            let rest = tokens_overload_type(b[0]) + items_overloads(b.skip(1)) + word(0) + v;
            assert(tokens_overloads(b) + v =~= word(1) + rest);
            lemma_spelled_word(0, 1, u, rest);
        }
    } else {
        lemma_overloads_front(a);
        let c = tokens_overloads(a.skip(1)) + u;
        assert(tokens_overloads(a) + u =~= word(1) + (tokens_overload_type(a[0]) + c));
        if b.len() == 0 {
            assert(tokens_overloads(b) + v =~= word(0) + v);
            lemma_spelled_word(1, 0, tokens_overload_type(a[0]) + c, v);
        } else {
            lemma_overloads_front(b);
            let d = tokens_overloads(b.skip(1)) + v;
            assert(tokens_overloads(b) + v =~= word(1) + (tokens_overload_type(b[0]) + d));
            lemma_spelled_word(
                1,
                1,
                tokens_overload_type(a[0]) + c,
                tokens_overload_type(b[0]) + d,
            );
            assert(decreases_to!(a => a[0]));
            lemma_spelled_overload_type(a[0], b[0], c, d);
            assert(decreases_to!(a => a.subrange(1, a.len() as int)));
            assert(a.subrange(1, a.len() as int) =~= a.skip(1));
            lemma_spelled_overloads(a.skip(1), b.skip(1), u, v);
            assert forall|i: int| 0 <= i < a.len() implies same_overload_type(
                #[trigger] a[i],
                b[i],
            ) by {
                if i > 0 {
                    assert(a.skip(1)[i - 1] == a[i]);
                    assert(b.skip(1)[i - 1] == b[i]);
                }
            }
        }
    }
}

pub(crate) proof fn lemma_dims_front(s: Seq<IntView>)
    requires
        s.len() > 0,
    ensures
        items_dims(s) == word(1) + tokens_int(s[0]) + items_dims(s.skip(1)),
    decreases s.len(),
{
    let d = s.drop_last();
    if s.len() == 1 {
        assert(items_dims(d) =~= Seq::empty());
        assert(items_dims(s.skip(1)) =~= Seq::empty());
        assert(items_dims(s) =~= word(1) + tokens_int(s[0]) + items_dims(s.skip(1)));
    } else {
        lemma_dims_front(d);
        assert(s.skip(1).drop_last() =~= d.skip(1));
        assert(items_dims(s) =~= word(1) + tokens_int(s[0]) + items_dims(s.skip(1)));
    }
}

pub(crate) proof fn lemma_spelled_dims(
    a: Seq<IntView>,
    b: Seq<IntView>,
    u: Seq<Token>,
    v: Seq<Token>,
)
    requires
        tokens_dims(a) + u == tokens_dims(b) + v,
    ensures
        same_dims(a, b),
        u == v,
    decreases a, 0nat,
{
    if a.len() == 0 {
        assert(tokens_dims(a) + u =~= word(0) + u);
        if b.len() == 0 {
            assert(tokens_dims(b) + v =~= word(0) + v);
            lemma_spelled_word(0, 0, u, v);
        } else {
            lemma_dims_front(b);
            let rest = tokens_int(b[0]) + items_dims(b.skip(1)) + word(0) + v;
            assert(tokens_dims(b) + v =~= word(1) + rest);
            lemma_spelled_word(0, 1, u, rest);
        }
    } else {
        lemma_dims_front(a);
        let c = tokens_dims(a.skip(1)) + u;
        assert(tokens_dims(a) + u =~= word(1) + (tokens_int(a[0]) + c));
        if b.len() == 0 {
            assert(tokens_dims(b) + v =~= word(0) + v);
            lemma_spelled_word(1, 0, tokens_int(a[0]) + c, v);
        } else {
            lemma_dims_front(b);
            let d = tokens_dims(b.skip(1)) + v;
            assert(tokens_dims(b) + v =~= word(1) + (tokens_int(b[0]) + d));
            lemma_spelled_word(1, 1, tokens_int(a[0]) + c, tokens_int(b[0]) + d);
            assert(decreases_to!(a => a[0]));
            lemma_spelled_int(a[0], b[0], c, d);
            assert(decreases_to!(a => a.subrange(1, a.len() as int)));
            assert(a.subrange(1, a.len() as int) =~= a.skip(1));
            lemma_spelled_dims(a.skip(1), b.skip(1), u, v);
            assert forall|i: int| 0 <= i < a.len() implies same_int(#[trigger] a[i], b[i]) by {
                if i > 0 {
                    assert(a.skip(1)[i - 1] == a[i]);
                    assert(b.skip(1)[i - 1] == b[i]);
                }
            }
        }
    }
}

pub(crate) proof fn lemma_spelled_module_fields(
    a: Seq<FieldView>,
    b: Seq<FieldView>,
    u: Seq<Token>,
    v: Seq<Token>,
)
    requires
        tokens_module_fields(a) + u == tokens_module_fields(b) + v,
    ensures
        same_module_fields(a, b),
        u == v,
    decreases a, 1nat,
{
    lemma_append(word(a.len() as u64), tokens_fields(a), u);
    lemma_append(word(b.len() as u64), tokens_fields(b), v);
    lemma_spelled_word(
        a.len() as u64,
        b.len() as u64,
        tokens_fields(a) + u,
        tokens_fields(b) + v,
    );
    lemma_spelled_fields(a, b, u, v);
    assert forall|i: int| 0 <= i < a.len() implies has_field(
        b,
        (#[trigger] a[i]).name,
        a[i].ty,
    ) by {
        assert(same_field(a[i], b[i]));
        lemma_same_field(a[i], b[i]);
        reveal(has_field);
        assert(b[i].name == a[i].name && same_type(a[i].ty, b[i].ty));
    }
    assert forall|j: int| 0 <= j < b.len() implies is_field(
        a,
        (#[trigger] b[j]).name,
        b[j].ty,
    ) by {
        assert(same_field(a[j], b[j]));
        lemma_same_field(a[j], b[j]);
        reveal(is_field);
        assert(a[j].name == b[j].name && same_type(a[j].ty, b[j].ty));
    }
}

pub(crate) proof fn lemma_spelled_forall_function(
    a: ForallView<FunctionView>,
    b: ForallView<FunctionView>,
    u: Seq<Token>,
    v: Seq<Token>,
)
    requires
        tokens_forall_function(a) + u == tokens_forall_function(b) + v,
    ensures
        same_forall_function(a, b),
        u == v,
    decreases a, 1nat,
{
    lemma_forall_function_parts(a);
    lemma_append(tokens_quantifieds(a.tparams), tokens_function(a.body), u);
    lemma_append(tokens_quantifieds(b.tparams), tokens_function(b.body), v);
    lemma_spelled_quantifieds(
        a.tparams,
        b.tparams,
        tokens_function(a.body) + u,
        tokens_function(b.body) + v,
    );
    lemma_spelled_function(a.body, b.body, u, v);
}

pub(crate) proof fn lemma_spelled_forall_forallable(
    a: ForallView<ForallableView>,
    b: ForallView<ForallableView>,
    u: Seq<Token>,
    v: Seq<Token>,
)
    requires
        tokens_forall_forallable(a) + u == tokens_forall_forallable(b) + v,
    ensures
        same_forall_forallable(a, b),
        u == v,
    decreases a, 1nat,
{
    lemma_forall_forallable_parts(a);
    lemma_append(tokens_quantifieds(a.tparams), tokens_forallable(a.body), u);
    lemma_append(tokens_quantifieds(b.tparams), tokens_forallable(b.body), v);
    lemma_spelled_quantifieds(
        a.tparams,
        b.tparams,
        tokens_forallable(a.body) + u,
        tokens_forallable(b.body) + v,
    );
    lemma_spelled_forallable(a.body, b.body, u, v);
}

spec fn tag_restriction(m: RestrictionView) -> u64 {
    match m {
        RestrictionView::Bound(_) => 0,
        RestrictionView::Constraints(_) => 1,
        RestrictionView::Unrestricted => 2,
    }
}

proof fn lemma_tag_restriction(m: RestrictionView)
    ensures
        tokens_restriction(m).len() > 0,
        tokens_restriction(m)[0] == (0u8, tag_restriction(m)),
{
    lemma_tokens_restriction(m);
}

pub(crate) proof fn lemma_spelled_restriction(
    a: RestrictionView,
    b: RestrictionView,
    u: Seq<Token>,
    v: Seq<Token>,
)
    requires
        tokens_restriction(a) + u == tokens_restriction(b) + v,
    ensures
        same_restriction(a, b),
        u == v,
    decreases a, 1nat,
{
    lemma_tokens_restriction(a);
    lemma_tokens_restriction(b);
    lemma_same_restriction(a, b);
    lemma_restriction_parts(a);
    lemma_tag_restriction(a);
    lemma_tag_restriction(b);
    assert((tokens_restriction(a) + u)[0] == (0u8, tag_restriction(a)));
    assert((tokens_restriction(b) + v)[0] == (0u8, tag_restriction(b)));
    assert(tag_restriction(a) == tag_restriction(b));
    match a {
        RestrictionView::Bound(x) => {
            let a1 = tokens_type(x) + u;
            lemma_append(word(0), tokens_type(x), u);
            let b1 = tokens_type(b->Bound_0) + v;
            lemma_append(word(0), tokens_type(b->Bound_0), v);
            lemma_spelled_word(0, 0, a1, b1);
            lemma_spelled_type(x, b->Bound_0, u, v);
        },
        RestrictionView::Constraints(x) => {
            let a1 = tokens_types(x) + u;
            lemma_append(word(1), tokens_types(x), u);
            let b1 = tokens_types(b->Constraints_0) + v;
            lemma_append(word(1), tokens_types(b->Constraints_0), v);
            lemma_spelled_word(1, 1, a1, b1);
            lemma_spelled_types(x, b->Constraints_0, u, v);
        },
        RestrictionView::Unrestricted => {
            lemma_spelled_word(2, 2, u, v);
        },
    }
}

pub(crate) proof fn lemma_spelled_quantified(
    a: QuantifiedView,
    b: QuantifiedView,
    u: Seq<Token>,
    v: Seq<Token>,
)
    requires
        tokens_quantified(a) + u == tokens_quantified(b) + v,
    ensures
        same_quantified(a, b),
        u == v,
    decreases a, 1nat,
{
    lemma_tokens_quantified(a);
    lemma_tokens_quantified(b);
    lemma_same_quantified(a, b);
    lemma_quantified_parts(a);
    let a5 = word(a.variance.rank_spec()) + u;
    lemma_append(
        tokens_quantified_identity(a.identity)
            + tokens_text(a.name)
            + word(a.kind.rank_spec())
            + (match a.default { Some(x) => word(1) + tokens_type(x), None => word(0) })
            + tokens_restriction(a.restriction),
        word(a.variance.rank_spec()),
        u,
    );
    let a4 = tokens_restriction(a.restriction) + a5;
    lemma_append(
        tokens_quantified_identity(a.identity)
            + tokens_text(a.name)
            + word(a.kind.rank_spec())
            + (match a.default { Some(x) => word(1) + tokens_type(x), None => word(0) }),
        tokens_restriction(a.restriction),
        a5,
    );
    let a3 = (match a.default { Some(x) => word(1) + tokens_type(x), None => word(0) }) + a4;
    lemma_append(
        tokens_quantified_identity(a.identity) + tokens_text(a.name) + word(a.kind.rank_spec()),
        (match a.default { Some(x) => word(1) + tokens_type(x), None => word(0) }),
        a4,
    );
    let a2 = word(a.kind.rank_spec()) + a3;
    lemma_append(
        tokens_quantified_identity(a.identity) + tokens_text(a.name),
        word(a.kind.rank_spec()),
        a3,
    );
    let a1 = tokens_text(a.name) + a2;
    lemma_append(tokens_quantified_identity(a.identity), tokens_text(a.name), a2);
    let b5 = word(b.variance.rank_spec()) + v;
    lemma_append(
        tokens_quantified_identity(b.identity)
            + tokens_text(b.name)
            + word(b.kind.rank_spec())
            + (match b.default { Some(x) => word(1) + tokens_type(x), None => word(0) })
            + tokens_restriction(b.restriction),
        word(b.variance.rank_spec()),
        v,
    );
    let b4 = tokens_restriction(b.restriction) + b5;
    lemma_append(
        tokens_quantified_identity(b.identity)
            + tokens_text(b.name)
            + word(b.kind.rank_spec())
            + (match b.default { Some(x) => word(1) + tokens_type(x), None => word(0) }),
        tokens_restriction(b.restriction),
        b5,
    );
    let b3 = (match b.default { Some(x) => word(1) + tokens_type(x), None => word(0) }) + b4;
    lemma_append(
        tokens_quantified_identity(b.identity) + tokens_text(b.name) + word(b.kind.rank_spec()),
        (match b.default { Some(x) => word(1) + tokens_type(x), None => word(0) }),
        b4,
    );
    let b2 = word(b.kind.rank_spec()) + b3;
    lemma_append(
        tokens_quantified_identity(b.identity) + tokens_text(b.name),
        word(b.kind.rank_spec()),
        b3,
    );
    let b1 = tokens_text(b.name) + b2;
    lemma_append(tokens_quantified_identity(b.identity), tokens_text(b.name), b2);
    lemma_spelled_quantified_identity(a.identity, b.identity, a1, b1);
    lemma_spelled_text(a.name, b.name, a2, b2);
    lemma_spelled_word(a.kind.rank_spec(), b.kind.rank_spec(), a3, b3);
    match (a.default, b.default) {
        (Some(x), Some(y)) => {
            lemma_append(word(1), tokens_type(x), a4);
            lemma_append(word(1), tokens_type(y), b4);
            lemma_spelled_word(1, 1, tokens_type(x) + a4, tokens_type(y) + b4);
            lemma_spelled_type(x, y, a4, b4);
        },
        (Some(x), None) => {
            lemma_append(word(1), tokens_type(x), a4);
            lemma_spelled_word(1, 0, tokens_type(x) + a4, b4);
        },
        (None, Some(y)) => {
            lemma_append(word(1), tokens_type(y), b4);
            lemma_spelled_word(0, 1, a4, tokens_type(y) + b4);
        },
        (None, None) => {
            lemma_spelled_word(0, 0, a4, b4);
        },
    }
    lemma_spelled_restriction(a.restriction, b.restriction, a5, b5);
    lemma_spelled_word(a.variance.rank_spec(), b.variance.rank_spec(), u, v);
}

pub(crate) proof fn lemma_spelled_targs(a: TArgsView, b: TArgsView, u: Seq<Token>, v: Seq<Token>)
    requires
        tokens_targs(a) + u == tokens_targs(b) + v,
    ensures
        same_targs(a, b),
        u == v,
    decreases a, 1nat,
{
    lemma_tokens_targs(a);
    lemma_tokens_targs(b);
    lemma_same_targs(a, b);
    lemma_targs_parts(a);
    let a1 = tokens_types(a.args) + u;
    lemma_append(tokens_quantifieds(a.tparams), tokens_types(a.args), u);
    let b1 = tokens_types(b.args) + v;
    lemma_append(tokens_quantifieds(b.tparams), tokens_types(b.args), v);
    lemma_spelled_quantifieds(a.tparams, b.tparams, a1, b1);
    lemma_spelled_types(a.args, b.args, u, v);
}

pub(crate) proof fn lemma_spelled_class_type(
    a: ClassTypeView,
    b: ClassTypeView,
    u: Seq<Token>,
    v: Seq<Token>,
)
    requires
        tokens_class_type(a) + u == tokens_class_type(b) + v,
    ensures
        same_class_type(a, b),
        u == v,
    decreases a, 1nat,
{
    lemma_tokens_class_type(a);
    lemma_tokens_class_type(b);
    lemma_same_class_type(a, b);
    lemma_class_type_parts(a);
    let a1 = tokens_targs(a.targs) + u;
    lemma_append(tokens_class(a.class), tokens_targs(a.targs), u);
    let b1 = tokens_targs(b.targs) + v;
    lemma_append(tokens_class(b.class), tokens_targs(b.targs), v);
    lemma_spelled_class(a.class, b.class, a1, b1);
    lemma_spelled_targs(a.targs, b.targs, u, v);
}

pub(crate) proof fn lemma_spelled_lit_enum(
    a: LitEnumView,
    b: LitEnumView,
    u: Seq<Token>,
    v: Seq<Token>,
)
    requires
        tokens_lit_enum(a) + u == tokens_lit_enum(b) + v,
    ensures
        same_lit_enum(a, b),
        u == v,
    decreases a, 1nat,
{
    lemma_tokens_lit_enum(a);
    lemma_tokens_lit_enum(b);
    lemma_same_lit_enum(a, b);
    lemma_lit_enum_parts(a);
    let a1 = tokens_text(a.member) + u;
    lemma_append(tokens_class_type(a.class), tokens_text(a.member), u);
    let b1 = tokens_text(b.member) + v;
    lemma_append(tokens_class_type(b.class), tokens_text(b.member), v);
    lemma_spelled_class_type(a.class, b.class, a1, b1);
    lemma_spelled_text(a.member, b.member, u, v);
}

spec fn tag_lit(m: LitView) -> u64 {
    match m {
        LitView::Str(_) => 0,
        LitView::Int(_) => 1,
        LitView::Bool(_) => 2,
        LitView::Bytes(_) => 3,
        LitView::Enum(_) => 4,
    }
}

proof fn lemma_tag_lit(m: LitView)
    ensures
        tokens_lit(m).len() > 0,
        tokens_lit(m)[0] == (0u8, tag_lit(m)),
{
    lemma_tokens_lit(m);
}

pub(crate) proof fn lemma_spelled_lit(a: LitView, b: LitView, u: Seq<Token>, v: Seq<Token>)
    requires
        tokens_lit(a) + u == tokens_lit(b) + v,
    ensures
        same_lit(a, b),
        u == v,
    decreases a, 1nat,
{
    lemma_tokens_lit(a);
    lemma_tokens_lit(b);
    lemma_same_lit(a, b);
    lemma_lit_parts(a);
    lemma_tag_lit(a);
    lemma_tag_lit(b);
    assert((tokens_lit(a) + u)[0] == (0u8, tag_lit(a)));
    assert((tokens_lit(b) + v)[0] == (0u8, tag_lit(b)));
    assert(tag_lit(a) == tag_lit(b));
    match a {
        LitView::Str(x) => {
            let a1 = tokens_text(x) + u;
            lemma_append(word(0), tokens_text(x), u);
            let b1 = tokens_text(b->Str_0) + v;
            lemma_append(word(0), tokens_text(b->Str_0), v);
            lemma_spelled_word(0, 0, a1, b1);
            lemma_spelled_text(x, b->Str_0, u, v);
        },
        LitView::Int(x) => {
            let a1 = tokens_lit_int(x) + u;
            lemma_append(word(1), tokens_lit_int(x), u);
            let b1 = tokens_lit_int(b->Int_0) + v;
            lemma_append(word(1), tokens_lit_int(b->Int_0), v);
            lemma_spelled_word(1, 1, a1, b1);
            lemma_spelled_lit_int(x, b->Int_0, u, v);
        },
        LitView::Bool(x) => {
            let a1 = word_of_bool(x) + u;
            lemma_append(word(2), word_of_bool(x), u);
            let b1 = word_of_bool(b->Bool_0) + v;
            lemma_append(word(2), word_of_bool(b->Bool_0), v);
            lemma_spelled_word(2, 2, a1, b1);
            lemma_spelled_bool(x, b->Bool_0, u, v);
        },
        LitView::Bytes(x) => {
            let a1 = tokens_bytes(x) + u;
            lemma_append(word(3), tokens_bytes(x), u);
            let b1 = tokens_bytes(b->Bytes_0) + v;
            lemma_append(word(3), tokens_bytes(b->Bytes_0), v);
            lemma_spelled_word(3, 3, a1, b1);
            lemma_spelled_bytes(x, b->Bytes_0, u, v);
        },
        LitView::Enum(x) => {
            let a1 = tokens_lit_enum(*x) + u;
            lemma_append(word(4), tokens_lit_enum(*x), u);
            let b1 = tokens_lit_enum(*b->Enum_0) + v;
            lemma_append(word(4), tokens_lit_enum(*b->Enum_0), v);
            lemma_spelled_word(4, 4, a1, b1);
            lemma_spelled_lit_enum(*x, *b->Enum_0, u, v);
        },
    }
}

pub(crate) proof fn lemma_spelled_literal(
    a: LiteralView,
    b: LiteralView,
    u: Seq<Token>,
    v: Seq<Token>,
)
    requires
        tokens_literal(a) + u == tokens_literal(b) + v,
    ensures
        same_literal(a, b),
        u == v,
    decreases a, 1nat,
{
    lemma_tokens_literal(a);
    lemma_tokens_literal(b);
    lemma_same_literal(a, b);
    lemma_literal_parts(a);
    let a1 = word(a.style.rank_spec()) + u;
    lemma_append(tokens_lit(a.value), word(a.style.rank_spec()), u);
    let b1 = word(b.style.rank_spec()) + v;
    lemma_append(tokens_lit(b.value), word(b.style.rank_spec()), v);
    lemma_spelled_lit(a.value, b.value, a1, b1);
    lemma_spelled_word(a.style.rank_spec(), b.style.rank_spec(), u, v);
}

pub(crate) proof fn lemma_spelled_param(a: ParamView, b: ParamView, u: Seq<Token>, v: Seq<Token>)
    requires
        tokens_param(a) + u == tokens_param(b) + v,
    ensures
        same_param(a, b),
        u == v,
    decreases a, 1nat,
{
    lemma_tokens_param(a);
    lemma_tokens_param(b);
    lemma_same_param(a, b);
    lemma_param_parts(a);
    let a3 = tokens_type(a.ty) + u;
    lemma_append(
        (match a.name { Some(x) => word(1) + tokens_text(x), None => word(0) })
            + word(a.kind.rank_spec())
            + word_of_bool(a.required),
        tokens_type(a.ty),
        u,
    );
    let a2 = word_of_bool(a.required) + a3;
    lemma_append(
        (match a.name { Some(x) => word(1) + tokens_text(x), None => word(0) })
            + word(a.kind.rank_spec()),
        word_of_bool(a.required),
        a3,
    );
    let a1 = word(a.kind.rank_spec()) + a2;
    lemma_append(
        (match a.name { Some(x) => word(1) + tokens_text(x), None => word(0) }),
        word(a.kind.rank_spec()),
        a2,
    );
    let b3 = tokens_type(b.ty) + v;
    lemma_append(
        (match b.name { Some(x) => word(1) + tokens_text(x), None => word(0) })
            + word(b.kind.rank_spec())
            + word_of_bool(b.required),
        tokens_type(b.ty),
        v,
    );
    let b2 = word_of_bool(b.required) + b3;
    lemma_append(
        (match b.name { Some(x) => word(1) + tokens_text(x), None => word(0) })
            + word(b.kind.rank_spec()),
        word_of_bool(b.required),
        b3,
    );
    let b1 = word(b.kind.rank_spec()) + b2;
    lemma_append(
        (match b.name { Some(x) => word(1) + tokens_text(x), None => word(0) }),
        word(b.kind.rank_spec()),
        b2,
    );
    match (a.name, b.name) {
        (Some(x), Some(y)) => {
            lemma_append(word(1), tokens_text(x), a1);
            lemma_append(word(1), tokens_text(y), b1);
            lemma_spelled_word(1, 1, tokens_text(x) + a1, tokens_text(y) + b1);
            lemma_spelled_text(x, y, a1, b1);
        },
        (Some(x), None) => {
            lemma_append(word(1), tokens_text(x), a1);
            lemma_spelled_word(1, 0, tokens_text(x) + a1, b1);
        },
        (None, Some(y)) => {
            lemma_append(word(1), tokens_text(y), b1);
            lemma_spelled_word(0, 1, a1, tokens_text(y) + b1);
        },
        (None, None) => {
            lemma_spelled_word(0, 0, a1, b1);
        },
    }
    lemma_spelled_word(a.kind.rank_spec(), b.kind.rank_spec(), a2, b2);
    lemma_spelled_bool(a.required, b.required, a3, b3);
    lemma_spelled_type(a.ty, b.ty, u, v);
}

spec fn tag_params(m: ParamsView) -> u64 {
    match m {
        ParamsView::List(_) => 0,
        ParamsView::Ellipsis => 1,
        ParamsView::Materialization => 2,
        ParamsView::ParamSpec(_, _) => 3,
    }
}

proof fn lemma_tag_params(m: ParamsView)
    ensures
        tokens_params(m).len() > 0,
        tokens_params(m)[0] == (0u8, tag_params(m)),
{
    lemma_tokens_params(m);
}

pub(crate) proof fn lemma_spelled_params(a: ParamsView, b: ParamsView, u: Seq<Token>, v: Seq<Token>)
    requires
        tokens_params(a) + u == tokens_params(b) + v,
    ensures
        same_params(a, b),
        u == v,
    decreases a, 1nat,
{
    lemma_tokens_params(a);
    lemma_tokens_params(b);
    lemma_same_params(a, b);
    lemma_params_parts(a);
    lemma_tag_params(a);
    lemma_tag_params(b);
    assert((tokens_params(a) + u)[0] == (0u8, tag_params(a)));
    assert((tokens_params(b) + v)[0] == (0u8, tag_params(b)));
    assert(tag_params(a) == tag_params(b));
    match a {
        ParamsView::List(x) => {
            let a1 = tokens_param_seq(x) + u;
            lemma_append(word(0), tokens_param_seq(x), u);
            let b1 = tokens_param_seq(b->List_0) + v;
            lemma_append(word(0), tokens_param_seq(b->List_0), v);
            lemma_spelled_word(0, 0, a1, b1);
            lemma_spelled_param_seq(x, b->List_0, u, v);
        },
        ParamsView::Ellipsis => {
            lemma_spelled_word(1, 1, u, v);
        },
        ParamsView::Materialization => {
            lemma_spelled_word(2, 2, u, v);
        },
        ParamsView::ParamSpec(x, x2) => {
            let a2 = tokens_type(x2) + u;
            lemma_append(word(3) + tokens_param_seq(x), tokens_type(x2), u);
            let a1 = tokens_param_seq(x) + a2;
            lemma_append(word(3), tokens_param_seq(x), a2);
            let b2 = tokens_type(b->ParamSpec_1) + v;
            lemma_append(
                word(3) + tokens_param_seq(b->ParamSpec_0),
                tokens_type(b->ParamSpec_1),
                v,
            );
            let b1 = tokens_param_seq(b->ParamSpec_0) + b2;
            lemma_append(word(3), tokens_param_seq(b->ParamSpec_0), b2);
            lemma_spelled_word(3, 3, a1, b1);
            lemma_spelled_param_seq(x, b->ParamSpec_0, a2, b2);
            lemma_spelled_type(x2, b->ParamSpec_1, u, v);
        },
    }
}

pub(crate) proof fn lemma_spelled_callable(
    a: CallableView,
    b: CallableView,
    u: Seq<Token>,
    v: Seq<Token>,
)
    requires
        tokens_callable(a) + u == tokens_callable(b) + v,
    ensures
        same_callable(a, b),
        u == v,
    decreases a, 1nat,
{
    lemma_tokens_callable(a);
    lemma_tokens_callable(b);
    lemma_same_callable(a, b);
    lemma_callable_parts(a);
    let a1 = tokens_type(a.ret) + u;
    lemma_append(tokens_params(a.params), tokens_type(a.ret), u);
    let b1 = tokens_type(b.ret) + v;
    lemma_append(tokens_params(b.params), tokens_type(b.ret), v);
    lemma_spelled_params(a.params, b.params, a1, b1);
    lemma_spelled_type(a.ret, b.ret, u, v);
}

pub(crate) proof fn lemma_spelled_property_metadata(
    a: PropertyMetadataView,
    b: PropertyMetadataView,
    u: Seq<Token>,
    v: Seq<Token>,
)
    requires
        tokens_property_metadata(a) + u == tokens_property_metadata(b) + v,
    ensures
        same_property_metadata(a, b),
        u == v,
    decreases a, 1nat,
{
    lemma_tokens_property_metadata(a);
    lemma_tokens_property_metadata(b);
    lemma_same_property_metadata(a, b);
    lemma_property_metadata_parts(a);
    let a1 = tokens_type(a.getter) + u;
    lemma_append(word(a.role.rank_spec()), tokens_type(a.getter), u);
    let b1 = tokens_type(b.getter) + v;
    lemma_append(word(b.role.rank_spec()), tokens_type(b.getter), v);
    lemma_spelled_word(a.role.rank_spec(), b.role.rank_spec(), a1, b1);
    lemma_spelled_type(a.getter, b.getter, u, v);
}

pub(crate) proof fn lemma_spelled_func_flags(
    a: FuncFlagsView,
    b: FuncFlagsView,
    u: Seq<Token>,
    v: Seq<Token>,
)
    requires
        tokens_func_flags(a) + u == tokens_func_flags(b) + v,
    ensures
        same_func_flags(a, b),
        u == v,
    decreases a, 1nat,
{
    lemma_tokens_func_flags(a);
    lemma_tokens_func_flags(b);
    lemma_same_func_flags(a, b);
    lemma_func_flags_parts(a);
    let a9 = (match a.dataclass_transform_metadata {
        Some(x) => word(1) + tokens_transform(x),
        None => word(0),
    })
        + u;
    lemma_append(
        word_of_bool(a.is_overload)
            + word_of_bool(a.is_cached_property)
            + word_of_bool(a.is_abstract_method)
            + word_of_bool(a.is_override)
            + word_of_bool(a.is_assert_shape)
            + word_of_bool(a.has_enum_member_decoration)
            + word_of_bool(a.has_final_decoration)
            + (match a.property_metadata {
                Some(x) => word(1) + tokens_property_metadata(x),
                None => word(0),
            })
            + (match a.deprecation { Some(x) => word(1) + tokens_deprecation(x), None => word(0) }),
        (match a.dataclass_transform_metadata {
            Some(x) => word(1) + tokens_transform(x),
            None => word(0),
        }),
        u,
    );
    let a8 = (match a.deprecation { Some(x) => word(1) + tokens_deprecation(x), None => word(0) })
        + a9;
    lemma_append(
        word_of_bool(a.is_overload)
            + word_of_bool(a.is_cached_property)
            + word_of_bool(a.is_abstract_method)
            + word_of_bool(a.is_override)
            + word_of_bool(a.is_assert_shape)
            + word_of_bool(a.has_enum_member_decoration)
            + word_of_bool(a.has_final_decoration)
            + (match a.property_metadata {
                Some(x) => word(1) + tokens_property_metadata(x),
                None => word(0),
            }),
        (match a.deprecation { Some(x) => word(1) + tokens_deprecation(x), None => word(0) }),
        a9,
    );
    let a7 = (match a.property_metadata {
        Some(x) => word(1) + tokens_property_metadata(x),
        None => word(0),
    })
        + a8;
    lemma_append(
        word_of_bool(a.is_overload)
            + word_of_bool(a.is_cached_property)
            + word_of_bool(a.is_abstract_method)
            + word_of_bool(a.is_override)
            + word_of_bool(a.is_assert_shape)
            + word_of_bool(a.has_enum_member_decoration)
            + word_of_bool(a.has_final_decoration),
        (match a.property_metadata {
            Some(x) => word(1) + tokens_property_metadata(x),
            None => word(0),
        }),
        a8,
    );
    let a6 = word_of_bool(a.has_final_decoration) + a7;
    lemma_append(
        word_of_bool(a.is_overload)
            + word_of_bool(a.is_cached_property)
            + word_of_bool(a.is_abstract_method)
            + word_of_bool(a.is_override)
            + word_of_bool(a.is_assert_shape)
            + word_of_bool(a.has_enum_member_decoration),
        word_of_bool(a.has_final_decoration),
        a7,
    );
    let a5 = word_of_bool(a.has_enum_member_decoration) + a6;
    lemma_append(
        word_of_bool(a.is_overload)
            + word_of_bool(a.is_cached_property)
            + word_of_bool(a.is_abstract_method)
            + word_of_bool(a.is_override)
            + word_of_bool(a.is_assert_shape),
        word_of_bool(a.has_enum_member_decoration),
        a6,
    );
    let a4 = word_of_bool(a.is_assert_shape) + a5;
    lemma_append(
        word_of_bool(a.is_overload)
            + word_of_bool(a.is_cached_property)
            + word_of_bool(a.is_abstract_method)
            + word_of_bool(a.is_override),
        word_of_bool(a.is_assert_shape),
        a5,
    );
    let a3 = word_of_bool(a.is_override) + a4;
    lemma_append(
        word_of_bool(a.is_overload)
            + word_of_bool(a.is_cached_property)
            + word_of_bool(a.is_abstract_method),
        word_of_bool(a.is_override),
        a4,
    );
    let a2 = word_of_bool(a.is_abstract_method) + a3;
    lemma_append(
        word_of_bool(a.is_overload) + word_of_bool(a.is_cached_property),
        word_of_bool(a.is_abstract_method),
        a3,
    );
    let a1 = word_of_bool(a.is_cached_property) + a2;
    lemma_append(word_of_bool(a.is_overload), word_of_bool(a.is_cached_property), a2);
    let b9 = (match b.dataclass_transform_metadata {
        Some(x) => word(1) + tokens_transform(x),
        None => word(0),
    })
        + v;
    lemma_append(
        word_of_bool(b.is_overload)
            + word_of_bool(b.is_cached_property)
            + word_of_bool(b.is_abstract_method)
            + word_of_bool(b.is_override)
            + word_of_bool(b.is_assert_shape)
            + word_of_bool(b.has_enum_member_decoration)
            + word_of_bool(b.has_final_decoration)
            + (match b.property_metadata {
                Some(x) => word(1) + tokens_property_metadata(x),
                None => word(0),
            })
            + (match b.deprecation { Some(x) => word(1) + tokens_deprecation(x), None => word(0) }),
        (match b.dataclass_transform_metadata {
            Some(x) => word(1) + tokens_transform(x),
            None => word(0),
        }),
        v,
    );
    let b8 = (match b.deprecation { Some(x) => word(1) + tokens_deprecation(x), None => word(0) })
        + b9;
    lemma_append(
        word_of_bool(b.is_overload)
            + word_of_bool(b.is_cached_property)
            + word_of_bool(b.is_abstract_method)
            + word_of_bool(b.is_override)
            + word_of_bool(b.is_assert_shape)
            + word_of_bool(b.has_enum_member_decoration)
            + word_of_bool(b.has_final_decoration)
            + (match b.property_metadata {
                Some(x) => word(1) + tokens_property_metadata(x),
                None => word(0),
            }),
        (match b.deprecation { Some(x) => word(1) + tokens_deprecation(x), None => word(0) }),
        b9,
    );
    let b7 = (match b.property_metadata {
        Some(x) => word(1) + tokens_property_metadata(x),
        None => word(0),
    })
        + b8;
    lemma_append(
        word_of_bool(b.is_overload)
            + word_of_bool(b.is_cached_property)
            + word_of_bool(b.is_abstract_method)
            + word_of_bool(b.is_override)
            + word_of_bool(b.is_assert_shape)
            + word_of_bool(b.has_enum_member_decoration)
            + word_of_bool(b.has_final_decoration),
        (match b.property_metadata {
            Some(x) => word(1) + tokens_property_metadata(x),
            None => word(0),
        }),
        b8,
    );
    let b6 = word_of_bool(b.has_final_decoration) + b7;
    lemma_append(
        word_of_bool(b.is_overload)
            + word_of_bool(b.is_cached_property)
            + word_of_bool(b.is_abstract_method)
            + word_of_bool(b.is_override)
            + word_of_bool(b.is_assert_shape)
            + word_of_bool(b.has_enum_member_decoration),
        word_of_bool(b.has_final_decoration),
        b7,
    );
    let b5 = word_of_bool(b.has_enum_member_decoration) + b6;
    lemma_append(
        word_of_bool(b.is_overload)
            + word_of_bool(b.is_cached_property)
            + word_of_bool(b.is_abstract_method)
            + word_of_bool(b.is_override)
            + word_of_bool(b.is_assert_shape),
        word_of_bool(b.has_enum_member_decoration),
        b6,
    );
    let b4 = word_of_bool(b.is_assert_shape) + b5;
    lemma_append(
        word_of_bool(b.is_overload)
            + word_of_bool(b.is_cached_property)
            + word_of_bool(b.is_abstract_method)
            + word_of_bool(b.is_override),
        word_of_bool(b.is_assert_shape),
        b5,
    );
    let b3 = word_of_bool(b.is_override) + b4;
    lemma_append(
        word_of_bool(b.is_overload)
            + word_of_bool(b.is_cached_property)
            + word_of_bool(b.is_abstract_method),
        word_of_bool(b.is_override),
        b4,
    );
    let b2 = word_of_bool(b.is_abstract_method) + b3;
    lemma_append(
        word_of_bool(b.is_overload) + word_of_bool(b.is_cached_property),
        word_of_bool(b.is_abstract_method),
        b3,
    );
    let b1 = word_of_bool(b.is_cached_property) + b2;
    lemma_append(word_of_bool(b.is_overload), word_of_bool(b.is_cached_property), b2);
    lemma_spelled_bool(a.is_overload, b.is_overload, a1, b1);
    lemma_spelled_bool(a.is_cached_property, b.is_cached_property, a2, b2);
    lemma_spelled_bool(a.is_abstract_method, b.is_abstract_method, a3, b3);
    lemma_spelled_bool(a.is_override, b.is_override, a4, b4);
    lemma_spelled_bool(a.is_assert_shape, b.is_assert_shape, a5, b5);
    lemma_spelled_bool(a.has_enum_member_decoration, b.has_enum_member_decoration, a6, b6);
    lemma_spelled_bool(a.has_final_decoration, b.has_final_decoration, a7, b7);
    match (a.property_metadata, b.property_metadata) {
        (Some(x), Some(y)) => {
            lemma_append(word(1), tokens_property_metadata(x), a8);
            lemma_append(word(1), tokens_property_metadata(y), b8);
            lemma_spelled_word(
                1,
                1,
                tokens_property_metadata(x) + a8,
                tokens_property_metadata(y) + b8,
            );
            lemma_spelled_property_metadata(x, y, a8, b8);
        },
        (Some(x), None) => {
            lemma_append(word(1), tokens_property_metadata(x), a8);
            lemma_spelled_word(1, 0, tokens_property_metadata(x) + a8, b8);
        },
        (None, Some(y)) => {
            lemma_append(word(1), tokens_property_metadata(y), b8);
            lemma_spelled_word(0, 1, a8, tokens_property_metadata(y) + b8);
        },
        (None, None) => {
            lemma_spelled_word(0, 0, a8, b8);
        },
    }
    match (a.deprecation, b.deprecation) {
        (Some(x), Some(y)) => {
            lemma_append(word(1), tokens_deprecation(x), a9);
            lemma_append(word(1), tokens_deprecation(y), b9);
            lemma_spelled_word(1, 1, tokens_deprecation(x) + a9, tokens_deprecation(y) + b9);
            lemma_spelled_deprecation(x, y, a9, b9);
        },
        (Some(x), None) => {
            lemma_append(word(1), tokens_deprecation(x), a9);
            lemma_spelled_word(1, 0, tokens_deprecation(x) + a9, b9);
        },
        (None, Some(y)) => {
            lemma_append(word(1), tokens_deprecation(y), b9);
            lemma_spelled_word(0, 1, a9, tokens_deprecation(y) + b9);
        },
        (None, None) => {
            lemma_spelled_word(0, 0, a9, b9);
        },
    }
    match (a.dataclass_transform_metadata, b.dataclass_transform_metadata) {
        (Some(x), Some(y)) => {
            lemma_append(word(1), tokens_transform(x), u);
            lemma_append(word(1), tokens_transform(y), v);
            lemma_spelled_word(1, 1, tokens_transform(x) + u, tokens_transform(y) + v);
            lemma_spelled_transform(x, y, u, v);
        },
        (Some(x), None) => {
            lemma_append(word(1), tokens_transform(x), u);
            lemma_spelled_word(1, 0, tokens_transform(x) + u, v);
        },
        (None, Some(y)) => {
            lemma_append(word(1), tokens_transform(y), v);
            lemma_spelled_word(0, 1, u, tokens_transform(y) + v);
        },
        (None, None) => {
            lemma_spelled_word(0, 0, u, v);
        },
    }
}

pub(crate) proof fn lemma_spelled_func_metadata(
    a: FuncMetadataView,
    b: FuncMetadataView,
    u: Seq<Token>,
    v: Seq<Token>,
)
    requires
        tokens_func_metadata(a) + u == tokens_func_metadata(b) + v,
    ensures
        same_func_metadata(a, b),
        u == v,
    decreases a, 1nat,
{
    lemma_tokens_func_metadata(a);
    lemma_tokens_func_metadata(b);
    lemma_same_func_metadata(a, b);
    lemma_func_metadata_parts(a);
    let a1 = tokens_func_flags(a.flags) + u;
    lemma_append(tokens_function_kind(a.kind), tokens_func_flags(a.flags), u);
    let b1 = tokens_func_flags(b.flags) + v;
    lemma_append(tokens_function_kind(b.kind), tokens_func_flags(b.flags), v);
    lemma_spelled_function_kind(a.kind, b.kind, a1, b1);
    lemma_spelled_func_flags(a.flags, b.flags, u, v);
}

pub(crate) proof fn lemma_spelled_function(
    a: FunctionView,
    b: FunctionView,
    u: Seq<Token>,
    v: Seq<Token>,
)
    requires
        tokens_function(a) + u == tokens_function(b) + v,
    ensures
        same_function(a, b),
        u == v,
    decreases a, 1nat,
{
    lemma_tokens_function(a);
    lemma_tokens_function(b);
    lemma_same_function(a, b);
    lemma_function_parts(a);
    let a1 = tokens_func_metadata(a.metadata) + u;
    lemma_append(tokens_callable(a.signature), tokens_func_metadata(a.metadata), u);
    let b1 = tokens_func_metadata(b.metadata) + v;
    lemma_append(tokens_callable(b.signature), tokens_func_metadata(b.metadata), v);
    lemma_spelled_callable(a.signature, b.signature, a1, b1);
    lemma_spelled_func_metadata(a.metadata, b.metadata, u, v);
}

pub(crate) proof fn lemma_spelled_type_alias(
    a: TypeAliasView,
    b: TypeAliasView,
    u: Seq<Token>,
    v: Seq<Token>,
)
    requires
        tokens_type_alias(a) + u == tokens_type_alias(b) + v,
    ensures
        same_type_alias(a, b),
        u == v,
    decreases a, 1nat,
{
    lemma_tokens_type_alias(a);
    lemma_tokens_type_alias(b);
    lemma_same_type_alias(a, b);
    lemma_type_alias_parts(a);
    let a1 = tokens_type(a.ty) + u;
    lemma_append(tokens_text(a.name), tokens_type(a.ty), u);
    let b1 = tokens_type(b.ty) + v;
    lemma_append(tokens_text(b.name), tokens_type(b.ty), v);
    lemma_spelled_text(a.name, b.name, a1, b1);
    lemma_spelled_type(a.ty, b.ty, u, v);
}

pub(crate) proof fn lemma_spelled_type_alias_ref(
    a: TypeAliasRefView,
    b: TypeAliasRefView,
    u: Seq<Token>,
    v: Seq<Token>,
)
    requires
        tokens_type_alias_ref(a) + u == tokens_type_alias_ref(b) + v,
    ensures
        same_type_alias_ref(a, b),
        u == v,
    decreases a, 1nat,
{
    lemma_tokens_type_alias_ref(a);
    lemma_tokens_type_alias_ref(b);
    lemma_same_type_alias_ref(a, b);
    lemma_type_alias_ref_parts(a);
    let a1 = (match a.args { Some(x) => word(1) + tokens_targs(x), None => word(0) }) + u;
    lemma_append(
        tokens_text(a.name),
        (match a.args { Some(x) => word(1) + tokens_targs(x), None => word(0) }),
        u,
    );
    let b1 = (match b.args { Some(x) => word(1) + tokens_targs(x), None => word(0) }) + v;
    lemma_append(
        tokens_text(b.name),
        (match b.args { Some(x) => word(1) + tokens_targs(x), None => word(0) }),
        v,
    );
    lemma_spelled_text(a.name, b.name, a1, b1);
    match (a.args, b.args) {
        (Some(x), Some(y)) => {
            lemma_append(word(1), tokens_targs(x), u);
            lemma_append(word(1), tokens_targs(y), v);
            lemma_spelled_word(1, 1, tokens_targs(x) + u, tokens_targs(y) + v);
            lemma_spelled_targs(x, y, u, v);
        },
        (Some(x), None) => {
            lemma_append(word(1), tokens_targs(x), u);
            lemma_spelled_word(1, 0, tokens_targs(x) + u, v);
        },
        (None, Some(y)) => {
            lemma_append(word(1), tokens_targs(y), v);
            lemma_spelled_word(0, 1, u, tokens_targs(y) + v);
        },
        (None, None) => {
            lemma_spelled_word(0, 0, u, v);
        },
    }
}

spec fn tag_type_alias_data(m: TypeAliasDataView) -> u64 {
    match m {
        TypeAliasDataView::Value(_) => 0,
        TypeAliasDataView::Ref(_) => 1,
    }
}

proof fn lemma_tag_type_alias_data(m: TypeAliasDataView)
    ensures
        tokens_type_alias_data(m).len() > 0,
        tokens_type_alias_data(m)[0] == (0u8, tag_type_alias_data(m)),
{
    lemma_tokens_type_alias_data(m);
}

pub(crate) proof fn lemma_spelled_type_alias_data(
    a: TypeAliasDataView,
    b: TypeAliasDataView,
    u: Seq<Token>,
    v: Seq<Token>,
)
    requires
        tokens_type_alias_data(a) + u == tokens_type_alias_data(b) + v,
    ensures
        same_type_alias_data(a, b),
        u == v,
    decreases a, 1nat,
{
    lemma_tokens_type_alias_data(a);
    lemma_tokens_type_alias_data(b);
    lemma_same_type_alias_data(a, b);
    lemma_type_alias_data_parts(a);
    lemma_tag_type_alias_data(a);
    lemma_tag_type_alias_data(b);
    assert((tokens_type_alias_data(a) + u)[0] == (0u8, tag_type_alias_data(a)));
    assert((tokens_type_alias_data(b) + v)[0] == (0u8, tag_type_alias_data(b)));
    assert(tag_type_alias_data(a) == tag_type_alias_data(b));
    match a {
        TypeAliasDataView::Value(x) => {
            let a1 = tokens_type_alias(x) + u;
            lemma_append(word(0), tokens_type_alias(x), u);
            let b1 = tokens_type_alias(b->Value_0) + v;
            lemma_append(word(0), tokens_type_alias(b->Value_0), v);
            lemma_spelled_word(0, 0, a1, b1);
            lemma_spelled_type_alias(x, b->Value_0, u, v);
        },
        TypeAliasDataView::Ref(x) => {
            let a1 = tokens_type_alias_ref(x) + u;
            lemma_append(word(1), tokens_type_alias_ref(x), u);
            let b1 = tokens_type_alias_ref(b->Ref_0) + v;
            lemma_append(word(1), tokens_type_alias_ref(b->Ref_0), v);
            lemma_spelled_word(1, 1, a1, b1);
            lemma_spelled_type_alias_ref(x, b->Ref_0, u, v);
        },
    }
}

spec fn tag_forallable(m: ForallableView) -> u64 {
    match m {
        ForallableView::TypeAlias(_) => 0,
        ForallableView::Function(_) => 1,
        ForallableView::Callable(_) => 2,
    }
}

proof fn lemma_tag_forallable(m: ForallableView)
    ensures
        tokens_forallable(m).len() > 0,
        tokens_forallable(m)[0] == (0u8, tag_forallable(m)),
{
    lemma_tokens_forallable(m);
}

pub(crate) proof fn lemma_spelled_forallable(
    a: ForallableView,
    b: ForallableView,
    u: Seq<Token>,
    v: Seq<Token>,
)
    requires
        tokens_forallable(a) + u == tokens_forallable(b) + v,
    ensures
        same_forallable(a, b),
        u == v,
    decreases a, 1nat,
{
    lemma_tokens_forallable(a);
    lemma_tokens_forallable(b);
    lemma_same_forallable(a, b);
    lemma_forallable_parts(a);
    lemma_tag_forallable(a);
    lemma_tag_forallable(b);
    assert((tokens_forallable(a) + u)[0] == (0u8, tag_forallable(a)));
    assert((tokens_forallable(b) + v)[0] == (0u8, tag_forallable(b)));
    assert(tag_forallable(a) == tag_forallable(b));
    match a {
        ForallableView::TypeAlias(x) => {
            let a1 = tokens_type_alias_data(x) + u;
            lemma_append(word(0), tokens_type_alias_data(x), u);
            let b1 = tokens_type_alias_data(b->TypeAlias_0) + v;
            lemma_append(word(0), tokens_type_alias_data(b->TypeAlias_0), v);
            lemma_spelled_word(0, 0, a1, b1);
            lemma_spelled_type_alias_data(x, b->TypeAlias_0, u, v);
        },
        ForallableView::Function(x) => {
            let a1 = tokens_function(x) + u;
            lemma_append(word(1), tokens_function(x), u);
            let b1 = tokens_function(b->Function_0) + v;
            lemma_append(word(1), tokens_function(b->Function_0), v);
            lemma_spelled_word(1, 1, a1, b1);
            lemma_spelled_function(x, b->Function_0, u, v);
        },
        ForallableView::Callable(x) => {
            let a1 = tokens_callable(x) + u;
            lemma_append(word(2), tokens_callable(x), u);
            let b1 = tokens_callable(b->Callable_0) + v;
            lemma_append(word(2), tokens_callable(b->Callable_0), v);
            lemma_spelled_word(2, 2, a1, b1);
            lemma_spelled_callable(x, b->Callable_0, u, v);
        },
    }
}

spec fn tag_overload_type(m: OverloadTypeView) -> u64 {
    match m {
        OverloadTypeView::Function(_) => 0,
        OverloadTypeView::Forall(_) => 1,
    }
}

proof fn lemma_tag_overload_type(m: OverloadTypeView)
    ensures
        tokens_overload_type(m).len() > 0,
        tokens_overload_type(m)[0] == (0u8, tag_overload_type(m)),
{
    lemma_tokens_overload_type(m);
}

pub(crate) proof fn lemma_spelled_overload_type(
    a: OverloadTypeView,
    b: OverloadTypeView,
    u: Seq<Token>,
    v: Seq<Token>,
)
    requires
        tokens_overload_type(a) + u == tokens_overload_type(b) + v,
    ensures
        same_overload_type(a, b),
        u == v,
    decreases a, 1nat,
{
    lemma_tokens_overload_type(a);
    lemma_tokens_overload_type(b);
    lemma_same_overload_type(a, b);
    lemma_overload_type_parts(a);
    lemma_tag_overload_type(a);
    lemma_tag_overload_type(b);
    assert((tokens_overload_type(a) + u)[0] == (0u8, tag_overload_type(a)));
    assert((tokens_overload_type(b) + v)[0] == (0u8, tag_overload_type(b)));
    assert(tag_overload_type(a) == tag_overload_type(b));
    match a {
        OverloadTypeView::Function(x) => {
            let a1 = tokens_function(x) + u;
            lemma_append(word(0), tokens_function(x), u);
            let b1 = tokens_function(b->Function_0) + v;
            lemma_append(word(0), tokens_function(b->Function_0), v);
            lemma_spelled_word(0, 0, a1, b1);
            lemma_spelled_function(x, b->Function_0, u, v);
        },
        OverloadTypeView::Forall(x) => {
            let a1 = tokens_forall_function(x) + u;
            lemma_append(word(1), tokens_forall_function(x), u);
            let b1 = tokens_forall_function(b->Forall_0) + v;
            lemma_append(word(1), tokens_forall_function(b->Forall_0), v);
            lemma_spelled_word(1, 1, a1, b1);
            lemma_spelled_forall_function(x, b->Forall_0, u, v);
        },
    }
}

pub(crate) proof fn lemma_spelled_overload(
    a: OverloadView,
    b: OverloadView,
    u: Seq<Token>,
    v: Seq<Token>,
)
    requires
        tokens_overload(a) + u == tokens_overload(b) + v,
    ensures
        same_overload(a, b),
        u == v,
    decreases a, 1nat,
{
    lemma_tokens_overload(a);
    lemma_tokens_overload(b);
    lemma_same_overload(a, b);
    lemma_overload_parts(a);
    let a1 = tokens_func_metadata(*a.metadata) + u;
    lemma_append(tokens_overloads(a.signatures), tokens_func_metadata(*a.metadata), u);
    let b1 = tokens_func_metadata(*b.metadata) + v;
    lemma_append(tokens_overloads(b.signatures), tokens_func_metadata(*b.metadata), v);
    lemma_spelled_overloads(a.signatures, b.signatures, a1, b1);
    lemma_spelled_func_metadata(*a.metadata, *b.metadata, u, v);
}

spec fn tag_bound_method_type(m: BoundMethodTypeView) -> u64 {
    match m {
        BoundMethodTypeView::Function(_) => 0,
        BoundMethodTypeView::Forall(_) => 1,
        BoundMethodTypeView::Overload(_) => 2,
    }
}

proof fn lemma_tag_bound_method_type(m: BoundMethodTypeView)
    ensures
        tokens_bound_method_type(m).len() > 0,
        tokens_bound_method_type(m)[0] == (0u8, tag_bound_method_type(m)),
{
    lemma_tokens_bound_method_type(m);
}

pub(crate) proof fn lemma_spelled_bound_method_type(
    a: BoundMethodTypeView,
    b: BoundMethodTypeView,
    u: Seq<Token>,
    v: Seq<Token>,
)
    requires
        tokens_bound_method_type(a) + u == tokens_bound_method_type(b) + v,
    ensures
        same_bound_method_type(a, b),
        u == v,
    decreases a, 1nat,
{
    lemma_tokens_bound_method_type(a);
    lemma_tokens_bound_method_type(b);
    lemma_same_bound_method_type(a, b);
    lemma_bound_method_type_parts(a);
    lemma_tag_bound_method_type(a);
    lemma_tag_bound_method_type(b);
    assert((tokens_bound_method_type(a) + u)[0] == (0u8, tag_bound_method_type(a)));
    assert((tokens_bound_method_type(b) + v)[0] == (0u8, tag_bound_method_type(b)));
    assert(tag_bound_method_type(a) == tag_bound_method_type(b));
    match a {
        BoundMethodTypeView::Function(x) => {
            let a1 = tokens_function(x) + u;
            lemma_append(word(0), tokens_function(x), u);
            let b1 = tokens_function(b->Function_0) + v;
            lemma_append(word(0), tokens_function(b->Function_0), v);
            lemma_spelled_word(0, 0, a1, b1);
            lemma_spelled_function(x, b->Function_0, u, v);
        },
        BoundMethodTypeView::Forall(x) => {
            let a1 = tokens_forall_function(x) + u;
            lemma_append(word(1), tokens_forall_function(x), u);
            let b1 = tokens_forall_function(b->Forall_0) + v;
            lemma_append(word(1), tokens_forall_function(b->Forall_0), v);
            lemma_spelled_word(1, 1, a1, b1);
            lemma_spelled_forall_function(x, b->Forall_0, u, v);
        },
        BoundMethodTypeView::Overload(x) => {
            let a1 = tokens_overload(x) + u;
            lemma_append(word(2), tokens_overload(x), u);
            let b1 = tokens_overload(b->Overload_0) + v;
            lemma_append(word(2), tokens_overload(b->Overload_0), v);
            lemma_spelled_word(2, 2, a1, b1);
            lemma_spelled_overload(x, b->Overload_0, u, v);
        },
    }
}

pub(crate) proof fn lemma_spelled_bound_method(
    a: BoundMethodView,
    b: BoundMethodView,
    u: Seq<Token>,
    v: Seq<Token>,
)
    requires
        tokens_bound_method(a) + u == tokens_bound_method(b) + v,
    ensures
        same_bound_method(a, b),
        u == v,
    decreases a, 1nat,
{
    lemma_tokens_bound_method(a);
    lemma_tokens_bound_method(b);
    lemma_same_bound_method(a, b);
    lemma_bound_method_parts(a);
    let a1 = tokens_bound_method_type(a.func) + u;
    lemma_append(tokens_type(a.obj), tokens_bound_method_type(a.func), u);
    let b1 = tokens_bound_method_type(b.func) + v;
    lemma_append(tokens_type(b.obj), tokens_bound_method_type(b.func), v);
    lemma_spelled_type(a.obj, b.obj, a1, b1);
    lemma_spelled_bound_method_type(a.func, b.func, u, v);
}

pub(crate) proof fn lemma_spelled_union(a: UnionView, b: UnionView, u: Seq<Token>, v: Seq<Token>)
    requires
        tokens_union(a) + u == tokens_union(b) + v,
    ensures
        same_union(a, b),
        u == v,
    decreases a, 1nat,
{
    lemma_tokens_union(a);
    lemma_tokens_union(b);
    lemma_same_union(a, b);
    lemma_union_parts(a);
    lemma_spelled_types(a.members, b.members, u, v);
}

spec fn tag_typed_dict(m: TypedDictView) -> u64 {
    match m {
        TypedDictView::TypedDict(_) => 0,
        TypedDictView::Anonymous(_) => 1,
    }
}

proof fn lemma_tag_typed_dict(m: TypedDictView)
    ensures
        tokens_typed_dict(m).len() > 0,
        tokens_typed_dict(m)[0] == (0u8, tag_typed_dict(m)),
{
    lemma_tokens_typed_dict(m);
}

pub(crate) proof fn lemma_spelled_typed_dict(
    a: TypedDictView,
    b: TypedDictView,
    u: Seq<Token>,
    v: Seq<Token>,
)
    requires
        tokens_typed_dict(a) + u == tokens_typed_dict(b) + v,
    ensures
        same_typed_dict(a, b),
        u == v,
    decreases a, 1nat,
{
    lemma_tokens_typed_dict(a);
    lemma_tokens_typed_dict(b);
    lemma_same_typed_dict(a, b);
    lemma_typed_dict_parts(a);
    lemma_tag_typed_dict(a);
    lemma_tag_typed_dict(b);
    assert((tokens_typed_dict(a) + u)[0] == (0u8, tag_typed_dict(a)));
    assert((tokens_typed_dict(b) + v)[0] == (0u8, tag_typed_dict(b)));
    assert(tag_typed_dict(a) == tag_typed_dict(b));
    match a {
        TypedDictView::TypedDict(x) => {
            let a1 = tokens_class_type(x) + u;
            lemma_append(word(0), tokens_class_type(x), u);
            let b1 = tokens_class_type(b->TypedDict_0) + v;
            lemma_append(word(0), tokens_class_type(b->TypedDict_0), v);
            lemma_spelled_word(0, 0, a1, b1);
            lemma_spelled_class_type(x, b->TypedDict_0, u, v);
        },
        TypedDictView::Anonymous(x) => {
            let a1 = tokens_fields(x) + u;
            lemma_append(word(1), tokens_fields(x), u);
            let b1 = tokens_fields(b->Anonymous_0) + v;
            lemma_append(word(1), tokens_fields(b->Anonymous_0), v);
            lemma_spelled_word(1, 1, a1, b1);
            lemma_spelled_fields(x, b->Anonymous_0, u, v);
        },
    }
}

pub(crate) proof fn lemma_spelled_field(a: FieldView, b: FieldView, u: Seq<Token>, v: Seq<Token>)
    requires
        tokens_field(a) + u == tokens_field(b) + v,
    ensures
        same_field(a, b),
        u == v,
    decreases a, 1nat,
{
    lemma_tokens_field(a);
    lemma_tokens_field(b);
    lemma_same_field(a, b);
    lemma_field_parts(a);
    let a1 = tokens_type(a.ty) + u;
    lemma_append(tokens_text(a.name), tokens_type(a.ty), u);
    let b1 = tokens_type(b.ty) + v;
    lemma_append(tokens_text(b.name), tokens_type(b.ty), v);
    lemma_spelled_text(a.name, b.name, a1, b1);
    lemma_spelled_type(a.ty, b.ty, u, v);
}

spec fn tag_int(m: IntView) -> u64 {
    match m {
        IntView::Literal(_) => 0,
        IntView::Symbolic(_) => 1,
        IntView::Gradual => 2,
        IntView::Materialization => 3,
    }
}

proof fn lemma_tag_int(m: IntView)
    ensures
        tokens_int(m).len() > 0,
        tokens_int(m)[0] == (0u8, tag_int(m)),
{
    lemma_tokens_int(m);
}

pub(crate) proof fn lemma_spelled_int(a: IntView, b: IntView, u: Seq<Token>, v: Seq<Token>)
    requires
        tokens_int(a) + u == tokens_int(b) + v,
    ensures
        same_int(a, b),
        u == v,
    decreases a, 1nat,
{
    lemma_tokens_int(a);
    lemma_tokens_int(b);
    lemma_same_int(a, b);
    lemma_int_parts(a);
    lemma_tag_int(a);
    lemma_tag_int(b);
    assert((tokens_int(a) + u)[0] == (0u8, tag_int(a)));
    assert((tokens_int(b) + v)[0] == (0u8, tag_int(b)));
    assert(tag_int(a) == tag_int(b));
    match a {
        IntView::Literal(x) => {
            let a1 = word(order_of_i64(x)) + u;
            lemma_append(word(0), word(order_of_i64(x)), u);
            let b1 = word(order_of_i64(b->Literal_0)) + v;
            lemma_append(word(0), word(order_of_i64(b->Literal_0)), v);
            lemma_spelled_word(0, 0, a1, b1);
            lemma_spelled_word(order_of_i64(x), order_of_i64(b->Literal_0), u, v);
        },
        IntView::Symbolic(x) => {
            let a1 = tokens_type(*x) + u;
            lemma_append(word(1), tokens_type(*x), u);
            let b1 = tokens_type(*b->Symbolic_0) + v;
            lemma_append(word(1), tokens_type(*b->Symbolic_0), v);
            lemma_spelled_word(1, 1, a1, b1);
            lemma_spelled_type(*x, *b->Symbolic_0, u, v);
        },
        IntView::Gradual => {
            lemma_spelled_word(2, 2, u, v);
        },
        IntView::Materialization => {
            lemma_spelled_word(3, 3, u, v);
        },
    }
}

pub(crate) proof fn lemma_spelled_shaped_array_type(
    a: ShapedArrayTypeView,
    b: ShapedArrayTypeView,
    u: Seq<Token>,
    v: Seq<Token>,
)
    requires
        tokens_shaped_array_type(a) + u == tokens_shaped_array_type(b) + v,
    ensures
        same_shaped_array_type(a, b),
        u == v,
    decreases a, 1nat,
{
    lemma_tokens_shaped_array_type(a);
    lemma_tokens_shaped_array_type(b);
    lemma_same_shaped_array_type(a, b);
    lemma_shaped_array_type_parts(a);
    let a1 = tokens_dims(a.shape) + u;
    lemma_append(tokens_class_type(a.base_class), tokens_dims(a.shape), u);
    let b1 = tokens_dims(b.shape) + v;
    lemma_append(tokens_class_type(b.base_class), tokens_dims(b.shape), v);
    lemma_spelled_class_type(a.base_class, b.base_class, a1, b1);
    lemma_spelled_dims(a.shape, b.shape, u, v);
}

pub(crate) proof fn lemma_spelled_nn_module_type(
    a: NNModuleTypeView,
    b: NNModuleTypeView,
    u: Seq<Token>,
    v: Seq<Token>,
)
    requires
        tokens_nn_module_type(a) + u == tokens_nn_module_type(b) + v,
    ensures
        same_nn_module_type(a, b),
        u == v,
    decreases a, 1nat,
{
    lemma_tokens_nn_module_type(a);
    lemma_tokens_nn_module_type(b);
    lemma_same_nn_module_type(a, b);
    lemma_nn_module_type_parts(a);
    let a1 = tokens_module_fields(a.fields) + u;
    lemma_append(tokens_class_type(a.class), tokens_module_fields(a.fields), u);
    let b1 = tokens_module_fields(b.fields) + v;
    lemma_append(tokens_class_type(b.class), tokens_module_fields(b.fields), v);
    lemma_spelled_class_type(a.class, b.class, a1, b1);
    lemma_spelled_module_fields(a.fields, b.fields, u, v);
}

pub(crate) proof fn lemma_spelled_data_frame_schema(
    a: DataFrameSchemaView,
    b: DataFrameSchemaView,
    u: Seq<Token>,
    v: Seq<Token>,
)
    requires
        tokens_data_frame_schema(a) + u == tokens_data_frame_schema(b) + v,
    ensures
        same_data_frame_schema(a, b),
        u == v,
    decreases a, 1nat,
{
    lemma_tokens_data_frame_schema(a);
    lemma_tokens_data_frame_schema(b);
    lemma_same_data_frame_schema(a, b);
    lemma_data_frame_schema_parts(a);
    let a1 = tokens_fields(a.columns) + u;
    lemma_append(tokens_class_type(a.class), tokens_fields(a.columns), u);
    let b1 = tokens_fields(b.columns) + v;
    lemma_append(tokens_class_type(b.class), tokens_fields(b.columns), v);
    lemma_spelled_class_type(a.class, b.class, a1, b1);
    lemma_spelled_fields(a.columns, b.columns, u, v);
}

pub(crate) proof fn lemma_spelled_series_schema(
    a: SeriesSchemaView,
    b: SeriesSchemaView,
    u: Seq<Token>,
    v: Seq<Token>,
)
    requires
        tokens_series_schema(a) + u == tokens_series_schema(b) + v,
    ensures
        same_series_schema(a, b),
        u == v,
    decreases a, 1nat,
{
    lemma_tokens_series_schema(a);
    lemma_tokens_series_schema(b);
    lemma_same_series_schema(a, b);
    lemma_series_schema_parts(a);
    let a1 = tokens_type(a.element) + u;
    lemma_append(tokens_class_type(a.class), tokens_type(a.element), u);
    let b1 = tokens_type(b.element) + v;
    lemma_append(tokens_class_type(b.class), tokens_type(b.element), v);
    lemma_spelled_class_type(a.class, b.class, a1, b1);
    lemma_spelled_type(a.element, b.element, u, v);
}

spec fn tag_tuple(m: TupleView) -> u64 {
    match m {
        TupleView::Concrete(_) => 0,
        TupleView::Unbounded(_) => 1,
        TupleView::Unpacked(_) => 2,
    }
}

proof fn lemma_tag_tuple(m: TupleView)
    ensures
        tokens_tuple(m).len() > 0,
        tokens_tuple(m)[0] == (0u8, tag_tuple(m)),
{
    lemma_tokens_tuple(m);
}

pub(crate) proof fn lemma_spelled_tuple(a: TupleView, b: TupleView, u: Seq<Token>, v: Seq<Token>)
    requires
        tokens_tuple(a) + u == tokens_tuple(b) + v,
    ensures
        same_tuple(a, b),
        u == v,
    decreases a, 1nat,
{
    lemma_tokens_tuple(a);
    lemma_tokens_tuple(b);
    lemma_same_tuple(a, b);
    lemma_tuple_parts(a);
    lemma_tag_tuple(a);
    lemma_tag_tuple(b);
    assert((tokens_tuple(a) + u)[0] == (0u8, tag_tuple(a)));
    assert((tokens_tuple(b) + v)[0] == (0u8, tag_tuple(b)));
    assert(tag_tuple(a) == tag_tuple(b));
    match a {
        TupleView::Concrete(x) => {
            let a1 = tokens_types(x) + u;
            lemma_append(word(0), tokens_types(x), u);
            let b1 = tokens_types(b->Concrete_0) + v;
            lemma_append(word(0), tokens_types(b->Concrete_0), v);
            lemma_spelled_word(0, 0, a1, b1);
            lemma_spelled_types(x, b->Concrete_0, u, v);
        },
        TupleView::Unbounded(x) => {
            let a1 = tokens_type(*x) + u;
            lemma_append(word(1), tokens_type(*x), u);
            let b1 = tokens_type(*b->Unbounded_0) + v;
            lemma_append(word(1), tokens_type(*b->Unbounded_0), v);
            lemma_spelled_word(1, 1, a1, b1);
            lemma_spelled_type(*x, *b->Unbounded_0, u, v);
        },
        TupleView::Unpacked(x) => {
            let a3 = tokens_types(x.2) + u;
            lemma_append(word(2) + tokens_types(x.0) + tokens_type(x.1), tokens_types(x.2), u);
            let a2 = tokens_type(x.1) + a3;
            lemma_append(word(2) + tokens_types(x.0), tokens_type(x.1), a3);
            let a1 = tokens_types(x.0) + a2;
            lemma_append(word(2), tokens_types(x.0), a2);
            let b3 = tokens_types(b->Unpacked_0.2) + v;
            lemma_append(
                word(2) + tokens_types(b->Unpacked_0.0) + tokens_type(b->Unpacked_0.1),
                tokens_types(b->Unpacked_0.2),
                v,
            );
            let b2 = tokens_type(b->Unpacked_0.1) + b3;
            lemma_append(word(2) + tokens_types(b->Unpacked_0.0), tokens_type(b->Unpacked_0.1), b3);
            let b1 = tokens_types(b->Unpacked_0.0) + b2;
            lemma_append(word(2), tokens_types(b->Unpacked_0.0), b2);
            lemma_spelled_word(2, 2, a1, b1);
            lemma_spelled_types(x.0, b->Unpacked_0.0, a2, b2);
            lemma_spelled_type(x.1, b->Unpacked_0.1, a3, b3);
            lemma_spelled_types(x.2, b->Unpacked_0.2, u, v);
        },
    }
}

pub(crate) proof fn lemma_spelled_kw_call(
    a: KwCallView,
    b: KwCallView,
    u: Seq<Token>,
    v: Seq<Token>,
)
    requires
        tokens_kw_call(a) + u == tokens_kw_call(b) + v,
    ensures
        same_kw_call(a, b),
        u == v,
    decreases a, 1nat,
{
    lemma_tokens_kw_call(a);
    lemma_tokens_kw_call(b);
    lemma_same_kw_call(a, b);
    lemma_kw_call_parts(a);
    let a1 = tokens_type(a.return_ty) + u;
    lemma_append(tokens_fields(a.keywords), tokens_type(a.return_ty), u);
    let b1 = tokens_type(b.return_ty) + v;
    lemma_append(tokens_fields(b.keywords), tokens_type(b.return_ty), v);
    lemma_spelled_fields(a.keywords, b.keywords, a1, b1);
    lemma_spelled_type(a.return_ty, b.return_ty, u, v);
}

pub(crate) proof fn lemma_spelled_callable_residual(
    a: CallableResidualView,
    b: CallableResidualView,
    u: Seq<Token>,
    v: Seq<Token>,
)
    requires
        tokens_callable_residual(a) + u == tokens_callable_residual(b) + v,
    ensures
        same_callable_residual(a, b),
        u == v,
    decreases a, 1nat,
{
    lemma_tokens_callable_residual(a);
    lemma_tokens_callable_residual(b);
    lemma_same_callable_residual(a, b);
    lemma_callable_residual_parts(a);
    let a1 = tokens_type(a.fallback) + u;
    lemma_append(tokens_types(a.captured), tokens_type(a.fallback), u);
    let b1 = tokens_type(b.fallback) + v;
    lemma_append(tokens_types(b.captured), tokens_type(b.fallback), v);
    lemma_spelled_types(a.captured, b.captured, a1, b1);
    lemma_spelled_type(a.fallback, b.fallback, u, v);
}

pub(crate) proof fn lemma_spelled_type_level_dsl_call(
    a: TypeLevelDslCallView,
    b: TypeLevelDslCallView,
    u: Seq<Token>,
    v: Seq<Token>,
)
    requires
        tokens_type_level_dsl_call(a) + u == tokens_type_level_dsl_call(b) + v,
    ensures
        same_type_level_dsl_call(a, b),
        u == v,
    decreases a, 1nat,
{
    lemma_tokens_type_level_dsl_call(a);
    lemma_tokens_type_level_dsl_call(b);
    lemma_same_type_level_dsl_call(a, b);
    lemma_type_level_dsl_call_parts(a);
    let a2 = tokens_type(a.result_schema) + u;
    lemma_append(tokens_text(a.function) + tokens_types(a.args), tokens_type(a.result_schema), u);
    let a1 = tokens_types(a.args) + a2;
    lemma_append(tokens_text(a.function), tokens_types(a.args), a2);
    let b2 = tokens_type(b.result_schema) + v;
    lemma_append(tokens_text(b.function) + tokens_types(b.args), tokens_type(b.result_schema), v);
    let b1 = tokens_types(b.args) + b2;
    lemma_append(tokens_text(b.function), tokens_types(b.args), b2);
    lemma_spelled_text(a.function, b.function, a1, b1);
    lemma_spelled_types(a.args, b.args, a2, b2);
    lemma_spelled_type(a.result_schema, b.result_schema, u, v);
}

spec fn tag_super_obj(m: SuperObjView) -> u64 {
    match m {
        SuperObjView::Instance(_) => 0,
        SuperObjView::Class(_) => 1,
    }
}

proof fn lemma_tag_super_obj(m: SuperObjView)
    ensures
        tokens_super_obj(m).len() > 0,
        tokens_super_obj(m)[0] == (0u8, tag_super_obj(m)),
{
    lemma_tokens_super_obj(m);
}

pub(crate) proof fn lemma_spelled_super_obj(
    a: SuperObjView,
    b: SuperObjView,
    u: Seq<Token>,
    v: Seq<Token>,
)
    requires
        tokens_super_obj(a) + u == tokens_super_obj(b) + v,
    ensures
        same_super_obj(a, b),
        u == v,
    decreases a, 1nat,
{
    lemma_tokens_super_obj(a);
    lemma_tokens_super_obj(b);
    lemma_same_super_obj(a, b);
    lemma_super_obj_parts(a);
    lemma_tag_super_obj(a);
    lemma_tag_super_obj(b);
    assert((tokens_super_obj(a) + u)[0] == (0u8, tag_super_obj(a)));
    assert((tokens_super_obj(b) + v)[0] == (0u8, tag_super_obj(b)));
    assert(tag_super_obj(a) == tag_super_obj(b));
    match a {
        SuperObjView::Instance(x) => {
            let a1 = tokens_class_type(x) + u;
            lemma_append(word(0), tokens_class_type(x), u);
            let b1 = tokens_class_type(b->Instance_0) + v;
            lemma_append(word(0), tokens_class_type(b->Instance_0), v);
            lemma_spelled_word(0, 0, a1, b1);
            lemma_spelled_class_type(x, b->Instance_0, u, v);
        },
        SuperObjView::Class(x) => {
            let a1 = tokens_class_type(x) + u;
            lemma_append(word(1), tokens_class_type(x), u);
            let b1 = tokens_class_type(b->Class_0) + v;
            lemma_append(word(1), tokens_class_type(b->Class_0), v);
            lemma_spelled_word(1, 1, a1, b1);
            lemma_spelled_class_type(x, b->Class_0, u, v);
        },
    }
}

spec fn tag_type(m: TypeView) -> u64 {
    match m {
        TypeView::Literal(_) => 0,
        TypeView::LiteralString(_) => 1,
        TypeView::Callable(_) => 2,
        TypeView::CallableResidual(_) => 3,
        TypeView::TypeLevelDslCall(_) => 4,
        TypeView::Function(_) => 5,
        TypeView::BoundMethod(_) => 6,
        TypeView::Overload(_) => 7,
        TypeView::Union(_) => 8,
        TypeView::Intersect(_) => 9,
        TypeView::ClassDef(_) => 10,
        TypeView::ClassType(_) => 11,
        TypeView::TypedDict(_) => 12,
        TypeView::PartialTypedDict(_) => 13,
        TypeView::ShapedArray(_) => 14,
        TypeView::IntTuple(_) => 15,
        TypeView::NNModule(_) => 16,
        TypeView::DataFrame(_) => 17,
        TypeView::Series(_) => 18,
        TypeView::Int(_) => 19,
        TypeView::Tuple(_) => 20,
        TypeView::Module(_) => 21,
        TypeView::Forall(_) => 22,
        TypeView::Var(_) => 23,
        TypeView::Quantified(_) => 24,
        TypeView::QuantifiedValue(_) => 25,
        TypeView::ElementOfTypeVarTuple(_) => 26,
        TypeView::TypeGuard(_) => 27,
        TypeView::TypeIs(_) => 28,
        TypeView::Annotated(_, _) => 29,
        TypeView::Unpack(_) => 30,
        TypeView::TypeVar(_) => 31,
        TypeView::ParamSpec(_) => 32,
        TypeView::TypeVarTuple(_) => 33,
        TypeView::SpecialForm(_) => 34,
        TypeView::Concatenate(_, _) => 35,
        TypeView::ParamSpecValue(_) => 36,
        TypeView::Args(_) => 37,
        TypeView::Kwargs(_) => 38,
        TypeView::ArgsValue(_) => 39,
        TypeView::KwargsValue(_) => 40,
        TypeView::Type(_) => 41,
        TypeView::TypeForm(_) => 42,
        TypeView::Ellipsis => 43,
        TypeView::Any(_) => 44,
        TypeView::Never(_) => 45,
        TypeView::TypeAlias(_) => 46,
        TypeView::UntypedAlias(_) => 47,
        TypeView::Sentinel(_) => 48,
        TypeView::SuperInstance(_) => 49,
        TypeView::SelfType(_) => 50,
        TypeView::KwCall(_) => 51,
        TypeView::Materialization => 52,
        TypeView::NoneType => 53,
    }
}

proof fn lemma_tag_type(m: TypeView)
    ensures
        tokens_type(m).len() > 0,
        tokens_type(m)[0] == (0u8, tag_type(m)),
{
    lemma_tokens_type(m);
}

#[verifier::rlimit(60)]
pub(crate) proof fn lemma_spelled_type(a: TypeView, b: TypeView, u: Seq<Token>, v: Seq<Token>)
    requires
        tokens_type(a) + u == tokens_type(b) + v,
    ensures
        same_type(a, b),
        u == v,
    decreases a, 1nat,
{
    lemma_tokens_type(a);
    lemma_tokens_type(b);
    lemma_same_type(a, b);
    lemma_type_parts(a);
    lemma_tag_type(a);
    lemma_tag_type(b);
    assert((tokens_type(a) + u)[0] == (0u8, tag_type(a)));
    assert((tokens_type(b) + v)[0] == (0u8, tag_type(b)));
    assert(tag_type(a) == tag_type(b));
    match a {
        TypeView::Literal(x) => {
            let a1 = tokens_literal(*x) + u;
            lemma_append(word(0), tokens_literal(*x), u);
            let b1 = tokens_literal(*b->Literal_0) + v;
            lemma_append(word(0), tokens_literal(*b->Literal_0), v);
            lemma_spelled_word(0, 0, a1, b1);
            lemma_spelled_literal(*x, *b->Literal_0, u, v);
        },
        TypeView::LiteralString(x) => {
            let a1 = word(x.rank_spec()) + u;
            lemma_append(word(1), word(x.rank_spec()), u);
            let b1 = word(b->LiteralString_0.rank_spec()) + v;
            lemma_append(word(1), word(b->LiteralString_0.rank_spec()), v);
            lemma_spelled_word(1, 1, a1, b1);
            lemma_spelled_word(x.rank_spec(), b->LiteralString_0.rank_spec(), u, v);
        },
        TypeView::Callable(x) => {
            let a1 = tokens_callable(*x) + u;
            lemma_append(word(2), tokens_callable(*x), u);
            let b1 = tokens_callable(*b->Callable_0) + v;
            lemma_append(word(2), tokens_callable(*b->Callable_0), v);
            lemma_spelled_word(2, 2, a1, b1);
            lemma_spelled_callable(*x, *b->Callable_0, u, v);
        },
        TypeView::CallableResidual(x) => {
            let a1 = tokens_callable_residual(*x) + u;
            lemma_append(word(3), tokens_callable_residual(*x), u);
            let b1 = tokens_callable_residual(*b->CallableResidual_0) + v;
            lemma_append(word(3), tokens_callable_residual(*b->CallableResidual_0), v);
            lemma_spelled_word(3, 3, a1, b1);
            lemma_spelled_callable_residual(*x, *b->CallableResidual_0, u, v);
        },
        TypeView::TypeLevelDslCall(x) => {
            let a1 = tokens_type_level_dsl_call(*x) + u;
            lemma_append(word(4), tokens_type_level_dsl_call(*x), u);
            let b1 = tokens_type_level_dsl_call(*b->TypeLevelDslCall_0) + v;
            lemma_append(word(4), tokens_type_level_dsl_call(*b->TypeLevelDslCall_0), v);
            lemma_spelled_word(4, 4, a1, b1);
            lemma_spelled_type_level_dsl_call(*x, *b->TypeLevelDslCall_0, u, v);
        },
        TypeView::Function(x) => {
            let a1 = tokens_function(*x) + u;
            lemma_append(word(5), tokens_function(*x), u);
            let b1 = tokens_function(*b->Function_0) + v;
            lemma_append(word(5), tokens_function(*b->Function_0), v);
            lemma_spelled_word(5, 5, a1, b1);
            lemma_spelled_function(*x, *b->Function_0, u, v);
        },
        TypeView::BoundMethod(x) => {
            let a1 = tokens_bound_method(*x) + u;
            lemma_append(word(6), tokens_bound_method(*x), u);
            let b1 = tokens_bound_method(*b->BoundMethod_0) + v;
            lemma_append(word(6), tokens_bound_method(*b->BoundMethod_0), v);
            lemma_spelled_word(6, 6, a1, b1);
            lemma_spelled_bound_method(*x, *b->BoundMethod_0, u, v);
        },
        TypeView::Overload(x) => {
            let a1 = tokens_overload(x) + u;
            lemma_append(word(7), tokens_overload(x), u);
            let b1 = tokens_overload(b->Overload_0) + v;
            lemma_append(word(7), tokens_overload(b->Overload_0), v);
            lemma_spelled_word(7, 7, a1, b1);
            lemma_spelled_overload(x, b->Overload_0, u, v);
        },
        TypeView::Union(x) => {
            let a1 = tokens_union(*x) + u;
            lemma_append(word(8), tokens_union(*x), u);
            let b1 = tokens_union(*b->Union_0) + v;
            lemma_append(word(8), tokens_union(*b->Union_0), v);
            lemma_spelled_word(8, 8, a1, b1);
            lemma_spelled_union(*x, *b->Union_0, u, v);
        },
        TypeView::Intersect(x) => {
            let a2 = tokens_type(x.1) + u;
            lemma_append(word(9) + tokens_types(x.0), tokens_type(x.1), u);
            let a1 = tokens_types(x.0) + a2;
            lemma_append(word(9), tokens_types(x.0), a2);
            let b2 = tokens_type(b->Intersect_0.1) + v;
            lemma_append(
                word(9) + tokens_types(b->Intersect_0.0),
                tokens_type(b->Intersect_0.1),
                v,
            );
            let b1 = tokens_types(b->Intersect_0.0) + b2;
            lemma_append(word(9), tokens_types(b->Intersect_0.0), b2);
            lemma_spelled_word(9, 9, a1, b1);
            lemma_spelled_types(x.0, b->Intersect_0.0, a2, b2);
            lemma_spelled_type(x.1, b->Intersect_0.1, u, v);
        },
        TypeView::ClassDef(x) => {
            let a1 = tokens_class(x) + u;
            lemma_append(word(10), tokens_class(x), u);
            let b1 = tokens_class(b->ClassDef_0) + v;
            lemma_append(word(10), tokens_class(b->ClassDef_0), v);
            lemma_spelled_word(10, 10, a1, b1);
            lemma_spelled_class(x, b->ClassDef_0, u, v);
        },
        TypeView::ClassType(x) => {
            let a1 = tokens_class_type(x) + u;
            lemma_append(word(11), tokens_class_type(x), u);
            let b1 = tokens_class_type(b->ClassType_0) + v;
            lemma_append(word(11), tokens_class_type(b->ClassType_0), v);
            lemma_spelled_word(11, 11, a1, b1);
            lemma_spelled_class_type(x, b->ClassType_0, u, v);
        },
        TypeView::TypedDict(x) => {
            let a1 = tokens_typed_dict(x) + u;
            lemma_append(word(12), tokens_typed_dict(x), u);
            let b1 = tokens_typed_dict(b->TypedDict_0) + v;
            lemma_append(word(12), tokens_typed_dict(b->TypedDict_0), v);
            lemma_spelled_word(12, 12, a1, b1);
            lemma_spelled_typed_dict(x, b->TypedDict_0, u, v);
        },
        TypeView::PartialTypedDict(x) => {
            let a1 = tokens_typed_dict(x) + u;
            lemma_append(word(13), tokens_typed_dict(x), u);
            let b1 = tokens_typed_dict(b->PartialTypedDict_0) + v;
            lemma_append(word(13), tokens_typed_dict(b->PartialTypedDict_0), v);
            lemma_spelled_word(13, 13, a1, b1);
            lemma_spelled_typed_dict(x, b->PartialTypedDict_0, u, v);
        },
        TypeView::ShapedArray(x) => {
            let a1 = tokens_shaped_array_type(*x) + u;
            lemma_append(word(14), tokens_shaped_array_type(*x), u);
            let b1 = tokens_shaped_array_type(*b->ShapedArray_0) + v;
            lemma_append(word(14), tokens_shaped_array_type(*b->ShapedArray_0), v);
            lemma_spelled_word(14, 14, a1, b1);
            lemma_spelled_shaped_array_type(*x, *b->ShapedArray_0, u, v);
        },
        TypeView::IntTuple(x) => {
            let a1 = tokens_dims(*x) + u;
            lemma_append(word(15), tokens_dims(*x), u);
            let b1 = tokens_dims(*b->IntTuple_0) + v;
            lemma_append(word(15), tokens_dims(*b->IntTuple_0), v);
            lemma_spelled_word(15, 15, a1, b1);
            lemma_spelled_dims(*x, *b->IntTuple_0, u, v);
        },
        TypeView::NNModule(x) => {
            let a1 = tokens_nn_module_type(*x) + u;
            lemma_append(word(16), tokens_nn_module_type(*x), u);
            let b1 = tokens_nn_module_type(*b->NNModule_0) + v;
            lemma_append(word(16), tokens_nn_module_type(*b->NNModule_0), v);
            lemma_spelled_word(16, 16, a1, b1);
            lemma_spelled_nn_module_type(*x, *b->NNModule_0, u, v);
        },
        TypeView::DataFrame(x) => {
            let a1 = tokens_data_frame_schema(*x) + u;
            lemma_append(word(17), tokens_data_frame_schema(*x), u);
            let b1 = tokens_data_frame_schema(*b->DataFrame_0) + v;
            lemma_append(word(17), tokens_data_frame_schema(*b->DataFrame_0), v);
            lemma_spelled_word(17, 17, a1, b1);
            lemma_spelled_data_frame_schema(*x, *b->DataFrame_0, u, v);
        },
        TypeView::Series(x) => {
            let a1 = tokens_series_schema(*x) + u;
            lemma_append(word(18), tokens_series_schema(*x), u);
            let b1 = tokens_series_schema(*b->Series_0) + v;
            lemma_append(word(18), tokens_series_schema(*b->Series_0), v);
            lemma_spelled_word(18, 18, a1, b1);
            lemma_spelled_series_schema(*x, *b->Series_0, u, v);
        },
        TypeView::Int(x) => {
            let a1 = tokens_int(x) + u;
            lemma_append(word(19), tokens_int(x), u);
            let b1 = tokens_int(b->Int_0) + v;
            lemma_append(word(19), tokens_int(b->Int_0), v);
            lemma_spelled_word(19, 19, a1, b1);
            lemma_spelled_int(x, b->Int_0, u, v);
        },
        TypeView::Tuple(x) => {
            let a1 = tokens_tuple(x) + u;
            lemma_append(word(20), tokens_tuple(x), u);
            let b1 = tokens_tuple(b->Tuple_0) + v;
            lemma_append(word(20), tokens_tuple(b->Tuple_0), v);
            lemma_spelled_word(20, 20, a1, b1);
            lemma_spelled_tuple(x, b->Tuple_0, u, v);
        },
        TypeView::Module(x) => {
            let a1 = tokens_text(x) + u;
            lemma_append(word(21), tokens_text(x), u);
            let b1 = tokens_text(b->Module_0) + v;
            lemma_append(word(21), tokens_text(b->Module_0), v);
            lemma_spelled_word(21, 21, a1, b1);
            lemma_spelled_text(x, b->Module_0, u, v);
        },
        TypeView::Forall(x) => {
            let a1 = tokens_forall_forallable(*x) + u;
            lemma_append(word(22), tokens_forall_forallable(*x), u);
            let b1 = tokens_forall_forallable(*b->Forall_0) + v;
            lemma_append(word(22), tokens_forall_forallable(*b->Forall_0), v);
            lemma_spelled_word(22, 22, a1, b1);
            lemma_spelled_forall_forallable(*x, *b->Forall_0, u, v);
        },
        TypeView::Var(x) => {
            let a1 = var_token(x) + u;
            lemma_append(word(23), var_token(x), u);
            let b1 = var_token(b->Var_0) + v;
            lemma_append(word(23), var_token(b->Var_0), v);
            lemma_spelled_word(23, 23, a1, b1);
            lemma_spelled_var(x, b->Var_0, u, v);
        },
        TypeView::Quantified(x) => {
            let a1 = tokens_quantified(*x) + u;
            lemma_append(word(24), tokens_quantified(*x), u);
            let b1 = tokens_quantified(*b->Quantified_0) + v;
            lemma_append(word(24), tokens_quantified(*b->Quantified_0), v);
            lemma_spelled_word(24, 24, a1, b1);
            lemma_spelled_quantified(*x, *b->Quantified_0, u, v);
        },
        TypeView::QuantifiedValue(x) => {
            let a1 = tokens_quantified(*x) + u;
            lemma_append(word(25), tokens_quantified(*x), u);
            let b1 = tokens_quantified(*b->QuantifiedValue_0) + v;
            lemma_append(word(25), tokens_quantified(*b->QuantifiedValue_0), v);
            lemma_spelled_word(25, 25, a1, b1);
            lemma_spelled_quantified(*x, *b->QuantifiedValue_0, u, v);
        },
        TypeView::ElementOfTypeVarTuple(x) => {
            let a1 = tokens_quantified(*x) + u;
            lemma_append(word(26), tokens_quantified(*x), u);
            let b1 = tokens_quantified(*b->ElementOfTypeVarTuple_0) + v;
            lemma_append(word(26), tokens_quantified(*b->ElementOfTypeVarTuple_0), v);
            lemma_spelled_word(26, 26, a1, b1);
            lemma_spelled_quantified(*x, *b->ElementOfTypeVarTuple_0, u, v);
        },
        TypeView::TypeGuard(x) => {
            let a1 = tokens_type(*x) + u;
            lemma_append(word(27), tokens_type(*x), u);
            let b1 = tokens_type(*b->TypeGuard_0) + v;
            lemma_append(word(27), tokens_type(*b->TypeGuard_0), v);
            lemma_spelled_word(27, 27, a1, b1);
            lemma_spelled_type(*x, *b->TypeGuard_0, u, v);
        },
        TypeView::TypeIs(x) => {
            let a1 = tokens_type(*x) + u;
            lemma_append(word(28), tokens_type(*x), u);
            let b1 = tokens_type(*b->TypeIs_0) + v;
            lemma_append(word(28), tokens_type(*b->TypeIs_0), v);
            lemma_spelled_word(28, 28, a1, b1);
            lemma_spelled_type(*x, *b->TypeIs_0, u, v);
        },
        TypeView::Annotated(x, x2) => {
            let a2 = tokens_types(x2) + u;
            lemma_append(word(29) + tokens_type(*x), tokens_types(x2), u);
            let a1 = tokens_type(*x) + a2;
            lemma_append(word(29), tokens_type(*x), a2);
            let b2 = tokens_types(b->Annotated_1) + v;
            lemma_append(word(29) + tokens_type(*b->Annotated_0), tokens_types(b->Annotated_1), v);
            let b1 = tokens_type(*b->Annotated_0) + b2;
            lemma_append(word(29), tokens_type(*b->Annotated_0), b2);
            lemma_spelled_word(29, 29, a1, b1);
            lemma_spelled_type(*x, *b->Annotated_0, a2, b2);
            lemma_spelled_types(x2, b->Annotated_1, u, v);
        },
        TypeView::Unpack(x) => {
            let a1 = tokens_type(*x) + u;
            lemma_append(word(30), tokens_type(*x), u);
            let b1 = tokens_type(*b->Unpack_0) + v;
            lemma_append(word(30), tokens_type(*b->Unpack_0), v);
            lemma_spelled_word(30, 30, a1, b1);
            lemma_spelled_type(*x, *b->Unpack_0, u, v);
        },
        TypeView::TypeVar(x) => {
            let a1 = tokens_qname(x) + u;
            lemma_append(word(31), tokens_qname(x), u);
            let b1 = tokens_qname(b->TypeVar_0) + v;
            lemma_append(word(31), tokens_qname(b->TypeVar_0), v);
            lemma_spelled_word(31, 31, a1, b1);
            lemma_spelled_qname(x, b->TypeVar_0, u, v);
        },
        TypeView::ParamSpec(x) => {
            let a1 = tokens_qname(x) + u;
            lemma_append(word(32), tokens_qname(x), u);
            let b1 = tokens_qname(b->ParamSpec_0) + v;
            lemma_append(word(32), tokens_qname(b->ParamSpec_0), v);
            lemma_spelled_word(32, 32, a1, b1);
            lemma_spelled_qname(x, b->ParamSpec_0, u, v);
        },
        TypeView::TypeVarTuple(x) => {
            let a1 = tokens_qname(x) + u;
            lemma_append(word(33), tokens_qname(x), u);
            let b1 = tokens_qname(b->TypeVarTuple_0) + v;
            lemma_append(word(33), tokens_qname(b->TypeVarTuple_0), v);
            lemma_spelled_word(33, 33, a1, b1);
            lemma_spelled_qname(x, b->TypeVarTuple_0, u, v);
        },
        TypeView::SpecialForm(x) => {
            let a1 = word(x.rank_spec()) + u;
            lemma_append(word(34), word(x.rank_spec()), u);
            let b1 = word(b->SpecialForm_0.rank_spec()) + v;
            lemma_append(word(34), word(b->SpecialForm_0.rank_spec()), v);
            lemma_spelled_word(34, 34, a1, b1);
            lemma_spelled_word(x.rank_spec(), b->SpecialForm_0.rank_spec(), u, v);
        },
        TypeView::Concatenate(x, x2) => {
            let a2 = tokens_type(*x2) + u;
            lemma_append(word(35) + tokens_param_seq(x), tokens_type(*x2), u);
            let a1 = tokens_param_seq(x) + a2;
            lemma_append(word(35), tokens_param_seq(x), a2);
            let b2 = tokens_type(*b->Concatenate_1) + v;
            lemma_append(
                word(35) + tokens_param_seq(b->Concatenate_0),
                tokens_type(*b->Concatenate_1),
                v,
            );
            let b1 = tokens_param_seq(b->Concatenate_0) + b2;
            lemma_append(word(35), tokens_param_seq(b->Concatenate_0), b2);
            lemma_spelled_word(35, 35, a1, b1);
            lemma_spelled_param_seq(x, b->Concatenate_0, a2, b2);
            lemma_spelled_type(*x2, *b->Concatenate_1, u, v);
        },
        TypeView::ParamSpecValue(x) => {
            let a1 = tokens_param_seq(x) + u;
            lemma_append(word(36), tokens_param_seq(x), u);
            let b1 = tokens_param_seq(b->ParamSpecValue_0) + v;
            lemma_append(word(36), tokens_param_seq(b->ParamSpecValue_0), v);
            lemma_spelled_word(36, 36, a1, b1);
            lemma_spelled_param_seq(x, b->ParamSpecValue_0, u, v);
        },
        TypeView::Args(x) => {
            let a1 = tokens_quantified(*x) + u;
            lemma_append(word(37), tokens_quantified(*x), u);
            let b1 = tokens_quantified(*b->Args_0) + v;
            lemma_append(word(37), tokens_quantified(*b->Args_0), v);
            lemma_spelled_word(37, 37, a1, b1);
            lemma_spelled_quantified(*x, *b->Args_0, u, v);
        },
        TypeView::Kwargs(x) => {
            let a1 = tokens_quantified(*x) + u;
            lemma_append(word(38), tokens_quantified(*x), u);
            let b1 = tokens_quantified(*b->Kwargs_0) + v;
            lemma_append(word(38), tokens_quantified(*b->Kwargs_0), v);
            lemma_spelled_word(38, 38, a1, b1);
            lemma_spelled_quantified(*x, *b->Kwargs_0, u, v);
        },
        TypeView::ArgsValue(x) => {
            let a1 = tokens_quantified(*x) + u;
            lemma_append(word(39), tokens_quantified(*x), u);
            let b1 = tokens_quantified(*b->ArgsValue_0) + v;
            lemma_append(word(39), tokens_quantified(*b->ArgsValue_0), v);
            lemma_spelled_word(39, 39, a1, b1);
            lemma_spelled_quantified(*x, *b->ArgsValue_0, u, v);
        },
        TypeView::KwargsValue(x) => {
            let a1 = tokens_quantified(*x) + u;
            lemma_append(word(40), tokens_quantified(*x), u);
            let b1 = tokens_quantified(*b->KwargsValue_0) + v;
            lemma_append(word(40), tokens_quantified(*b->KwargsValue_0), v);
            lemma_spelled_word(40, 40, a1, b1);
            lemma_spelled_quantified(*x, *b->KwargsValue_0, u, v);
        },
        TypeView::Type(x) => {
            let a1 = tokens_type(*x) + u;
            lemma_append(word(41), tokens_type(*x), u);
            let b1 = tokens_type(*b->Type_0) + v;
            lemma_append(word(41), tokens_type(*b->Type_0), v);
            lemma_spelled_word(41, 41, a1, b1);
            lemma_spelled_type(*x, *b->Type_0, u, v);
        },
        TypeView::TypeForm(x) => {
            let a1 = tokens_type(*x) + u;
            lemma_append(word(42), tokens_type(*x), u);
            let b1 = tokens_type(*b->TypeForm_0) + v;
            lemma_append(word(42), tokens_type(*b->TypeForm_0), v);
            lemma_spelled_word(42, 42, a1, b1);
            lemma_spelled_type(*x, *b->TypeForm_0, u, v);
        },
        TypeView::Ellipsis => {
            lemma_spelled_word(43, 43, u, v);
        },
        TypeView::Any(x) => {
            let a1 = word(x.rank_spec()) + u;
            lemma_append(word(44), word(x.rank_spec()), u);
            let b1 = word(b->Any_0.rank_spec()) + v;
            lemma_append(word(44), word(b->Any_0.rank_spec()), v);
            lemma_spelled_word(44, 44, a1, b1);
            lemma_spelled_word(x.rank_spec(), b->Any_0.rank_spec(), u, v);
        },
        TypeView::Never(x) => {
            let a1 = word(x.rank_spec()) + u;
            lemma_append(word(45), word(x.rank_spec()), u);
            let b1 = word(b->Never_0.rank_spec()) + v;
            lemma_append(word(45), word(b->Never_0.rank_spec()), v);
            lemma_spelled_word(45, 45, a1, b1);
            lemma_spelled_word(x.rank_spec(), b->Never_0.rank_spec(), u, v);
        },
        TypeView::TypeAlias(x) => {
            let a1 = tokens_type_alias_data(*x) + u;
            lemma_append(word(46), tokens_type_alias_data(*x), u);
            let b1 = tokens_type_alias_data(*b->TypeAlias_0) + v;
            lemma_append(word(46), tokens_type_alias_data(*b->TypeAlias_0), v);
            lemma_spelled_word(46, 46, a1, b1);
            lemma_spelled_type_alias_data(*x, *b->TypeAlias_0, u, v);
        },
        TypeView::UntypedAlias(x) => {
            let a1 = tokens_type_alias_data(*x) + u;
            lemma_append(word(47), tokens_type_alias_data(*x), u);
            let b1 = tokens_type_alias_data(*b->UntypedAlias_0) + v;
            lemma_append(word(47), tokens_type_alias_data(*b->UntypedAlias_0), v);
            lemma_spelled_word(47, 47, a1, b1);
            lemma_spelled_type_alias_data(*x, *b->UntypedAlias_0, u, v);
        },
        TypeView::Sentinel(x) => {
            let a1 = tokens_qname(x) + u;
            lemma_append(word(48), tokens_qname(x), u);
            let b1 = tokens_qname(b->Sentinel_0) + v;
            lemma_append(word(48), tokens_qname(b->Sentinel_0), v);
            lemma_spelled_word(48, 48, a1, b1);
            lemma_spelled_qname(x, b->Sentinel_0, u, v);
        },
        TypeView::SuperInstance(x) => {
            let a2 = tokens_super_obj(x.1) + u;
            lemma_append(word(49) + tokens_class_type(x.0), tokens_super_obj(x.1), u);
            let a1 = tokens_class_type(x.0) + a2;
            lemma_append(word(49), tokens_class_type(x.0), a2);
            let b2 = tokens_super_obj(b->SuperInstance_0.1) + v;
            lemma_append(
                word(49) + tokens_class_type(b->SuperInstance_0.0),
                tokens_super_obj(b->SuperInstance_0.1),
                v,
            );
            let b1 = tokens_class_type(b->SuperInstance_0.0) + b2;
            lemma_append(word(49), tokens_class_type(b->SuperInstance_0.0), b2);
            lemma_spelled_word(49, 49, a1, b1);
            lemma_spelled_class_type(x.0, b->SuperInstance_0.0, a2, b2);
            lemma_spelled_super_obj(x.1, b->SuperInstance_0.1, u, v);
        },
        TypeView::SelfType(x) => {
            let a1 = tokens_class_type(x) + u;
            lemma_append(word(50), tokens_class_type(x), u);
            let b1 = tokens_class_type(b->SelfType_0) + v;
            lemma_append(word(50), tokens_class_type(b->SelfType_0), v);
            lemma_spelled_word(50, 50, a1, b1);
            lemma_spelled_class_type(x, b->SelfType_0, u, v);
        },
        TypeView::KwCall(x) => {
            let a1 = tokens_kw_call(*x) + u;
            lemma_append(word(51), tokens_kw_call(*x), u);
            let b1 = tokens_kw_call(*b->KwCall_0) + v;
            lemma_append(word(51), tokens_kw_call(*b->KwCall_0), v);
            lemma_spelled_word(51, 51, a1, b1);
            lemma_spelled_kw_call(*x, *b->KwCall_0, u, v);
        },
        TypeView::Materialization => {
            lemma_spelled_word(52, 52, u, v);
        },
        TypeView::NoneType => {
            lemma_spelled_word(53, 53, u, v);
        },
    }
}

/// Types that are spelled alike are equal. So the order of types agrees with their equality, and a
/// type parameter that is found by its spelling is equal to the one asked for.
pub proof fn lemma_spelled_alike(a: TypeView, b: TypeView)
    requires
        tokens_type(a) == tokens_type(b),
    ensures
        same_type(a, b),
{
    assert(tokens_type(a) + Seq::empty() == tokens_type(b) + Seq::empty());
    lemma_spelled_type(a, b, Seq::empty(), Seq::empty());
}

/// Type parameters that are spelled alike are equal.
pub proof fn lemma_quantifieds_spelled_alike(a: QuantifiedView, b: QuantifiedView)
    requires
        tokens_quantified(a) == tokens_quantified(b),
    ensures
        same_quantified(a, b),
{
    assert(tokens_quantified(a) + Seq::empty() == tokens_quantified(b) + Seq::empty());
    lemma_spelled_quantified(a, b, Seq::empty(), Seq::empty());
}

} // verus!
