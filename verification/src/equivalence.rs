//! Equality of types is an equivalence.
use vstd::prelude::*;

use crate::parts::{
    lemma_bound_method_parts,
    lemma_bound_method_type_parts,
    lemma_callable_parts,
    lemma_callable_residual_parts,
    lemma_class_type_parts,
    lemma_data_frame_schema_parts,
    lemma_field_parts,
    lemma_forall_forallable_parts,
    lemma_forall_function_parts,
    lemma_forallable_parts,
    lemma_func_flags_parts,
    lemma_func_metadata_parts,
    lemma_function_parts,
    lemma_int_parts,
    lemma_kw_call_parts,
    lemma_lit_enum_parts,
    lemma_lit_parts,
    lemma_literal_parts,
    lemma_nn_module_type_parts,
    lemma_overload_parts,
    lemma_overload_type_parts,
    lemma_param_parts,
    lemma_params_parts,
    lemma_property_metadata_parts,
    lemma_quantified_parts,
    lemma_restriction_parts,
    lemma_series_schema_parts,
    lemma_shaped_array_type_parts,
    lemma_super_obj_parts,
    lemma_targs_parts,
    lemma_tuple_parts,
    lemma_type_alias_data_parts,
    lemma_type_alias_parts,
    lemma_type_alias_ref_parts,
    lemma_type_level_dsl_call_parts,
    lemma_type_parts,
    lemma_typed_dict_parts,
    lemma_union_parts,
};
use crate::same::{
    has_field,
    is_field,
    lemma_same_bound_method,
    lemma_same_bound_method_type,
    lemma_same_callable,
    lemma_same_callable_residual,
    lemma_same_class_type,
    lemma_same_data_frame_schema,
    lemma_same_field,
    lemma_same_forallable,
    lemma_same_func_flags,
    lemma_same_func_metadata,
    lemma_same_function,
    lemma_same_int,
    lemma_same_kw_call,
    lemma_same_lit,
    lemma_same_lit_enum,
    lemma_same_literal,
    lemma_same_nn_module_type,
    lemma_same_overload,
    lemma_same_overload_type,
    lemma_same_param,
    lemma_same_params,
    lemma_same_property_metadata,
    lemma_same_quantified,
    lemma_same_restriction,
    lemma_same_series_schema,
    lemma_same_shaped_array_type,
    lemma_same_super_obj,
    lemma_same_targs,
    lemma_same_tuple,
    lemma_same_type,
    lemma_same_type_alias,
    lemma_same_type_alias_data,
    lemma_same_type_alias_ref,
    lemma_same_type_level_dsl_call,
    lemma_same_typed_dict,
    lemma_same_union,
    same_bound_method,
    same_bound_method_type,
    same_callable,
    same_callable_residual,
    same_class_type,
    same_data_frame_schema,
    same_dims,
    same_field,
    same_fields,
    same_forall_forallable,
    same_forall_function,
    same_forallable,
    same_func_flags,
    same_func_metadata,
    same_function,
    same_int,
    same_kw_call,
    same_lit,
    same_lit_enum,
    same_literal,
    same_module_fields,
    same_nn_module_type,
    same_overload,
    same_overload_type,
    same_overloads,
    same_param,
    same_param_seq,
    same_params,
    same_property_metadata,
    same_quantified,
    same_quantifieds,
    same_restriction,
    same_series_schema,
    same_shaped_array_type,
    same_super_obj,
    same_targs,
    same_tuple,
    same_type,
    same_type_alias,
    same_type_alias_data,
    same_type_alias_ref,
    same_type_level_dsl_call,
    same_typed_dict,
    same_types,
    same_union,
};
use crate::view::{
    BoundMethodTypeView,
    BoundMethodView,
    CallableResidualView,
    CallableView,
    ClassTypeView,
    DataFrameSchemaView,
    FieldView,
    ForallView,
    ForallableView,
    FuncFlagsView,
    FuncMetadataView,
    FunctionView,
    IntView,
    KwCallView,
    LitEnumView,
    LitView,
    LiteralView,
    NNModuleTypeView,
    OverloadTypeView,
    OverloadView,
    ParamView,
    ParamsView,
    PropertyMetadataView,
    QuantifiedView,
    RestrictionView,
    SeriesSchemaView,
    ShapedArrayTypeView,
    SuperObjView,
    TArgsView,
    TupleView,
    TypeAliasDataView,
    TypeAliasRefView,
    TypeAliasView,
    TypeLevelDslCallView,
    TypeView,
    TypedDictView,
    UnionView,
};

verus! {

proof fn lemma_equivalent_types(a: Seq<TypeView>, b: Seq<TypeView>, c: Seq<TypeView>)
    requires
        same_types(a, b),
    ensures
        same_types(b, a),
        same_types(b, c) ==> same_types(a, c),
    decreases a, 0nat,
{
    assert forall|i: int| 0 <= i < a.len() implies same_type(#[trigger] b[i], a[i]) && (same_type(
        b[i],
        c[i],
    ) ==> same_type(a[i], c[i])) by {
        assert(same_type(a[i], b[i]));
        lemma_equivalent_type(a[i], b[i], c[i]);
    }
    if same_types(b, c) {
        assert forall|i: int| 0 <= i < a.len() implies same_type(#[trigger] a[i], c[i]) by {
            assert(same_type(b[i], c[i]));
        }
    }
}

proof fn lemma_equivalent_param_seq(a: Seq<ParamView>, b: Seq<ParamView>, c: Seq<ParamView>)
    requires
        same_param_seq(a, b),
    ensures
        same_param_seq(b, a),
        same_param_seq(b, c) ==> same_param_seq(a, c),
    decreases a, 0nat,
{
    assert forall|i: int| 0 <= i < a.len() implies same_param(#[trigger] b[i], a[i]) && (same_param(
        b[i],
        c[i],
    ) ==> same_param(a[i], c[i])) by {
        assert(same_param(a[i], b[i]));
        lemma_equivalent_param(a[i], b[i], c[i]);
    }
    if same_param_seq(b, c) {
        assert forall|i: int| 0 <= i < a.len() implies same_param(#[trigger] a[i], c[i]) by {
            assert(same_param(b[i], c[i]));
        }
    }
}

proof fn lemma_equivalent_fields(a: Seq<FieldView>, b: Seq<FieldView>, c: Seq<FieldView>)
    requires
        same_fields(a, b),
    ensures
        same_fields(b, a),
        same_fields(b, c) ==> same_fields(a, c),
    decreases a, 0nat,
{
    assert forall|i: int| 0 <= i < a.len() implies same_field(#[trigger] b[i], a[i]) && (same_field(
        b[i],
        c[i],
    ) ==> same_field(a[i], c[i])) by {
        assert(same_field(a[i], b[i]));
        lemma_equivalent_field(a[i], b[i], c[i]);
    }
    if same_fields(b, c) {
        assert forall|i: int| 0 <= i < a.len() implies same_field(#[trigger] a[i], c[i]) by {
            assert(same_field(b[i], c[i]));
        }
    }
}

proof fn lemma_equivalent_quantifieds(
    a: Seq<QuantifiedView>,
    b: Seq<QuantifiedView>,
    c: Seq<QuantifiedView>,
)
    requires
        same_quantifieds(a, b),
    ensures
        same_quantifieds(b, a),
        same_quantifieds(b, c) ==> same_quantifieds(a, c),
    decreases a, 0nat,
{
    assert forall|i: int| 0 <= i < a.len() implies same_quantified(#[trigger] b[i], a[i])
        && (same_quantified(
        b[i],
        c[i],
    ) ==> same_quantified(a[i], c[i])) by {
        assert(same_quantified(a[i], b[i]));
        lemma_equivalent_quantified(a[i], b[i], c[i]);
    }
    if same_quantifieds(b, c) {
        assert forall|i: int| 0 <= i < a.len() implies same_quantified(#[trigger] a[i], c[i]) by {
            assert(same_quantified(b[i], c[i]));
        }
    }
}

proof fn lemma_equivalent_overloads(
    a: Seq<OverloadTypeView>,
    b: Seq<OverloadTypeView>,
    c: Seq<OverloadTypeView>,
)
    requires
        same_overloads(a, b),
    ensures
        same_overloads(b, a),
        same_overloads(b, c) ==> same_overloads(a, c),
    decreases a, 0nat,
{
    assert forall|i: int| 0 <= i < a.len() implies same_overload_type(#[trigger] b[i], a[i])
        && (same_overload_type(
        b[i],
        c[i],
    ) ==> same_overload_type(a[i], c[i])) by {
        assert(same_overload_type(a[i], b[i]));
        lemma_equivalent_overload_type(a[i], b[i], c[i]);
    }
    if same_overloads(b, c) {
        assert forall|i: int| 0 <= i < a.len() implies same_overload_type(
            #[trigger] a[i],
            c[i],
        ) by {
            assert(same_overload_type(b[i], c[i]));
        }
    }
}

proof fn lemma_equivalent_dims(a: Seq<IntView>, b: Seq<IntView>, c: Seq<IntView>)
    requires
        same_dims(a, b),
    ensures
        same_dims(b, a),
        same_dims(b, c) ==> same_dims(a, c),
    decreases a, 0nat,
{
    assert forall|i: int| 0 <= i < a.len() implies same_int(#[trigger] b[i], a[i]) && (same_int(
        b[i],
        c[i],
    ) ==> same_int(a[i], c[i])) by {
        assert(same_int(a[i], b[i]));
        lemma_equivalent_int(a[i], b[i], c[i]);
    }
    if same_dims(b, c) {
        assert forall|i: int| 0 <= i < a.len() implies same_int(#[trigger] a[i], c[i]) by {
            assert(same_int(b[i], c[i]));
        }
    }
}

proof fn lemma_field_found(a: Seq<FieldView>, b: Seq<FieldView>, c: Seq<FieldView>, i: int)
    requires
        0 <= i < a.len(),
        has_field(b, a[i].name, a[i].ty),
    ensures
        is_field(b, a[i].name, a[i].ty),
        same_module_fields(b, c) ==> has_field(c, a[i].name, a[i].ty),
    decreases a, 0nat,
{
    reveal(has_field);
    reveal(is_field);
    let f = a[i];
    let j = choose|j: int|
        0 <= j < b.len() && (#[trigger] b[j]).name == f.name && same_type(f.ty, b[j].ty);
    assert(decreases_to!(a => a[i]));
    lemma_field_parts(f);
    lemma_equivalent_type(f.ty, b[j].ty, b[j].ty);
    assert(b[j].name == f.name && same_type(b[j].ty, f.ty));
    if same_module_fields(b, c) {
        assert(has_field(c, b[j].name, b[j].ty));
        let k = choose|k: int|
            0 <= k < c.len() && (#[trigger] c[k]).name == b[j].name && same_type(
                b[j].ty,
                c[k].ty,
            );
        lemma_equivalent_type(f.ty, b[j].ty, c[k].ty);
        assert(c[k].name == f.name && same_type(f.ty, c[k].ty));
    }
}

proof fn lemma_field_source(a: Seq<FieldView>, b: Seq<FieldView>, j: int)
    requires
        0 <= j < b.len(),
        is_field(a, b[j].name, b[j].ty),
    ensures
        has_field(a, b[j].name, b[j].ty),
    decreases a, 0nat,
{
    reveal(has_field);
    reveal(is_field);
    let f = b[j];
    let i = choose|i: int|
        0 <= i < a.len() && (#[trigger] a[i]).name == f.name && same_type(a[i].ty, f.ty);
    assert(decreases_to!(a => a[i]));
    lemma_field_parts(a[i]);
    lemma_equivalent_type(a[i].ty, f.ty, f.ty);
    assert(a[i].name == f.name && same_type(f.ty, a[i].ty));
}

proof fn lemma_field_source_through(
    a: Seq<FieldView>,
    b: Seq<FieldView>,
    c: Seq<FieldView>,
    k: int,
)
    requires
        same_module_fields(a, b),
        0 <= k < c.len(),
        is_field(b, c[k].name, c[k].ty),
    ensures
        is_field(a, c[k].name, c[k].ty),
    decreases a, 0nat,
{
    reveal(is_field);
    let f = c[k];
    let j = choose|j: int|
        0 <= j < b.len() && (#[trigger] b[j]).name == f.name && same_type(b[j].ty, f.ty);
    assert(is_field(a, b[j].name, b[j].ty));
    let i = choose|i: int|
        0 <= i < a.len() && (#[trigger] a[i]).name == b[j].name && same_type(a[i].ty, b[j].ty);
    assert(decreases_to!(a => a[i]));
    lemma_field_parts(a[i]);
    lemma_equivalent_type(a[i].ty, b[j].ty, f.ty);
    assert(a[i].name == f.name && same_type(a[i].ty, f.ty));
}

proof fn lemma_equivalent_module_fields(a: Seq<FieldView>, b: Seq<FieldView>, c: Seq<FieldView>)
    requires
        same_module_fields(a, b),
    ensures
        same_module_fields(b, a),
        same_module_fields(b, c) ==> same_module_fields(a, c),
    decreases a, 1nat,
{
    assert forall|j: int| 0 <= j < b.len() implies has_field(
        a,
        (#[trigger] b[j]).name,
        b[j].ty,
    ) by {
        lemma_field_source(a, b, j);
    }
    assert forall|i: int| 0 <= i < a.len() implies is_field(b, (#[trigger] a[i]).name, a[i].ty) by {
        lemma_field_found(a, b, c, i);
    }
    if same_module_fields(b, c) {
        assert forall|i: int| 0 <= i < a.len() implies has_field(
            c,
            (#[trigger] a[i]).name,
            a[i].ty,
        ) by {
            lemma_field_found(a, b, c, i);
        }
        assert forall|k: int| 0 <= k < c.len() implies is_field(
            a,
            (#[trigger] c[k]).name,
            c[k].ty,
        ) by {
            lemma_field_source_through(a, b, c, k);
        }
    }
}

proof fn lemma_equivalent_forall_function(
    a: ForallView<FunctionView>,
    b: ForallView<FunctionView>,
    c: ForallView<FunctionView>,
)
    requires
        same_forall_function(a, b),
    ensures
        same_forall_function(b, a),
        same_forall_function(b, c) ==> same_forall_function(a, c),
    decreases a, 1nat,
{
    lemma_forall_function_parts(a);
    lemma_equivalent_quantifieds(a.tparams, b.tparams, c.tparams);
    lemma_equivalent_function(a.body, b.body, c.body);
}

proof fn lemma_equivalent_forall_forallable(
    a: ForallView<ForallableView>,
    b: ForallView<ForallableView>,
    c: ForallView<ForallableView>,
)
    requires
        same_forall_forallable(a, b),
    ensures
        same_forall_forallable(b, a),
        same_forall_forallable(b, c) ==> same_forall_forallable(a, c),
    decreases a, 1nat,
{
    lemma_forall_forallable_parts(a);
    lemma_equivalent_quantifieds(a.tparams, b.tparams, c.tparams);
    lemma_equivalent_forallable(a.body, b.body, c.body);
}

proof fn lemma_equivalent_restriction(a: RestrictionView, b: RestrictionView, c: RestrictionView)
    requires
        same_restriction(a, b),
    ensures
        same_restriction(b, a),
        same_restriction(b, c) ==> same_restriction(a, c),
    decreases a, 1nat,
{
    lemma_same_restriction(a, b);
    lemma_same_restriction(b, a);
    lemma_same_restriction(b, c);
    lemma_same_restriction(a, c);
    lemma_restriction_parts(a);
    match a {
        RestrictionView::Bound(x) => {
            lemma_equivalent_type(x, b->Bound_0, c->Bound_0);
        },
        RestrictionView::Constraints(x) => {
            lemma_equivalent_types(x, b->Constraints_0, c->Constraints_0);
        },
        _ => {},
    }
}

proof fn lemma_equivalent_quantified(a: QuantifiedView, b: QuantifiedView, c: QuantifiedView)
    requires
        same_quantified(a, b),
    ensures
        same_quantified(b, a),
        same_quantified(b, c) ==> same_quantified(a, c),
    decreases a, 1nat,
{
    lemma_same_quantified(a, b);
    lemma_same_quantified(b, a);
    lemma_same_quantified(b, c);
    lemma_same_quantified(a, c);
    lemma_quantified_parts(a);
    if let (Some(x), Some(y)) = (a.default, b.default) {
        lemma_equivalent_type(x, y, c.default->0);
    }
    lemma_equivalent_restriction(a.restriction, b.restriction, c.restriction);
}

proof fn lemma_equivalent_targs(a: TArgsView, b: TArgsView, c: TArgsView)
    requires
        same_targs(a, b),
    ensures
        same_targs(b, a),
        same_targs(b, c) ==> same_targs(a, c),
    decreases a, 1nat,
{
    lemma_same_targs(a, b);
    lemma_same_targs(b, a);
    lemma_same_targs(b, c);
    lemma_same_targs(a, c);
    lemma_targs_parts(a);
    lemma_equivalent_quantifieds(a.tparams, b.tparams, c.tparams);
    lemma_equivalent_types(a.args, b.args, c.args);
}

proof fn lemma_equivalent_class_type(a: ClassTypeView, b: ClassTypeView, c: ClassTypeView)
    requires
        same_class_type(a, b),
    ensures
        same_class_type(b, a),
        same_class_type(b, c) ==> same_class_type(a, c),
    decreases a, 1nat,
{
    lemma_same_class_type(a, b);
    lemma_same_class_type(b, a);
    lemma_same_class_type(b, c);
    lemma_same_class_type(a, c);
    lemma_class_type_parts(a);
    lemma_equivalent_targs(a.targs, b.targs, c.targs);
}

proof fn lemma_equivalent_lit_enum(a: LitEnumView, b: LitEnumView, c: LitEnumView)
    requires
        same_lit_enum(a, b),
    ensures
        same_lit_enum(b, a),
        same_lit_enum(b, c) ==> same_lit_enum(a, c),
    decreases a, 1nat,
{
    lemma_same_lit_enum(a, b);
    lemma_same_lit_enum(b, a);
    lemma_same_lit_enum(b, c);
    lemma_same_lit_enum(a, c);
    lemma_lit_enum_parts(a);
    lemma_equivalent_class_type(a.class, b.class, c.class);
}

proof fn lemma_equivalent_lit(a: LitView, b: LitView, c: LitView)
    requires
        same_lit(a, b),
    ensures
        same_lit(b, a),
        same_lit(b, c) ==> same_lit(a, c),
    decreases a, 1nat,
{
    lemma_same_lit(a, b);
    lemma_same_lit(b, a);
    lemma_same_lit(b, c);
    lemma_same_lit(a, c);
    lemma_lit_parts(a);
    match a {
        LitView::Enum(x) => {
            lemma_equivalent_lit_enum(*x, *b->Enum_0, *c->Enum_0);
        },
        _ => {},
    }
}

proof fn lemma_equivalent_literal(a: LiteralView, b: LiteralView, c: LiteralView)
    requires
        same_literal(a, b),
    ensures
        same_literal(b, a),
        same_literal(b, c) ==> same_literal(a, c),
    decreases a, 1nat,
{
    lemma_same_literal(a, b);
    lemma_same_literal(b, a);
    lemma_same_literal(b, c);
    lemma_same_literal(a, c);
    lemma_literal_parts(a);
    lemma_equivalent_lit(a.value, b.value, c.value);
}

proof fn lemma_equivalent_param(a: ParamView, b: ParamView, c: ParamView)
    requires
        same_param(a, b),
    ensures
        same_param(b, a),
        same_param(b, c) ==> same_param(a, c),
    decreases a, 1nat,
{
    lemma_same_param(a, b);
    lemma_same_param(b, a);
    lemma_same_param(b, c);
    lemma_same_param(a, c);
    lemma_param_parts(a);
    lemma_equivalent_type(a.ty, b.ty, c.ty);
}

proof fn lemma_equivalent_params(a: ParamsView, b: ParamsView, c: ParamsView)
    requires
        same_params(a, b),
    ensures
        same_params(b, a),
        same_params(b, c) ==> same_params(a, c),
    decreases a, 1nat,
{
    lemma_same_params(a, b);
    lemma_same_params(b, a);
    lemma_same_params(b, c);
    lemma_same_params(a, c);
    lemma_params_parts(a);
    match a {
        ParamsView::List(x) => {
            lemma_equivalent_param_seq(x, b->List_0, c->List_0);
        },
        ParamsView::ParamSpec(x, x2) => {
            lemma_equivalent_param_seq(x, b->ParamSpec_0, c->ParamSpec_0);
            lemma_equivalent_type(x2, b->ParamSpec_1, c->ParamSpec_1);
        },
        _ => {},
    }
}

proof fn lemma_equivalent_callable(a: CallableView, b: CallableView, c: CallableView)
    requires
        same_callable(a, b),
    ensures
        same_callable(b, a),
        same_callable(b, c) ==> same_callable(a, c),
    decreases a, 1nat,
{
    lemma_same_callable(a, b);
    lemma_same_callable(b, a);
    lemma_same_callable(b, c);
    lemma_same_callable(a, c);
    lemma_callable_parts(a);
    lemma_equivalent_params(a.params, b.params, c.params);
    lemma_equivalent_type(a.ret, b.ret, c.ret);
}

proof fn lemma_equivalent_property_metadata(
    a: PropertyMetadataView,
    b: PropertyMetadataView,
    c: PropertyMetadataView,
)
    requires
        same_property_metadata(a, b),
    ensures
        same_property_metadata(b, a),
        same_property_metadata(b, c) ==> same_property_metadata(a, c),
    decreases a, 1nat,
{
    lemma_same_property_metadata(a, b);
    lemma_same_property_metadata(b, a);
    lemma_same_property_metadata(b, c);
    lemma_same_property_metadata(a, c);
    lemma_property_metadata_parts(a);
    lemma_equivalent_type(a.getter, b.getter, c.getter);
}

proof fn lemma_equivalent_func_flags(a: FuncFlagsView, b: FuncFlagsView, c: FuncFlagsView)
    requires
        same_func_flags(a, b),
    ensures
        same_func_flags(b, a),
        same_func_flags(b, c) ==> same_func_flags(a, c),
    decreases a, 1nat,
{
    lemma_same_func_flags(a, b);
    lemma_same_func_flags(b, a);
    lemma_same_func_flags(b, c);
    lemma_same_func_flags(a, c);
    lemma_func_flags_parts(a);
    if let (Some(x), Some(y)) = (a.property_metadata, b.property_metadata) {
        lemma_equivalent_property_metadata(x, y, c.property_metadata->0);
    }
}

proof fn lemma_equivalent_func_metadata(
    a: FuncMetadataView,
    b: FuncMetadataView,
    c: FuncMetadataView,
)
    requires
        same_func_metadata(a, b),
    ensures
        same_func_metadata(b, a),
        same_func_metadata(b, c) ==> same_func_metadata(a, c),
    decreases a, 1nat,
{
    lemma_same_func_metadata(a, b);
    lemma_same_func_metadata(b, a);
    lemma_same_func_metadata(b, c);
    lemma_same_func_metadata(a, c);
    lemma_func_metadata_parts(a);
    lemma_equivalent_func_flags(a.flags, b.flags, c.flags);
}

proof fn lemma_equivalent_function(a: FunctionView, b: FunctionView, c: FunctionView)
    requires
        same_function(a, b),
    ensures
        same_function(b, a),
        same_function(b, c) ==> same_function(a, c),
    decreases a, 1nat,
{
    lemma_same_function(a, b);
    lemma_same_function(b, a);
    lemma_same_function(b, c);
    lemma_same_function(a, c);
    lemma_function_parts(a);
    lemma_equivalent_callable(a.signature, b.signature, c.signature);
    lemma_equivalent_func_metadata(a.metadata, b.metadata, c.metadata);
}

proof fn lemma_equivalent_type_alias(a: TypeAliasView, b: TypeAliasView, c: TypeAliasView)
    requires
        same_type_alias(a, b),
    ensures
        same_type_alias(b, a),
        same_type_alias(b, c) ==> same_type_alias(a, c),
    decreases a, 1nat,
{
    lemma_same_type_alias(a, b);
    lemma_same_type_alias(b, a);
    lemma_same_type_alias(b, c);
    lemma_same_type_alias(a, c);
    lemma_type_alias_parts(a);
    lemma_equivalent_type(a.ty, b.ty, c.ty);
}

proof fn lemma_equivalent_type_alias_ref(
    a: TypeAliasRefView,
    b: TypeAliasRefView,
    c: TypeAliasRefView,
)
    requires
        same_type_alias_ref(a, b),
    ensures
        same_type_alias_ref(b, a),
        same_type_alias_ref(b, c) ==> same_type_alias_ref(a, c),
    decreases a, 1nat,
{
    lemma_same_type_alias_ref(a, b);
    lemma_same_type_alias_ref(b, a);
    lemma_same_type_alias_ref(b, c);
    lemma_same_type_alias_ref(a, c);
    lemma_type_alias_ref_parts(a);
    if let (Some(x), Some(y)) = (a.args, b.args) {
        lemma_equivalent_targs(x, y, c.args->0);
    }
}

proof fn lemma_equivalent_type_alias_data(
    a: TypeAliasDataView,
    b: TypeAliasDataView,
    c: TypeAliasDataView,
)
    requires
        same_type_alias_data(a, b),
    ensures
        same_type_alias_data(b, a),
        same_type_alias_data(b, c) ==> same_type_alias_data(a, c),
    decreases a, 1nat,
{
    lemma_same_type_alias_data(a, b);
    lemma_same_type_alias_data(b, a);
    lemma_same_type_alias_data(b, c);
    lemma_same_type_alias_data(a, c);
    lemma_type_alias_data_parts(a);
    match a {
        TypeAliasDataView::Value(x) => {
            lemma_equivalent_type_alias(x, b->Value_0, c->Value_0);
        },
        TypeAliasDataView::Ref(x) => {
            lemma_equivalent_type_alias_ref(x, b->Ref_0, c->Ref_0);
        },
    }
}

proof fn lemma_equivalent_forallable(a: ForallableView, b: ForallableView, c: ForallableView)
    requires
        same_forallable(a, b),
    ensures
        same_forallable(b, a),
        same_forallable(b, c) ==> same_forallable(a, c),
    decreases a, 1nat,
{
    lemma_same_forallable(a, b);
    lemma_same_forallable(b, a);
    lemma_same_forallable(b, c);
    lemma_same_forallable(a, c);
    lemma_forallable_parts(a);
    match a {
        ForallableView::TypeAlias(x) => {
            lemma_equivalent_type_alias_data(x, b->TypeAlias_0, c->TypeAlias_0);
        },
        ForallableView::Function(x) => {
            lemma_equivalent_function(x, b->Function_0, c->Function_0);
        },
        ForallableView::Callable(x) => {
            lemma_equivalent_callable(x, b->Callable_0, c->Callable_0);
        },
    }
}

proof fn lemma_equivalent_overload_type(
    a: OverloadTypeView,
    b: OverloadTypeView,
    c: OverloadTypeView,
)
    requires
        same_overload_type(a, b),
    ensures
        same_overload_type(b, a),
        same_overload_type(b, c) ==> same_overload_type(a, c),
    decreases a, 1nat,
{
    lemma_same_overload_type(a, b);
    lemma_same_overload_type(b, a);
    lemma_same_overload_type(b, c);
    lemma_same_overload_type(a, c);
    lemma_overload_type_parts(a);
    match a {
        OverloadTypeView::Function(x) => {
            lemma_equivalent_function(x, b->Function_0, c->Function_0);
        },
        OverloadTypeView::Forall(x) => {
            lemma_equivalent_forall_function(x, b->Forall_0, c->Forall_0);
        },
    }
}

proof fn lemma_equivalent_overload(a: OverloadView, b: OverloadView, c: OverloadView)
    requires
        same_overload(a, b),
    ensures
        same_overload(b, a),
        same_overload(b, c) ==> same_overload(a, c),
    decreases a, 1nat,
{
    lemma_same_overload(a, b);
    lemma_same_overload(b, a);
    lemma_same_overload(b, c);
    lemma_same_overload(a, c);
    lemma_overload_parts(a);
    lemma_equivalent_overloads(a.signatures, b.signatures, c.signatures);
    lemma_equivalent_func_metadata(*a.metadata, *b.metadata, *c.metadata);
}

proof fn lemma_equivalent_bound_method_type(
    a: BoundMethodTypeView,
    b: BoundMethodTypeView,
    c: BoundMethodTypeView,
)
    requires
        same_bound_method_type(a, b),
    ensures
        same_bound_method_type(b, a),
        same_bound_method_type(b, c) ==> same_bound_method_type(a, c),
    decreases a, 1nat,
{
    lemma_same_bound_method_type(a, b);
    lemma_same_bound_method_type(b, a);
    lemma_same_bound_method_type(b, c);
    lemma_same_bound_method_type(a, c);
    lemma_bound_method_type_parts(a);
    match a {
        BoundMethodTypeView::Function(x) => {
            lemma_equivalent_function(x, b->Function_0, c->Function_0);
        },
        BoundMethodTypeView::Forall(x) => {
            lemma_equivalent_forall_function(x, b->Forall_0, c->Forall_0);
        },
        BoundMethodTypeView::Overload(x) => {
            lemma_equivalent_overload(x, b->Overload_0, c->Overload_0);
        },
    }
}

proof fn lemma_equivalent_bound_method(a: BoundMethodView, b: BoundMethodView, c: BoundMethodView)
    requires
        same_bound_method(a, b),
    ensures
        same_bound_method(b, a),
        same_bound_method(b, c) ==> same_bound_method(a, c),
    decreases a, 1nat,
{
    lemma_same_bound_method(a, b);
    lemma_same_bound_method(b, a);
    lemma_same_bound_method(b, c);
    lemma_same_bound_method(a, c);
    lemma_bound_method_parts(a);
    lemma_equivalent_type(a.obj, b.obj, c.obj);
    lemma_equivalent_bound_method_type(a.func, b.func, c.func);
}

proof fn lemma_equivalent_union(a: UnionView, b: UnionView, c: UnionView)
    requires
        same_union(a, b),
    ensures
        same_union(b, a),
        same_union(b, c) ==> same_union(a, c),
    decreases a, 1nat,
{
    lemma_same_union(a, b);
    lemma_same_union(b, a);
    lemma_same_union(b, c);
    lemma_same_union(a, c);
    lemma_union_parts(a);
    lemma_equivalent_types(a.members, b.members, c.members);
}

proof fn lemma_equivalent_typed_dict(a: TypedDictView, b: TypedDictView, c: TypedDictView)
    requires
        same_typed_dict(a, b),
    ensures
        same_typed_dict(b, a),
        same_typed_dict(b, c) ==> same_typed_dict(a, c),
    decreases a, 1nat,
{
    lemma_same_typed_dict(a, b);
    lemma_same_typed_dict(b, a);
    lemma_same_typed_dict(b, c);
    lemma_same_typed_dict(a, c);
    lemma_typed_dict_parts(a);
    match a {
        TypedDictView::TypedDict(x) => {
            lemma_equivalent_class_type(x, b->TypedDict_0, c->TypedDict_0);
        },
        TypedDictView::Anonymous(x) => {
            lemma_equivalent_fields(x, b->Anonymous_0, c->Anonymous_0);
        },
    }
}

proof fn lemma_equivalent_field(a: FieldView, b: FieldView, c: FieldView)
    requires
        same_field(a, b),
    ensures
        same_field(b, a),
        same_field(b, c) ==> same_field(a, c),
    decreases a, 1nat,
{
    lemma_same_field(a, b);
    lemma_same_field(b, a);
    lemma_same_field(b, c);
    lemma_same_field(a, c);
    lemma_field_parts(a);
    lemma_equivalent_type(a.ty, b.ty, c.ty);
}

proof fn lemma_equivalent_int(a: IntView, b: IntView, c: IntView)
    requires
        same_int(a, b),
    ensures
        same_int(b, a),
        same_int(b, c) ==> same_int(a, c),
    decreases a, 1nat,
{
    lemma_same_int(a, b);
    lemma_same_int(b, a);
    lemma_same_int(b, c);
    lemma_same_int(a, c);
    lemma_int_parts(a);
    match a {
        IntView::Symbolic(x) => {
            lemma_equivalent_type(*x, *b->Symbolic_0, *c->Symbolic_0);
        },
        _ => {},
    }
}

proof fn lemma_equivalent_shaped_array_type(
    a: ShapedArrayTypeView,
    b: ShapedArrayTypeView,
    c: ShapedArrayTypeView,
)
    requires
        same_shaped_array_type(a, b),
    ensures
        same_shaped_array_type(b, a),
        same_shaped_array_type(b, c) ==> same_shaped_array_type(a, c),
    decreases a, 1nat,
{
    lemma_same_shaped_array_type(a, b);
    lemma_same_shaped_array_type(b, a);
    lemma_same_shaped_array_type(b, c);
    lemma_same_shaped_array_type(a, c);
    lemma_shaped_array_type_parts(a);
    lemma_equivalent_class_type(a.base_class, b.base_class, c.base_class);
    lemma_equivalent_dims(a.shape, b.shape, c.shape);
}

proof fn lemma_equivalent_nn_module_type(
    a: NNModuleTypeView,
    b: NNModuleTypeView,
    c: NNModuleTypeView,
)
    requires
        same_nn_module_type(a, b),
    ensures
        same_nn_module_type(b, a),
        same_nn_module_type(b, c) ==> same_nn_module_type(a, c),
    decreases a, 1nat,
{
    lemma_same_nn_module_type(a, b);
    lemma_same_nn_module_type(b, a);
    lemma_same_nn_module_type(b, c);
    lemma_same_nn_module_type(a, c);
    lemma_nn_module_type_parts(a);
    lemma_equivalent_class_type(a.class, b.class, c.class);
    lemma_equivalent_module_fields(a.fields, b.fields, c.fields);
}

proof fn lemma_equivalent_data_frame_schema(
    a: DataFrameSchemaView,
    b: DataFrameSchemaView,
    c: DataFrameSchemaView,
)
    requires
        same_data_frame_schema(a, b),
    ensures
        same_data_frame_schema(b, a),
        same_data_frame_schema(b, c) ==> same_data_frame_schema(a, c),
    decreases a, 1nat,
{
    lemma_same_data_frame_schema(a, b);
    lemma_same_data_frame_schema(b, a);
    lemma_same_data_frame_schema(b, c);
    lemma_same_data_frame_schema(a, c);
    lemma_data_frame_schema_parts(a);
    lemma_equivalent_class_type(a.class, b.class, c.class);
    lemma_equivalent_fields(a.columns, b.columns, c.columns);
}

proof fn lemma_equivalent_series_schema(
    a: SeriesSchemaView,
    b: SeriesSchemaView,
    c: SeriesSchemaView,
)
    requires
        same_series_schema(a, b),
    ensures
        same_series_schema(b, a),
        same_series_schema(b, c) ==> same_series_schema(a, c),
    decreases a, 1nat,
{
    lemma_same_series_schema(a, b);
    lemma_same_series_schema(b, a);
    lemma_same_series_schema(b, c);
    lemma_same_series_schema(a, c);
    lemma_series_schema_parts(a);
    lemma_equivalent_class_type(a.class, b.class, c.class);
    lemma_equivalent_type(a.element, b.element, c.element);
}

proof fn lemma_equivalent_tuple(a: TupleView, b: TupleView, c: TupleView)
    requires
        same_tuple(a, b),
    ensures
        same_tuple(b, a),
        same_tuple(b, c) ==> same_tuple(a, c),
    decreases a, 1nat,
{
    lemma_same_tuple(a, b);
    lemma_same_tuple(b, a);
    lemma_same_tuple(b, c);
    lemma_same_tuple(a, c);
    lemma_tuple_parts(a);
    match a {
        TupleView::Concrete(x) => {
            lemma_equivalent_types(x, b->Concrete_0, c->Concrete_0);
        },
        TupleView::Unbounded(x) => {
            lemma_equivalent_type(*x, *b->Unbounded_0, *c->Unbounded_0);
        },
        TupleView::Unpacked(x) => {
            lemma_equivalent_types(x.0, b->Unpacked_0.0, c->Unpacked_0.0);
            lemma_equivalent_type(x.1, b->Unpacked_0.1, c->Unpacked_0.1);
            lemma_equivalent_types(x.2, b->Unpacked_0.2, c->Unpacked_0.2);
        },
    }
}

proof fn lemma_equivalent_kw_call(a: KwCallView, b: KwCallView, c: KwCallView)
    requires
        same_kw_call(a, b),
    ensures
        same_kw_call(b, a),
        same_kw_call(b, c) ==> same_kw_call(a, c),
    decreases a, 1nat,
{
    lemma_same_kw_call(a, b);
    lemma_same_kw_call(b, a);
    lemma_same_kw_call(b, c);
    lemma_same_kw_call(a, c);
    lemma_kw_call_parts(a);
    lemma_equivalent_fields(a.keywords, b.keywords, c.keywords);
    lemma_equivalent_type(a.return_ty, b.return_ty, c.return_ty);
}

proof fn lemma_equivalent_callable_residual(
    a: CallableResidualView,
    b: CallableResidualView,
    c: CallableResidualView,
)
    requires
        same_callable_residual(a, b),
    ensures
        same_callable_residual(b, a),
        same_callable_residual(b, c) ==> same_callable_residual(a, c),
    decreases a, 1nat,
{
    lemma_same_callable_residual(a, b);
    lemma_same_callable_residual(b, a);
    lemma_same_callable_residual(b, c);
    lemma_same_callable_residual(a, c);
    lemma_callable_residual_parts(a);
    lemma_equivalent_types(a.captured, b.captured, c.captured);
    lemma_equivalent_type(a.fallback, b.fallback, c.fallback);
}

proof fn lemma_equivalent_type_level_dsl_call(
    a: TypeLevelDslCallView,
    b: TypeLevelDslCallView,
    c: TypeLevelDslCallView,
)
    requires
        same_type_level_dsl_call(a, b),
    ensures
        same_type_level_dsl_call(b, a),
        same_type_level_dsl_call(b, c) ==> same_type_level_dsl_call(a, c),
    decreases a, 1nat,
{
    lemma_same_type_level_dsl_call(a, b);
    lemma_same_type_level_dsl_call(b, a);
    lemma_same_type_level_dsl_call(b, c);
    lemma_same_type_level_dsl_call(a, c);
    lemma_type_level_dsl_call_parts(a);
    lemma_equivalent_types(a.args, b.args, c.args);
    lemma_equivalent_type(a.result_schema, b.result_schema, c.result_schema);
}

proof fn lemma_equivalent_super_obj(a: SuperObjView, b: SuperObjView, c: SuperObjView)
    requires
        same_super_obj(a, b),
    ensures
        same_super_obj(b, a),
        same_super_obj(b, c) ==> same_super_obj(a, c),
    decreases a, 1nat,
{
    lemma_same_super_obj(a, b);
    lemma_same_super_obj(b, a);
    lemma_same_super_obj(b, c);
    lemma_same_super_obj(a, c);
    lemma_super_obj_parts(a);
    match a {
        SuperObjView::Instance(x) => {
            lemma_equivalent_class_type(x, b->Instance_0, c->Instance_0);
        },
        SuperObjView::Class(x) => {
            lemma_equivalent_class_type(x, b->Class_0, c->Class_0);
        },
    }
}

#[verifier::rlimit(80)]
#[verifier::spinoff_prover]
proof fn lemma_equivalent_type(a: TypeView, b: TypeView, c: TypeView)
    requires
        same_type(a, b),
    ensures
        same_type(b, a),
        same_type(b, c) ==> same_type(a, c),
    decreases a, 1nat,
{
    lemma_same_type(a, b);
    lemma_same_type(b, a);
    lemma_same_type(b, c);
    lemma_same_type(a, c);
    lemma_type_parts(a);
    match a {
        TypeView::Literal(x) => {
            lemma_equivalent_literal(*x, *b->Literal_0, *c->Literal_0);
        },
        TypeView::Callable(x) => {
            lemma_equivalent_callable(*x, *b->Callable_0, *c->Callable_0);
        },
        TypeView::CallableResidual(x) => {
            lemma_equivalent_callable_residual(*x, *b->CallableResidual_0, *c->CallableResidual_0);
        },
        TypeView::TypeLevelDslCall(x) => {
            lemma_equivalent_type_level_dsl_call(
                *x,
                *b->TypeLevelDslCall_0,
                *c->TypeLevelDslCall_0,
            );
        },
        TypeView::Function(x) => {
            lemma_equivalent_function(*x, *b->Function_0, *c->Function_0);
        },
        TypeView::BoundMethod(x) => {
            lemma_equivalent_bound_method(*x, *b->BoundMethod_0, *c->BoundMethod_0);
        },
        TypeView::Overload(x) => {
            lemma_equivalent_overload(x, b->Overload_0, c->Overload_0);
        },
        TypeView::Union(x) => {
            lemma_equivalent_union(*x, *b->Union_0, *c->Union_0);
        },
        TypeView::Intersect(x) => {
            lemma_equivalent_types(x.0, b->Intersect_0.0, c->Intersect_0.0);
            lemma_equivalent_type(x.1, b->Intersect_0.1, c->Intersect_0.1);
        },
        TypeView::ClassType(x) => {
            lemma_equivalent_class_type(x, b->ClassType_0, c->ClassType_0);
        },
        TypeView::TypedDict(x) => {
            lemma_equivalent_typed_dict(x, b->TypedDict_0, c->TypedDict_0);
        },
        TypeView::PartialTypedDict(x) => {
            lemma_equivalent_typed_dict(x, b->PartialTypedDict_0, c->PartialTypedDict_0);
        },
        TypeView::ShapedArray(x) => {
            lemma_equivalent_shaped_array_type(*x, *b->ShapedArray_0, *c->ShapedArray_0);
        },
        TypeView::IntTuple(x) => {
            lemma_equivalent_dims(*x, *b->IntTuple_0, *c->IntTuple_0);
        },
        TypeView::NNModule(x) => {
            lemma_equivalent_nn_module_type(*x, *b->NNModule_0, *c->NNModule_0);
        },
        TypeView::DataFrame(x) => {
            lemma_equivalent_data_frame_schema(*x, *b->DataFrame_0, *c->DataFrame_0);
        },
        TypeView::Series(x) => {
            lemma_equivalent_series_schema(*x, *b->Series_0, *c->Series_0);
        },
        TypeView::Int(x) => {
            lemma_equivalent_int(x, b->Int_0, c->Int_0);
        },
        TypeView::Tuple(x) => {
            lemma_equivalent_tuple(x, b->Tuple_0, c->Tuple_0);
        },
        TypeView::Forall(x) => {
            lemma_equivalent_forall_forallable(*x, *b->Forall_0, *c->Forall_0);
        },
        TypeView::Quantified(x) => {
            lemma_equivalent_quantified(*x, *b->Quantified_0, *c->Quantified_0);
        },
        TypeView::QuantifiedValue(x) => {
            lemma_equivalent_quantified(*x, *b->QuantifiedValue_0, *c->QuantifiedValue_0);
        },
        TypeView::ElementOfTypeVarTuple(x) => {
            lemma_equivalent_quantified(
                *x,
                *b->ElementOfTypeVarTuple_0,
                *c->ElementOfTypeVarTuple_0,
            );
        },
        TypeView::TypeGuard(x) => {
            lemma_equivalent_type(*x, *b->TypeGuard_0, *c->TypeGuard_0);
        },
        TypeView::TypeIs(x) => {
            lemma_equivalent_type(*x, *b->TypeIs_0, *c->TypeIs_0);
        },
        TypeView::Annotated(x, x2) => {
            lemma_equivalent_type(*x, *b->Annotated_0, *c->Annotated_0);
            lemma_equivalent_types(x2, b->Annotated_1, c->Annotated_1);
        },
        TypeView::Unpack(x) => {
            lemma_equivalent_type(*x, *b->Unpack_0, *c->Unpack_0);
        },
        TypeView::Concatenate(x, x2) => {
            lemma_equivalent_param_seq(x, b->Concatenate_0, c->Concatenate_0);
            lemma_equivalent_type(*x2, *b->Concatenate_1, *c->Concatenate_1);
        },
        TypeView::ParamSpecValue(x) => {
            lemma_equivalent_param_seq(x, b->ParamSpecValue_0, c->ParamSpecValue_0);
        },
        TypeView::Args(x) => {
            lemma_equivalent_quantified(*x, *b->Args_0, *c->Args_0);
        },
        TypeView::Kwargs(x) => {
            lemma_equivalent_quantified(*x, *b->Kwargs_0, *c->Kwargs_0);
        },
        TypeView::ArgsValue(x) => {
            lemma_equivalent_quantified(*x, *b->ArgsValue_0, *c->ArgsValue_0);
        },
        TypeView::KwargsValue(x) => {
            lemma_equivalent_quantified(*x, *b->KwargsValue_0, *c->KwargsValue_0);
        },
        TypeView::Type(x) => {
            lemma_equivalent_type(*x, *b->Type_0, *c->Type_0);
        },
        TypeView::TypeForm(x) => {
            lemma_equivalent_type(*x, *b->TypeForm_0, *c->TypeForm_0);
        },
        TypeView::TypeAlias(x) => {
            lemma_equivalent_type_alias_data(*x, *b->TypeAlias_0, *c->TypeAlias_0);
        },
        TypeView::UntypedAlias(x) => {
            lemma_equivalent_type_alias_data(*x, *b->UntypedAlias_0, *c->UntypedAlias_0);
        },
        TypeView::SuperInstance(x) => {
            lemma_equivalent_class_type(x.0, b->SuperInstance_0.0, c->SuperInstance_0.0);
            lemma_equivalent_super_obj(x.1, b->SuperInstance_0.1, c->SuperInstance_0.1);
        },
        TypeView::SelfType(x) => {
            lemma_equivalent_class_type(x, b->SelfType_0, c->SelfType_0);
        },
        TypeView::KwCall(x) => {
            lemma_equivalent_kw_call(*x, *b->KwCall_0, *c->KwCall_0);
        },
        _ => {},
    }
}

/// Equality of types is symmetric.
pub proof fn lemma_same_symmetric(a: TypeView, b: TypeView)
    requires
        same_type(a, b),
    ensures
        same_type(b, a),
{
    lemma_equivalent_type(a, b, b);
}

/// Equality of types is transitive.
pub proof fn lemma_same_transitive(a: TypeView, b: TypeView, c: TypeView)
    requires
        same_type(a, b),
        same_type(b, c),
    ensures
        same_type(a, c),
{
    lemma_equivalent_type(a, b, c);
}

} // verus!
