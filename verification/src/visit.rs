//! Visiting the types that a type holds.
use vstd::prelude::*;

use crate::data::{
    BoundMethod,
    BoundMethodType,
    Callable,
    CallableResidual,
    ClassType,
    DataFrameSchema,
    Field,
    Forall,
    Forallable,
    FuncFlags,
    FuncMetadata,
    Function,
    Int,
    IntTuple,
    KwCall,
    Lit,
    LitEnum,
    Literal,
    NNModuleType,
    Overload,
    OverloadType,
    Param,
    ParamList,
    Params,
    PropertyMetadata,
    Quantified,
    Restriction,
    SeriesSchema,
    ShapedArrayType,
    SuperObj,
    TArgs,
    TParams,
    Tuple,
    Type,
    TypeAlias,
    TypeAliasData,
    TypeAliasRef,
    TypeLevelDslCall,
    TypedDict,
    Union,
};
use crate::outside::{fields_of, signatures_of, ModuleFields, Signatures};
use crate::slots::{
    back,
    front,
    reached_bound_method,
    reached_bound_method_type,
    reached_forall_forallable,
    reached_forall_function,
    reached_overload,
    reached_overload_type,
    reached_overloads,
    reached_type,
    slots_bound_method,
    slots_bound_method_type,
    slots_callable,
    slots_callable_residual,
    slots_class_type,
    slots_class_type_super_obj,
    slots_data_frame_schema,
    slots_dims,
    slots_field,
    slots_fields,
    slots_forall_forallable,
    slots_forall_function,
    slots_forallable,
    slots_func_flags,
    slots_func_metadata,
    slots_function,
    slots_int,
    slots_kw_call,
    slots_lit,
    slots_lit_enum,
    slots_literal,
    slots_many,
    slots_many_one,
    slots_many_one_many,
    slots_nn_module_type,
    slots_one,
    slots_opt_one,
    slots_opt_property_metadata,
    slots_opt_targs,
    slots_overload,
    slots_overload_type,
    slots_overloads,
    slots_param,
    slots_param_seq,
    slots_params,
    slots_property_metadata,
    slots_quantified,
    slots_quantifieds,
    slots_restriction,
    slots_series_schema,
    slots_shaped_array_type,
    slots_super_obj,
    slots_targs,
    slots_tuple,
    slots_type,
    slots_type_alias,
    slots_type_alias_data,
    slots_type_alias_ref,
    slots_type_level_dsl_call,
    slots_typed_dict,
    slots_union,
    with_bound_method,
    with_bound_method_type,
    with_callable,
    with_callable_residual,
    with_class_type,
    with_class_type_super_obj,
    with_data_frame_schema,
    with_dims,
    with_field,
    with_fields,
    with_forall_forallable,
    with_forall_function,
    with_forallable,
    with_func_flags,
    with_func_metadata,
    with_function,
    with_int,
    with_kw_call,
    with_lit,
    with_lit_enum,
    with_literal,
    with_many,
    with_many_one,
    with_many_one_many,
    with_nn_module_type,
    with_one,
    with_opt_one,
    with_opt_property_metadata,
    with_opt_targs,
    with_overload,
    with_overload_type,
    with_overloads,
    with_param,
    with_param_seq,
    with_params,
    with_property_metadata,
    with_quantified,
    with_restriction,
    with_series_schema,
    with_shaped_array_type,
    with_super_obj,
    with_targs,
    with_tuple,
    with_type,
    with_type_alias,
    with_type_alias_data,
    with_type_alias_ref,
    with_type_level_dsl_call,
    with_typed_dict,
    with_union,
};
use crate::view::{
    BoundMethodTypeView,
    BoundMethodView,
    CallableResidualView,
    CallableView,
    ClassTypeView,
    DataFrameSchemaView,
    FieldView,
    ForallView,
    ForallableView,
    FuncFlagsView,
    FuncMetadataView,
    FunctionView,
    IntView,
    KwCallView,
    LitEnumView,
    LitView,
    LiteralView,
    NNModuleTypeView,
    OverloadTypeView,
    OverloadView,
    ParamView,
    ParamsView,
    PropertyMetadataView,
    QuantifiedView,
    RestrictionView,
    SeriesSchemaView,
    ShapedArrayTypeView,
    SuperObjView,
    TArgsView,
    TupleView,
    TypeAliasDataView,
    TypeAliasRefView,
    TypeAliasView,
    TypeLevelDslCallView,
    TypeView,
    TypedDictView,
    UnionView,
    lemma_bound_method_type_view,
    lemma_bound_method_view,
    lemma_callable_residual_view,
    lemma_callable_view,
    lemma_class_type_view,
    lemma_data_frame_schema_view,
    lemma_field_view,
    lemma_forall_forallable_view,
    lemma_forall_function_view,
    lemma_forallable_view,
    lemma_func_flags_view,
    lemma_func_metadata_view,
    lemma_function_view,
    lemma_int_tuple_view,
    lemma_int_view,
    lemma_kw_call_view,
    lemma_lit_enum_view,
    lemma_lit_view,
    lemma_literal_view,
    lemma_nn_module_type_view,
    lemma_overload_type_view,
    lemma_overload_view,
    lemma_param_list_view,
    lemma_param_view,
    lemma_params_view,
    lemma_property_metadata_view,
    lemma_quantified_view,
    lemma_restriction_view,
    lemma_series_schema_view,
    lemma_shaped_array_type_view,
    lemma_super_obj_view,
    lemma_targs_view,
    lemma_tparams_view,
    lemma_tuple_view,
    lemma_type_alias_data_view,
    lemma_type_alias_ref_view,
    lemma_type_alias_view,
    lemma_type_level_dsl_call_view,
    lemma_type_view,
    lemma_typed_dict_view,
    lemma_types_push,
    lemma_types_update,
    lemma_union_view,
    view_dims,
    view_fields,
    view_param_seq,
    view_quantifieds,
    view_types,
};

verus! {

/// The models of the types referred to.
pub open spec fn view_refs(s: Seq<&Type>) -> Seq<TypeView> {
    Seq::new(s.len(), |i: int| (*s[i])@)
}

proof fn lemma_append_types(a: Seq<TypeView>, b: Seq<TypeView>, c: Seq<TypeView>)
    ensures
        (a + b) + c == a + (b + c),
{
    assert((a + b) + c =~= a + (b + c));
}

/// Taking `k1` elements off the end and then `k0` more parts the last `k0 + k1` elements.
proof fn lemma_nested(ts: Seq<TypeView>, k0: nat, k1: nat)
    requires
        k0 + k1 <= ts.len(),
    ensures
        front(front(ts, k1), k0) == front(ts, k0 + k1),
        back(front(ts, k1), k0) == front(back(ts, k0 + k1), k1),
        back(ts, k1) == back(back(ts, k0 + k1), k1),
{
    assert(front(front(ts, k1), k0) =~= front(ts, k0 + k1));
    assert(back(front(ts, k1), k0) =~= front(back(ts, k0 + k1), k1));
    assert(back(ts, k1) =~= back(back(ts, k0 + k1), k1));
}

/// `b` differs from `a` at most in what its slots hold.
spec fn kept_one(a: TypeView, b: TypeView) -> bool {
    &&& slots_one(a).len() == slots_one(b).len()
    &&& forall|us: Seq<TypeView>|
        us.len() == slots_one(a).len() ==> with_one(a, us) == #[trigger] with_one(b, us)
}

/// `b` differs from `a` at most in what its slots hold.
spec fn kept_many(a: Seq<TypeView>, b: Seq<TypeView>) -> bool {
    &&& slots_many(a).len() == slots_many(b).len()
    &&& forall|us: Seq<TypeView>|
        us.len() == slots_many(a).len() ==> with_many(a, us) == #[trigger] with_many(b, us)
}

/// `b` differs from `a` at most in what its slots hold.
spec fn kept_opt_one(a: Option<TypeView>, b: Option<TypeView>) -> bool {
    &&& slots_opt_one(a).len() == slots_opt_one(b).len()
    &&& forall|us: Seq<TypeView>|
        us.len() == slots_opt_one(a).len() ==> with_opt_one(a, us) == #[trigger] with_opt_one(b, us)
}

spec fn opt_view_one(x: Option<Type>) -> Option<TypeView> {
    match x {
        Some(y) => Some(y@),
        None => None,
    }
}

/// `b` differs from `a` at most in what its slots hold.
spec fn kept_opt_property_metadata(
    a: Option<PropertyMetadataView>,
    b: Option<PropertyMetadataView>,
) -> bool {
    &&& slots_opt_property_metadata(a).len() == slots_opt_property_metadata(b).len()
    &&& forall|us: Seq<TypeView>|
        us.len() == slots_opt_property_metadata(a).len() ==> with_opt_property_metadata(a, us)
            == #[trigger] with_opt_property_metadata(b, us)
}

spec fn opt_view_property_metadata(x: Option<PropertyMetadata>) -> Option<PropertyMetadataView> {
    match x {
        Some(y) => Some(y@),
        None => None,
    }
}

/// `b` differs from `a` at most in what its slots hold.
spec fn kept_opt_targs(a: Option<TArgsView>, b: Option<TArgsView>) -> bool {
    &&& slots_opt_targs(a).len() == slots_opt_targs(b).len()
    &&& forall|us: Seq<TypeView>|
        us.len() == slots_opt_targs(a).len() ==> with_opt_targs(a, us)
            == #[trigger] with_opt_targs(b, us)
}

spec fn opt_view_targs(x: Option<TArgs>) -> Option<TArgsView> {
    match x {
        Some(y) => Some(y@),
        None => None,
    }
}

/// `b` differs from `a` at most in what its slots hold.
spec fn kept_many_one(a: (Seq<TypeView>, TypeView), b: (Seq<TypeView>, TypeView)) -> bool {
    &&& slots_many_one(a).len() == slots_many_one(b).len()
    &&& forall|us: Seq<TypeView>|
        us.len() == slots_many_one(a).len() ==> with_many_one(a, us)
            == #[trigger] with_many_one(b, us)
}

/// `b` differs from `a` at most in what its slots hold.
spec fn kept_many_one_many(
    a: (Seq<TypeView>, TypeView, Seq<TypeView>),
    b: (Seq<TypeView>, TypeView, Seq<TypeView>),
) -> bool {
    &&& slots_many_one_many(a).len() == slots_many_one_many(b).len()
    &&& forall|us: Seq<TypeView>|
        us.len() == slots_many_one_many(a).len() ==> with_many_one_many(a, us)
            == #[trigger] with_many_one_many(b, us)
}

/// `b` differs from `a` at most in what its slots hold.
spec fn kept_class_type_super_obj(
    a: (ClassTypeView, SuperObjView),
    b: (ClassTypeView, SuperObjView),
) -> bool {
    &&& slots_class_type_super_obj(a).len() == slots_class_type_super_obj(b).len()
    &&& forall|us: Seq<TypeView>|
        us.len() == slots_class_type_super_obj(a).len() ==> with_class_type_super_obj(a, us)
            == #[trigger] with_class_type_super_obj(b, us)
}

/// `b` differs from `a` at most in what its slots hold.
spec fn kept_param_seq(a: Seq<ParamView>, b: Seq<ParamView>) -> bool {
    &&& slots_param_seq(a).len() == slots_param_seq(b).len()
    &&& forall|us: Seq<TypeView>|
        us.len() == slots_param_seq(a).len() ==> with_param_seq(a, us)
            == #[trigger] with_param_seq(b, us)
}

proof fn lemma_kept_param_seq(a: Seq<ParamView>, b: Seq<ParamView>)
    requires
        a.len() == b.len(),
        forall|j: int| 0 <= j < a.len() ==> kept_param(#[trigger] a[j], b[j]),
    ensures
        kept_param_seq(a, b),
    decreases a.len(),
{
    if a.len() > 0 {
        assert forall|j: int| 0 <= j < a.len() - 1 implies kept_param(
            #[trigger] a.drop_last()[j],
            b.drop_last()[j],
        ) by {
            assert(kept_param(a[j], b[j]));
        }
        lemma_kept_param_seq(a.drop_last(), b.drop_last());
        assert(kept_param(a[a.len() - 1], b[a.len() - 1]));
        let k = slots_param(a.last()).len();
        assert forall|us: Seq<TypeView>| us.len() == slots_param_seq(
            a,
        ).len() implies with_param_seq(
            a,
            us,
        )
            == #[trigger] with_param_seq(b, us) by {
            assert(
                with_param_seq(a.drop_last(), front(us, k))
                    == with_param_seq(b.drop_last(), front(us, k))
            );
            assert(with_param(a.last(), back(us, k)) == with_param(b.last(), back(us, k)));
        }
    }
}

/// `b` differs from `a` at most in what its slots hold.
spec fn kept_fields(a: Seq<FieldView>, b: Seq<FieldView>) -> bool {
    &&& slots_fields(a).len() == slots_fields(b).len()
    &&& forall|us: Seq<TypeView>|
        us.len() == slots_fields(a).len() ==> with_fields(a, us) == #[trigger] with_fields(b, us)
}

proof fn lemma_kept_fields(a: Seq<FieldView>, b: Seq<FieldView>)
    requires
        a.len() == b.len(),
        forall|j: int| 0 <= j < a.len() ==> kept_field(#[trigger] a[j], b[j]),
    ensures
        kept_fields(a, b),
    decreases a.len(),
{
    if a.len() > 0 {
        assert forall|j: int| 0 <= j < a.len() - 1 implies kept_field(
            #[trigger] a.drop_last()[j],
            b.drop_last()[j],
        ) by {
            assert(kept_field(a[j], b[j]));
        }
        lemma_kept_fields(a.drop_last(), b.drop_last());
        assert(kept_field(a[a.len() - 1], b[a.len() - 1]));
        let k = slots_field(a.last()).len();
        assert forall|us: Seq<TypeView>| us.len() == slots_fields(a).len() implies with_fields(
            a,
            us,
        )
            == #[trigger] with_fields(b, us) by {
            assert(
                with_fields(a.drop_last(), front(us, k)) == with_fields(b.drop_last(), front(us, k))
            );
            assert(with_field(a.last(), back(us, k)) == with_field(b.last(), back(us, k)));
        }
    }
}

/// `b` differs from `a` at most in what its slots hold.
spec fn kept_overloads(a: Seq<OverloadTypeView>, b: Seq<OverloadTypeView>) -> bool {
    &&& slots_overloads(a).len() == slots_overloads(b).len()
    &&& forall|us: Seq<TypeView>|
        us.len() == slots_overloads(a).len() ==> with_overloads(a, us)
            == #[trigger] with_overloads(b, us)
}

proof fn lemma_kept_overloads(a: Seq<OverloadTypeView>, b: Seq<OverloadTypeView>)
    requires
        a.len() == b.len(),
        forall|j: int| 0 <= j < a.len() ==> kept_overload_type(#[trigger] a[j], b[j]),
    ensures
        kept_overloads(a, b),
    decreases a.len(),
{
    if a.len() > 0 {
        assert forall|j: int| 0 <= j < a.len() - 1 implies kept_overload_type(
            #[trigger] a.drop_last()[j],
            b.drop_last()[j],
        ) by {
            assert(kept_overload_type(a[j], b[j]));
        }
        lemma_kept_overloads(a.drop_last(), b.drop_last());
        assert(kept_overload_type(a[a.len() - 1], b[a.len() - 1]));
        let k = slots_overload_type(a.last()).len();
        assert forall|us: Seq<TypeView>| us.len() == slots_overloads(
            a,
        ).len() implies with_overloads(
            a,
            us,
        )
            == #[trigger] with_overloads(b, us) by {
            assert(
                with_overloads(a.drop_last(), front(us, k))
                    == with_overloads(b.drop_last(), front(us, k))
            );
            assert(
                with_overload_type(a.last(), back(us, k))
                    == with_overload_type(b.last(), back(us, k))
            );
        }
    }
}

/// `b` differs from `a` at most in what its slots hold.
spec fn kept_dims(a: Seq<IntView>, b: Seq<IntView>) -> bool {
    &&& slots_dims(a).len() == slots_dims(b).len()
    &&& forall|us: Seq<TypeView>|
        us.len() == slots_dims(a).len() ==> with_dims(a, us) == #[trigger] with_dims(b, us)
}

proof fn lemma_kept_dims(a: Seq<IntView>, b: Seq<IntView>)
    requires
        a.len() == b.len(),
        forall|j: int| 0 <= j < a.len() ==> kept_int(#[trigger] a[j], b[j]),
    ensures
        kept_dims(a, b),
    decreases a.len(),
{
    if a.len() > 0 {
        assert forall|j: int| 0 <= j < a.len() - 1 implies kept_int(
            #[trigger] a.drop_last()[j],
            b.drop_last()[j],
        ) by {
            assert(kept_int(a[j], b[j]));
        }
        lemma_kept_dims(a.drop_last(), b.drop_last());
        assert(kept_int(a[a.len() - 1], b[a.len() - 1]));
        let k = slots_int(a.last()).len();
        assert forall|us: Seq<TypeView>| us.len() == slots_dims(a).len() implies with_dims(a, us)
            == #[trigger] with_dims(b, us) by {
            assert(
                with_dims(a.drop_last(), front(us, k)) == with_dims(b.drop_last(), front(us, k))
            );
            assert(with_int(a.last(), back(us, k)) == with_int(b.last(), back(us, k)));
        }
    }
}

/// `b` differs from `a` at most in what its slots hold.
spec fn kept_forall_function(a: ForallView<FunctionView>, b: ForallView<FunctionView>) -> bool {
    &&& slots_forall_function(a).len() == slots_forall_function(b).len()
    &&& forall|us: Seq<TypeView>|
        us.len() == slots_forall_function(a).len() ==> with_forall_function(a, us)
            == #[trigger] with_forall_function(b, us)
}

/// `b` differs from `a` at most in what its slots hold.
spec fn kept_forall_forallable(
    a: ForallView<ForallableView>,
    b: ForallView<ForallableView>,
) -> bool {
    &&& slots_forall_forallable(a).len() == slots_forall_forallable(b).len()
    &&& forall|us: Seq<TypeView>|
        us.len() == slots_forall_forallable(a).len() ==> with_forall_forallable(a, us)
            == #[trigger] with_forall_forallable(b, us)
}

/// `b` differs from `a` at most in what its slots hold.
spec fn kept_restriction(a: RestrictionView, b: RestrictionView) -> bool {
    &&& slots_restriction(a).len() == slots_restriction(b).len()
    &&& forall|us: Seq<TypeView>|
        us.len() == slots_restriction(a).len() ==> with_restriction(a, us)
            == #[trigger] with_restriction(b, us)
}

/// `b` differs from `a` at most in what its slots hold.
spec fn kept_quantified(a: QuantifiedView, b: QuantifiedView) -> bool {
    &&& slots_quantified(a).len() == slots_quantified(b).len()
    &&& forall|us: Seq<TypeView>|
        us.len() == slots_quantified(a).len() ==> with_quantified(a, us)
            == #[trigger] with_quantified(b, us)
}

/// `b` differs from `a` at most in what its slots hold.
spec fn kept_targs(a: TArgsView, b: TArgsView) -> bool {
    &&& slots_targs(a).len() == slots_targs(b).len()
    &&& forall|us: Seq<TypeView>|
        us.len() == slots_targs(a).len() ==> with_targs(a, us) == #[trigger] with_targs(b, us)
}

/// `b` differs from `a` at most in what its slots hold.
spec fn kept_class_type(a: ClassTypeView, b: ClassTypeView) -> bool {
    &&& slots_class_type(a).len() == slots_class_type(b).len()
    &&& forall|us: Seq<TypeView>|
        us.len() == slots_class_type(a).len() ==> with_class_type(a, us)
            == #[trigger] with_class_type(b, us)
}

/// `b` differs from `a` at most in what its slots hold.
spec fn kept_lit_enum(a: LitEnumView, b: LitEnumView) -> bool {
    &&& slots_lit_enum(a).len() == slots_lit_enum(b).len()
    &&& forall|us: Seq<TypeView>|
        us.len() == slots_lit_enum(a).len() ==> with_lit_enum(a, us)
            == #[trigger] with_lit_enum(b, us)
}

/// `b` differs from `a` at most in what its slots hold.
spec fn kept_lit(a: LitView, b: LitView) -> bool {
    &&& slots_lit(a).len() == slots_lit(b).len()
    &&& forall|us: Seq<TypeView>|
        us.len() == slots_lit(a).len() ==> with_lit(a, us) == #[trigger] with_lit(b, us)
}

/// `b` differs from `a` at most in what its slots hold.
spec fn kept_literal(a: LiteralView, b: LiteralView) -> bool {
    &&& slots_literal(a).len() == slots_literal(b).len()
    &&& forall|us: Seq<TypeView>|
        us.len() == slots_literal(a).len() ==> with_literal(a, us) == #[trigger] with_literal(b, us)
}

/// `b` differs from `a` at most in what its slots hold.
spec fn kept_param(a: ParamView, b: ParamView) -> bool {
    &&& slots_param(a).len() == slots_param(b).len()
    &&& forall|us: Seq<TypeView>|
        us.len() == slots_param(a).len() ==> with_param(a, us) == #[trigger] with_param(b, us)
}

/// `b` differs from `a` at most in what its slots hold.
spec fn kept_params(a: ParamsView, b: ParamsView) -> bool {
    &&& slots_params(a).len() == slots_params(b).len()
    &&& forall|us: Seq<TypeView>|
        us.len() == slots_params(a).len() ==> with_params(a, us) == #[trigger] with_params(b, us)
}

/// `b` differs from `a` at most in what its slots hold.
pub open spec fn kept_callable(a: CallableView, b: CallableView) -> bool {
    &&& slots_callable(a).len() == slots_callable(b).len()
    &&& forall|us: Seq<TypeView>|
        us.len() == slots_callable(a).len() ==> with_callable(a, us)
            == #[trigger] with_callable(b, us)
}

/// `b` differs from `a` at most in what its slots hold.
spec fn kept_property_metadata(a: PropertyMetadataView, b: PropertyMetadataView) -> bool {
    &&& slots_property_metadata(a).len() == slots_property_metadata(b).len()
    &&& forall|us: Seq<TypeView>|
        us.len() == slots_property_metadata(a).len() ==> with_property_metadata(a, us)
            == #[trigger] with_property_metadata(b, us)
}

/// `b` differs from `a` at most in what its slots hold.
spec fn kept_func_flags(a: FuncFlagsView, b: FuncFlagsView) -> bool {
    &&& slots_func_flags(a).len() == slots_func_flags(b).len()
    &&& forall|us: Seq<TypeView>|
        us.len() == slots_func_flags(a).len() ==> with_func_flags(a, us)
            == #[trigger] with_func_flags(b, us)
}

/// `b` differs from `a` at most in what its slots hold.
spec fn kept_func_metadata(a: FuncMetadataView, b: FuncMetadataView) -> bool {
    &&& slots_func_metadata(a).len() == slots_func_metadata(b).len()
    &&& forall|us: Seq<TypeView>|
        us.len() == slots_func_metadata(a).len() ==> with_func_metadata(a, us)
            == #[trigger] with_func_metadata(b, us)
}

/// `b` differs from `a` at most in what its slots hold.
spec fn kept_function(a: FunctionView, b: FunctionView) -> bool {
    &&& slots_function(a).len() == slots_function(b).len()
    &&& forall|us: Seq<TypeView>|
        us.len() == slots_function(a).len() ==> with_function(a, us)
            == #[trigger] with_function(b, us)
}

/// `b` differs from `a` at most in what its slots hold.
spec fn kept_type_alias(a: TypeAliasView, b: TypeAliasView) -> bool {
    &&& slots_type_alias(a).len() == slots_type_alias(b).len()
    &&& forall|us: Seq<TypeView>|
        us.len() == slots_type_alias(a).len() ==> with_type_alias(a, us)
            == #[trigger] with_type_alias(b, us)
}

/// `b` differs from `a` at most in what its slots hold.
spec fn kept_type_alias_ref(a: TypeAliasRefView, b: TypeAliasRefView) -> bool {
    &&& slots_type_alias_ref(a).len() == slots_type_alias_ref(b).len()
    &&& forall|us: Seq<TypeView>|
        us.len() == slots_type_alias_ref(a).len() ==> with_type_alias_ref(a, us)
            == #[trigger] with_type_alias_ref(b, us)
}

/// `b` differs from `a` at most in what its slots hold.
spec fn kept_type_alias_data(a: TypeAliasDataView, b: TypeAliasDataView) -> bool {
    &&& slots_type_alias_data(a).len() == slots_type_alias_data(b).len()
    &&& forall|us: Seq<TypeView>|
        us.len() == slots_type_alias_data(a).len() ==> with_type_alias_data(a, us)
            == #[trigger] with_type_alias_data(b, us)
}

/// `b` differs from `a` at most in what its slots hold.
spec fn kept_forallable(a: ForallableView, b: ForallableView) -> bool {
    &&& slots_forallable(a).len() == slots_forallable(b).len()
    &&& forall|us: Seq<TypeView>|
        us.len() == slots_forallable(a).len() ==> with_forallable(a, us)
            == #[trigger] with_forallable(b, us)
}

/// `b` differs from `a` at most in what its slots hold.
spec fn kept_overload_type(a: OverloadTypeView, b: OverloadTypeView) -> bool {
    &&& slots_overload_type(a).len() == slots_overload_type(b).len()
    &&& forall|us: Seq<TypeView>|
        us.len() == slots_overload_type(a).len() ==> with_overload_type(a, us)
            == #[trigger] with_overload_type(b, us)
}

/// `b` differs from `a` at most in what its slots hold.
spec fn kept_overload(a: OverloadView, b: OverloadView) -> bool {
    &&& slots_overload(a).len() == slots_overload(b).len()
    &&& forall|us: Seq<TypeView>|
        us.len() == slots_overload(a).len() ==> with_overload(a, us)
            == #[trigger] with_overload(b, us)
}

/// `b` differs from `a` at most in what its slots hold.
spec fn kept_bound_method_type(a: BoundMethodTypeView, b: BoundMethodTypeView) -> bool {
    &&& slots_bound_method_type(a).len() == slots_bound_method_type(b).len()
    &&& forall|us: Seq<TypeView>|
        us.len() == slots_bound_method_type(a).len() ==> with_bound_method_type(a, us)
            == #[trigger] with_bound_method_type(b, us)
}

/// `b` differs from `a` at most in what its slots hold.
spec fn kept_bound_method(a: BoundMethodView, b: BoundMethodView) -> bool {
    &&& slots_bound_method(a).len() == slots_bound_method(b).len()
    &&& forall|us: Seq<TypeView>|
        us.len() == slots_bound_method(a).len() ==> with_bound_method(a, us)
            == #[trigger] with_bound_method(b, us)
}

/// `b` differs from `a` at most in what its slots hold.
spec fn kept_union(a: UnionView, b: UnionView) -> bool {
    &&& slots_union(a).len() == slots_union(b).len()
    &&& forall|us: Seq<TypeView>|
        us.len() == slots_union(a).len() ==> with_union(a, us) == #[trigger] with_union(b, us)
}

/// `b` differs from `a` at most in what its slots hold.
spec fn kept_typed_dict(a: TypedDictView, b: TypedDictView) -> bool {
    &&& slots_typed_dict(a).len() == slots_typed_dict(b).len()
    &&& forall|us: Seq<TypeView>|
        us.len() == slots_typed_dict(a).len() ==> with_typed_dict(a, us)
            == #[trigger] with_typed_dict(b, us)
}

/// `b` differs from `a` at most in what its slots hold.
spec fn kept_field(a: FieldView, b: FieldView) -> bool {
    &&& slots_field(a).len() == slots_field(b).len()
    &&& forall|us: Seq<TypeView>|
        us.len() == slots_field(a).len() ==> with_field(a, us) == #[trigger] with_field(b, us)
}

/// `b` differs from `a` at most in what its slots hold.
spec fn kept_int(a: IntView, b: IntView) -> bool {
    &&& slots_int(a).len() == slots_int(b).len()
    &&& forall|us: Seq<TypeView>|
        us.len() == slots_int(a).len() ==> with_int(a, us) == #[trigger] with_int(b, us)
}

/// `b` differs from `a` at most in what its slots hold.
spec fn kept_shaped_array_type(a: ShapedArrayTypeView, b: ShapedArrayTypeView) -> bool {
    &&& slots_shaped_array_type(a).len() == slots_shaped_array_type(b).len()
    &&& forall|us: Seq<TypeView>|
        us.len() == slots_shaped_array_type(a).len() ==> with_shaped_array_type(a, us)
            == #[trigger] with_shaped_array_type(b, us)
}

/// `b` differs from `a` at most in what its slots hold.
spec fn kept_nn_module_type(a: NNModuleTypeView, b: NNModuleTypeView) -> bool {
    &&& slots_nn_module_type(a).len() == slots_nn_module_type(b).len()
    &&& forall|us: Seq<TypeView>|
        us.len() == slots_nn_module_type(a).len() ==> with_nn_module_type(a, us)
            == #[trigger] with_nn_module_type(b, us)
}

/// `b` differs from `a` at most in what its slots hold.
spec fn kept_data_frame_schema(a: DataFrameSchemaView, b: DataFrameSchemaView) -> bool {
    &&& slots_data_frame_schema(a).len() == slots_data_frame_schema(b).len()
    &&& forall|us: Seq<TypeView>|
        us.len() == slots_data_frame_schema(a).len() ==> with_data_frame_schema(a, us)
            == #[trigger] with_data_frame_schema(b, us)
}

/// `b` differs from `a` at most in what its slots hold.
spec fn kept_series_schema(a: SeriesSchemaView, b: SeriesSchemaView) -> bool {
    &&& slots_series_schema(a).len() == slots_series_schema(b).len()
    &&& forall|us: Seq<TypeView>|
        us.len() == slots_series_schema(a).len() ==> with_series_schema(a, us)
            == #[trigger] with_series_schema(b, us)
}

/// `b` differs from `a` at most in what its slots hold.
spec fn kept_tuple(a: TupleView, b: TupleView) -> bool {
    &&& slots_tuple(a).len() == slots_tuple(b).len()
    &&& forall|us: Seq<TypeView>|
        us.len() == slots_tuple(a).len() ==> with_tuple(a, us) == #[trigger] with_tuple(b, us)
}

/// `b` differs from `a` at most in what its slots hold.
spec fn kept_kw_call(a: KwCallView, b: KwCallView) -> bool {
    &&& slots_kw_call(a).len() == slots_kw_call(b).len()
    &&& forall|us: Seq<TypeView>|
        us.len() == slots_kw_call(a).len() ==> with_kw_call(a, us) == #[trigger] with_kw_call(b, us)
}

/// `b` differs from `a` at most in what its slots hold.
spec fn kept_callable_residual(a: CallableResidualView, b: CallableResidualView) -> bool {
    &&& slots_callable_residual(a).len() == slots_callable_residual(b).len()
    &&& forall|us: Seq<TypeView>|
        us.len() == slots_callable_residual(a).len() ==> with_callable_residual(a, us)
            == #[trigger] with_callable_residual(b, us)
}

/// `b` differs from `a` at most in what its slots hold.
spec fn kept_type_level_dsl_call(a: TypeLevelDslCallView, b: TypeLevelDslCallView) -> bool {
    &&& slots_type_level_dsl_call(a).len() == slots_type_level_dsl_call(b).len()
    &&& forall|us: Seq<TypeView>|
        us.len() == slots_type_level_dsl_call(a).len() ==> with_type_level_dsl_call(a, us)
            == #[trigger] with_type_level_dsl_call(b, us)
}

/// `b` differs from `a` at most in what its slots hold.
spec fn kept_super_obj(a: SuperObjView, b: SuperObjView) -> bool {
    &&& slots_super_obj(a).len() == slots_super_obj(b).len()
    &&& forall|us: Seq<TypeView>|
        us.len() == slots_super_obj(a).len() ==> with_super_obj(a, us)
            == #[trigger] with_super_obj(b, us)
}

/// `b` differs from `a` at most in what its slots hold.
pub open spec fn kept_type(a: TypeView, b: TypeView) -> bool {
    &&& slots_type(a).len() == slots_type(b).len()
    &&& forall|us: Seq<TypeView>|
        us.len() == slots_type(a).len() ==> with_type(a, us) == #[trigger] with_type(b, us)
}

fn visit_one<'a>(x: &'a Type, out: &mut Vec<&'a Type>)
    ensures
        view_refs(final(out)@) == view_refs(old(out)@) + slots_one(x@),
{
    let ghost before = view_refs(out@);
    out.push(x);
    assert(view_refs(out@) =~= before + slots_one(x@));
}

fn take_one(x: &mut Type, out: &mut Vec<Type>)
    ensures
        view_types(final(out)@) == view_types(old(out)@) + slots_one(old(x)@),
        kept_one(old(x)@, final(x)@),
{
    let mut blank = Type::NoneType;
    std::mem::swap(x, &mut blank);
    let ghost t = blank@;
    let ghost before = view_types(out@);
    out.push(blank);
    assert(view_types(out@) =~= before + slots_one(t));
}

fn put_one(x: &mut Type, src: &mut Vec<Type>)
    requires
        slots_one(old(x)@).len() <= old(src)@.len(),
    ensures
        view_types(final(src)@) == front(view_types(old(src)@), slots_one(old(x)@).len()),
        final(x)@ == with_one(old(x)@, back(view_types(old(src)@), slots_one(old(x)@).len())),
{
    let ghost before = view_types(src@);
    match src.pop() {
        Some(t) => {
            assert(view_types(src@) =~= front(before, 1));
            assert(back(before, 1).last() == before.last());
            *x = t;
        },
        None => {},
    }
}

fn visit_many<'a>(x: &'a Vec<Type>, out: &mut Vec<&'a Type>)
    ensures
        view_refs(final(out)@) == view_refs(old(out)@) + slots_many(view_types(x@)),
{
    let ghost before = view_refs(out@);
    assert(view_refs(out@) =~= before + view_types(x@).take(0));
    for i in 0..x.len()
        invariant
            view_refs(out@) == before + view_types(x@).take(i as int),
    {
        let ghost refs = out@;
        out.push(&x[i]);
        proof {
            let s = view_types(x@);
            assert(view_refs(out@) =~= view_refs(refs).push(s[i as int]));
            assert(s.take(i + 1) =~= s.take(i as int).push(s[i as int]));
            assert(view_refs(out@) =~= before + s.take(i + 1));
        }
    }
    assert(view_types(x@).take(x@.len() as int) =~= view_types(x@));
}

fn take_many(x: &mut Vec<Type>, out: &mut Vec<Type>)
    ensures
        view_types(final(out)@) == view_types(old(out)@) + slots_many(view_types(old(x)@)),
        kept_many(view_types(old(x)@), view_types(final(x)@)),
{
    let ghost s = view_types(x@);
    let ghost before = view_types(out@);
    let n = x.len();
    for i in 0..n
        invariant
            n == s.len(),
            x@.len() == n,
            view_types(x@).skip(i as int) =~= s.skip(i as int),
            view_types(out@) =~= before + s.take(i as int),
    {
        let ghost v = x@;
        let mut blank = Type::NoneType;
        std::mem::swap(&mut x[i], &mut blank);
        assert(blank@ == view_types(v).skip(i as int)[0]);
        assert(blank@ == s[i as int]);
        let ghost kept_out = out@;
        out.push(blank);
        proof {
            lemma_types_push(kept_out, blank);
            assert forall|j: int| i + 1 <= j < n implies view_types(x@)[j] == s[j] by {
                assert(view_types(v).skip(i as int)[j - i] == s.skip(i as int)[j - i]);
            }
            assert(s.take(i + 1) =~= s.take(i as int).push(s[i as int]));
        }
    }
    assert(s.take(n as int) =~= s);
}

fn put_many(x: &mut Vec<Type>, src: &mut Vec<Type>)
    requires
        slots_many(view_types(old(x)@)).len() <= old(src)@.len(),
    ensures
        view_types(final(src)@)
            == front(view_types(old(src)@), slots_many(view_types(old(x)@)).len()),
        view_types(final(x)@) == with_many(
            view_types(old(x)@),
            back(view_types(old(src)@), slots_many(view_types(old(x)@)).len()),
        ),
{
    let ghost b = view_types(src@);
    let n = x.len();
    let mut i = n;
    while i > 0
        invariant
            i <= n,
            x@.len() == n,
            n <= b.len(),
            view_types(src@) == b.take(b.len() - n + i),
            view_types(x@).skip(i as int) =~= b.skip(b.len() - n + i),
        decreases i,
    {
        i = i - 1;
        let ghost v = x@;
        let ghost rest = src@;
        match src.pop() {
            Some(t) => {
                assert(view_types(src@) =~= view_types(rest).drop_last());
                assert(t@ == view_types(rest).last());
                x[i] = t;
                proof {
                    lemma_types_update(v, i as int, t);
                    let w = view_types(x@).skip(i as int);
                    assert(b.take(b.len() - n + i + 1).drop_last() =~= b.take(b.len() - n + i));
                    assert forall|j: int| 0 <= j < n - i implies w[j] == b.skip(
                        b.len() - n + i,
                    )[j] by {
                        if j > 0 {
                            assert(
                                view_types(v).skip(i + 1)[j - 1]
                                    == b.skip(b.len() - n + i + 1)[j - 1]
                            );
                        }
                    }
                    assert(w =~= b.skip(b.len() - n + i));
                }
            },
            None => {
                assert(view_types(rest).len() > 0);
            },
        }
    }
    assert(view_types(x@).skip(0) =~= view_types(x@));
}

fn visit_opt_one<'a>(x: &'a Option<Type>, out: &mut Vec<&'a Type>)
    ensures
        view_refs(final(out)@) == view_refs(old(out)@) + slots_opt_one(opt_view_one(*x)),
{
    let ghost before = view_refs(out@);
    match x {
        Some(y) => visit_one(y, out),
        None => {
            assert(view_refs(out@) =~= before + Seq::<TypeView>::empty());
        },
    }
}

fn take_opt_one(x: &mut Option<Type>, out: &mut Vec<Type>)
    ensures
        view_types(final(out)@) == view_types(old(out)@) + slots_opt_one(opt_view_one(*old(x))),
        kept_opt_one(opt_view_one(*old(x)), opt_view_one(*final(x))),
{
    let ghost before = view_types(out@);
    match x {
        Some(y) => take_one(y, out),
        None => {
            assert(view_types(out@) =~= before + Seq::<TypeView>::empty());
        },
    }
}

fn put_opt_one(x: &mut Option<Type>, src: &mut Vec<Type>)
    requires
        slots_opt_one(opt_view_one(*old(x))).len() <= old(src)@.len(),
    ensures
        view_types(final(src)@)
            == front(view_types(old(src)@), slots_opt_one(opt_view_one(*old(x))).len()),
        opt_view_one(*final(x)) == with_opt_one(
            opt_view_one(*old(x)),
            back(view_types(old(src)@), slots_opt_one(opt_view_one(*old(x))).len()),
        ),
{
    let ghost before = view_types(src@);
    match x {
        Some(y) => put_one(y, src),
        None => {
            assert(view_types(src@) =~= front(before, 0));
        },
    }
}

fn visit_opt_property_metadata<'a>(x: &'a Option<PropertyMetadata>, out: &mut Vec<&'a Type>)
    ensures
        view_refs(final(out)@) == view_refs(old(out)@)
            + slots_opt_property_metadata(opt_view_property_metadata(*x)),
{
    let ghost before = view_refs(out@);
    match x {
        Some(y) => visit_property_metadata(y, out),
        None => {
            assert(view_refs(out@) =~= before + Seq::<TypeView>::empty());
        },
    }
}

fn take_opt_property_metadata(x: &mut Option<PropertyMetadata>, out: &mut Vec<Type>)
    ensures
        view_types(final(out)@) == view_types(old(out)@)
            + slots_opt_property_metadata(opt_view_property_metadata(*old(x))),
        kept_opt_property_metadata(
            opt_view_property_metadata(*old(x)),
            opt_view_property_metadata(*final(x)),
        ),
{
    let ghost before = view_types(out@);
    match x {
        Some(y) => take_property_metadata(y, out),
        None => {
            assert(view_types(out@) =~= before + Seq::<TypeView>::empty());
        },
    }
}

fn put_opt_property_metadata(x: &mut Option<PropertyMetadata>, src: &mut Vec<Type>)
    requires
        slots_opt_property_metadata(opt_view_property_metadata(*old(x))).len() <= old(src)@.len(),
    ensures
        view_types(final(src)@) == front(
            view_types(old(src)@),
            slots_opt_property_metadata(opt_view_property_metadata(*old(x))).len(),
        ),
        opt_view_property_metadata(*final(x)) == with_opt_property_metadata(
            opt_view_property_metadata(*old(x)),
            back(
                view_types(old(src)@),
                slots_opt_property_metadata(opt_view_property_metadata(*old(x))).len(),
            ),
        ),
{
    let ghost before = view_types(src@);
    match x {
        Some(y) => put_property_metadata(y, src),
        None => {
            assert(view_types(src@) =~= front(before, 0));
        },
    }
}

fn visit_opt_targs<'a>(x: &'a Option<TArgs>, out: &mut Vec<&'a Type>)
    ensures
        view_refs(final(out)@) == view_refs(old(out)@) + slots_opt_targs(opt_view_targs(*x)),
{
    let ghost before = view_refs(out@);
    match x {
        Some(y) => visit_targs(y, out),
        None => {
            assert(view_refs(out@) =~= before + Seq::<TypeView>::empty());
        },
    }
}

fn take_opt_targs(x: &mut Option<TArgs>, out: &mut Vec<Type>)
    ensures
        view_types(final(out)@) == view_types(old(out)@) + slots_opt_targs(opt_view_targs(*old(x))),
        kept_opt_targs(opt_view_targs(*old(x)), opt_view_targs(*final(x))),
{
    let ghost before = view_types(out@);
    match x {
        Some(y) => take_targs(y, out),
        None => {
            assert(view_types(out@) =~= before + Seq::<TypeView>::empty());
        },
    }
}

fn put_opt_targs(x: &mut Option<TArgs>, src: &mut Vec<Type>)
    requires
        slots_opt_targs(opt_view_targs(*old(x))).len() <= old(src)@.len(),
    ensures
        view_types(final(src)@)
            == front(view_types(old(src)@), slots_opt_targs(opt_view_targs(*old(x))).len()),
        opt_view_targs(*final(x)) == with_opt_targs(
            opt_view_targs(*old(x)),
            back(view_types(old(src)@), slots_opt_targs(opt_view_targs(*old(x))).len()),
        ),
{
    let ghost before = view_types(src@);
    match x {
        Some(y) => put_targs(y, src),
        None => {
            assert(view_types(src@) =~= front(before, 0));
        },
    }
}

fn visit_many_one<'a>(x: &'a (Vec<Type>, Type), out: &mut Vec<&'a Type>)
    ensures
        view_refs(final(out)@) == view_refs(old(out)@) + slots_many_one((view_types(x.0@), x.1@)),
{
    let ghost m = (view_types(x.0@), x.1@);
    proof {
        reveal(slots_many_one);
    }
    let ghost before = view_refs(out@);
    visit_many(&x.0, out);
    visit_one(&x.1, out);
    proof {
        lemma_append_types(before, slots_many(m.0), slots_one(m.1));
    }
}

fn take_many_one(x: &mut (Vec<Type>, Type), out: &mut Vec<Type>)
    ensures
        view_types(final(out)@) == view_types(old(out)@)
            + slots_many_one((view_types(old(x).0@), old(x).1@)),
        kept_many_one((view_types(old(x).0@), old(x).1@), (view_types(final(x).0@), final(x).1@)),
{
    let ghost m = (view_types(x.0@), x.1@);
    proof {
        reveal(slots_many_one);
        reveal(with_many_one);
    }
    let ghost before = view_types(out@);
    take_many(&mut x.0, out);
    take_one(&mut x.1, out);
    proof {
        lemma_append_types(before, slots_many(m.0), slots_one(m.1));
    }
}

fn put_many_one(x: &mut (Vec<Type>, Type), src: &mut Vec<Type>)
    requires
        slots_many_one((view_types(old(x).0@), old(x).1@)).len() <= old(src)@.len(),
    ensures
        view_types(final(src)@) == front(
            view_types(old(src)@),
            slots_many_one((view_types(old(x).0@), old(x).1@)).len(),
        ),
        (view_types(final(x).0@), final(x).1@) == with_many_one(
            (view_types(old(x).0@), old(x).1@),
            back(view_types(old(src)@), slots_many_one((view_types(old(x).0@), old(x).1@)).len()),
        ),
{
    let ghost m = (view_types(x.0@), x.1@);
    proof {
        reveal(slots_many_one);
        reveal(with_many_one);
    }
    let ghost b = view_types(src@);
    let ghost k0 = slots_many(m.0).len();
    let ghost k1 = slots_one(m.1).len();
    put_one(&mut x.1, src);
    assert(src@.len() == view_types(src@).len());
    put_many(&mut x.0, src);
    proof {
        lemma_nested(b, k0, k1);
    }
}

fn visit_many_one_many<'a>(x: &'a (Vec<Type>, Type, Vec<Type>), out: &mut Vec<&'a Type>)
    ensures
        view_refs(final(out)@) == view_refs(old(out)@)
            + slots_many_one_many((view_types(x.0@), x.1@, view_types(x.2@))),
{
    let ghost m = (view_types(x.0@), x.1@, view_types(x.2@));
    proof {
        reveal(slots_many_one_many);
    }
    let ghost before = view_refs(out@);
    visit_many(&x.0, out);
    visit_one(&x.1, out);
    visit_many(&x.2, out);
    proof {
        lemma_append_types(before, slots_many(m.0), slots_one(m.1));
        lemma_append_types(before, slots_many(m.0) + slots_one(m.1), slots_many(m.2));
    }
}

fn take_many_one_many(x: &mut (Vec<Type>, Type, Vec<Type>), out: &mut Vec<Type>)
    ensures
        view_types(final(out)@) == view_types(old(out)@)
            + slots_many_one_many((view_types(old(x).0@), old(x).1@, view_types(old(x).2@))),
        kept_many_one_many(
            (view_types(old(x).0@), old(x).1@, view_types(old(x).2@)),
            (view_types(final(x).0@), final(x).1@, view_types(final(x).2@)),
        ),
{
    let ghost m = (view_types(x.0@), x.1@, view_types(x.2@));
    proof {
        reveal(slots_many_one_many);
        reveal(with_many_one_many);
    }
    let ghost before = view_types(out@);
    take_many(&mut x.0, out);
    take_one(&mut x.1, out);
    take_many(&mut x.2, out);
    proof {
        lemma_append_types(before, slots_many(m.0), slots_one(m.1));
        lemma_append_types(before, slots_many(m.0) + slots_one(m.1), slots_many(m.2));
    }
}

fn put_many_one_many(x: &mut (Vec<Type>, Type, Vec<Type>), src: &mut Vec<Type>)
    requires
        slots_many_one_many(
            (view_types(old(x).0@), old(x).1@, view_types(old(x).2@)),
        ).len() <= old(src)@.len(),
    ensures
        view_types(final(src)@) == front(
            view_types(old(src)@),
            slots_many_one_many((view_types(old(x).0@), old(x).1@, view_types(old(x).2@))).len(),
        ),
        (view_types(final(x).0@), final(x).1@, view_types(final(x).2@)) == with_many_one_many(
            (view_types(old(x).0@), old(x).1@, view_types(old(x).2@)),
            back(
                view_types(old(src)@),
                slots_many_one_many(
                    (view_types(old(x).0@), old(x).1@, view_types(old(x).2@)),
                ).len(),
            ),
        ),
{
    let ghost m = (view_types(x.0@), x.1@, view_types(x.2@));
    proof {
        reveal(slots_many_one_many);
        reveal(with_many_one_many);
    }
    let ghost b = view_types(src@);
    let ghost k0 = slots_many(m.0).len();
    let ghost k1 = slots_one(m.1).len();
    let ghost k2 = slots_many(m.2).len();
    put_many(&mut x.2, src);
    assert(src@.len() == view_types(src@).len());
    put_one(&mut x.1, src);
    assert(src@.len() == view_types(src@).len());
    put_many(&mut x.0, src);
    proof {
        lemma_nested(b, k0 + k1, k2);
        lemma_nested(front(b, k2), k0, k1);
    }
}

fn visit_class_type_super_obj<'a>(x: &'a (ClassType, SuperObj), out: &mut Vec<&'a Type>)
    ensures
        view_refs(final(out)@) == view_refs(old(out)@) + slots_class_type_super_obj((x.0@, x.1@)),
{
    let ghost m = (x.0@, x.1@);
    proof {
        reveal(slots_class_type_super_obj);
    }
    let ghost before = view_refs(out@);
    visit_class_type(&x.0, out);
    visit_super_obj(&x.1, out);
    proof {
        lemma_append_types(before, slots_class_type(m.0), slots_super_obj(m.1));
    }
}

fn take_class_type_super_obj(x: &mut (ClassType, SuperObj), out: &mut Vec<Type>)
    ensures
        view_types(final(out)@) == view_types(old(out)@)
            + slots_class_type_super_obj((old(x).0@, old(x).1@)),
        kept_class_type_super_obj((old(x).0@, old(x).1@), (final(x).0@, final(x).1@)),
{
    let ghost m = (x.0@, x.1@);
    proof {
        reveal(slots_class_type_super_obj);
        reveal(with_class_type_super_obj);
    }
    let ghost before = view_types(out@);
    take_class_type(&mut x.0, out);
    take_super_obj(&mut x.1, out);
    proof {
        lemma_append_types(before, slots_class_type(m.0), slots_super_obj(m.1));
    }
}

fn put_class_type_super_obj(x: &mut (ClassType, SuperObj), src: &mut Vec<Type>)
    requires
        slots_class_type_super_obj((old(x).0@, old(x).1@)).len() <= old(src)@.len(),
    ensures
        view_types(final(src)@) == front(
            view_types(old(src)@),
            slots_class_type_super_obj((old(x).0@, old(x).1@)).len(),
        ),
        (final(x).0@, final(x).1@) == with_class_type_super_obj(
            (old(x).0@, old(x).1@),
            back(view_types(old(src)@), slots_class_type_super_obj((old(x).0@, old(x).1@)).len()),
        ),
{
    let ghost m = (x.0@, x.1@);
    proof {
        reveal(slots_class_type_super_obj);
        reveal(with_class_type_super_obj);
    }
    let ghost b = view_types(src@);
    let ghost k0 = slots_class_type(m.0).len();
    let ghost k1 = slots_super_obj(m.1).len();
    put_super_obj(&mut x.1, src);
    assert(src@.len() == view_types(src@).len());
    put_class_type(&mut x.0, src);
    proof {
        lemma_nested(b, k0, k1);
    }
}

fn visit_param_seq<'a>(x: &'a Vec<Param>, out: &mut Vec<&'a Type>)
    ensures
        view_refs(final(out)@) == view_refs(old(out)@) + slots_param_seq(view_param_seq(x@)),
{
    let ghost s = view_param_seq(x@);
    let ghost before = view_refs(out@);
    let n = x.len();
    assert(view_refs(out@) =~= before + slots_param_seq(s.take(0)));
    for i in 0..n
        invariant
            n == s.len(),
            s == view_param_seq(x@),
            view_refs(out@) == before + slots_param_seq(s.take(i as int)),
    {
        visit_param(&x[i], out);
        proof {
            lemma_append_types(before, slots_param_seq(s.take(i as int)), slots_param(s[i as int]));
            assert(s.take(i + 1).drop_last() =~= s.take(i as int));
            assert(s.take(i + 1).last() == s[i as int]);
        }
    }
    assert(s.take(n as int) =~= s);
}

fn take_param_seq(x: &mut Vec<Param>, out: &mut Vec<Type>)
    ensures
        view_types(final(out)@) == view_types(old(out)@) + slots_param_seq(view_param_seq(old(x)@)),
        kept_param_seq(view_param_seq(old(x)@), view_param_seq(final(x)@)),
{
    let ghost s = view_param_seq(x@);
    let ghost before = view_types(out@);
    let n = x.len();
    assert(view_types(out@) =~= before + slots_param_seq(s.take(0)));
    for i in 0..n
        invariant
            n == s.len(),
            view_param_seq(x@).len() == n,
            forall|j: int| i <= j < n ==> #[trigger] view_param_seq(x@)[j] == s[j],
            forall|j: int| 0 <= j < i ==> kept_param(s[j], #[trigger] view_param_seq(x@)[j]),
            view_types(out@) == before + slots_param_seq(s.take(i as int)),
    {
        let ghost v = view_param_seq(x@);
        assert(v[i as int] == s[i as int]);
        take_param(&mut x[i], out);
        proof {
            assert(view_param_seq(x@) =~= v.update(i as int, view_param_seq(x@)[i as int]));
            lemma_append_types(before, slots_param_seq(s.take(i as int)), slots_param(s[i as int]));
            assert(s.take(i + 1).drop_last() =~= s.take(i as int));
            assert(s.take(i + 1).last() == s[i as int]);
            assert forall|j: int| 0 <= j < i
                + 1 implies kept_param(s[j], #[trigger] view_param_seq(x@)[j]) by {
                if j < i {
                    assert(view_param_seq(x@)[j] == v[j]);
                }
            }
            assert forall|j: int| i
                + 1 <= j < n implies #[trigger] view_param_seq(x@)[j] == s[j] by {
                assert(view_param_seq(x@)[j] == v[j]);
            }
        }
    }
    proof {
        assert(s.take(n as int) =~= s);
        lemma_kept_param_seq(s, view_param_seq(x@));
    }
}

fn put_param_seq(x: &mut Vec<Param>, src: &mut Vec<Type>)
    requires
        slots_param_seq(view_param_seq(old(x)@)).len() <= old(src)@.len(),
    ensures
        view_types(final(src)@)
            == front(view_types(old(src)@), slots_param_seq(view_param_seq(old(x)@)).len()),
        view_param_seq(final(x)@) == with_param_seq(
            view_param_seq(old(x)@),
            back(view_types(old(src)@), slots_param_seq(view_param_seq(old(x)@)).len()),
        ),
{
    let ghost s = view_param_seq(x@);
    let ghost b = view_types(src@);
    let ghost full = slots_param_seq(s).len();
    let n = x.len();
    let mut i = n;
    proof {
        assert(s.take(n as int) =~= s);
        assert(b.take(b.len() as int) =~= b);
        assert(
            with_param_seq(s, back(b, full)) =~= with_param_seq(s.take(n as int), back(b, full))
                + s.skip(n as int)
        );
    }
    while i > 0
        invariant
            i <= n,
            n == s.len(),
            full <= b.len(),
            view_param_seq(x@).len() == n,
            slots_param_seq(s.take(i as int)).len() <= full,
            forall|j: int| 0 <= j < i ==> #[trigger] view_param_seq(x@)[j] == s[j],
            view_types(src@) == b.take(b.len() - full + slots_param_seq(s.take(i as int)).len()),
            with_param_seq(s, back(b, full)) == with_param_seq(
                s.take(i as int),
                back(view_types(src@), slots_param_seq(s.take(i as int)).len()),
            ) + view_param_seq(x@).skip(i as int),
        decreases i,
    {
        let ghost v = view_param_seq(x@);
        let ghost stack = view_types(src@);
        let ghost head = s.take(i as int);
        let ghost x0 = s[i - 1];
        proof {
            assert(head.drop_last() =~= s.take(i - 1));
            assert(head.last() == x0);
        }
        i = i - 1;
        assert(v[i as int] == s[i as int]);
        put_param(&mut x[i], src);
        proof {
            assert(view_param_seq(x@) =~= v.update(i as int, view_param_seq(x@)[i as int]));
            let (k0, k1) = (slots_param_seq(s.take(i as int)).len(), slots_param(x0).len());
            lemma_nested(stack, k0, k1);
            assert(view_types(src@) =~= b.take(b.len() - full + k0));
            let tail = view_param_seq(x@).skip(i as int);
            assert(tail =~= seq![view_param_seq(x@)[i as int]] + v.skip(i + 1));
            assert forall|j: int| 0 <= j < i implies #[trigger] view_param_seq(x@)[j] == s[j] by {
                assert(view_param_seq(x@)[j] == v[j]);
            }
            assert(with_param_seq(s, back(b, full)) =~= with_param_seq(
                s.take(i as int),
                back(view_types(src@), k0),
            ) + tail);
        }
    }
    proof {
        assert(view_param_seq(x@).skip(0) =~= view_param_seq(x@));
        assert(s.take(0).len() == 0);
        assert(view_types(src@) =~= front(b, full));
        assert(with_param_seq(s, back(b, full)) =~= view_param_seq(x@));
    }
}

fn visit_fields<'a>(x: &'a Vec<Field>, out: &mut Vec<&'a Type>)
    ensures
        view_refs(final(out)@) == view_refs(old(out)@) + slots_fields(view_fields(x@)),
{
    let ghost s = view_fields(x@);
    let ghost before = view_refs(out@);
    let n = x.len();
    assert(view_refs(out@) =~= before + slots_fields(s.take(0)));
    for i in 0..n
        invariant
            n == s.len(),
            s == view_fields(x@),
            view_refs(out@) == before + slots_fields(s.take(i as int)),
    {
        visit_field(&x[i], out);
        proof {
            lemma_append_types(before, slots_fields(s.take(i as int)), slots_field(s[i as int]));
            assert(s.take(i + 1).drop_last() =~= s.take(i as int));
            assert(s.take(i + 1).last() == s[i as int]);
        }
    }
    assert(s.take(n as int) =~= s);
}

fn take_fields(x: &mut Vec<Field>, out: &mut Vec<Type>)
    ensures
        view_types(final(out)@) == view_types(old(out)@) + slots_fields(view_fields(old(x)@)),
        kept_fields(view_fields(old(x)@), view_fields(final(x)@)),
{
    let ghost s = view_fields(x@);
    let ghost before = view_types(out@);
    let n = x.len();
    assert(view_types(out@) =~= before + slots_fields(s.take(0)));
    for i in 0..n
        invariant
            n == s.len(),
            view_fields(x@).len() == n,
            forall|j: int| i <= j < n ==> #[trigger] view_fields(x@)[j] == s[j],
            forall|j: int| 0 <= j < i ==> kept_field(s[j], #[trigger] view_fields(x@)[j]),
            view_types(out@) == before + slots_fields(s.take(i as int)),
    {
        let ghost v = view_fields(x@);
        assert(v[i as int] == s[i as int]);
        take_field(&mut x[i], out);
        proof {
            assert(view_fields(x@) =~= v.update(i as int, view_fields(x@)[i as int]));
            lemma_append_types(before, slots_fields(s.take(i as int)), slots_field(s[i as int]));
            assert(s.take(i + 1).drop_last() =~= s.take(i as int));
            assert(s.take(i + 1).last() == s[i as int]);
            assert forall|j: int| 0 <= j < i
                + 1 implies kept_field(s[j], #[trigger] view_fields(x@)[j]) by {
                if j < i {
                    assert(view_fields(x@)[j] == v[j]);
                }
            }
            assert forall|j: int| i + 1 <= j < n implies #[trigger] view_fields(x@)[j] == s[j] by {
                assert(view_fields(x@)[j] == v[j]);
            }
        }
    }
    proof {
        assert(s.take(n as int) =~= s);
        lemma_kept_fields(s, view_fields(x@));
    }
}

fn put_fields(x: &mut Vec<Field>, src: &mut Vec<Type>)
    requires
        slots_fields(view_fields(old(x)@)).len() <= old(src)@.len(),
    ensures
        view_types(final(src)@)
            == front(view_types(old(src)@), slots_fields(view_fields(old(x)@)).len()),
        view_fields(final(x)@) == with_fields(
            view_fields(old(x)@),
            back(view_types(old(src)@), slots_fields(view_fields(old(x)@)).len()),
        ),
{
    let ghost s = view_fields(x@);
    let ghost b = view_types(src@);
    let ghost full = slots_fields(s).len();
    let n = x.len();
    let mut i = n;
    proof {
        assert(s.take(n as int) =~= s);
        assert(b.take(b.len() as int) =~= b);
        assert(
            with_fields(s, back(b, full)) =~= with_fields(s.take(n as int), back(b, full))
                + s.skip(n as int)
        );
    }
    while i > 0
        invariant
            i <= n,
            n == s.len(),
            full <= b.len(),
            view_fields(x@).len() == n,
            slots_fields(s.take(i as int)).len() <= full,
            forall|j: int| 0 <= j < i ==> #[trigger] view_fields(x@)[j] == s[j],
            view_types(src@) == b.take(b.len() - full + slots_fields(s.take(i as int)).len()),
            with_fields(s, back(b, full)) == with_fields(
                s.take(i as int),
                back(view_types(src@), slots_fields(s.take(i as int)).len()),
            ) + view_fields(x@).skip(i as int),
        decreases i,
    {
        let ghost v = view_fields(x@);
        let ghost stack = view_types(src@);
        let ghost head = s.take(i as int);
        let ghost x0 = s[i - 1];
        proof {
            assert(head.drop_last() =~= s.take(i - 1));
            assert(head.last() == x0);
        }
        i = i - 1;
        assert(v[i as int] == s[i as int]);
        put_field(&mut x[i], src);
        proof {
            assert(view_fields(x@) =~= v.update(i as int, view_fields(x@)[i as int]));
            let (k0, k1) = (slots_fields(s.take(i as int)).len(), slots_field(x0).len());
            lemma_nested(stack, k0, k1);
            assert(view_types(src@) =~= b.take(b.len() - full + k0));
            let tail = view_fields(x@).skip(i as int);
            assert(tail =~= seq![view_fields(x@)[i as int]] + v.skip(i + 1));
            assert forall|j: int| 0 <= j < i implies #[trigger] view_fields(x@)[j] == s[j] by {
                assert(view_fields(x@)[j] == v[j]);
            }
            assert(with_fields(s, back(b, full)) =~= with_fields(
                s.take(i as int),
                back(view_types(src@), k0),
            ) + tail);
        }
    }
    proof {
        assert(view_fields(x@).skip(0) =~= view_fields(x@));
        assert(s.take(0).len() == 0);
        assert(view_types(src@) =~= front(b, full));
        assert(with_fields(s, back(b, full)) =~= view_fields(x@));
    }
}

fn visit_dims<'a>(x: &'a Vec<Int>, out: &mut Vec<&'a Type>)
    ensures
        view_refs(final(out)@) == view_refs(old(out)@) + slots_dims(view_dims(x@)),
{
    let ghost s = view_dims(x@);
    let ghost before = view_refs(out@);
    let n = x.len();
    assert(view_refs(out@) =~= before + slots_dims(s.take(0)));
    for i in 0..n
        invariant
            n == s.len(),
            s == view_dims(x@),
            view_refs(out@) == before + slots_dims(s.take(i as int)),
    {
        visit_int(&x[i], out);
        proof {
            lemma_append_types(before, slots_dims(s.take(i as int)), slots_int(s[i as int]));
            assert(s.take(i + 1).drop_last() =~= s.take(i as int));
            assert(s.take(i + 1).last() == s[i as int]);
        }
    }
    assert(s.take(n as int) =~= s);
}

fn take_dims(x: &mut Vec<Int>, out: &mut Vec<Type>)
    ensures
        view_types(final(out)@) == view_types(old(out)@) + slots_dims(view_dims(old(x)@)),
        kept_dims(view_dims(old(x)@), view_dims(final(x)@)),
{
    let ghost s = view_dims(x@);
    let ghost before = view_types(out@);
    let n = x.len();
    assert(view_types(out@) =~= before + slots_dims(s.take(0)));
    for i in 0..n
        invariant
            n == s.len(),
            view_dims(x@).len() == n,
            forall|j: int| i <= j < n ==> #[trigger] view_dims(x@)[j] == s[j],
            forall|j: int| 0 <= j < i ==> kept_int(s[j], #[trigger] view_dims(x@)[j]),
            view_types(out@) == before + slots_dims(s.take(i as int)),
    {
        let ghost v = view_dims(x@);
        assert(v[i as int] == s[i as int]);
        take_int(&mut x[i], out);
        proof {
            assert(view_dims(x@) =~= v.update(i as int, view_dims(x@)[i as int]));
            lemma_append_types(before, slots_dims(s.take(i as int)), slots_int(s[i as int]));
            assert(s.take(i + 1).drop_last() =~= s.take(i as int));
            assert(s.take(i + 1).last() == s[i as int]);
            assert forall|j: int| 0 <= j < i
                + 1 implies kept_int(s[j], #[trigger] view_dims(x@)[j]) by {
                if j < i {
                    assert(view_dims(x@)[j] == v[j]);
                }
            }
            assert forall|j: int| i + 1 <= j < n implies #[trigger] view_dims(x@)[j] == s[j] by {
                assert(view_dims(x@)[j] == v[j]);
            }
        }
    }
    proof {
        assert(s.take(n as int) =~= s);
        lemma_kept_dims(s, view_dims(x@));
    }
}

fn put_dims(x: &mut Vec<Int>, src: &mut Vec<Type>)
    requires
        slots_dims(view_dims(old(x)@)).len() <= old(src)@.len(),
    ensures
        view_types(final(src)@)
            == front(view_types(old(src)@), slots_dims(view_dims(old(x)@)).len()),
        view_dims(final(x)@) == with_dims(
            view_dims(old(x)@),
            back(view_types(old(src)@), slots_dims(view_dims(old(x)@)).len()),
        ),
{
    let ghost s = view_dims(x@);
    let ghost b = view_types(src@);
    let ghost full = slots_dims(s).len();
    let n = x.len();
    let mut i = n;
    proof {
        assert(s.take(n as int) =~= s);
        assert(b.take(b.len() as int) =~= b);
        assert(
            with_dims(s, back(b, full)) =~= with_dims(s.take(n as int), back(b, full))
                + s.skip(n as int)
        );
    }
    while i > 0
        invariant
            i <= n,
            n == s.len(),
            full <= b.len(),
            view_dims(x@).len() == n,
            slots_dims(s.take(i as int)).len() <= full,
            forall|j: int| 0 <= j < i ==> #[trigger] view_dims(x@)[j] == s[j],
            view_types(src@) == b.take(b.len() - full + slots_dims(s.take(i as int)).len()),
            with_dims(s, back(b, full)) == with_dims(
                s.take(i as int),
                back(view_types(src@), slots_dims(s.take(i as int)).len()),
            ) + view_dims(x@).skip(i as int),
        decreases i,
    {
        let ghost v = view_dims(x@);
        let ghost stack = view_types(src@);
        let ghost head = s.take(i as int);
        let ghost x0 = s[i - 1];
        proof {
            assert(head.drop_last() =~= s.take(i - 1));
            assert(head.last() == x0);
        }
        i = i - 1;
        assert(v[i as int] == s[i as int]);
        put_int(&mut x[i], src);
        proof {
            assert(view_dims(x@) =~= v.update(i as int, view_dims(x@)[i as int]));
            let (k0, k1) = (slots_dims(s.take(i as int)).len(), slots_int(x0).len());
            lemma_nested(stack, k0, k1);
            assert(view_types(src@) =~= b.take(b.len() - full + k0));
            let tail = view_dims(x@).skip(i as int);
            assert(tail =~= seq![view_dims(x@)[i as int]] + v.skip(i + 1));
            assert forall|j: int| 0 <= j < i implies #[trigger] view_dims(x@)[j] == s[j] by {
                assert(view_dims(x@)[j] == v[j]);
            }
            assert(with_dims(s, back(b, full)) =~= with_dims(
                s.take(i as int),
                back(view_types(src@), k0),
            ) + tail);
        }
    }
    proof {
        assert(view_dims(x@).skip(0) =~= view_dims(x@));
        assert(s.take(0).len() == 0);
        assert(view_types(src@) =~= front(b, full));
        assert(with_dims(s, back(b, full)) =~= view_dims(x@));
    }
}

fn visit_signatures<'a>(x: &'a Signatures, out: &mut Vec<&'a Type>)
    ensures
        view_refs(final(out)@) == view_refs(old(out)@) + reached_overloads(signatures_of(*x)),
{
    let ghost s = signatures_of(*x);
    let ghost before = view_refs(out@);
    let n = x.as_vec().len();
    assert(view_refs(out@) =~= before + reached_overloads(s.take(0)));
    for i in 0..n
        invariant
            n == s.len(),
            s == signatures_of(*x),
            view_refs(out@) == before + reached_overloads(s.take(i as int)),
    {
        visit_overload_type(&x.as_vec()[i], out);
        proof {
            lemma_append_types(
                before,
                reached_overloads(s.take(i as int)),
                reached_overload_type(s[i as int]),
            );
            assert(s.take(i + 1).drop_last() =~= s.take(i as int));
            assert(s.take(i + 1).last() == s[i as int]);
        }
    }
    assert(s.take(n as int) =~= s);
}

fn take_signatures(x: &mut Signatures, out: &mut Vec<Type>)
    ensures
        view_types(final(out)@) == view_types(old(out)@) + slots_overloads(signatures_of(*old(x))),
        kept_overloads(signatures_of(*old(x)), signatures_of(*final(x))),
{
    let ghost s = signatures_of(*x);
    let ghost before = view_types(out@);
    let n = x.as_vec().len();
    assert(view_types(out@) =~= before + slots_overloads(s.take(0)));
    for i in 0..n
        invariant
            n == s.len(),
            signatures_of(*x).len() == n,
            forall|j: int| i <= j < n ==> #[trigger] signatures_of(*x)[j] == s[j],
            forall|j: int| 0 <= j < i ==> kept_overload_type(s[j], #[trigger] signatures_of(*x)[j]),
            view_types(out@) == before + slots_overloads(s.take(i as int)),
    {
        let ghost v = signatures_of(*x);
        assert(v[i as int] == s[i as int]);
        take_overload_type(x.get_mut(i), out);
        proof {
            assert(signatures_of(*x) =~= v.update(i as int, signatures_of(*x)[i as int]));
            lemma_append_types(
                before,
                slots_overloads(s.take(i as int)),
                slots_overload_type(s[i as int]),
            );
            assert(s.take(i + 1).drop_last() =~= s.take(i as int));
            assert(s.take(i + 1).last() == s[i as int]);
            assert forall|j: int| 0 <= j < i
                + 1 implies kept_overload_type(s[j], #[trigger] signatures_of(*x)[j]) by {
                if j < i {
                    assert(signatures_of(*x)[j] == v[j]);
                }
            }
            assert forall|j: int| i
                + 1 <= j < n implies #[trigger] signatures_of(*x)[j] == s[j] by {
                assert(signatures_of(*x)[j] == v[j]);
            }
        }
    }
    proof {
        assert(s.take(n as int) =~= s);
        lemma_kept_overloads(s, signatures_of(*x));
    }
}

fn put_signatures(x: &mut Signatures, src: &mut Vec<Type>)
    requires
        slots_overloads(signatures_of(*old(x))).len() <= old(src)@.len(),
    ensures
        view_types(final(src)@)
            == front(view_types(old(src)@), slots_overloads(signatures_of(*old(x))).len()),
        signatures_of(*final(x)) == with_overloads(
            signatures_of(*old(x)),
            back(view_types(old(src)@), slots_overloads(signatures_of(*old(x))).len()),
        ),
{
    let ghost s = signatures_of(*x);
    let ghost b = view_types(src@);
    let ghost full = slots_overloads(s).len();
    let n = x.as_vec().len();
    let mut i = n;
    proof {
        assert(s.take(n as int) =~= s);
        assert(b.take(b.len() as int) =~= b);
        assert(
            with_overloads(s, back(b, full)) =~= with_overloads(s.take(n as int), back(b, full))
                + s.skip(n as int)
        );
    }
    while i > 0
        invariant
            i <= n,
            n == s.len(),
            full <= b.len(),
            signatures_of(*x).len() == n,
            slots_overloads(s.take(i as int)).len() <= full,
            forall|j: int| 0 <= j < i ==> #[trigger] signatures_of(*x)[j] == s[j],
            view_types(src@) == b.take(b.len() - full + slots_overloads(s.take(i as int)).len()),
            with_overloads(s, back(b, full)) == with_overloads(
                s.take(i as int),
                back(view_types(src@), slots_overloads(s.take(i as int)).len()),
            ) + signatures_of(*x).skip(i as int),
        decreases i,
    {
        let ghost v = signatures_of(*x);
        let ghost stack = view_types(src@);
        let ghost head = s.take(i as int);
        let ghost x0 = s[i - 1];
        proof {
            assert(head.drop_last() =~= s.take(i - 1));
            assert(head.last() == x0);
        }
        i = i - 1;
        assert(v[i as int] == s[i as int]);
        put_overload_type(x.get_mut(i), src);
        proof {
            assert(signatures_of(*x) =~= v.update(i as int, signatures_of(*x)[i as int]));
            let (k0, k1) = (slots_overloads(s.take(i as int)).len(), slots_overload_type(x0).len());
            lemma_nested(stack, k0, k1);
            assert(view_types(src@) =~= b.take(b.len() - full + k0));
            let tail = signatures_of(*x).skip(i as int);
            assert(tail =~= seq![signatures_of(*x)[i as int]] + v.skip(i + 1));
            assert forall|j: int| 0 <= j < i implies #[trigger] signatures_of(*x)[j] == s[j] by {
                assert(signatures_of(*x)[j] == v[j]);
            }
            assert(with_overloads(s, back(b, full)) =~= with_overloads(
                s.take(i as int),
                back(view_types(src@), k0),
            ) + tail);
        }
    }
    proof {
        assert(signatures_of(*x).skip(0) =~= signatures_of(*x));
        assert(s.take(0).len() == 0);
        assert(view_types(src@) =~= front(b, full));
        assert(with_overloads(s, back(b, full)) =~= signatures_of(*x));
    }
}

fn visit_module_fields<'a>(x: &'a ModuleFields, out: &mut Vec<&'a Type>)
    ensures
        view_refs(final(out)@) == view_refs(old(out)@) + slots_fields(fields_of(*x)),
{
    let ghost s = fields_of(*x);
    let ghost before = view_refs(out@);
    let n = x.len();
    assert(view_refs(out@) =~= before + slots_fields(s.take(0)));
    for i in 0..n
        invariant
            n == s.len(),
            s == fields_of(*x),
            view_refs(out@) == before + slots_fields(s.take(i as int)),
    {
        let (_, ty) = x.get(i);
        proof {
            reveal(slots_field);
        }
        visit_one(ty, out);
        proof {
            lemma_append_types(before, slots_fields(s.take(i as int)), slots_field(s[i as int]));
            assert(s.take(i + 1).drop_last() =~= s.take(i as int));
            assert(s.take(i + 1).last() == s[i as int]);
        }
    }
    assert(s.take(n as int) =~= s);
}

fn take_module_fields(x: &mut ModuleFields, out: &mut Vec<Type>)
    ensures
        view_types(final(out)@) == view_types(old(out)@) + slots_fields(fields_of(*old(x))),
        kept_fields(fields_of(*old(x)), fields_of(*final(x))),
{
    let ghost s = fields_of(*x);
    let ghost before = view_types(out@);
    let n = x.len();
    assert(view_types(out@) =~= before + slots_fields(s.take(0)));
    for i in 0..n
        invariant
            n == s.len(),
            fields_of(*x).len() == n,
            forall|j: int| i <= j < n ==> #[trigger] fields_of(*x)[j] == s[j],
            forall|j: int| 0 <= j < i ==> kept_field(s[j], #[trigger] fields_of(*x)[j]),
            view_types(out@) == before + slots_fields(s.take(i as int)),
    {
        let ghost v = fields_of(*x);
        assert(v[i as int] == s[i as int]);
        proof {
            reveal(slots_field);
        }
        take_one(x.get_mut(i), out);
        proof {
            reveal(slots_field);
            reveal(with_field);
            assert(fields_of(*x) =~= v.update(i as int, fields_of(*x)[i as int]));
            lemma_append_types(before, slots_fields(s.take(i as int)), slots_field(s[i as int]));
            assert(s.take(i + 1).drop_last() =~= s.take(i as int));
            assert(s.take(i + 1).last() == s[i as int]);
            assert forall|j: int| 0 <= j < i
                + 1 implies kept_field(s[j], #[trigger] fields_of(*x)[j]) by {
                if j < i {
                    assert(fields_of(*x)[j] == v[j]);
                }
            }
            assert forall|j: int| i + 1 <= j < n implies #[trigger] fields_of(*x)[j] == s[j] by {
                assert(fields_of(*x)[j] == v[j]);
            }
        }
    }
    proof {
        assert(s.take(n as int) =~= s);
        lemma_kept_fields(s, fields_of(*x));
    }
}

fn put_module_fields(x: &mut ModuleFields, src: &mut Vec<Type>)
    requires
        slots_fields(fields_of(*old(x))).len() <= old(src)@.len(),
    ensures
        view_types(final(src)@)
            == front(view_types(old(src)@), slots_fields(fields_of(*old(x))).len()),
        fields_of(*final(x)) == with_fields(
            fields_of(*old(x)),
            back(view_types(old(src)@), slots_fields(fields_of(*old(x))).len()),
        ),
{
    let ghost s = fields_of(*x);
    let ghost b = view_types(src@);
    let ghost full = slots_fields(s).len();
    let n = x.len();
    let mut i = n;
    proof {
        assert(s.take(n as int) =~= s);
        assert(b.take(b.len() as int) =~= b);
        assert(
            with_fields(s, back(b, full)) =~= with_fields(s.take(n as int), back(b, full))
                + s.skip(n as int)
        );
    }
    while i > 0
        invariant
            i <= n,
            n == s.len(),
            full <= b.len(),
            fields_of(*x).len() == n,
            slots_fields(s.take(i as int)).len() <= full,
            forall|j: int| 0 <= j < i ==> #[trigger] fields_of(*x)[j] == s[j],
            view_types(src@) == b.take(b.len() - full + slots_fields(s.take(i as int)).len()),
            with_fields(s, back(b, full)) == with_fields(
                s.take(i as int),
                back(view_types(src@), slots_fields(s.take(i as int)).len()),
            ) + fields_of(*x).skip(i as int),
        decreases i,
    {
        let ghost v = fields_of(*x);
        let ghost stack = view_types(src@);
        let ghost head = s.take(i as int);
        let ghost x0 = s[i - 1];
        proof {
            assert(head.drop_last() =~= s.take(i - 1));
            assert(head.last() == x0);
        }
        i = i - 1;
        assert(v[i as int] == s[i as int]);
        proof {
            reveal(slots_field);
        }
        put_one(x.get_mut(i), src);
        proof {
            reveal(slots_field);
            reveal(with_field);
            assert(fields_of(*x) =~= v.update(i as int, fields_of(*x)[i as int]));
            let (k0, k1) = (slots_fields(s.take(i as int)).len(), slots_field(x0).len());
            lemma_nested(stack, k0, k1);
            assert(view_types(src@) =~= b.take(b.len() - full + k0));
            let tail = fields_of(*x).skip(i as int);
            assert(tail =~= seq![fields_of(*x)[i as int]] + v.skip(i + 1));
            assert forall|j: int| 0 <= j < i implies #[trigger] fields_of(*x)[j] == s[j] by {
                assert(fields_of(*x)[j] == v[j]);
            }
            assert(with_fields(s, back(b, full)) =~= with_fields(
                s.take(i as int),
                back(view_types(src@), k0),
            ) + tail);
        }
    }
    proof {
        assert(fields_of(*x).skip(0) =~= fields_of(*x));
        assert(s.take(0).len() == 0);
        assert(view_types(src@) =~= front(b, full));
        assert(with_fields(s, back(b, full)) =~= fields_of(*x));
    }
}

fn visit_quantifieds<'a>(x: &'a Vec<Quantified>, out: &mut Vec<&'a Type>)
    ensures
        view_refs(final(out)@) == view_refs(old(out)@) + slots_quantifieds(view_quantifieds(x@)),
{
    let ghost s = view_quantifieds(x@);
    let ghost before = view_refs(out@);
    assert(view_refs(out@) =~= before + slots_quantifieds(s.take(0)));
    for i in 0..x.len()
        invariant
            s == view_quantifieds(x@),
            view_refs(out@) == before + slots_quantifieds(s.take(i as int)),
    {
        visit_quantified(&x[i], out);
        proof {
            lemma_append_types(
                before,
                slots_quantifieds(s.take(i as int)),
                slots_quantified(s[i as int]),
            );
            assert(s.take(i + 1).drop_last() =~= s.take(i as int));
            assert(s.take(i + 1).last() == s[i as int]);
        }
    }
    assert(s.take(s.len() as int) =~= s);
}

fn visit_tparams<'a>(x: &'a TParams, out: &mut Vec<&'a Type>)
    ensures
        view_refs(final(out)@) == view_refs(old(out)@) + slots_quantifieds(x@),
{
    proof {
        lemma_tparams_view(*x);
    }
    visit_quantifieds(&x.params, out);
}

fn visit_param_list<'a>(x: &'a ParamList, out: &mut Vec<&'a Type>)
    ensures
        view_refs(final(out)@) == view_refs(old(out)@) + slots_param_seq(x@),
{
    proof {
        lemma_param_list_view(*x);
    }
    visit_param_seq(&x.items, out);
}

fn take_param_list(x: &mut ParamList, out: &mut Vec<Type>)
    ensures
        view_types(final(out)@) == view_types(old(out)@) + slots_param_seq(old(x)@),
        kept_param_seq(old(x)@, final(x)@),
{
    broadcast use lemma_param_list_view;

    take_param_seq(&mut x.items, out);
}

fn put_param_list(x: &mut ParamList, src: &mut Vec<Type>)
    requires
        slots_param_seq(old(x)@).len() <= old(src)@.len(),
    ensures
        view_types(final(src)@) == front(view_types(old(src)@), slots_param_seq(old(x)@).len()),
        final(x)@
            == with_param_seq(old(x)@, back(view_types(old(src)@), slots_param_seq(old(x)@).len())),
{
    broadcast use lemma_param_list_view;

    put_param_seq(&mut x.items, src);
}

fn visit_int_tuple<'a>(x: &'a IntTuple, out: &mut Vec<&'a Type>)
    ensures
        view_refs(final(out)@) == view_refs(old(out)@) + slots_dims(x@),
{
    proof {
        lemma_int_tuple_view(*x);
    }
    visit_dims(&x.dims, out);
}

fn take_int_tuple(x: &mut IntTuple, out: &mut Vec<Type>)
    ensures
        view_types(final(out)@) == view_types(old(out)@) + slots_dims(old(x)@),
        kept_dims(old(x)@, final(x)@),
{
    broadcast use lemma_int_tuple_view;

    take_dims(&mut x.dims, out);
}

fn put_int_tuple(x: &mut IntTuple, src: &mut Vec<Type>)
    requires
        slots_dims(old(x)@).len() <= old(src)@.len(),
    ensures
        view_types(final(src)@) == front(view_types(old(src)@), slots_dims(old(x)@).len()),
        final(x)@ == with_dims(old(x)@, back(view_types(old(src)@), slots_dims(old(x)@).len())),
{
    broadcast use lemma_int_tuple_view;

    put_dims(&mut x.dims, src);
}

fn visit_forall_function<'a>(x: &'a Forall<Function>, out: &mut Vec<&'a Type>)
    ensures
        view_refs(final(out)@) == view_refs(old(out)@) + reached_forall_function(x@),
{
    let ghost before = view_refs(out@);
    proof {
        lemma_forall_function_view(*x);
        reveal(reached_forall_function);
    }
    visit_tparams(&*x.tparams, out);
    visit_function(&x.body, out);
    proof {
        lemma_append_types(before, slots_quantifieds(x@.tparams), slots_function(x@.body));
    }
}

fn take_forall_function(x: &mut Forall<Function>, out: &mut Vec<Type>)
    ensures
        view_types(final(out)@) == view_types(old(out)@) + slots_forall_function(old(x)@),
        kept_forall_function(old(x)@, final(x)@),
{
    broadcast use lemma_forall_function_view;

    proof {
        reveal(slots_forall_function);
        reveal(with_forall_function);
    }
    take_function(&mut x.body, out);
}

fn put_forall_function(x: &mut Forall<Function>, src: &mut Vec<Type>)
    requires
        slots_forall_function(old(x)@).len() <= old(src)@.len(),
    ensures
        view_types(final(src)@)
            == front(view_types(old(src)@), slots_forall_function(old(x)@).len()),
        final(x)@ == with_forall_function(
            old(x)@,
            back(view_types(old(src)@), slots_forall_function(old(x)@).len()),
        ),
{
    broadcast use lemma_forall_function_view;

    proof {
        reveal(slots_forall_function);
        reveal(with_forall_function);
    }
    put_function(&mut x.body, src);
}

fn visit_forall_forallable<'a>(x: &'a Forall<Forallable>, out: &mut Vec<&'a Type>)
    ensures
        view_refs(final(out)@) == view_refs(old(out)@) + reached_forall_forallable(x@),
{
    let ghost before = view_refs(out@);
    proof {
        lemma_forall_forallable_view(*x);
        reveal(reached_forall_forallable);
    }
    visit_tparams(&*x.tparams, out);
    visit_forallable(&x.body, out);
    proof {
        lemma_append_types(before, slots_quantifieds(x@.tparams), slots_forallable(x@.body));
    }
}

fn take_forall_forallable(x: &mut Forall<Forallable>, out: &mut Vec<Type>)
    ensures
        view_types(final(out)@) == view_types(old(out)@) + slots_forall_forallable(old(x)@),
        kept_forall_forallable(old(x)@, final(x)@),
{
    broadcast use lemma_forall_forallable_view;

    proof {
        reveal(slots_forall_forallable);
        reveal(with_forall_forallable);
    }
    take_forallable(&mut x.body, out);
}

fn put_forall_forallable(x: &mut Forall<Forallable>, src: &mut Vec<Type>)
    requires
        slots_forall_forallable(old(x)@).len() <= old(src)@.len(),
    ensures
        view_types(final(src)@)
            == front(view_types(old(src)@), slots_forall_forallable(old(x)@).len()),
        final(x)@ == with_forall_forallable(
            old(x)@,
            back(view_types(old(src)@), slots_forall_forallable(old(x)@).len()),
        ),
{
    broadcast use lemma_forall_forallable_view;

    proof {
        reveal(slots_forall_forallable);
        reveal(with_forall_forallable);
    }
    put_forallable(&mut x.body, src);
}

fn visit_restriction<'a>(x: &'a Restriction, out: &mut Vec<&'a Type>)
    ensures
        view_refs(final(out)@) == view_refs(old(out)@) + slots_restriction(x@),
{
    let ghost m = x@;
    let ghost start = view_refs(out@);
    proof {
        lemma_restriction_view(*x);
        reveal(slots_restriction);
    }
    match x {
        Restriction::Bound(a) => {
            visit_one(a, out);
        },
        Restriction::Constraints(a) => {
            visit_many(a, out);
        },
        _ => {
            assert(view_refs(out@) =~= start + Seq::<TypeView>::empty());
        },
    }
}

fn take_restriction(x: &mut Restriction, out: &mut Vec<Type>)
    ensures
        view_types(final(out)@) == view_types(old(out)@) + slots_restriction(old(x)@),
        kept_restriction(old(x)@, final(x)@),
{
    let ghost m = x@;
    let ghost start = view_types(out@);
    broadcast use lemma_restriction_view;

    proof {
        reveal(slots_restriction);
        reveal(with_restriction);
    }
    match x {
        Restriction::Bound(a) => {
            take_one(a, out);
        },
        Restriction::Constraints(a) => {
            take_many(a, out);
        },
        _ => {
            assert(view_types(out@) =~= start + Seq::<TypeView>::empty());
        },
    }
}

fn put_restriction(x: &mut Restriction, src: &mut Vec<Type>)
    requires
        slots_restriction(old(x)@).len() <= old(src)@.len(),
    ensures
        view_types(final(src)@) == front(view_types(old(src)@), slots_restriction(old(x)@).len()),
        final(x)@ == with_restriction(
            old(x)@,
            back(view_types(old(src)@), slots_restriction(old(x)@).len()),
        ),
{
    let ghost m = x@;
    let ghost start = view_types(src@);
    broadcast use lemma_restriction_view;

    proof {
        reveal(slots_restriction);
        reveal(with_restriction);
    }
    match x {
        Restriction::Bound(a) => {
            put_one(a, src);
        },
        Restriction::Constraints(a) => {
            put_many(a, src);
        },
        _ => {
            assert(view_types(src@) =~= front(start, 0));
        },
    }
}

fn visit_quantified<'a>(x: &'a Quantified, out: &mut Vec<&'a Type>)
    ensures
        view_refs(final(out)@) == view_refs(old(out)@) + slots_quantified(x@),
{
    let ghost m = x@;
    proof {
        lemma_quantified_view(*x);
        reveal(slots_quantified);
    }
    let ghost before = view_refs(out@);
    visit_opt_one(&x.default, out);
    visit_restriction(&x.restriction, out);
    proof {
        lemma_append_types(before, slots_opt_one(m.default), slots_restriction(m.restriction));
    }
}

fn take_quantified(x: &mut Quantified, out: &mut Vec<Type>)
    ensures
        view_types(final(out)@) == view_types(old(out)@) + slots_quantified(old(x)@),
        kept_quantified(old(x)@, final(x)@),
{
    let ghost m = x@;
    broadcast use lemma_quantified_view;

    proof {
        reveal(slots_quantified);
        reveal(with_quantified);
    }
    let ghost before = view_types(out@);
    take_opt_one(&mut x.default, out);
    take_restriction(&mut x.restriction, out);
    proof {
        lemma_append_types(before, slots_opt_one(m.default), slots_restriction(m.restriction));
    }
}

fn put_quantified(x: &mut Quantified, src: &mut Vec<Type>)
    requires
        slots_quantified(old(x)@).len() <= old(src)@.len(),
    ensures
        view_types(final(src)@) == front(view_types(old(src)@), slots_quantified(old(x)@).len()),
        final(x)@ == with_quantified(
            old(x)@,
            back(view_types(old(src)@), slots_quantified(old(x)@).len()),
        ),
{
    let ghost m = x@;
    broadcast use lemma_quantified_view;

    proof {
        reveal(slots_quantified);
        reveal(with_quantified);
    }
    let ghost b = view_types(src@);
    let ghost k0 = slots_opt_one(m.default).len();
    let ghost k1 = slots_restriction(m.restriction).len();
    put_restriction(&mut x.restriction, src);
    assert(src@.len() == view_types(src@).len());
    put_opt_one(&mut x.default, src);
    proof {
        lemma_nested(b, k0, k1);
    }
}

pub(crate) fn visit_targs<'a>(x: &'a TArgs, out: &mut Vec<&'a Type>)
    ensures
        view_refs(final(out)@) == view_refs(old(out)@) + slots_targs(x@),
{
    proof {
        lemma_targs_view(*x);
        reveal(slots_targs);
    }
    visit_many(&x.args, out);
}

fn take_targs(x: &mut TArgs, out: &mut Vec<Type>)
    ensures
        view_types(final(out)@) == view_types(old(out)@) + slots_targs(old(x)@),
        kept_targs(old(x)@, final(x)@),
{
    broadcast use lemma_targs_view;

    proof {
        reveal(slots_targs);
        reveal(with_targs);
    }
    take_many(&mut x.args, out);
}

fn put_targs(x: &mut TArgs, src: &mut Vec<Type>)
    requires
        slots_targs(old(x)@).len() <= old(src)@.len(),
    ensures
        view_types(final(src)@) == front(view_types(old(src)@), slots_targs(old(x)@).len()),
        final(x)@ == with_targs(old(x)@, back(view_types(old(src)@), slots_targs(old(x)@).len())),
{
    broadcast use lemma_targs_view;

    proof {
        reveal(slots_targs);
        reveal(with_targs);
    }
    put_many(&mut x.args, src);
}

fn visit_class_type<'a>(x: &'a ClassType, out: &mut Vec<&'a Type>)
    ensures
        view_refs(final(out)@) == view_refs(old(out)@) + slots_class_type(x@),
{
    proof {
        lemma_class_type_view(*x);
        reveal(slots_class_type);
    }
    visit_targs(&x.targs, out);
}

fn take_class_type(x: &mut ClassType, out: &mut Vec<Type>)
    ensures
        view_types(final(out)@) == view_types(old(out)@) + slots_class_type(old(x)@),
        kept_class_type(old(x)@, final(x)@),
{
    broadcast use lemma_class_type_view;

    proof {
        reveal(slots_class_type);
        reveal(with_class_type);
    }
    take_targs(&mut x.targs, out);
}

fn put_class_type(x: &mut ClassType, src: &mut Vec<Type>)
    requires
        slots_class_type(old(x)@).len() <= old(src)@.len(),
    ensures
        view_types(final(src)@) == front(view_types(old(src)@), slots_class_type(old(x)@).len()),
        final(x)@ == with_class_type(
            old(x)@,
            back(view_types(old(src)@), slots_class_type(old(x)@).len()),
        ),
{
    broadcast use lemma_class_type_view;

    proof {
        reveal(slots_class_type);
        reveal(with_class_type);
    }
    put_targs(&mut x.targs, src);
}

fn visit_lit_enum<'a>(x: &'a LitEnum, out: &mut Vec<&'a Type>)
    ensures
        view_refs(final(out)@) == view_refs(old(out)@) + slots_lit_enum(x@),
{
    proof {
        lemma_lit_enum_view(*x);
        reveal(slots_lit_enum);
    }
    visit_class_type(&x.class, out);
}

fn take_lit_enum(x: &mut LitEnum, out: &mut Vec<Type>)
    ensures
        view_types(final(out)@) == view_types(old(out)@) + slots_lit_enum(old(x)@),
        kept_lit_enum(old(x)@, final(x)@),
{
    broadcast use lemma_lit_enum_view;

    proof {
        reveal(slots_lit_enum);
        reveal(with_lit_enum);
    }
    take_class_type(&mut x.class, out);
}

fn put_lit_enum(x: &mut LitEnum, src: &mut Vec<Type>)
    requires
        slots_lit_enum(old(x)@).len() <= old(src)@.len(),
    ensures
        view_types(final(src)@) == front(view_types(old(src)@), slots_lit_enum(old(x)@).len()),
        final(x)@
            == with_lit_enum(old(x)@, back(view_types(old(src)@), slots_lit_enum(old(x)@).len())),
{
    broadcast use lemma_lit_enum_view;

    proof {
        reveal(slots_lit_enum);
        reveal(with_lit_enum);
    }
    put_class_type(&mut x.class, src);
}

fn visit_lit<'a>(x: &'a Lit, out: &mut Vec<&'a Type>)
    ensures
        view_refs(final(out)@) == view_refs(old(out)@) + slots_lit(x@),
{
    let ghost m = x@;
    let ghost start = view_refs(out@);
    proof {
        lemma_lit_view(*x);
        reveal(slots_lit);
    }
    match x {
        Lit::Enum(a) => {
            visit_lit_enum(&**a, out);
        },
        _ => {
            assert(view_refs(out@) =~= start + Seq::<TypeView>::empty());
        },
    }
}

fn take_lit(x: &mut Lit, out: &mut Vec<Type>)
    ensures
        view_types(final(out)@) == view_types(old(out)@) + slots_lit(old(x)@),
        kept_lit(old(x)@, final(x)@),
{
    let ghost m = x@;
    let ghost start = view_types(out@);
    broadcast use lemma_lit_view;

    proof {
        reveal(slots_lit);
        reveal(with_lit);
    }
    match x {
        Lit::Enum(a) => {
            take_lit_enum(&mut **a, out);
        },
        _ => {
            assert(view_types(out@) =~= start + Seq::<TypeView>::empty());
        },
    }
}

fn put_lit(x: &mut Lit, src: &mut Vec<Type>)
    requires
        slots_lit(old(x)@).len() <= old(src)@.len(),
    ensures
        view_types(final(src)@) == front(view_types(old(src)@), slots_lit(old(x)@).len()),
        final(x)@ == with_lit(old(x)@, back(view_types(old(src)@), slots_lit(old(x)@).len())),
{
    let ghost m = x@;
    let ghost start = view_types(src@);
    broadcast use lemma_lit_view;

    proof {
        reveal(slots_lit);
        reveal(with_lit);
    }
    match x {
        Lit::Enum(a) => {
            put_lit_enum(&mut **a, src);
        },
        _ => {
            assert(view_types(src@) =~= front(start, 0));
        },
    }
}

fn visit_literal<'a>(x: &'a Literal, out: &mut Vec<&'a Type>)
    ensures
        view_refs(final(out)@) == view_refs(old(out)@) + slots_literal(x@),
{
    proof {
        lemma_literal_view(*x);
        reveal(slots_literal);
    }
    visit_lit(&x.value, out);
}

fn take_literal(x: &mut Literal, out: &mut Vec<Type>)
    ensures
        view_types(final(out)@) == view_types(old(out)@) + slots_literal(old(x)@),
        kept_literal(old(x)@, final(x)@),
{
    broadcast use lemma_literal_view;

    proof {
        reveal(slots_literal);
        reveal(with_literal);
    }
    take_lit(&mut x.value, out);
}

fn put_literal(x: &mut Literal, src: &mut Vec<Type>)
    requires
        slots_literal(old(x)@).len() <= old(src)@.len(),
    ensures
        view_types(final(src)@) == front(view_types(old(src)@), slots_literal(old(x)@).len()),
        final(x)@
            == with_literal(old(x)@, back(view_types(old(src)@), slots_literal(old(x)@).len())),
{
    broadcast use lemma_literal_view;

    proof {
        reveal(slots_literal);
        reveal(with_literal);
    }
    put_lit(&mut x.value, src);
}

fn visit_param<'a>(x: &'a Param, out: &mut Vec<&'a Type>)
    ensures
        view_refs(final(out)@) == view_refs(old(out)@) + slots_param(x@),
{
    proof {
        lemma_param_view(*x);
        reveal(slots_param);
    }
    visit_one(&x.ty, out);
}

fn take_param(x: &mut Param, out: &mut Vec<Type>)
    ensures
        view_types(final(out)@) == view_types(old(out)@) + slots_param(old(x)@),
        kept_param(old(x)@, final(x)@),
{
    broadcast use lemma_param_view;

    proof {
        reveal(slots_param);
        reveal(with_param);
    }
    take_one(&mut x.ty, out);
}

fn put_param(x: &mut Param, src: &mut Vec<Type>)
    requires
        slots_param(old(x)@).len() <= old(src)@.len(),
    ensures
        view_types(final(src)@) == front(view_types(old(src)@), slots_param(old(x)@).len()),
        final(x)@ == with_param(old(x)@, back(view_types(old(src)@), slots_param(old(x)@).len())),
{
    broadcast use lemma_param_view;

    proof {
        reveal(slots_param);
        reveal(with_param);
    }
    put_one(&mut x.ty, src);
}

fn visit_params<'a>(x: &'a Params, out: &mut Vec<&'a Type>)
    ensures
        view_refs(final(out)@) == view_refs(old(out)@) + slots_params(x@),
{
    let ghost m = x@;
    let ghost start = view_refs(out@);
    proof {
        lemma_params_view(*x);
        reveal(slots_params);
    }
    match x {
        Params::List(a) => {
            visit_param_list(a, out);
        },
        Params::ParamSpec(a, b2) => {
            let ghost before = view_refs(out@);
            visit_param_seq(a, out);
            visit_one(b2, out);
            proof {
                lemma_append_types(
                    before,
                    slots_param_seq(m->ParamSpec_0),
                    slots_one(m->ParamSpec_1),
                );
            }
        },
        _ => {
            assert(view_refs(out@) =~= start + Seq::<TypeView>::empty());
        },
    }
}

fn take_params(x: &mut Params, out: &mut Vec<Type>)
    ensures
        view_types(final(out)@) == view_types(old(out)@) + slots_params(old(x)@),
        kept_params(old(x)@, final(x)@),
{
    let ghost m = x@;
    let ghost start = view_types(out@);
    broadcast use lemma_params_view;

    proof {
        reveal(slots_params);
        reveal(with_params);
    }
    match x {
        Params::List(a) => {
            take_param_list(a, out);
        },
        Params::ParamSpec(a, b2) => {
            let ghost before = view_types(out@);
            take_param_seq(a, out);
            take_one(b2, out);
            proof {
                lemma_append_types(
                    before,
                    slots_param_seq(m->ParamSpec_0),
                    slots_one(m->ParamSpec_1),
                );
            }
        },
        _ => {
            assert(view_types(out@) =~= start + Seq::<TypeView>::empty());
        },
    }
}

fn put_params(x: &mut Params, src: &mut Vec<Type>)
    requires
        slots_params(old(x)@).len() <= old(src)@.len(),
    ensures
        view_types(final(src)@) == front(view_types(old(src)@), slots_params(old(x)@).len()),
        final(x)@ == with_params(old(x)@, back(view_types(old(src)@), slots_params(old(x)@).len())),
{
    let ghost m = x@;
    let ghost start = view_types(src@);
    broadcast use lemma_params_view;

    proof {
        reveal(slots_params);
        reveal(with_params);
    }
    match x {
        Params::List(a) => {
            put_param_list(a, src);
        },
        Params::ParamSpec(a, b2) => {
            let ghost b = view_types(src@);
            let ghost k0 = slots_param_seq(m->ParamSpec_0).len();
            let ghost k1 = slots_one(m->ParamSpec_1).len();
            put_one(b2, src);
            assert(src@.len() == view_types(src@).len());
            put_param_seq(a, src);
            proof {
                lemma_nested(b, k0, k1);
            }
        },
        _ => {
            assert(view_types(src@) =~= front(start, 0));
        },
    }
}

fn visit_callable<'a>(x: &'a Callable, out: &mut Vec<&'a Type>)
    ensures
        view_refs(final(out)@) == view_refs(old(out)@) + slots_callable(x@),
{
    let ghost m = x@;
    proof {
        lemma_callable_view(*x);
        reveal(slots_callable);
    }
    let ghost before = view_refs(out@);
    visit_params(&x.params, out);
    visit_one(&x.ret, out);
    proof {
        lemma_append_types(before, slots_params(m.params), slots_one(m.ret));
    }
}

pub(crate) fn take_callable(x: &mut Callable, out: &mut Vec<Type>)
    ensures
        view_types(final(out)@) == view_types(old(out)@) + slots_callable(old(x)@),
        kept_callable(old(x)@, final(x)@),
{
    let ghost m = x@;
    broadcast use lemma_callable_view;

    proof {
        reveal(slots_callable);
        reveal(with_callable);
    }
    let ghost before = view_types(out@);
    take_params(&mut x.params, out);
    take_one(&mut x.ret, out);
    proof {
        lemma_append_types(before, slots_params(m.params), slots_one(m.ret));
    }
}

pub(crate) fn put_callable(x: &mut Callable, src: &mut Vec<Type>)
    requires
        slots_callable(old(x)@).len() <= old(src)@.len(),
    ensures
        view_types(final(src)@) == front(view_types(old(src)@), slots_callable(old(x)@).len()),
        final(x)@
            == with_callable(old(x)@, back(view_types(old(src)@), slots_callable(old(x)@).len())),
{
    let ghost m = x@;
    broadcast use lemma_callable_view;

    proof {
        reveal(slots_callable);
        reveal(with_callable);
    }
    let ghost b = view_types(src@);
    let ghost k0 = slots_params(m.params).len();
    let ghost k1 = slots_one(m.ret).len();
    put_one(&mut x.ret, src);
    assert(src@.len() == view_types(src@).len());
    put_params(&mut x.params, src);
    proof {
        lemma_nested(b, k0, k1);
    }
}

fn visit_property_metadata<'a>(x: &'a PropertyMetadata, out: &mut Vec<&'a Type>)
    ensures
        view_refs(final(out)@) == view_refs(old(out)@) + slots_property_metadata(x@),
{
    proof {
        lemma_property_metadata_view(*x);
        reveal(slots_property_metadata);
    }
    visit_one(&x.getter, out);
}

fn take_property_metadata(x: &mut PropertyMetadata, out: &mut Vec<Type>)
    ensures
        view_types(final(out)@) == view_types(old(out)@) + slots_property_metadata(old(x)@),
        kept_property_metadata(old(x)@, final(x)@),
{
    broadcast use lemma_property_metadata_view;

    proof {
        reveal(slots_property_metadata);
        reveal(with_property_metadata);
    }
    take_one(&mut x.getter, out);
}

fn put_property_metadata(x: &mut PropertyMetadata, src: &mut Vec<Type>)
    requires
        slots_property_metadata(old(x)@).len() <= old(src)@.len(),
    ensures
        view_types(final(src)@)
            == front(view_types(old(src)@), slots_property_metadata(old(x)@).len()),
        final(x)@ == with_property_metadata(
            old(x)@,
            back(view_types(old(src)@), slots_property_metadata(old(x)@).len()),
        ),
{
    broadcast use lemma_property_metadata_view;

    proof {
        reveal(slots_property_metadata);
        reveal(with_property_metadata);
    }
    put_one(&mut x.getter, src);
}

fn visit_func_flags<'a>(x: &'a FuncFlags, out: &mut Vec<&'a Type>)
    ensures
        view_refs(final(out)@) == view_refs(old(out)@) + slots_func_flags(x@),
{
    proof {
        lemma_func_flags_view(*x);
        reveal(slots_func_flags);
    }
    visit_opt_property_metadata(&x.property_metadata, out);
}

fn take_func_flags(x: &mut FuncFlags, out: &mut Vec<Type>)
    ensures
        view_types(final(out)@) == view_types(old(out)@) + slots_func_flags(old(x)@),
        kept_func_flags(old(x)@, final(x)@),
{
    broadcast use lemma_func_flags_view;

    proof {
        reveal(slots_func_flags);
        reveal(with_func_flags);
    }
    take_opt_property_metadata(&mut x.property_metadata, out);
}

fn put_func_flags(x: &mut FuncFlags, src: &mut Vec<Type>)
    requires
        slots_func_flags(old(x)@).len() <= old(src)@.len(),
    ensures
        view_types(final(src)@) == front(view_types(old(src)@), slots_func_flags(old(x)@).len()),
        final(x)@ == with_func_flags(
            old(x)@,
            back(view_types(old(src)@), slots_func_flags(old(x)@).len()),
        ),
{
    broadcast use lemma_func_flags_view;

    proof {
        reveal(slots_func_flags);
        reveal(with_func_flags);
    }
    put_opt_property_metadata(&mut x.property_metadata, src);
}

fn visit_func_metadata<'a>(x: &'a FuncMetadata, out: &mut Vec<&'a Type>)
    ensures
        view_refs(final(out)@) == view_refs(old(out)@) + slots_func_metadata(x@),
{
    proof {
        lemma_func_metadata_view(*x);
        reveal(slots_func_metadata);
    }
    visit_func_flags(&x.flags, out);
}

fn take_func_metadata(x: &mut FuncMetadata, out: &mut Vec<Type>)
    ensures
        view_types(final(out)@) == view_types(old(out)@) + slots_func_metadata(old(x)@),
        kept_func_metadata(old(x)@, final(x)@),
{
    broadcast use lemma_func_metadata_view;

    proof {
        reveal(slots_func_metadata);
        reveal(with_func_metadata);
    }
    take_func_flags(&mut x.flags, out);
}

fn put_func_metadata(x: &mut FuncMetadata, src: &mut Vec<Type>)
    requires
        slots_func_metadata(old(x)@).len() <= old(src)@.len(),
    ensures
        view_types(final(src)@) == front(view_types(old(src)@), slots_func_metadata(old(x)@).len()),
        final(x)@ == with_func_metadata(
            old(x)@,
            back(view_types(old(src)@), slots_func_metadata(old(x)@).len()),
        ),
{
    broadcast use lemma_func_metadata_view;

    proof {
        reveal(slots_func_metadata);
        reveal(with_func_metadata);
    }
    put_func_flags(&mut x.flags, src);
}

fn visit_function<'a>(x: &'a Function, out: &mut Vec<&'a Type>)
    ensures
        view_refs(final(out)@) == view_refs(old(out)@) + slots_function(x@),
{
    let ghost m = x@;
    proof {
        lemma_function_view(*x);
        reveal(slots_function);
    }
    let ghost before = view_refs(out@);
    visit_callable(&x.signature, out);
    visit_func_metadata(&x.metadata, out);
    proof {
        lemma_append_types(before, slots_callable(m.signature), slots_func_metadata(m.metadata));
    }
}

fn take_function(x: &mut Function, out: &mut Vec<Type>)
    ensures
        view_types(final(out)@) == view_types(old(out)@) + slots_function(old(x)@),
        kept_function(old(x)@, final(x)@),
{
    let ghost m = x@;
    broadcast use lemma_function_view;

    proof {
        reveal(slots_function);
        reveal(with_function);
    }
    let ghost before = view_types(out@);
    take_callable(&mut x.signature, out);
    take_func_metadata(&mut x.metadata, out);
    proof {
        lemma_append_types(before, slots_callable(m.signature), slots_func_metadata(m.metadata));
    }
}

fn put_function(x: &mut Function, src: &mut Vec<Type>)
    requires
        slots_function(old(x)@).len() <= old(src)@.len(),
    ensures
        view_types(final(src)@) == front(view_types(old(src)@), slots_function(old(x)@).len()),
        final(x)@
            == with_function(old(x)@, back(view_types(old(src)@), slots_function(old(x)@).len())),
{
    let ghost m = x@;
    broadcast use lemma_function_view;

    proof {
        reveal(slots_function);
        reveal(with_function);
    }
    let ghost b = view_types(src@);
    let ghost k0 = slots_callable(m.signature).len();
    let ghost k1 = slots_func_metadata(m.metadata).len();
    put_func_metadata(&mut x.metadata, src);
    assert(src@.len() == view_types(src@).len());
    put_callable(&mut x.signature, src);
    proof {
        lemma_nested(b, k0, k1);
    }
}

fn visit_type_alias<'a>(x: &'a TypeAlias, out: &mut Vec<&'a Type>)
    ensures
        view_refs(final(out)@) == view_refs(old(out)@) + slots_type_alias(x@),
{
    proof {
        lemma_type_alias_view(*x);
        reveal(slots_type_alias);
    }
    visit_one(&x.ty, out);
}

fn take_type_alias(x: &mut TypeAlias, out: &mut Vec<Type>)
    ensures
        view_types(final(out)@) == view_types(old(out)@) + slots_type_alias(old(x)@),
        kept_type_alias(old(x)@, final(x)@),
{
    broadcast use lemma_type_alias_view;

    proof {
        reveal(slots_type_alias);
        reveal(with_type_alias);
    }
    take_one(&mut x.ty, out);
}

fn put_type_alias(x: &mut TypeAlias, src: &mut Vec<Type>)
    requires
        slots_type_alias(old(x)@).len() <= old(src)@.len(),
    ensures
        view_types(final(src)@) == front(view_types(old(src)@), slots_type_alias(old(x)@).len()),
        final(x)@ == with_type_alias(
            old(x)@,
            back(view_types(old(src)@), slots_type_alias(old(x)@).len()),
        ),
{
    broadcast use lemma_type_alias_view;

    proof {
        reveal(slots_type_alias);
        reveal(with_type_alias);
    }
    put_one(&mut x.ty, src);
}

fn visit_type_alias_ref<'a>(x: &'a TypeAliasRef, out: &mut Vec<&'a Type>)
    ensures
        view_refs(final(out)@) == view_refs(old(out)@) + slots_type_alias_ref(x@),
{
    proof {
        lemma_type_alias_ref_view(*x);
        reveal(slots_type_alias_ref);
    }
    visit_opt_targs(&x.args, out);
}

fn take_type_alias_ref(x: &mut TypeAliasRef, out: &mut Vec<Type>)
    ensures
        view_types(final(out)@) == view_types(old(out)@) + slots_type_alias_ref(old(x)@),
        kept_type_alias_ref(old(x)@, final(x)@),
{
    broadcast use lemma_type_alias_ref_view;

    proof {
        reveal(slots_type_alias_ref);
        reveal(with_type_alias_ref);
    }
    take_opt_targs(&mut x.args, out);
}

fn put_type_alias_ref(x: &mut TypeAliasRef, src: &mut Vec<Type>)
    requires
        slots_type_alias_ref(old(x)@).len() <= old(src)@.len(),
    ensures
        view_types(final(src)@)
            == front(view_types(old(src)@), slots_type_alias_ref(old(x)@).len()),
        final(x)@ == with_type_alias_ref(
            old(x)@,
            back(view_types(old(src)@), slots_type_alias_ref(old(x)@).len()),
        ),
{
    broadcast use lemma_type_alias_ref_view;

    proof {
        reveal(slots_type_alias_ref);
        reveal(with_type_alias_ref);
    }
    put_opt_targs(&mut x.args, src);
}

fn visit_type_alias_data<'a>(x: &'a TypeAliasData, out: &mut Vec<&'a Type>)
    ensures
        view_refs(final(out)@) == view_refs(old(out)@) + slots_type_alias_data(x@),
{
    let ghost m = x@;
    proof {
        lemma_type_alias_data_view(*x);
        reveal(slots_type_alias_data);
    }
    match x {
        TypeAliasData::Value(a) => {
            visit_type_alias(a, out);
        },
        TypeAliasData::Ref(a) => {
            visit_type_alias_ref(a, out);
        },
    }
}

fn take_type_alias_data(x: &mut TypeAliasData, out: &mut Vec<Type>)
    ensures
        view_types(final(out)@) == view_types(old(out)@) + slots_type_alias_data(old(x)@),
        kept_type_alias_data(old(x)@, final(x)@),
{
    let ghost m = x@;
    broadcast use lemma_type_alias_data_view;

    proof {
        reveal(slots_type_alias_data);
        reveal(with_type_alias_data);
    }
    match x {
        TypeAliasData::Value(a) => {
            take_type_alias(a, out);
        },
        TypeAliasData::Ref(a) => {
            take_type_alias_ref(a, out);
        },
    }
}

fn put_type_alias_data(x: &mut TypeAliasData, src: &mut Vec<Type>)
    requires
        slots_type_alias_data(old(x)@).len() <= old(src)@.len(),
    ensures
        view_types(final(src)@)
            == front(view_types(old(src)@), slots_type_alias_data(old(x)@).len()),
        final(x)@ == with_type_alias_data(
            old(x)@,
            back(view_types(old(src)@), slots_type_alias_data(old(x)@).len()),
        ),
{
    let ghost m = x@;
    broadcast use lemma_type_alias_data_view;

    proof {
        reveal(slots_type_alias_data);
        reveal(with_type_alias_data);
    }
    match x {
        TypeAliasData::Value(a) => {
            put_type_alias(a, src);
        },
        TypeAliasData::Ref(a) => {
            put_type_alias_ref(a, src);
        },
    }
}

fn visit_forallable<'a>(x: &'a Forallable, out: &mut Vec<&'a Type>)
    ensures
        view_refs(final(out)@) == view_refs(old(out)@) + slots_forallable(x@),
{
    let ghost m = x@;
    proof {
        lemma_forallable_view(*x);
        reveal(slots_forallable);
    }
    match x {
        Forallable::TypeAlias(a) => {
            visit_type_alias_data(a, out);
        },
        Forallable::Function(a) => {
            visit_function(a, out);
        },
        Forallable::Callable(a) => {
            visit_callable(a, out);
        },
    }
}

fn take_forallable(x: &mut Forallable, out: &mut Vec<Type>)
    ensures
        view_types(final(out)@) == view_types(old(out)@) + slots_forallable(old(x)@),
        kept_forallable(old(x)@, final(x)@),
{
    let ghost m = x@;
    broadcast use lemma_forallable_view;

    proof {
        reveal(slots_forallable);
        reveal(with_forallable);
    }
    match x {
        Forallable::TypeAlias(a) => {
            take_type_alias_data(a, out);
        },
        Forallable::Function(a) => {
            take_function(a, out);
        },
        Forallable::Callable(a) => {
            take_callable(a, out);
        },
    }
}

fn put_forallable(x: &mut Forallable, src: &mut Vec<Type>)
    requires
        slots_forallable(old(x)@).len() <= old(src)@.len(),
    ensures
        view_types(final(src)@) == front(view_types(old(src)@), slots_forallable(old(x)@).len()),
        final(x)@ == with_forallable(
            old(x)@,
            back(view_types(old(src)@), slots_forallable(old(x)@).len()),
        ),
{
    let ghost m = x@;
    broadcast use lemma_forallable_view;

    proof {
        reveal(slots_forallable);
        reveal(with_forallable);
    }
    match x {
        Forallable::TypeAlias(a) => {
            put_type_alias_data(a, src);
        },
        Forallable::Function(a) => {
            put_function(a, src);
        },
        Forallable::Callable(a) => {
            put_callable(a, src);
        },
    }
}

fn visit_overload_type<'a>(x: &'a OverloadType, out: &mut Vec<&'a Type>)
    ensures
        view_refs(final(out)@) == view_refs(old(out)@) + reached_overload_type(x@),
{
    let ghost m = x@;
    proof {
        lemma_overload_type_view(*x);
        reveal(reached_overload_type);
    }
    match x {
        OverloadType::Function(a) => {
            visit_function(a, out);
        },
        OverloadType::Forall(a) => {
            visit_forall_function(a, out);
        },
    }
}

fn take_overload_type(x: &mut OverloadType, out: &mut Vec<Type>)
    ensures
        view_types(final(out)@) == view_types(old(out)@) + slots_overload_type(old(x)@),
        kept_overload_type(old(x)@, final(x)@),
{
    let ghost m = x@;
    broadcast use lemma_overload_type_view;

    proof {
        reveal(slots_overload_type);
        reveal(with_overload_type);
    }
    match x {
        OverloadType::Function(a) => {
            take_function(a, out);
        },
        OverloadType::Forall(a) => {
            take_forall_function(a, out);
        },
    }
}

fn put_overload_type(x: &mut OverloadType, src: &mut Vec<Type>)
    requires
        slots_overload_type(old(x)@).len() <= old(src)@.len(),
    ensures
        view_types(final(src)@) == front(view_types(old(src)@), slots_overload_type(old(x)@).len()),
        final(x)@ == with_overload_type(
            old(x)@,
            back(view_types(old(src)@), slots_overload_type(old(x)@).len()),
        ),
{
    let ghost m = x@;
    broadcast use lemma_overload_type_view;

    proof {
        reveal(slots_overload_type);
        reveal(with_overload_type);
    }
    match x {
        OverloadType::Function(a) => {
            put_function(a, src);
        },
        OverloadType::Forall(a) => {
            put_forall_function(a, src);
        },
    }
}

fn visit_overload<'a>(x: &'a Overload, out: &mut Vec<&'a Type>)
    ensures
        view_refs(final(out)@) == view_refs(old(out)@) + reached_overload(x@),
{
    let ghost m = x@;
    proof {
        lemma_overload_view(*x);
        reveal(reached_overload);
    }
    let ghost before = view_refs(out@);
    visit_signatures(&x.signatures, out);
    visit_func_metadata(&*x.metadata, out);
    proof {
        lemma_append_types(
            before,
            reached_overloads(m.signatures),
            slots_func_metadata(*m.metadata),
        );
    }
}

fn take_overload(x: &mut Overload, out: &mut Vec<Type>)
    ensures
        view_types(final(out)@) == view_types(old(out)@) + slots_overload(old(x)@),
        kept_overload(old(x)@, final(x)@),
{
    let ghost m = x@;
    broadcast use lemma_overload_view;

    proof {
        reveal(slots_overload);
        reveal(with_overload);
    }
    let ghost before = view_types(out@);
    take_signatures(&mut x.signatures, out);
    take_func_metadata(&mut *x.metadata, out);
    proof {
        lemma_append_types(before, slots_overloads(m.signatures), slots_func_metadata(*m.metadata));
    }
}

fn put_overload(x: &mut Overload, src: &mut Vec<Type>)
    requires
        slots_overload(old(x)@).len() <= old(src)@.len(),
    ensures
        view_types(final(src)@) == front(view_types(old(src)@), slots_overload(old(x)@).len()),
        final(x)@
            == with_overload(old(x)@, back(view_types(old(src)@), slots_overload(old(x)@).len())),
{
    let ghost m = x@;
    broadcast use lemma_overload_view;

    proof {
        reveal(slots_overload);
        reveal(with_overload);
    }
    let ghost b = view_types(src@);
    let ghost k0 = slots_overloads(m.signatures).len();
    let ghost k1 = slots_func_metadata(*m.metadata).len();
    put_func_metadata(&mut *x.metadata, src);
    assert(src@.len() == view_types(src@).len());
    put_signatures(&mut x.signatures, src);
    proof {
        lemma_nested(b, k0, k1);
    }
}

fn visit_bound_method_type<'a>(x: &'a BoundMethodType, out: &mut Vec<&'a Type>)
    ensures
        view_refs(final(out)@) == view_refs(old(out)@) + reached_bound_method_type(x@),
{
    let ghost m = x@;
    proof {
        lemma_bound_method_type_view(*x);
        reveal(reached_bound_method_type);
    }
    match x {
        BoundMethodType::Function(a) => {
            visit_function(a, out);
        },
        BoundMethodType::Forall(a) => {
            visit_forall_function(a, out);
        },
        BoundMethodType::Overload(a) => {
            visit_overload(a, out);
        },
    }
}

fn take_bound_method_type(x: &mut BoundMethodType, out: &mut Vec<Type>)
    ensures
        view_types(final(out)@) == view_types(old(out)@) + slots_bound_method_type(old(x)@),
        kept_bound_method_type(old(x)@, final(x)@),
{
    let ghost m = x@;
    broadcast use lemma_bound_method_type_view;

    proof {
        reveal(slots_bound_method_type);
        reveal(with_bound_method_type);
    }
    match x {
        BoundMethodType::Function(a) => {
            take_function(a, out);
        },
        BoundMethodType::Forall(a) => {
            take_forall_function(a, out);
        },
        BoundMethodType::Overload(a) => {
            take_overload(a, out);
        },
    }
}

fn put_bound_method_type(x: &mut BoundMethodType, src: &mut Vec<Type>)
    requires
        slots_bound_method_type(old(x)@).len() <= old(src)@.len(),
    ensures
        view_types(final(src)@)
            == front(view_types(old(src)@), slots_bound_method_type(old(x)@).len()),
        final(x)@ == with_bound_method_type(
            old(x)@,
            back(view_types(old(src)@), slots_bound_method_type(old(x)@).len()),
        ),
{
    let ghost m = x@;
    broadcast use lemma_bound_method_type_view;

    proof {
        reveal(slots_bound_method_type);
        reveal(with_bound_method_type);
    }
    match x {
        BoundMethodType::Function(a) => {
            put_function(a, src);
        },
        BoundMethodType::Forall(a) => {
            put_forall_function(a, src);
        },
        BoundMethodType::Overload(a) => {
            put_overload(a, src);
        },
    }
}

fn visit_bound_method<'a>(x: &'a BoundMethod, out: &mut Vec<&'a Type>)
    ensures
        view_refs(final(out)@) == view_refs(old(out)@) + reached_bound_method(x@),
{
    let ghost m = x@;
    proof {
        lemma_bound_method_view(*x);
        reveal(reached_bound_method);
    }
    let ghost before = view_refs(out@);
    visit_one(&x.obj, out);
    visit_bound_method_type(&x.func, out);
    proof {
        lemma_append_types(before, slots_one(m.obj), reached_bound_method_type(m.func));
    }
}

fn take_bound_method(x: &mut BoundMethod, out: &mut Vec<Type>)
    ensures
        view_types(final(out)@) == view_types(old(out)@) + slots_bound_method(old(x)@),
        kept_bound_method(old(x)@, final(x)@),
{
    let ghost m = x@;
    broadcast use lemma_bound_method_view;

    proof {
        reveal(slots_bound_method);
        reveal(with_bound_method);
    }
    let ghost before = view_types(out@);
    take_one(&mut x.obj, out);
    take_bound_method_type(&mut x.func, out);
    proof {
        lemma_append_types(before, slots_one(m.obj), slots_bound_method_type(m.func));
    }
}

fn put_bound_method(x: &mut BoundMethod, src: &mut Vec<Type>)
    requires
        slots_bound_method(old(x)@).len() <= old(src)@.len(),
    ensures
        view_types(final(src)@) == front(view_types(old(src)@), slots_bound_method(old(x)@).len()),
        final(x)@ == with_bound_method(
            old(x)@,
            back(view_types(old(src)@), slots_bound_method(old(x)@).len()),
        ),
{
    let ghost m = x@;
    broadcast use lemma_bound_method_view;

    proof {
        reveal(slots_bound_method);
        reveal(with_bound_method);
    }
    let ghost b = view_types(src@);
    let ghost k0 = slots_one(m.obj).len();
    let ghost k1 = slots_bound_method_type(m.func).len();
    put_bound_method_type(&mut x.func, src);
    assert(src@.len() == view_types(src@).len());
    put_one(&mut x.obj, src);
    proof {
        lemma_nested(b, k0, k1);
    }
}

fn visit_union<'a>(x: &'a Union, out: &mut Vec<&'a Type>)
    ensures
        view_refs(final(out)@) == view_refs(old(out)@) + slots_union(x@),
{
    proof {
        lemma_union_view(*x);
        reveal(slots_union);
    }
    visit_many(&x.members, out);
}

fn take_union(x: &mut Union, out: &mut Vec<Type>)
    ensures
        view_types(final(out)@) == view_types(old(out)@) + slots_union(old(x)@),
        kept_union(old(x)@, final(x)@),
{
    broadcast use lemma_union_view;

    proof {
        reveal(slots_union);
        reveal(with_union);
    }
    take_many(&mut x.members, out);
}

fn put_union(x: &mut Union, src: &mut Vec<Type>)
    requires
        slots_union(old(x)@).len() <= old(src)@.len(),
    ensures
        view_types(final(src)@) == front(view_types(old(src)@), slots_union(old(x)@).len()),
        final(x)@ == with_union(old(x)@, back(view_types(old(src)@), slots_union(old(x)@).len())),
{
    broadcast use lemma_union_view;

    proof {
        reveal(slots_union);
        reveal(with_union);
    }
    put_many(&mut x.members, src);
}

fn visit_typed_dict<'a>(x: &'a TypedDict, out: &mut Vec<&'a Type>)
    ensures
        view_refs(final(out)@) == view_refs(old(out)@) + slots_typed_dict(x@),
{
    let ghost m = x@;
    proof {
        lemma_typed_dict_view(*x);
        reveal(slots_typed_dict);
    }
    match x {
        TypedDict::TypedDict(a) => {
            visit_class_type(a, out);
        },
        TypedDict::Anonymous(a) => {
            visit_fields(a, out);
        },
    }
}

fn take_typed_dict(x: &mut TypedDict, out: &mut Vec<Type>)
    ensures
        view_types(final(out)@) == view_types(old(out)@) + slots_typed_dict(old(x)@),
        kept_typed_dict(old(x)@, final(x)@),
{
    let ghost m = x@;
    broadcast use lemma_typed_dict_view;

    proof {
        reveal(slots_typed_dict);
        reveal(with_typed_dict);
    }
    match x {
        TypedDict::TypedDict(a) => {
            take_class_type(a, out);
        },
        TypedDict::Anonymous(a) => {
            take_fields(a, out);
        },
    }
}

fn put_typed_dict(x: &mut TypedDict, src: &mut Vec<Type>)
    requires
        slots_typed_dict(old(x)@).len() <= old(src)@.len(),
    ensures
        view_types(final(src)@) == front(view_types(old(src)@), slots_typed_dict(old(x)@).len()),
        final(x)@ == with_typed_dict(
            old(x)@,
            back(view_types(old(src)@), slots_typed_dict(old(x)@).len()),
        ),
{
    let ghost m = x@;
    broadcast use lemma_typed_dict_view;

    proof {
        reveal(slots_typed_dict);
        reveal(with_typed_dict);
    }
    match x {
        TypedDict::TypedDict(a) => {
            put_class_type(a, src);
        },
        TypedDict::Anonymous(a) => {
            put_fields(a, src);
        },
    }
}

fn visit_field<'a>(x: &'a Field, out: &mut Vec<&'a Type>)
    ensures
        view_refs(final(out)@) == view_refs(old(out)@) + slots_field(x@),
{
    proof {
        lemma_field_view(*x);
        reveal(slots_field);
    }
    visit_one(&x.ty, out);
}

fn take_field(x: &mut Field, out: &mut Vec<Type>)
    ensures
        view_types(final(out)@) == view_types(old(out)@) + slots_field(old(x)@),
        kept_field(old(x)@, final(x)@),
{
    broadcast use lemma_field_view;

    proof {
        reveal(slots_field);
        reveal(with_field);
    }
    take_one(&mut x.ty, out);
}

fn put_field(x: &mut Field, src: &mut Vec<Type>)
    requires
        slots_field(old(x)@).len() <= old(src)@.len(),
    ensures
        view_types(final(src)@) == front(view_types(old(src)@), slots_field(old(x)@).len()),
        final(x)@ == with_field(old(x)@, back(view_types(old(src)@), slots_field(old(x)@).len())),
{
    broadcast use lemma_field_view;

    proof {
        reveal(slots_field);
        reveal(with_field);
    }
    put_one(&mut x.ty, src);
}

fn visit_int<'a>(x: &'a Int, out: &mut Vec<&'a Type>)
    ensures
        view_refs(final(out)@) == view_refs(old(out)@) + slots_int(x@),
{
    let ghost m = x@;
    let ghost start = view_refs(out@);
    proof {
        lemma_int_view(*x);
        reveal(slots_int);
    }
    match x {
        Int::Symbolic(a) => {
            visit_one(&**a, out);
        },
        _ => {
            assert(view_refs(out@) =~= start + Seq::<TypeView>::empty());
        },
    }
}

fn take_int(x: &mut Int, out: &mut Vec<Type>)
    ensures
        view_types(final(out)@) == view_types(old(out)@) + slots_int(old(x)@),
        kept_int(old(x)@, final(x)@),
{
    let ghost m = x@;
    let ghost start = view_types(out@);
    broadcast use lemma_int_view;

    proof {
        reveal(slots_int);
        reveal(with_int);
    }
    match x {
        Int::Symbolic(a) => {
            take_one(&mut **a, out);
        },
        _ => {
            assert(view_types(out@) =~= start + Seq::<TypeView>::empty());
        },
    }
}

fn put_int(x: &mut Int, src: &mut Vec<Type>)
    requires
        slots_int(old(x)@).len() <= old(src)@.len(),
    ensures
        view_types(final(src)@) == front(view_types(old(src)@), slots_int(old(x)@).len()),
        final(x)@ == with_int(old(x)@, back(view_types(old(src)@), slots_int(old(x)@).len())),
{
    let ghost m = x@;
    let ghost start = view_types(src@);
    broadcast use lemma_int_view;

    proof {
        reveal(slots_int);
        reveal(with_int);
    }
    match x {
        Int::Symbolic(a) => {
            put_one(&mut **a, src);
        },
        _ => {
            assert(view_types(src@) =~= front(start, 0));
        },
    }
}

fn visit_shaped_array_type<'a>(x: &'a ShapedArrayType, out: &mut Vec<&'a Type>)
    ensures
        view_refs(final(out)@) == view_refs(old(out)@) + slots_shaped_array_type(x@),
{
    let ghost m = x@;
    proof {
        lemma_shaped_array_type_view(*x);
        reveal(slots_shaped_array_type);
    }
    let ghost before = view_refs(out@);
    visit_class_type(&x.base_class, out);
    visit_int_tuple(&x.shape, out);
    proof {
        lemma_append_types(before, slots_class_type(m.base_class), slots_dims(m.shape));
    }
}

fn take_shaped_array_type(x: &mut ShapedArrayType, out: &mut Vec<Type>)
    ensures
        view_types(final(out)@) == view_types(old(out)@) + slots_shaped_array_type(old(x)@),
        kept_shaped_array_type(old(x)@, final(x)@),
{
    let ghost m = x@;
    broadcast use lemma_shaped_array_type_view;

    proof {
        reveal(slots_shaped_array_type);
        reveal(with_shaped_array_type);
    }
    let ghost before = view_types(out@);
    take_class_type(&mut x.base_class, out);
    take_int_tuple(&mut x.shape, out);
    proof {
        lemma_append_types(before, slots_class_type(m.base_class), slots_dims(m.shape));
    }
}

fn put_shaped_array_type(x: &mut ShapedArrayType, src: &mut Vec<Type>)
    requires
        slots_shaped_array_type(old(x)@).len() <= old(src)@.len(),
    ensures
        view_types(final(src)@)
            == front(view_types(old(src)@), slots_shaped_array_type(old(x)@).len()),
        final(x)@ == with_shaped_array_type(
            old(x)@,
            back(view_types(old(src)@), slots_shaped_array_type(old(x)@).len()),
        ),
{
    let ghost m = x@;
    broadcast use lemma_shaped_array_type_view;

    proof {
        reveal(slots_shaped_array_type);
        reveal(with_shaped_array_type);
    }
    let ghost b = view_types(src@);
    let ghost k0 = slots_class_type(m.base_class).len();
    let ghost k1 = slots_dims(m.shape).len();
    put_int_tuple(&mut x.shape, src);
    assert(src@.len() == view_types(src@).len());
    put_class_type(&mut x.base_class, src);
    proof {
        lemma_nested(b, k0, k1);
    }
}

fn visit_nn_module_type<'a>(x: &'a NNModuleType, out: &mut Vec<&'a Type>)
    ensures
        view_refs(final(out)@) == view_refs(old(out)@) + slots_nn_module_type(x@),
{
    let ghost m = x@;
    proof {
        lemma_nn_module_type_view(*x);
        reveal(slots_nn_module_type);
    }
    let ghost before = view_refs(out@);
    visit_class_type(&x.class, out);
    visit_module_fields(&x.fields, out);
    proof {
        lemma_append_types(before, slots_class_type(m.class), slots_fields(m.fields));
    }
}

fn take_nn_module_type(x: &mut NNModuleType, out: &mut Vec<Type>)
    ensures
        view_types(final(out)@) == view_types(old(out)@) + slots_nn_module_type(old(x)@),
        kept_nn_module_type(old(x)@, final(x)@),
{
    let ghost m = x@;
    broadcast use lemma_nn_module_type_view;

    proof {
        reveal(slots_nn_module_type);
        reveal(with_nn_module_type);
    }
    let ghost before = view_types(out@);
    take_class_type(&mut x.class, out);
    take_module_fields(&mut x.fields, out);
    proof {
        lemma_append_types(before, slots_class_type(m.class), slots_fields(m.fields));
    }
}

fn put_nn_module_type(x: &mut NNModuleType, src: &mut Vec<Type>)
    requires
        slots_nn_module_type(old(x)@).len() <= old(src)@.len(),
    ensures
        view_types(final(src)@)
            == front(view_types(old(src)@), slots_nn_module_type(old(x)@).len()),
        final(x)@ == with_nn_module_type(
            old(x)@,
            back(view_types(old(src)@), slots_nn_module_type(old(x)@).len()),
        ),
{
    let ghost m = x@;
    broadcast use lemma_nn_module_type_view;

    proof {
        reveal(slots_nn_module_type);
        reveal(with_nn_module_type);
    }
    let ghost b = view_types(src@);
    let ghost k0 = slots_class_type(m.class).len();
    let ghost k1 = slots_fields(m.fields).len();
    put_module_fields(&mut x.fields, src);
    assert(src@.len() == view_types(src@).len());
    put_class_type(&mut x.class, src);
    proof {
        lemma_nested(b, k0, k1);
    }
}

fn visit_data_frame_schema<'a>(x: &'a DataFrameSchema, out: &mut Vec<&'a Type>)
    ensures
        view_refs(final(out)@) == view_refs(old(out)@) + slots_data_frame_schema(x@),
{
    let ghost m = x@;
    proof {
        lemma_data_frame_schema_view(*x);
        reveal(slots_data_frame_schema);
    }
    let ghost before = view_refs(out@);
    visit_class_type(&x.class, out);
    visit_fields(&x.columns, out);
    proof {
        lemma_append_types(before, slots_class_type(m.class), slots_fields(m.columns));
    }
}

fn take_data_frame_schema(x: &mut DataFrameSchema, out: &mut Vec<Type>)
    ensures
        view_types(final(out)@) == view_types(old(out)@) + slots_data_frame_schema(old(x)@),
        kept_data_frame_schema(old(x)@, final(x)@),
{
    let ghost m = x@;
    broadcast use lemma_data_frame_schema_view;

    proof {
        reveal(slots_data_frame_schema);
        reveal(with_data_frame_schema);
    }
    let ghost before = view_types(out@);
    take_class_type(&mut x.class, out);
    take_fields(&mut x.columns, out);
    proof {
        lemma_append_types(before, slots_class_type(m.class), slots_fields(m.columns));
    }
}

fn put_data_frame_schema(x: &mut DataFrameSchema, src: &mut Vec<Type>)
    requires
        slots_data_frame_schema(old(x)@).len() <= old(src)@.len(),
    ensures
        view_types(final(src)@)
            == front(view_types(old(src)@), slots_data_frame_schema(old(x)@).len()),
        final(x)@ == with_data_frame_schema(
            old(x)@,
            back(view_types(old(src)@), slots_data_frame_schema(old(x)@).len()),
        ),
{
    let ghost m = x@;
    broadcast use lemma_data_frame_schema_view;

    proof {
        reveal(slots_data_frame_schema);
        reveal(with_data_frame_schema);
    }
    let ghost b = view_types(src@);
    let ghost k0 = slots_class_type(m.class).len();
    let ghost k1 = slots_fields(m.columns).len();
    put_fields(&mut x.columns, src);
    assert(src@.len() == view_types(src@).len());
    put_class_type(&mut x.class, src);
    proof {
        lemma_nested(b, k0, k1);
    }
}

fn visit_series_schema<'a>(x: &'a SeriesSchema, out: &mut Vec<&'a Type>)
    ensures
        view_refs(final(out)@) == view_refs(old(out)@) + slots_series_schema(x@),
{
    let ghost m = x@;
    proof {
        lemma_series_schema_view(*x);
        reveal(slots_series_schema);
    }
    let ghost before = view_refs(out@);
    visit_class_type(&x.class, out);
    visit_one(&x.element, out);
    proof {
        lemma_append_types(before, slots_class_type(m.class), slots_one(m.element));
    }
}

fn take_series_schema(x: &mut SeriesSchema, out: &mut Vec<Type>)
    ensures
        view_types(final(out)@) == view_types(old(out)@) + slots_series_schema(old(x)@),
        kept_series_schema(old(x)@, final(x)@),
{
    let ghost m = x@;
    broadcast use lemma_series_schema_view;

    proof {
        reveal(slots_series_schema);
        reveal(with_series_schema);
    }
    let ghost before = view_types(out@);
    take_class_type(&mut x.class, out);
    take_one(&mut x.element, out);
    proof {
        lemma_append_types(before, slots_class_type(m.class), slots_one(m.element));
    }
}

fn put_series_schema(x: &mut SeriesSchema, src: &mut Vec<Type>)
    requires
        slots_series_schema(old(x)@).len() <= old(src)@.len(),
    ensures
        view_types(final(src)@) == front(view_types(old(src)@), slots_series_schema(old(x)@).len()),
        final(x)@ == with_series_schema(
            old(x)@,
            back(view_types(old(src)@), slots_series_schema(old(x)@).len()),
        ),
{
    let ghost m = x@;
    broadcast use lemma_series_schema_view;

    proof {
        reveal(slots_series_schema);
        reveal(with_series_schema);
    }
    let ghost b = view_types(src@);
    let ghost k0 = slots_class_type(m.class).len();
    let ghost k1 = slots_one(m.element).len();
    put_one(&mut x.element, src);
    assert(src@.len() == view_types(src@).len());
    put_class_type(&mut x.class, src);
    proof {
        lemma_nested(b, k0, k1);
    }
}

fn visit_tuple<'a>(x: &'a Tuple, out: &mut Vec<&'a Type>)
    ensures
        view_refs(final(out)@) == view_refs(old(out)@) + slots_tuple(x@),
{
    let ghost m = x@;
    proof {
        lemma_tuple_view(*x);
        reveal(slots_tuple);
    }
    match x {
        Tuple::Concrete(a) => {
            visit_many(a, out);
        },
        Tuple::Unbounded(a) => {
            visit_one(&**a, out);
        },
        Tuple::Unpacked(a) => {
            visit_many_one_many(&**a, out);
        },
    }
}

fn take_tuple(x: &mut Tuple, out: &mut Vec<Type>)
    ensures
        view_types(final(out)@) == view_types(old(out)@) + slots_tuple(old(x)@),
        kept_tuple(old(x)@, final(x)@),
{
    let ghost m = x@;
    broadcast use lemma_tuple_view;

    proof {
        reveal(slots_tuple);
        reveal(with_tuple);
    }
    match x {
        Tuple::Concrete(a) => {
            take_many(a, out);
        },
        Tuple::Unbounded(a) => {
            take_one(&mut **a, out);
        },
        Tuple::Unpacked(a) => {
            take_many_one_many(&mut **a, out);
        },
    }
}

fn put_tuple(x: &mut Tuple, src: &mut Vec<Type>)
    requires
        slots_tuple(old(x)@).len() <= old(src)@.len(),
    ensures
        view_types(final(src)@) == front(view_types(old(src)@), slots_tuple(old(x)@).len()),
        final(x)@ == with_tuple(old(x)@, back(view_types(old(src)@), slots_tuple(old(x)@).len())),
{
    let ghost m = x@;
    broadcast use lemma_tuple_view;

    proof {
        reveal(slots_tuple);
        reveal(with_tuple);
    }
    match x {
        Tuple::Concrete(a) => {
            put_many(a, src);
        },
        Tuple::Unbounded(a) => {
            put_one(&mut **a, src);
        },
        Tuple::Unpacked(a) => {
            put_many_one_many(&mut **a, src);
        },
    }
}

fn visit_kw_call<'a>(x: &'a KwCall, out: &mut Vec<&'a Type>)
    ensures
        view_refs(final(out)@) == view_refs(old(out)@) + slots_kw_call(x@),
{
    let ghost m = x@;
    proof {
        lemma_kw_call_view(*x);
        reveal(slots_kw_call);
    }
    let ghost before = view_refs(out@);
    visit_fields(&x.keywords, out);
    visit_one(&x.return_ty, out);
    proof {
        lemma_append_types(before, slots_fields(m.keywords), slots_one(m.return_ty));
    }
}

fn take_kw_call(x: &mut KwCall, out: &mut Vec<Type>)
    ensures
        view_types(final(out)@) == view_types(old(out)@) + slots_kw_call(old(x)@),
        kept_kw_call(old(x)@, final(x)@),
{
    let ghost m = x@;
    broadcast use lemma_kw_call_view;

    proof {
        reveal(slots_kw_call);
        reveal(with_kw_call);
    }
    let ghost before = view_types(out@);
    take_fields(&mut x.keywords, out);
    take_one(&mut x.return_ty, out);
    proof {
        lemma_append_types(before, slots_fields(m.keywords), slots_one(m.return_ty));
    }
}

fn put_kw_call(x: &mut KwCall, src: &mut Vec<Type>)
    requires
        slots_kw_call(old(x)@).len() <= old(src)@.len(),
    ensures
        view_types(final(src)@) == front(view_types(old(src)@), slots_kw_call(old(x)@).len()),
        final(x)@
            == with_kw_call(old(x)@, back(view_types(old(src)@), slots_kw_call(old(x)@).len())),
{
    let ghost m = x@;
    broadcast use lemma_kw_call_view;

    proof {
        reveal(slots_kw_call);
        reveal(with_kw_call);
    }
    let ghost b = view_types(src@);
    let ghost k0 = slots_fields(m.keywords).len();
    let ghost k1 = slots_one(m.return_ty).len();
    put_one(&mut x.return_ty, src);
    assert(src@.len() == view_types(src@).len());
    put_fields(&mut x.keywords, src);
    proof {
        lemma_nested(b, k0, k1);
    }
}

fn visit_callable_residual<'a>(x: &'a CallableResidual, out: &mut Vec<&'a Type>)
    ensures
        view_refs(final(out)@) == view_refs(old(out)@) + slots_callable_residual(x@),
{
    let ghost m = x@;
    proof {
        lemma_callable_residual_view(*x);
        reveal(slots_callable_residual);
    }
    let ghost before = view_refs(out@);
    visit_many(&x.captured, out);
    visit_one(&x.fallback, out);
    proof {
        lemma_append_types(before, slots_many(m.captured), slots_one(m.fallback));
    }
}

fn take_callable_residual(x: &mut CallableResidual, out: &mut Vec<Type>)
    ensures
        view_types(final(out)@) == view_types(old(out)@) + slots_callable_residual(old(x)@),
        kept_callable_residual(old(x)@, final(x)@),
{
    let ghost m = x@;
    broadcast use lemma_callable_residual_view;

    proof {
        reveal(slots_callable_residual);
        reveal(with_callable_residual);
    }
    let ghost before = view_types(out@);
    take_many(&mut x.captured, out);
    take_one(&mut x.fallback, out);
    proof {
        lemma_append_types(before, slots_many(m.captured), slots_one(m.fallback));
    }
}

fn put_callable_residual(x: &mut CallableResidual, src: &mut Vec<Type>)
    requires
        slots_callable_residual(old(x)@).len() <= old(src)@.len(),
    ensures
        view_types(final(src)@)
            == front(view_types(old(src)@), slots_callable_residual(old(x)@).len()),
        final(x)@ == with_callable_residual(
            old(x)@,
            back(view_types(old(src)@), slots_callable_residual(old(x)@).len()),
        ),
{
    let ghost m = x@;
    broadcast use lemma_callable_residual_view;

    proof {
        reveal(slots_callable_residual);
        reveal(with_callable_residual);
    }
    let ghost b = view_types(src@);
    let ghost k0 = slots_many(m.captured).len();
    let ghost k1 = slots_one(m.fallback).len();
    put_one(&mut x.fallback, src);
    assert(src@.len() == view_types(src@).len());
    put_many(&mut x.captured, src);
    proof {
        lemma_nested(b, k0, k1);
    }
}

fn visit_type_level_dsl_call<'a>(x: &'a TypeLevelDslCall, out: &mut Vec<&'a Type>)
    ensures
        view_refs(final(out)@) == view_refs(old(out)@) + slots_type_level_dsl_call(x@),
{
    let ghost m = x@;
    proof {
        lemma_type_level_dsl_call_view(*x);
        reveal(slots_type_level_dsl_call);
    }
    let ghost before = view_refs(out@);
    visit_many(&x.args, out);
    visit_one(&x.result_schema, out);
    proof {
        lemma_append_types(before, slots_many(m.args), slots_one(m.result_schema));
    }
}

fn take_type_level_dsl_call(x: &mut TypeLevelDslCall, out: &mut Vec<Type>)
    ensures
        view_types(final(out)@) == view_types(old(out)@) + slots_type_level_dsl_call(old(x)@),
        kept_type_level_dsl_call(old(x)@, final(x)@),
{
    let ghost m = x@;
    broadcast use lemma_type_level_dsl_call_view;

    proof {
        reveal(slots_type_level_dsl_call);
        reveal(with_type_level_dsl_call);
    }
    let ghost before = view_types(out@);
    take_many(&mut x.args, out);
    take_one(&mut x.result_schema, out);
    proof {
        lemma_append_types(before, slots_many(m.args), slots_one(m.result_schema));
    }
}

fn put_type_level_dsl_call(x: &mut TypeLevelDslCall, src: &mut Vec<Type>)
    requires
        slots_type_level_dsl_call(old(x)@).len() <= old(src)@.len(),
    ensures
        view_types(final(src)@)
            == front(view_types(old(src)@), slots_type_level_dsl_call(old(x)@).len()),
        final(x)@ == with_type_level_dsl_call(
            old(x)@,
            back(view_types(old(src)@), slots_type_level_dsl_call(old(x)@).len()),
        ),
{
    let ghost m = x@;
    broadcast use lemma_type_level_dsl_call_view;

    proof {
        reveal(slots_type_level_dsl_call);
        reveal(with_type_level_dsl_call);
    }
    let ghost b = view_types(src@);
    let ghost k0 = slots_many(m.args).len();
    let ghost k1 = slots_one(m.result_schema).len();
    put_one(&mut x.result_schema, src);
    assert(src@.len() == view_types(src@).len());
    put_many(&mut x.args, src);
    proof {
        lemma_nested(b, k0, k1);
    }
}

fn visit_super_obj<'a>(x: &'a SuperObj, out: &mut Vec<&'a Type>)
    ensures
        view_refs(final(out)@) == view_refs(old(out)@) + slots_super_obj(x@),
{
    let ghost m = x@;
    proof {
        lemma_super_obj_view(*x);
        reveal(slots_super_obj);
    }
    match x {
        SuperObj::Instance(a) => {
            visit_class_type(a, out);
        },
        SuperObj::Class(a) => {
            visit_class_type(a, out);
        },
    }
}

fn take_super_obj(x: &mut SuperObj, out: &mut Vec<Type>)
    ensures
        view_types(final(out)@) == view_types(old(out)@) + slots_super_obj(old(x)@),
        kept_super_obj(old(x)@, final(x)@),
{
    let ghost m = x@;
    broadcast use lemma_super_obj_view;

    proof {
        reveal(slots_super_obj);
        reveal(with_super_obj);
    }
    match x {
        SuperObj::Instance(a) => {
            take_class_type(a, out);
        },
        SuperObj::Class(a) => {
            take_class_type(a, out);
        },
    }
}

fn put_super_obj(x: &mut SuperObj, src: &mut Vec<Type>)
    requires
        slots_super_obj(old(x)@).len() <= old(src)@.len(),
    ensures
        view_types(final(src)@) == front(view_types(old(src)@), slots_super_obj(old(x)@).len()),
        final(x)@
            == with_super_obj(old(x)@, back(view_types(old(src)@), slots_super_obj(old(x)@).len())),
{
    let ghost m = x@;
    broadcast use lemma_super_obj_view;

    proof {
        reveal(slots_super_obj);
        reveal(with_super_obj);
    }
    match x {
        SuperObj::Instance(a) => {
            put_class_type(a, src);
        },
        SuperObj::Class(a) => {
            put_class_type(a, src);
        },
    }
}

impl Type {
    /// Appends the types that the type holds directly to `out`, as a visit that only reads
    /// sees them.
    #[verifier::rlimit(40)]
    pub fn recurse<'a>(&'a self, out: &mut Vec<&'a Type>)
        ensures
            view_refs(final(out)@) == view_refs(old(out)@) + reached_type(self@),
    {
        let ghost start = view_refs(out@);
        proof {
            lemma_type_view(*self);
            reveal(reached_type);
        }
        match self {
            Type::Literal(a) => visit_literal(&**a, out),
            Type::Callable(a) => visit_callable(&**a, out),
            Type::CallableResidual(a) => visit_callable_residual(&**a, out),
            Type::TypeLevelDslCall(a) => visit_type_level_dsl_call(&**a, out),
            Type::Function(a) => visit_function(&**a, out),
            Type::BoundMethod(a) => visit_bound_method(&**a, out),
            Type::Overload(a) => visit_overload(a, out),
            Type::Union(a) => visit_union(&**a, out),
            Type::Intersect(a) => visit_many_one(&**a, out),
            Type::ClassType(a) => visit_class_type(a, out),
            Type::TypedDict(a) => visit_typed_dict(a, out),
            Type::PartialTypedDict(a) => visit_typed_dict(a, out),
            Type::ShapedArray(a) => visit_shaped_array_type(&**a, out),
            Type::IntTuple(a) => visit_int_tuple(&**a, out),
            Type::NNModule(a) => visit_nn_module_type(&**a, out),
            Type::DataFrame(a) => visit_data_frame_schema(&**a, out),
            Type::Series(a) => visit_series_schema(&**a, out),
            Type::Int(a) => visit_int(a, out),
            Type::Tuple(a) => visit_tuple(a, out),
            Type::Forall(a) => visit_forall_forallable(&**a, out),
            Type::Quantified(a) => visit_quantified(&**a, out),
            Type::QuantifiedValue(a) => visit_quantified(&**a, out),
            Type::ElementOfTypeVarTuple(a) => visit_quantified(&**a, out),
            Type::TypeGuard(a) => visit_one(&**a, out),
            Type::TypeIs(a) => visit_one(&**a, out),
            Type::Annotated(a, _) => visit_one(&**a, out),
            Type::Unpack(a) => visit_one(&**a, out),
            Type::Concatenate(a, b) => {
                visit_param_seq(a, out);
                visit_one(&**b, out);
                proof {
                    lemma_append_types(
                        start,
                        slots_param_seq(self@->Concatenate_0),
                        slots_one(*self@->Concatenate_1),
                    );
                }
            },
            Type::ParamSpecValue(a) => visit_param_list(a, out),
            Type::Args(a) => visit_quantified(&**a, out),
            Type::Kwargs(a) => visit_quantified(&**a, out),
            Type::ArgsValue(a) => visit_quantified(&**a, out),
            Type::KwargsValue(a) => visit_quantified(&**a, out),
            Type::Type(a) => visit_one(&**a, out),
            Type::TypeForm(a) => visit_one(&**a, out),
            Type::TypeAlias(a) => visit_type_alias_data(&**a, out),
            Type::UntypedAlias(a) => visit_type_alias_data(&**a, out),
            Type::SuperInstance(a) => visit_class_type_super_obj(&**a, out),
            Type::SelfType(a) => visit_class_type(a, out),
            Type::KwCall(a) => visit_kw_call(&**a, out),
            _ => {
                assert(view_refs(out@) =~= start + Seq::<TypeView>::empty());
            },
        }
    }

    /// Moves the types in the slots out to the end of `out`, leaving others in their place.
    #[verifier::rlimit(40)]
    pub(crate) fn take_slots(&mut self, out: &mut Vec<Type>)
        ensures
            view_types(final(out)@) == view_types(old(out)@) + slots_type(old(self)@),
            kept_type(old(self)@, final(self)@),
    {
        let ghost m = self@;
        broadcast use lemma_type_view;

        let ghost start = view_types(out@);
        proof {
            reveal(slots_type);
            reveal(with_type);
        }
        match self {
            Type::Literal(a) => take_literal(&mut **a, out),
            Type::Callable(a) => take_callable(&mut **a, out),
            Type::CallableResidual(a) => take_callable_residual(&mut **a, out),
            Type::TypeLevelDslCall(a) => take_type_level_dsl_call(&mut **a, out),
            Type::Function(a) => take_function(&mut **a, out),
            Type::BoundMethod(a) => take_bound_method(&mut **a, out),
            Type::Overload(a) => take_overload(a, out),
            Type::Union(a) => take_union(&mut **a, out),
            Type::Intersect(a) => take_many_one(&mut **a, out),
            Type::ClassType(a) => take_class_type(a, out),
            Type::TypedDict(a) => take_typed_dict(a, out),
            Type::PartialTypedDict(a) => take_typed_dict(a, out),
            Type::ShapedArray(a) => take_shaped_array_type(&mut **a, out),
            Type::IntTuple(a) => take_int_tuple(&mut **a, out),
            Type::NNModule(a) => take_nn_module_type(&mut **a, out),
            Type::DataFrame(a) => take_data_frame_schema(&mut **a, out),
            Type::Series(a) => take_series_schema(&mut **a, out),
            Type::Int(a) => take_int(a, out),
            Type::Tuple(a) => take_tuple(a, out),
            Type::Forall(a) => take_forall_forallable(&mut **a, out),
            Type::Quantified(a) => take_quantified(&mut **a, out),
            Type::QuantifiedValue(a) => take_quantified(&mut **a, out),
            Type::ElementOfTypeVarTuple(a) => take_quantified(&mut **a, out),
            Type::TypeGuard(a) => take_one(&mut **a, out),
            Type::TypeIs(a) => take_one(&mut **a, out),
            Type::Annotated(a, _) => take_one(&mut **a, out),
            Type::Unpack(a) => take_one(&mut **a, out),
            Type::Concatenate(a, b) => {
                take_param_seq(a, out);
                take_one(&mut **b, out);
                proof {
                    lemma_append_types(
                        start,
                        slots_param_seq(m->Concatenate_0),
                        slots_one(*m->Concatenate_1),
                    );
                }
            },
            Type::ParamSpecValue(a) => take_param_list(a, out),
            Type::Args(a) => take_quantified(&mut **a, out),
            Type::Kwargs(a) => take_quantified(&mut **a, out),
            Type::ArgsValue(a) => take_quantified(&mut **a, out),
            Type::KwargsValue(a) => take_quantified(&mut **a, out),
            Type::Type(a) => take_one(&mut **a, out),
            Type::TypeForm(a) => take_one(&mut **a, out),
            Type::TypeAlias(a) => take_type_alias_data(&mut **a, out),
            Type::UntypedAlias(a) => take_type_alias_data(&mut **a, out),
            Type::SuperInstance(a) => take_class_type_super_obj(&mut **a, out),
            Type::SelfType(a) => take_class_type(a, out),
            Type::KwCall(a) => take_kw_call(&mut **a, out),
            _ => {
                assert(view_types(out@) =~= start + Seq::<TypeView>::empty());
            },
        }
    }

    /// Moves as many types as there are slots from the end of `src` into the slots.
    #[verifier::rlimit(40)]
    pub(crate) fn put_slots(&mut self, src: &mut Vec<Type>)
        requires
            slots_type(old(self)@).len() <= old(src)@.len(),
        ensures
            view_types(final(src)@) == front(view_types(old(src)@), slots_type(old(self)@).len()),
            final(self)@ == with_type(
                old(self)@,
                back(view_types(old(src)@), slots_type(old(self)@).len()),
            ),
    {
        let ghost m = self@;
        broadcast use lemma_type_view;

        let ghost start = view_types(src@);
        proof {
            reveal(slots_type);
            reveal(with_type);
        }
        match self {
            Type::Literal(a) => put_literal(&mut **a, src),
            Type::Callable(a) => put_callable(&mut **a, src),
            Type::CallableResidual(a) => put_callable_residual(&mut **a, src),
            Type::TypeLevelDslCall(a) => put_type_level_dsl_call(&mut **a, src),
            Type::Function(a) => put_function(&mut **a, src),
            Type::BoundMethod(a) => put_bound_method(&mut **a, src),
            Type::Overload(a) => put_overload(a, src),
            Type::Union(a) => put_union(&mut **a, src),
            Type::Intersect(a) => put_many_one(&mut **a, src),
            Type::ClassType(a) => put_class_type(a, src),
            Type::TypedDict(a) => put_typed_dict(a, src),
            Type::PartialTypedDict(a) => put_typed_dict(a, src),
            Type::ShapedArray(a) => put_shaped_array_type(&mut **a, src),
            Type::IntTuple(a) => put_int_tuple(&mut **a, src),
            Type::NNModule(a) => put_nn_module_type(&mut **a, src),
            Type::DataFrame(a) => put_data_frame_schema(&mut **a, src),
            Type::Series(a) => put_series_schema(&mut **a, src),
            Type::Int(a) => put_int(a, src),
            Type::Tuple(a) => put_tuple(a, src),
            Type::Forall(a) => put_forall_forallable(&mut **a, src),
            Type::Quantified(a) => put_quantified(&mut **a, src),
            Type::QuantifiedValue(a) => put_quantified(&mut **a, src),
            Type::ElementOfTypeVarTuple(a) => put_quantified(&mut **a, src),
            Type::TypeGuard(a) => put_one(&mut **a, src),
            Type::TypeIs(a) => put_one(&mut **a, src),
            Type::Annotated(a, _) => put_one(&mut **a, src),
            Type::Unpack(a) => put_one(&mut **a, src),
            Type::Concatenate(a, b) => {
                let ghost k0 = slots_param_seq(m->Concatenate_0).len();
                let ghost k1 = slots_one(*m->Concatenate_1).len();
                put_one(&mut **b, src);
                assert(src@.len() == view_types(src@).len());
                put_param_seq(a, src);
                proof {
                    lemma_nested(start, k0, k1);
                }
            },
            Type::ParamSpecValue(a) => put_param_list(a, src),
            Type::Args(a) => put_quantified(&mut **a, src),
            Type::Kwargs(a) => put_quantified(&mut **a, src),
            Type::ArgsValue(a) => put_quantified(&mut **a, src),
            Type::KwargsValue(a) => put_quantified(&mut **a, src),
            Type::Type(a) => put_one(&mut **a, src),
            Type::TypeForm(a) => put_one(&mut **a, src),
            Type::TypeAlias(a) => put_type_alias_data(&mut **a, src),
            Type::UntypedAlias(a) => put_type_alias_data(&mut **a, src),
            Type::SuperInstance(a) => put_class_type_super_obj(&mut **a, src),
            Type::SelfType(a) => put_class_type(a, src),
            Type::KwCall(a) => put_kw_call(&mut **a, src),
            _ => {
                assert(view_types(src@) =~= front(start, 0));
            },
        }
    }
}

} // verus!
