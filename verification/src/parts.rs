//! Models are made of smaller models, so that recursion over them ends.
use vstd::prelude::*;

use crate::view::{
    BoundMethodTypeView,
    BoundMethodView,
    CallableResidualView,
    CallableView,
    ClassTypeView,
    DataFrameSchemaView,
    FieldView,
    ForallView,
    ForallableView,
    FuncFlagsView,
    FuncMetadataView,
    FunctionView,
    IntView,
    KwCallView,
    LitEnumView,
    LitView,
    LiteralView,
    NNModuleTypeView,
    OverloadTypeView,
    OverloadView,
    ParamView,
    ParamsView,
    PropertyMetadataView,
    QuantifiedView,
    RestrictionView,
    SeriesSchemaView,
    ShapedArrayTypeView,
    SuperObjView,
    TArgsView,
    TupleView,
    TypeAliasDataView,
    TypeAliasRefView,
    TypeAliasView,
    TypeLevelDslCallView,
    TypeView,
    TypedDictView,
    UnionView,
};

verus! {

/// The parts of a [`Restriction`] are smaller than the whole.
pub proof fn lemma_restriction_parts(m: RestrictionView)
    ensures
        m is Bound ==> decreases_to!(m => m->Bound_0),
        m is Constraints ==> decreases_to!(m => m->Constraints_0),
{
}

/// The parts of a [`Quantified`] are smaller than the whole.
pub proof fn lemma_quantified_parts(m: QuantifiedView)
    ensures
        m.default is Some ==> decreases_to!(m => m.default->0),
        decreases_to!(m => m.restriction),
{
}

/// The parts of a [`TArgs`] are smaller than the whole.
pub proof fn lemma_targs_parts(m: TArgsView)
    ensures
        decreases_to!(m => m.tparams),
        decreases_to!(m => m.args),
{
}

/// The parts of a [`ClassType`] are smaller than the whole.
pub proof fn lemma_class_type_parts(m: ClassTypeView)
    ensures
        decreases_to!(m => m.targs),
{
}

/// The parts of a [`LitEnum`] are smaller than the whole.
pub proof fn lemma_lit_enum_parts(m: LitEnumView)
    ensures
        decreases_to!(m => m.class),
{
}

/// The parts of a [`Lit`] are smaller than the whole.
pub proof fn lemma_lit_parts(m: LitView)
    ensures
        m is Enum ==> decreases_to!(m => m->Enum_0),
{
}

/// The parts of a [`Literal`] are smaller than the whole.
pub proof fn lemma_literal_parts(m: LiteralView)
    ensures
        decreases_to!(m => m.value),
{
}

/// The parts of a [`Param`] are smaller than the whole.
pub proof fn lemma_param_parts(m: ParamView)
    ensures
        decreases_to!(m => m.ty),
{
}

/// The parts of a [`Params`] are smaller than the whole.
pub proof fn lemma_params_parts(m: ParamsView)
    ensures
        m is List ==> decreases_to!(m => m->List_0),
        m is ParamSpec ==> decreases_to!(m => m->ParamSpec_0),
        m is ParamSpec ==> decreases_to!(m => m->ParamSpec_1),
{
}

/// The parts of a [`Callable`] are smaller than the whole.
pub proof fn lemma_callable_parts(m: CallableView)
    ensures
        decreases_to!(m => m.params),
        decreases_to!(m => m.ret),
{
}

/// The parts of a [`PropertyMetadata`] are smaller than the whole.
pub proof fn lemma_property_metadata_parts(m: PropertyMetadataView)
    ensures
        decreases_to!(m => m.getter),
{
}

/// The parts of a [`FuncFlags`] are smaller than the whole.
pub proof fn lemma_func_flags_parts(m: FuncFlagsView)
    ensures
        m.property_metadata is Some ==> decreases_to!(m => m.property_metadata->0),
{
}

/// The parts of a [`FuncMetadata`] are smaller than the whole.
pub proof fn lemma_func_metadata_parts(m: FuncMetadataView)
    ensures
        decreases_to!(m => m.flags),
{
}

/// The parts of a [`Function`] are smaller than the whole.
pub proof fn lemma_function_parts(m: FunctionView)
    ensures
        decreases_to!(m => m.signature),
        decreases_to!(m => m.metadata),
{
}

/// The parts of a [`TypeAlias`] are smaller than the whole.
pub proof fn lemma_type_alias_parts(m: TypeAliasView)
    ensures
        decreases_to!(m => m.ty),
{
}

/// The parts of a [`TypeAliasRef`] are smaller than the whole.
pub proof fn lemma_type_alias_ref_parts(m: TypeAliasRefView)
    ensures
        m.args is Some ==> decreases_to!(m => m.args->0),
{
}

/// The parts of a [`TypeAliasData`] are smaller than the whole.
pub proof fn lemma_type_alias_data_parts(m: TypeAliasDataView)
    ensures
        m is Value ==> decreases_to!(m => m->Value_0),
        m is Ref ==> decreases_to!(m => m->Ref_0),
{
}

/// The parts of a [`Forallable`] are smaller than the whole.
pub proof fn lemma_forallable_parts(m: ForallableView)
    ensures
        m is TypeAlias ==> decreases_to!(m => m->TypeAlias_0),
        m is Function ==> decreases_to!(m => m->Function_0),
        m is Callable ==> decreases_to!(m => m->Callable_0),
{
}

/// The parts of a [`OverloadType`] are smaller than the whole.
pub proof fn lemma_overload_type_parts(m: OverloadTypeView)
    ensures
        m is Function ==> decreases_to!(m => m->Function_0),
        m is Forall ==> decreases_to!(m => m->Forall_0),
{
}

/// The parts of a [`Overload`] are smaller than the whole.
pub proof fn lemma_overload_parts(m: OverloadView)
    ensures
        decreases_to!(m => m.signatures),
        decreases_to!(m => m.metadata),
{
}

/// The parts of a [`BoundMethodType`] are smaller than the whole.
pub proof fn lemma_bound_method_type_parts(m: BoundMethodTypeView)
    ensures
        m is Function ==> decreases_to!(m => m->Function_0),
        m is Forall ==> decreases_to!(m => m->Forall_0),
        m is Overload ==> decreases_to!(m => m->Overload_0),
{
}

/// The parts of a [`BoundMethod`] are smaller than the whole.
pub proof fn lemma_bound_method_parts(m: BoundMethodView)
    ensures
        decreases_to!(m => m.obj),
        decreases_to!(m => m.func),
{
}

/// The parts of a [`Union`] are smaller than the whole.
pub proof fn lemma_union_parts(m: UnionView)
    ensures
        decreases_to!(m => m.members),
{
}

/// The parts of a [`TypedDict`] are smaller than the whole.
pub proof fn lemma_typed_dict_parts(m: TypedDictView)
    ensures
        m is TypedDict ==> decreases_to!(m => m->TypedDict_0),
        m is Anonymous ==> decreases_to!(m => m->Anonymous_0),
{
}

/// The parts of a [`Field`] are smaller than the whole.
pub proof fn lemma_field_parts(m: FieldView)
    ensures
        decreases_to!(m => m.ty),
{
}

/// The parts of a [`Int`] are smaller than the whole.
pub proof fn lemma_int_parts(m: IntView)
    ensures
        m is Symbolic ==> decreases_to!(m => m->Symbolic_0),
{
}

/// The parts of a [`ShapedArrayType`] are smaller than the whole.
pub proof fn lemma_shaped_array_type_parts(m: ShapedArrayTypeView)
    ensures
        decreases_to!(m => m.base_class),
        decreases_to!(m => m.shape),
{
}

/// The parts of a [`NNModuleType`] are smaller than the whole.
pub proof fn lemma_nn_module_type_parts(m: NNModuleTypeView)
    ensures
        decreases_to!(m => m.class),
        decreases_to!(m => m.fields),
{
}

/// The parts of a [`DataFrameSchema`] are smaller than the whole.
pub proof fn lemma_data_frame_schema_parts(m: DataFrameSchemaView)
    ensures
        decreases_to!(m => m.class),
        decreases_to!(m => m.columns),
{
}

/// The parts of a [`SeriesSchema`] are smaller than the whole.
pub proof fn lemma_series_schema_parts(m: SeriesSchemaView)
    ensures
        decreases_to!(m => m.class),
        decreases_to!(m => m.element),
{
}

/// The parts of a [`Tuple`] are smaller than the whole.
pub proof fn lemma_tuple_parts(m: TupleView)
    ensures
        m is Concrete ==> decreases_to!(m => m->Concrete_0),
        m is Unbounded ==> decreases_to!(m => m->Unbounded_0),
        m is Unpacked ==> decreases_to!(m => m->Unpacked_0.0),
        m is Unpacked ==> decreases_to!(m => m->Unpacked_0.1),
        m is Unpacked ==> decreases_to!(m => m->Unpacked_0.2),
{
}

/// The parts of a [`KwCall`] are smaller than the whole.
pub proof fn lemma_kw_call_parts(m: KwCallView)
    ensures
        decreases_to!(m => m.keywords),
        decreases_to!(m => m.return_ty),
{
}

/// The parts of a [`CallableResidual`] are smaller than the whole.
pub proof fn lemma_callable_residual_parts(m: CallableResidualView)
    ensures
        decreases_to!(m => m.captured),
        decreases_to!(m => m.fallback),
{
}

/// The parts of a [`TypeLevelDslCall`] are smaller than the whole.
pub proof fn lemma_type_level_dsl_call_parts(m: TypeLevelDslCallView)
    ensures
        decreases_to!(m => m.args),
        decreases_to!(m => m.result_schema),
{
}

/// The parts of a [`SuperObj`] are smaller than the whole.
pub proof fn lemma_super_obj_parts(m: SuperObjView)
    ensures
        m is Instance ==> decreases_to!(m => m->Instance_0),
        m is Class ==> decreases_to!(m => m->Class_0),
{
}

/// The parts of a [`Type`] are smaller than the whole.
pub proof fn lemma_type_parts(m: TypeView)
    ensures
        m is Literal ==> decreases_to!(m => m->Literal_0),
        m is Callable ==> decreases_to!(m => m->Callable_0),
        m is CallableResidual ==> decreases_to!(m => m->CallableResidual_0),
        m is TypeLevelDslCall ==> decreases_to!(m => m->TypeLevelDslCall_0),
        m is Function ==> decreases_to!(m => m->Function_0),
        m is BoundMethod ==> decreases_to!(m => m->BoundMethod_0),
        m is Overload ==> decreases_to!(m => m->Overload_0),
        m is Union ==> decreases_to!(m => m->Union_0),
        m is Intersect ==> decreases_to!(m => m->Intersect_0.0),
        m is Intersect ==> decreases_to!(m => m->Intersect_0.1),
        m is ClassType ==> decreases_to!(m => m->ClassType_0),
        m is TypedDict ==> decreases_to!(m => m->TypedDict_0),
        m is PartialTypedDict ==> decreases_to!(m => m->PartialTypedDict_0),
        m is ShapedArray ==> decreases_to!(m => m->ShapedArray_0),
        m is IntTuple ==> decreases_to!(m => m->IntTuple_0),
        m is NNModule ==> decreases_to!(m => m->NNModule_0),
        m is DataFrame ==> decreases_to!(m => m->DataFrame_0),
        m is Series ==> decreases_to!(m => m->Series_0),
        m is Int ==> decreases_to!(m => m->Int_0),
        m is Tuple ==> decreases_to!(m => m->Tuple_0),
        m is Forall ==> decreases_to!(m => m->Forall_0),
        m is Quantified ==> decreases_to!(m => m->Quantified_0),
        m is QuantifiedValue ==> decreases_to!(m => m->QuantifiedValue_0),
        m is ElementOfTypeVarTuple ==> decreases_to!(m => m->ElementOfTypeVarTuple_0),
        m is TypeGuard ==> decreases_to!(m => m->TypeGuard_0),
        m is TypeIs ==> decreases_to!(m => m->TypeIs_0),
        m is Annotated ==> decreases_to!(m => m->Annotated_0),
        m is Annotated ==> decreases_to!(m => m->Annotated_1),
        m is Unpack ==> decreases_to!(m => m->Unpack_0),
        m is Concatenate ==> decreases_to!(m => m->Concatenate_0),
        m is Concatenate ==> decreases_to!(m => m->Concatenate_1),
        m is ParamSpecValue ==> decreases_to!(m => m->ParamSpecValue_0),
        m is Args ==> decreases_to!(m => m->Args_0),
        m is Kwargs ==> decreases_to!(m => m->Kwargs_0),
        m is ArgsValue ==> decreases_to!(m => m->ArgsValue_0),
        m is KwargsValue ==> decreases_to!(m => m->KwargsValue_0),
        m is Type ==> decreases_to!(m => m->Type_0),
        m is TypeForm ==> decreases_to!(m => m->TypeForm_0),
        m is TypeAlias ==> decreases_to!(m => m->TypeAlias_0),
        m is UntypedAlias ==> decreases_to!(m => m->UntypedAlias_0),
        m is SuperInstance ==> decreases_to!(m => m->SuperInstance_0.0),
        m is SuperInstance ==> decreases_to!(m => m->SuperInstance_0.1),
        m is SelfType ==> decreases_to!(m => m->SelfType_0),
        m is KwCall ==> decreases_to!(m => m->KwCall_0),
{
}

/// The parts of a [`Forall`] are smaller than the whole.
pub proof fn lemma_forall_function_parts(m: ForallView<FunctionView>)
    ensures
        decreases_to!(m => m.tparams),
        decreases_to!(m => m.body),
{
}

/// The parts of a [`Forall`] are smaller than the whole.
pub proof fn lemma_forall_forallable_parts(m: ForallView<ForallableView>)
    ensures
        decreases_to!(m => m.tparams),
        decreases_to!(m => m.body),
{
}

} // verus!
