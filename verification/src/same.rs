//! Equality of types.
//!
//! Types are equal when they are built alike from equal parts, with two exceptions: the name that
//! a union is displayed by does not count, nor does the order of the captured arguments of an
//! nn.Module instance.
use vstd::prelude::*;

use crate::view::{
    BoundMethodTypeView,
    BoundMethodView,
    CallableResidualView,
    CallableView,
    ClassTypeView,
    DataFrameSchemaView,
    FieldView,
    ForallView,
    ForallableView,
    FuncFlagsView,
    FuncMetadataView,
    FunctionView,
    IntView,
    KwCallView,
    LitEnumView,
    LitView,
    LiteralView,
    NNModuleTypeView,
    OverloadTypeView,
    OverloadView,
    ParamView,
    ParamsView,
    PropertyMetadataView,
    QuantifiedView,
    RestrictionView,
    SeriesSchemaView,
    ShapedArrayTypeView,
    SuperObjView,
    TArgsView,
    TupleView,
    TypeAliasDataView,
    TypeAliasRefView,
    TypeAliasView,
    TypeLevelDslCallView,
    TypeView,
    TypedDictView,
    UnionView,
};

verus! {

spec fn rel_types(a: Seq<TypeView>, b: Seq<TypeView>) -> bool
    decreases a, 0nat,
{
    a.len() == b.len() && forall|i: int|
        if 0 <= i < a.len() {
            rel_type(#[trigger] a[i], b[i])
        } else {
            true
        }
}

spec fn rel_param_seq(a: Seq<ParamView>, b: Seq<ParamView>) -> bool
    decreases a, 0nat,
{
    a.len() == b.len() && forall|i: int|
        if 0 <= i < a.len() {
            rel_param(#[trigger] a[i], b[i])
        } else {
            true
        }
}

spec fn rel_fields(a: Seq<FieldView>, b: Seq<FieldView>) -> bool
    decreases a, 0nat,
{
    a.len() == b.len() && forall|i: int|
        if 0 <= i < a.len() {
            rel_field(#[trigger] a[i], b[i])
        } else {
            true
        }
}

spec fn rel_quantifieds(a: Seq<QuantifiedView>, b: Seq<QuantifiedView>) -> bool
    decreases a, 0nat,
{
    a.len() == b.len() && forall|i: int|
        if 0 <= i < a.len() {
            rel_quantified(#[trigger] a[i], b[i])
        } else {
            true
        }
}

spec fn rel_overloads(a: Seq<OverloadTypeView>, b: Seq<OverloadTypeView>) -> bool
    decreases a, 0nat,
{
    a.len() == b.len() && forall|i: int|
        if 0 <= i < a.len() {
            rel_overload_type(#[trigger] a[i], b[i])
        } else {
            true
        }
}

spec fn rel_dims(a: Seq<IntView>, b: Seq<IntView>) -> bool
    decreases a, 0nat,
{
    a.len() == b.len() && forall|i: int|
        if 0 <= i < a.len() {
            rel_int(#[trigger] a[i], b[i])
        } else {
            true
        }
}

spec fn rel_has_field(s: Seq<FieldView>, name: Seq<char>, ty: TypeView) -> bool
    decreases ty, 1nat,
{
    exists|j: int|
        0 <= j < s.len() && (#[trigger] s[j]).name == name && rel_type(ty, s[j].ty)
}

spec fn rel_is_field(s: Seq<FieldView>, name: Seq<char>, ty: TypeView) -> bool
    decreases s, 0nat,
{
    exists|i: int|
        if 0 <= i < s.len() {
            (#[trigger] s[i]).name == name && rel_type(s[i].ty, ty)
        } else {
            false
        }
}

spec fn rel_module_fields(a: Seq<FieldView>, b: Seq<FieldView>) -> bool
    decreases a, 1nat,
{
    &&& a.len() == b.len()
    &&& forall|i: int|
        if 0 <= i < a.len() {
            rel_has_field(b, (#[trigger] a[i]).name, a[i].ty)
        } else {
            true
        }
    &&& forall|j: int| 0 <= j < b.len() ==> rel_is_field(a, (#[trigger] b[j]).name, b[j].ty)
}

spec fn rel_forall_function(a: ForallView<FunctionView>, b: ForallView<FunctionView>) -> bool
    decreases a, 0nat,
{
    rel_quantifieds(a.tparams, b.tparams) && rel_function(a.body, b.body)
}

spec fn rel_forall_forallable(a: ForallView<ForallableView>, b: ForallView<ForallableView>) -> bool
    decreases a, 0nat,
{
    rel_quantifieds(a.tparams, b.tparams) && rel_forallable(a.body, b.body)
}

spec fn rel_restriction(a: RestrictionView, b: RestrictionView) -> bool
    decreases a, 0nat,
{
    match (a, b) {
        (RestrictionView::Bound(x), RestrictionView::Bound(y)) => rel_type(x, y),
        (RestrictionView::Constraints(x), RestrictionView::Constraints(y)) => rel_types(x, y),
        (RestrictionView::Unrestricted, RestrictionView::Unrestricted) => true,
        _ => false,
    }
}

spec fn rel_quantified(a: QuantifiedView, b: QuantifiedView) -> bool
    decreases a, 0nat,
{
    &&& a.identity == b.identity
    &&& a.name == b.name
    &&& a.kind == b.kind
    &&& (match (a.default, b.default) {
        (Some(x), Some(y)) => rel_type(x, y),
        (None, None) => true,
        _ => false,
    })
    &&& rel_restriction(a.restriction, b.restriction)
    &&& a.variance == b.variance
}

spec fn rel_targs(a: TArgsView, b: TArgsView) -> bool
    decreases a, 0nat,
{
    &&& rel_quantifieds(a.tparams, b.tparams)
    &&& rel_types(a.args, b.args)
}

spec fn rel_class_type(a: ClassTypeView, b: ClassTypeView) -> bool
    decreases a, 0nat,
{
    &&& a.class == b.class
    &&& rel_targs(a.targs, b.targs)
}

spec fn rel_lit_enum(a: LitEnumView, b: LitEnumView) -> bool
    decreases a, 0nat,
{
    &&& rel_class_type(a.class, b.class)
    &&& a.member == b.member
}

spec fn rel_lit(a: LitView, b: LitView) -> bool
    decreases a, 0nat,
{
    match (a, b) {
        (LitView::Str(x), LitView::Str(y)) => x == y,
        (LitView::Int(x), LitView::Int(y)) => x == y,
        (LitView::Bool(x), LitView::Bool(y)) => x == y,
        (LitView::Bytes(x), LitView::Bytes(y)) => x == y,
        (LitView::Enum(x), LitView::Enum(y)) => rel_lit_enum(*x, *y),
        _ => false,
    }
}

spec fn rel_literal(a: LiteralView, b: LiteralView) -> bool
    decreases a, 0nat,
{
    &&& rel_lit(a.value, b.value)
    &&& a.style == b.style
}

spec fn rel_param(a: ParamView, b: ParamView) -> bool
    decreases a, 0nat,
{
    &&& a.name == b.name
    &&& a.kind == b.kind
    &&& a.required == b.required
    &&& rel_type(a.ty, b.ty)
}

spec fn rel_params(a: ParamsView, b: ParamsView) -> bool
    decreases a, 0nat,
{
    match (a, b) {
        (ParamsView::List(x), ParamsView::List(y)) => rel_param_seq(x, y),
        (ParamsView::Ellipsis, ParamsView::Ellipsis) => true,
        (ParamsView::Materialization, ParamsView::Materialization) => true,
        (ParamsView::ParamSpec(x, x2), ParamsView::ParamSpec(y, y2)) => rel_param_seq(x, y)
            && rel_type(x2, y2),
        _ => false,
    }
}

spec fn rel_callable(a: CallableView, b: CallableView) -> bool
    decreases a, 0nat,
{
    &&& rel_params(a.params, b.params)
    &&& rel_type(a.ret, b.ret)
}

spec fn rel_property_metadata(a: PropertyMetadataView, b: PropertyMetadataView) -> bool
    decreases a, 0nat,
{
    &&& a.role == b.role
    &&& rel_type(a.getter, b.getter)
}

spec fn rel_func_flags(a: FuncFlagsView, b: FuncFlagsView) -> bool
    decreases a, 0nat,
{
    &&& a.is_overload == b.is_overload
    &&& a.is_cached_property == b.is_cached_property
    &&& a.is_abstract_method == b.is_abstract_method
    &&& a.is_override == b.is_override
    &&& a.is_assert_shape == b.is_assert_shape
    &&& a.has_enum_member_decoration == b.has_enum_member_decoration
    &&& a.has_final_decoration == b.has_final_decoration
    &&& (match (a.property_metadata, b.property_metadata) {
        (Some(x), Some(y)) => rel_property_metadata(x, y),
        (None, None) => true,
        _ => false,
    })
    &&& a.deprecation == b.deprecation
    &&& a.dataclass_transform_metadata == b.dataclass_transform_metadata
}

spec fn rel_func_metadata(a: FuncMetadataView, b: FuncMetadataView) -> bool
    decreases a, 0nat,
{
    &&& a.kind == b.kind
    &&& rel_func_flags(a.flags, b.flags)
}

spec fn rel_function(a: FunctionView, b: FunctionView) -> bool
    decreases a, 0nat,
{
    &&& rel_callable(a.signature, b.signature)
    &&& rel_func_metadata(a.metadata, b.metadata)
}

spec fn rel_type_alias(a: TypeAliasView, b: TypeAliasView) -> bool
    decreases a, 0nat,
{
    &&& a.name == b.name
    &&& rel_type(a.ty, b.ty)
}

spec fn rel_type_alias_ref(a: TypeAliasRefView, b: TypeAliasRefView) -> bool
    decreases a, 0nat,
{
    &&& a.name == b.name
    &&& (match (a.args, b.args) {
        (Some(x), Some(y)) => rel_targs(x, y),
        (None, None) => true,
        _ => false,
    })
}

spec fn rel_type_alias_data(a: TypeAliasDataView, b: TypeAliasDataView) -> bool
    decreases a, 0nat,
{
    match (a, b) {
        (TypeAliasDataView::Value(x), TypeAliasDataView::Value(y)) => rel_type_alias(x, y),
        (TypeAliasDataView::Ref(x), TypeAliasDataView::Ref(y)) => rel_type_alias_ref(x, y),
        _ => false,
    }
}

spec fn rel_forallable(a: ForallableView, b: ForallableView) -> bool
    decreases a, 0nat,
{
    match (a, b) {
        (ForallableView::TypeAlias(x), ForallableView::TypeAlias(y)) => rel_type_alias_data(x, y),
        (ForallableView::Function(x), ForallableView::Function(y)) => rel_function(x, y),
        (ForallableView::Callable(x), ForallableView::Callable(y)) => rel_callable(x, y),
        _ => false,
    }
}

spec fn rel_overload_type(a: OverloadTypeView, b: OverloadTypeView) -> bool
    decreases a, 0nat,
{
    match (a, b) {
        (OverloadTypeView::Function(x), OverloadTypeView::Function(y)) => rel_function(x, y),
        (OverloadTypeView::Forall(x), OverloadTypeView::Forall(y)) => rel_forall_function(x, y),
        _ => false,
    }
}

spec fn rel_overload(a: OverloadView, b: OverloadView) -> bool
    decreases a, 0nat,
{
    &&& rel_overloads(a.signatures, b.signatures)
    &&& rel_func_metadata(*a.metadata, *b.metadata)
}

spec fn rel_bound_method_type(a: BoundMethodTypeView, b: BoundMethodTypeView) -> bool
    decreases a, 0nat,
{
    match (a, b) {
        (BoundMethodTypeView::Function(x), BoundMethodTypeView::Function(y)) => rel_function(x, y),
        (BoundMethodTypeView::Forall(x), BoundMethodTypeView::Forall(y)) => {
            rel_forall_function(x, y)
        },
        (BoundMethodTypeView::Overload(x), BoundMethodTypeView::Overload(y)) => rel_overload(x, y),
        _ => false,
    }
}

spec fn rel_bound_method(a: BoundMethodView, b: BoundMethodView) -> bool
    decreases a, 0nat,
{
    &&& rel_type(a.obj, b.obj)
    &&& rel_bound_method_type(a.func, b.func)
}

spec fn rel_union(a: UnionView, b: UnionView) -> bool
    decreases a, 0nat,
{
    rel_types(a.members, b.members)
}

spec fn rel_typed_dict(a: TypedDictView, b: TypedDictView) -> bool
    decreases a, 0nat,
{
    match (a, b) {
        (TypedDictView::TypedDict(x), TypedDictView::TypedDict(y)) => rel_class_type(x, y),
        (TypedDictView::Anonymous(x), TypedDictView::Anonymous(y)) => rel_fields(x, y),
        _ => false,
    }
}

spec fn rel_field(a: FieldView, b: FieldView) -> bool
    decreases a, 0nat,
{
    &&& a.name == b.name
    &&& rel_type(a.ty, b.ty)
}

spec fn rel_int(a: IntView, b: IntView) -> bool
    decreases a, 0nat,
{
    match (a, b) {
        (IntView::Literal(x), IntView::Literal(y)) => x == y,
        (IntView::Symbolic(x), IntView::Symbolic(y)) => rel_type(*x, *y),
        (IntView::Gradual, IntView::Gradual) => true,
        (IntView::Materialization, IntView::Materialization) => true,
        _ => false,
    }
}

spec fn rel_shaped_array_type(a: ShapedArrayTypeView, b: ShapedArrayTypeView) -> bool
    decreases a, 0nat,
{
    &&& rel_class_type(a.base_class, b.base_class)
    &&& rel_dims(a.shape, b.shape)
}

spec fn rel_nn_module_type(a: NNModuleTypeView, b: NNModuleTypeView) -> bool
    decreases a, 0nat,
{
    &&& rel_class_type(a.class, b.class)
    &&& rel_module_fields(a.fields, b.fields)
}

spec fn rel_data_frame_schema(a: DataFrameSchemaView, b: DataFrameSchemaView) -> bool
    decreases a, 0nat,
{
    &&& rel_class_type(a.class, b.class)
    &&& rel_fields(a.columns, b.columns)
}

spec fn rel_series_schema(a: SeriesSchemaView, b: SeriesSchemaView) -> bool
    decreases a, 0nat,
{
    &&& rel_class_type(a.class, b.class)
    &&& rel_type(a.element, b.element)
}

spec fn rel_tuple(a: TupleView, b: TupleView) -> bool
    decreases a, 0nat,
{
    match (a, b) {
        (TupleView::Concrete(x), TupleView::Concrete(y)) => rel_types(x, y),
        (TupleView::Unbounded(x), TupleView::Unbounded(y)) => rel_type(*x, *y),
        (TupleView::Unpacked(x), TupleView::Unpacked(y)) => rel_types(x.0, y.0)
            && rel_type(x.1, y.1)
            && rel_types(x.2, y.2),
        _ => false,
    }
}

spec fn rel_kw_call(a: KwCallView, b: KwCallView) -> bool
    decreases a, 0nat,
{
    &&& rel_fields(a.keywords, b.keywords)
    &&& rel_type(a.return_ty, b.return_ty)
}

spec fn rel_callable_residual(a: CallableResidualView, b: CallableResidualView) -> bool
    decreases a, 0nat,
{
    &&& rel_types(a.captured, b.captured)
    &&& rel_type(a.fallback, b.fallback)
}

spec fn rel_type_level_dsl_call(a: TypeLevelDslCallView, b: TypeLevelDslCallView) -> bool
    decreases a, 0nat,
{
    &&& a.function == b.function
    &&& rel_types(a.args, b.args)
    &&& rel_type(a.result_schema, b.result_schema)
}

spec fn rel_super_obj(a: SuperObjView, b: SuperObjView) -> bool
    decreases a, 0nat,
{
    match (a, b) {
        (SuperObjView::Instance(x), SuperObjView::Instance(y)) => rel_class_type(x, y),
        (SuperObjView::Class(x), SuperObjView::Class(y)) => rel_class_type(x, y),
        _ => false,
    }
}

spec fn rel_type(a: TypeView, b: TypeView) -> bool
    decreases a, 0nat,
{
    match a {
        TypeView::Literal(x) => b is Literal && rel_literal(*x, *b->Literal_0),
        TypeView::LiteralString(x) => b is LiteralString && x == b->LiteralString_0,
        TypeView::Callable(x) => b is Callable && rel_callable(*x, *b->Callable_0),
        TypeView::CallableResidual(x) => b is CallableResidual
            && rel_callable_residual(*x, *b->CallableResidual_0),
        TypeView::TypeLevelDslCall(x) => b is TypeLevelDslCall
            && rel_type_level_dsl_call(*x, *b->TypeLevelDslCall_0),
        TypeView::Function(x) => b is Function && rel_function(*x, *b->Function_0),
        TypeView::BoundMethod(x) => b is BoundMethod && rel_bound_method(*x, *b->BoundMethod_0),
        TypeView::Overload(x) => b is Overload && rel_overload(x, b->Overload_0),
        TypeView::Union(x) => b is Union && rel_union(*x, *b->Union_0),
        TypeView::Intersect(x) => b is Intersect
            && rel_types(x.0, b->Intersect_0.0)
            && rel_type(x.1, b->Intersect_0.1),
        TypeView::ClassDef(x) => b is ClassDef && x == b->ClassDef_0,
        TypeView::ClassType(x) => b is ClassType && rel_class_type(x, b->ClassType_0),
        TypeView::TypedDict(x) => b is TypedDict && rel_typed_dict(x, b->TypedDict_0),
        TypeView::PartialTypedDict(x) => b is PartialTypedDict
            && rel_typed_dict(x, b->PartialTypedDict_0),
        TypeView::ShapedArray(x) => b is ShapedArray
            && rel_shaped_array_type(*x, *b->ShapedArray_0),
        TypeView::IntTuple(x) => b is IntTuple && rel_dims(*x, *b->IntTuple_0),
        TypeView::NNModule(x) => b is NNModule && rel_nn_module_type(*x, *b->NNModule_0),
        TypeView::DataFrame(x) => b is DataFrame && rel_data_frame_schema(*x, *b->DataFrame_0),
        TypeView::Series(x) => b is Series && rel_series_schema(*x, *b->Series_0),
        TypeView::Int(x) => b is Int && rel_int(x, b->Int_0),
        TypeView::Tuple(x) => b is Tuple && rel_tuple(x, b->Tuple_0),
        TypeView::Module(x) => b is Module && x == b->Module_0,
        TypeView::Forall(x) => b is Forall && rel_forall_forallable(*x, *b->Forall_0),
        TypeView::Var(x) => b is Var && x == b->Var_0,
        TypeView::Quantified(x) => b is Quantified && rel_quantified(*x, *b->Quantified_0),
        TypeView::QuantifiedValue(x) => b is QuantifiedValue
            && rel_quantified(*x, *b->QuantifiedValue_0),
        TypeView::ElementOfTypeVarTuple(x) => b is ElementOfTypeVarTuple
            && rel_quantified(*x, *b->ElementOfTypeVarTuple_0),
        TypeView::TypeGuard(x) => b is TypeGuard && rel_type(*x, *b->TypeGuard_0),
        TypeView::TypeIs(x) => b is TypeIs && rel_type(*x, *b->TypeIs_0),
        TypeView::Annotated(x, x2) => b is Annotated
            && rel_type(*x, *b->Annotated_0)
            && rel_types(x2, b->Annotated_1),
        TypeView::Unpack(x) => b is Unpack && rel_type(*x, *b->Unpack_0),
        TypeView::TypeVar(x) => b is TypeVar && x == b->TypeVar_0,
        TypeView::ParamSpec(x) => b is ParamSpec && x == b->ParamSpec_0,
        TypeView::TypeVarTuple(x) => b is TypeVarTuple && x == b->TypeVarTuple_0,
        TypeView::SpecialForm(x) => b is SpecialForm && x == b->SpecialForm_0,
        TypeView::Concatenate(x, x2) => b is Concatenate
            && rel_param_seq(x, b->Concatenate_0)
            && rel_type(*x2, *b->Concatenate_1),
        TypeView::ParamSpecValue(x) => b is ParamSpecValue && rel_param_seq(x, b->ParamSpecValue_0),
        TypeView::Args(x) => b is Args && rel_quantified(*x, *b->Args_0),
        TypeView::Kwargs(x) => b is Kwargs && rel_quantified(*x, *b->Kwargs_0),
        TypeView::ArgsValue(x) => b is ArgsValue && rel_quantified(*x, *b->ArgsValue_0),
        TypeView::KwargsValue(x) => b is KwargsValue && rel_quantified(*x, *b->KwargsValue_0),
        TypeView::Type(x) => b is Type && rel_type(*x, *b->Type_0),
        TypeView::TypeForm(x) => b is TypeForm && rel_type(*x, *b->TypeForm_0),
        TypeView::Ellipsis => b is Ellipsis,
        TypeView::Any(x) => b is Any && x == b->Any_0,
        TypeView::Never(x) => b is Never && x == b->Never_0,
        TypeView::TypeAlias(x) => b is TypeAlias && rel_type_alias_data(*x, *b->TypeAlias_0),
        TypeView::UntypedAlias(x) => b is UntypedAlias
            && rel_type_alias_data(*x, *b->UntypedAlias_0),
        TypeView::Sentinel(x) => b is Sentinel && x == b->Sentinel_0,
        TypeView::SuperInstance(x) => b is SuperInstance
            && rel_class_type(x.0, b->SuperInstance_0.0)
            && rel_super_obj(x.1, b->SuperInstance_0.1),
        TypeView::SelfType(x) => b is SelfType && rel_class_type(x, b->SelfType_0),
        TypeView::KwCall(x) => b is KwCall && rel_kw_call(*x, *b->KwCall_0),
        TypeView::Materialization => b is Materialization,
        TypeView::NoneType => b is NoneType,
    }
}

/// Is `a` equal to `b` as a [`Restriction`]?
pub closed spec fn same_restriction(a: RestrictionView, b: RestrictionView) -> bool {
    rel_restriction(a, b)
}

/// Is `a` equal to `b` as a [`Quantified`]?
pub closed spec fn same_quantified(a: QuantifiedView, b: QuantifiedView) -> bool {
    rel_quantified(a, b)
}

/// Is `a` equal to `b` as a [`TArgs`]?
pub closed spec fn same_targs(a: TArgsView, b: TArgsView) -> bool {
    rel_targs(a, b)
}

/// Is `a` equal to `b` as a [`ClassType`]?
pub closed spec fn same_class_type(a: ClassTypeView, b: ClassTypeView) -> bool {
    rel_class_type(a, b)
}

/// Is `a` equal to `b` as a [`LitEnum`]?
pub closed spec fn same_lit_enum(a: LitEnumView, b: LitEnumView) -> bool {
    rel_lit_enum(a, b)
}

/// Is `a` equal to `b` as a [`Lit`]?
pub closed spec fn same_lit(a: LitView, b: LitView) -> bool {
    rel_lit(a, b)
}

/// Is `a` equal to `b` as a [`Literal`]?
pub closed spec fn same_literal(a: LiteralView, b: LiteralView) -> bool {
    rel_literal(a, b)
}

/// Is `a` equal to `b` as a [`Param`]?
pub closed spec fn same_param(a: ParamView, b: ParamView) -> bool {
    rel_param(a, b)
}

/// Is `a` equal to `b` as a [`Params`]?
pub closed spec fn same_params(a: ParamsView, b: ParamsView) -> bool {
    rel_params(a, b)
}

/// Is `a` equal to `b` as a [`Callable`]?
pub closed spec fn same_callable(a: CallableView, b: CallableView) -> bool {
    rel_callable(a, b)
}

/// Is `a` equal to `b` as a [`PropertyMetadata`]?
pub closed spec fn same_property_metadata(
    a: PropertyMetadataView,
    b: PropertyMetadataView,
) -> bool {
    rel_property_metadata(a, b)
}

/// Is `a` equal to `b` as a [`FuncFlags`]?
pub closed spec fn same_func_flags(a: FuncFlagsView, b: FuncFlagsView) -> bool {
    rel_func_flags(a, b)
}

/// Is `a` equal to `b` as a [`FuncMetadata`]?
pub closed spec fn same_func_metadata(a: FuncMetadataView, b: FuncMetadataView) -> bool {
    rel_func_metadata(a, b)
}

/// Is `a` equal to `b` as a [`Function`]?
pub closed spec fn same_function(a: FunctionView, b: FunctionView) -> bool {
    rel_function(a, b)
}

/// Is `a` equal to `b` as a [`TypeAlias`]?
pub closed spec fn same_type_alias(a: TypeAliasView, b: TypeAliasView) -> bool {
    rel_type_alias(a, b)
}

/// Is `a` equal to `b` as a [`TypeAliasRef`]?
pub closed spec fn same_type_alias_ref(a: TypeAliasRefView, b: TypeAliasRefView) -> bool {
    rel_type_alias_ref(a, b)
}

/// Is `a` equal to `b` as a [`TypeAliasData`]?
pub closed spec fn same_type_alias_data(a: TypeAliasDataView, b: TypeAliasDataView) -> bool {
    rel_type_alias_data(a, b)
}

/// Is `a` equal to `b` as a [`Forallable`]?
pub closed spec fn same_forallable(a: ForallableView, b: ForallableView) -> bool {
    rel_forallable(a, b)
}

/// Is `a` equal to `b` as a [`OverloadType`]?
pub closed spec fn same_overload_type(a: OverloadTypeView, b: OverloadTypeView) -> bool {
    rel_overload_type(a, b)
}

/// Is `a` equal to `b` as a [`Overload`]?
pub closed spec fn same_overload(a: OverloadView, b: OverloadView) -> bool {
    rel_overload(a, b)
}

/// Is `a` equal to `b` as a [`BoundMethodType`]?
pub closed spec fn same_bound_method_type(a: BoundMethodTypeView, b: BoundMethodTypeView) -> bool {
    rel_bound_method_type(a, b)
}

/// Is `a` equal to `b` as a [`BoundMethod`]?
pub closed spec fn same_bound_method(a: BoundMethodView, b: BoundMethodView) -> bool {
    rel_bound_method(a, b)
}

/// Is `a` equal to `b` as a [`Union`]?
pub closed spec fn same_union(a: UnionView, b: UnionView) -> bool {
    rel_union(a, b)
}

/// Is `a` equal to `b` as a [`TypedDict`]?
pub closed spec fn same_typed_dict(a: TypedDictView, b: TypedDictView) -> bool {
    rel_typed_dict(a, b)
}

/// Is `a` equal to `b` as a [`Field`]?
pub closed spec fn same_field(a: FieldView, b: FieldView) -> bool {
    rel_field(a, b)
}

/// Is `a` equal to `b` as a [`Int`]?
pub closed spec fn same_int(a: IntView, b: IntView) -> bool {
    rel_int(a, b)
}

/// Is `a` equal to `b` as a [`ShapedArrayType`]?
pub closed spec fn same_shaped_array_type(a: ShapedArrayTypeView, b: ShapedArrayTypeView) -> bool {
    rel_shaped_array_type(a, b)
}

/// Is `a` equal to `b` as a [`NNModuleType`]?
pub closed spec fn same_nn_module_type(a: NNModuleTypeView, b: NNModuleTypeView) -> bool {
    rel_nn_module_type(a, b)
}

/// Is `a` equal to `b` as a [`DataFrameSchema`]?
pub closed spec fn same_data_frame_schema(a: DataFrameSchemaView, b: DataFrameSchemaView) -> bool {
    rel_data_frame_schema(a, b)
}

/// Is `a` equal to `b` as a [`SeriesSchema`]?
pub closed spec fn same_series_schema(a: SeriesSchemaView, b: SeriesSchemaView) -> bool {
    rel_series_schema(a, b)
}

/// Is `a` equal to `b` as a [`Tuple`]?
pub closed spec fn same_tuple(a: TupleView, b: TupleView) -> bool {
    rel_tuple(a, b)
}

/// Is `a` equal to `b` as a [`KwCall`]?
pub closed spec fn same_kw_call(a: KwCallView, b: KwCallView) -> bool {
    rel_kw_call(a, b)
}

/// Is `a` equal to `b` as a [`CallableResidual`]?
pub closed spec fn same_callable_residual(
    a: CallableResidualView,
    b: CallableResidualView,
) -> bool {
    rel_callable_residual(a, b)
}

/// Is `a` equal to `b` as a [`TypeLevelDslCall`]?
pub closed spec fn same_type_level_dsl_call(
    a: TypeLevelDslCallView,
    b: TypeLevelDslCallView,
) -> bool {
    rel_type_level_dsl_call(a, b)
}

/// Is `a` equal to `b` as a [`SuperObj`]?
pub closed spec fn same_super_obj(a: SuperObjView, b: SuperObjView) -> bool {
    rel_super_obj(a, b)
}

/// Is `a` equal to `b` as a [`Type`]?
pub closed spec fn same_type(a: TypeView, b: TypeView) -> bool {
    rel_type(a, b)
}

/// Is `a` equal to `b` as a [`Forall`]?
pub open spec fn same_forall_function(
    a: ForallView<FunctionView>,
    b: ForallView<FunctionView>,
) -> bool {
    same_quantifieds(a.tparams, b.tparams) && same_function(a.body, b.body)
}

/// Is `a` equal to `b` as a [`Forall`]?
pub open spec fn same_forall_forallable(
    a: ForallView<ForallableView>,
    b: ForallView<ForallableView>,
) -> bool {
    same_quantifieds(a.tparams, b.tparams) && same_forallable(a.body, b.body)
}

/// Are the sequences equal, element by element?
pub open spec fn same_types(a: Seq<TypeView>, b: Seq<TypeView>) -> bool {
    a.len() == b.len() && forall|i: int| 0 <= i < a.len() ==> same_type(#[trigger] a[i], b[i])
}

/// Are the sequences equal, element by element?
pub open spec fn same_param_seq(a: Seq<ParamView>, b: Seq<ParamView>) -> bool {
    a.len() == b.len() && forall|i: int| 0 <= i < a.len() ==> same_param(#[trigger] a[i], b[i])
}

/// Are the sequences equal, element by element?
pub open spec fn same_fields(a: Seq<FieldView>, b: Seq<FieldView>) -> bool {
    a.len() == b.len() && forall|i: int| 0 <= i < a.len() ==> same_field(#[trigger] a[i], b[i])
}

/// Are the sequences equal, element by element?
pub open spec fn same_quantifieds(a: Seq<QuantifiedView>, b: Seq<QuantifiedView>) -> bool {
    a.len() == b.len() && forall|i: int| 0 <= i < a.len() ==> same_quantified(#[trigger] a[i], b[i])
}

/// Are the sequences equal, element by element?
pub open spec fn same_overloads(a: Seq<OverloadTypeView>, b: Seq<OverloadTypeView>) -> bool {
    a.len() == b.len()
        && forall|i: int| 0 <= i < a.len() ==> same_overload_type(#[trigger] a[i], b[i])
}

/// Are the sequences equal, element by element?
pub open spec fn same_dims(a: Seq<IntView>, b: Seq<IntView>) -> bool {
    a.len() == b.len() && forall|i: int| 0 <= i < a.len() ==> same_int(#[trigger] a[i], b[i])
}

/// Does `s` have a field of the given name whose type is equal to `ty`?
#[verifier::opaque]
pub open spec fn has_field(s: Seq<FieldView>, name: Seq<char>, ty: TypeView) -> bool {
    exists|j: int|
        0 <= j < s.len() && (#[trigger] s[j]).name == name && same_type(ty, s[j].ty)
}

/// Is there a field in `s` of the given name to whose type `ty` is equal?
#[verifier::opaque]
pub open spec fn is_field(s: Seq<FieldView>, name: Seq<char>, ty: TypeView) -> bool {
    exists|i: int|
        0 <= i < s.len() && (#[trigger] s[i]).name == name && same_type(s[i].ty, ty)
}

/// Do the fields agree, in whatever order they stand: are there as many, and is there an equal
/// type under the name of each in the other?
pub open spec fn same_module_fields(a: Seq<FieldView>, b: Seq<FieldView>) -> bool {
    &&& a.len() == b.len()
    &&& forall|i: int| 0 <= i < a.len() ==> has_field(b, (#[trigger] a[i]).name, a[i].ty)
    &&& forall|j: int| 0 <= j < b.len() ==> is_field(a, (#[trigger] b[j]).name, b[j].ty)
}

proof fn lemma_rel_types(a: Seq<TypeView>, b: Seq<TypeView>)
    ensures
        rel_types(a, b) == same_types(a, b),
{
}

proof fn lemma_rel_param_seq(a: Seq<ParamView>, b: Seq<ParamView>)
    ensures
        rel_param_seq(a, b) == same_param_seq(a, b),
{
}

proof fn lemma_rel_fields(a: Seq<FieldView>, b: Seq<FieldView>)
    ensures
        rel_fields(a, b) == same_fields(a, b),
{
}

proof fn lemma_rel_quantifieds(a: Seq<QuantifiedView>, b: Seq<QuantifiedView>)
    ensures
        rel_quantifieds(a, b) == same_quantifieds(a, b),
{
}

proof fn lemma_rel_overloads(a: Seq<OverloadTypeView>, b: Seq<OverloadTypeView>)
    ensures
        rel_overloads(a, b) == same_overloads(a, b),
{
}

proof fn lemma_rel_dims(a: Seq<IntView>, b: Seq<IntView>)
    ensures
        rel_dims(a, b) == same_dims(a, b),
{
}

proof fn lemma_rel_forall_function(a: ForallView<FunctionView>, b: ForallView<FunctionView>)
    ensures
        rel_forall_function(a, b) == same_forall_function(a, b),
{
    lemma_rel_quantifieds(a.tparams, b.tparams);
}

proof fn lemma_rel_forall_forallable(a: ForallView<ForallableView>, b: ForallView<ForallableView>)
    ensures
        rel_forall_forallable(a, b) == same_forall_forallable(a, b),
{
    lemma_rel_quantifieds(a.tparams, b.tparams);
}

proof fn lemma_rel_has_field(s: Seq<FieldView>, name: Seq<char>, ty: TypeView)
    ensures
        rel_has_field(s, name, ty) == has_field(s, name, ty),
{
    reveal(has_field);
    if rel_has_field(s, name, ty) {
        let j = choose|j: int|
            0 <= j < s.len() && (#[trigger] s[j]).name == name && rel_type(ty, s[j].ty);
        assert(s[j].name == name && same_type(ty, s[j].ty));
    }
    if has_field(s, name, ty) {
        let j = choose|j: int|
            0 <= j < s.len() && (#[trigger] s[j]).name == name && same_type(ty, s[j].ty);
        assert(s[j].name == name && rel_type(ty, s[j].ty));
    }
}

proof fn lemma_rel_is_field(s: Seq<FieldView>, name: Seq<char>, ty: TypeView)
    ensures
        rel_is_field(s, name, ty) == is_field(s, name, ty),
{
    reveal(is_field);
    if rel_is_field(s, name, ty) {
        let i = choose|i: int|
            if 0 <= i < s.len() {
                (#[trigger] s[i]).name == name && rel_type(s[i].ty, ty)
            } else {
                false
            };
        assert(s[i].name == name && same_type(s[i].ty, ty));
    }
    if is_field(s, name, ty) {
        let i = choose|i: int|
            0 <= i < s.len() && (#[trigger] s[i]).name == name && same_type(s[i].ty, ty);
        assert(s[i].name == name && rel_type(s[i].ty, ty));
    }
}

proof fn lemma_rel_module_fields(a: Seq<FieldView>, b: Seq<FieldView>)
    ensures
        rel_module_fields(a, b) == same_module_fields(a, b),
{
    assert forall|i: int| 0 <= i < a.len() implies rel_has_field(b, (#[trigger] a[i]).name, a[i].ty)
        == has_field(b, a[i].name, a[i].ty) by {
        lemma_rel_has_field(b, a[i].name, a[i].ty);
    }
    assert forall|j: int| 0 <= j < b.len() implies rel_is_field(a, (#[trigger] b[j]).name, b[j].ty)
        == is_field(a, b[j].name, b[j].ty) by {
        lemma_rel_is_field(a, b[j].name, b[j].ty);
    }
    if rel_module_fields(a, b) {
        assert forall|i: int| 0 <= i < a.len() implies has_field(
            b,
            (#[trigger] a[i]).name,
            a[i].ty,
        ) by {
            assert(rel_has_field(b, a[i].name, a[i].ty));
        }
    }
    if same_module_fields(a, b) {
        assert forall|i: int| 0 <= i < a.len() implies rel_has_field(
            b,
            (#[trigger] a[i]).name,
            a[i].ty,
        ) by {
            assert(has_field(b, a[i].name, a[i].ty));
        }
    }
}

pub broadcast proof fn lemma_same_restriction(a: RestrictionView, b: RestrictionView)
    ensures
        #[trigger] same_restriction(a, b) == {
            match (a, b) {
                (RestrictionView::Bound(x), RestrictionView::Bound(y)) => same_type(x, y),
                (RestrictionView::Constraints(x), RestrictionView::Constraints(y)) => {
                    same_types(x, y)
                },
                (RestrictionView::Unrestricted, RestrictionView::Unrestricted) => true,
                _ => false,
            }
        },
{
    match (a, b) {
        (RestrictionView::Constraints(x), RestrictionView::Constraints(y)) => {
            lemma_rel_types(x, y);
        },
        _ => {},
    }
}

pub broadcast proof fn lemma_same_quantified(a: QuantifiedView, b: QuantifiedView)
    ensures
        #[trigger] same_quantified(a, b) == {
            &&& a.identity == b.identity
            &&& a.name == b.name
            &&& a.kind == b.kind
            &&& (match (a.default, b.default) {
                (Some(x), Some(y)) => same_type(x, y),
                (None, None) => true,
                _ => false,
            })
            &&& same_restriction(a.restriction, b.restriction)
            &&& a.variance == b.variance
        },
{
}

pub broadcast proof fn lemma_same_targs(a: TArgsView, b: TArgsView)
    ensures
        #[trigger] same_targs(a, b) == {
            &&& same_quantifieds(a.tparams, b.tparams)
            &&& same_types(a.args, b.args)
        },
{
    lemma_rel_quantifieds(a.tparams, b.tparams);
    lemma_rel_types(a.args, b.args);
}

pub broadcast proof fn lemma_same_class_type(a: ClassTypeView, b: ClassTypeView)
    ensures
        #[trigger] same_class_type(a, b) == {
            &&& a.class == b.class
            &&& same_targs(a.targs, b.targs)
        },
{
}

pub broadcast proof fn lemma_same_lit_enum(a: LitEnumView, b: LitEnumView)
    ensures
        #[trigger] same_lit_enum(a, b) == {
            &&& same_class_type(a.class, b.class)
            &&& a.member == b.member
        },
{
}

pub broadcast proof fn lemma_same_lit(a: LitView, b: LitView)
    ensures
        #[trigger] same_lit(a, b) == {
            match (a, b) {
                (LitView::Str(x), LitView::Str(y)) => x == y,
                (LitView::Int(x), LitView::Int(y)) => x == y,
                (LitView::Bool(x), LitView::Bool(y)) => x == y,
                (LitView::Bytes(x), LitView::Bytes(y)) => x == y,
                (LitView::Enum(x), LitView::Enum(y)) => same_lit_enum(*x, *y),
                _ => false,
            }
        },
{
}

pub broadcast proof fn lemma_same_literal(a: LiteralView, b: LiteralView)
    ensures
        #[trigger] same_literal(a, b) == {
            &&& same_lit(a.value, b.value)
            &&& a.style == b.style
        },
{
}

pub broadcast proof fn lemma_same_param(a: ParamView, b: ParamView)
    ensures
        #[trigger] same_param(a, b) == {
            &&& a.name == b.name
            &&& a.kind == b.kind
            &&& a.required == b.required
            &&& same_type(a.ty, b.ty)
        },
{
}

pub broadcast proof fn lemma_same_params(a: ParamsView, b: ParamsView)
    ensures
        #[trigger] same_params(a, b) == {
            match (a, b) {
                (ParamsView::List(x), ParamsView::List(y)) => same_param_seq(x, y),
                (ParamsView::Ellipsis, ParamsView::Ellipsis) => true,
                (ParamsView::Materialization, ParamsView::Materialization) => true,
                (ParamsView::ParamSpec(x, x2), ParamsView::ParamSpec(y, y2)) => same_param_seq(x, y)
                    && same_type(x2, y2),
                _ => false,
            }
        },
{
    match (a, b) {
        (ParamsView::List(x), ParamsView::List(y)) => {
            lemma_rel_param_seq(x, y);
        },
        (ParamsView::ParamSpec(x, _), ParamsView::ParamSpec(y, _)) => {
            lemma_rel_param_seq(x, y);
        },
        _ => {},
    }
}

pub broadcast proof fn lemma_same_callable(a: CallableView, b: CallableView)
    ensures
        #[trigger] same_callable(a, b) == {
            &&& same_params(a.params, b.params)
            &&& same_type(a.ret, b.ret)
        },
{
}

pub broadcast proof fn lemma_same_property_metadata(
    a: PropertyMetadataView,
    b: PropertyMetadataView,
)
    ensures
        #[trigger] same_property_metadata(a, b) == {
            &&& a.role == b.role
            &&& same_type(a.getter, b.getter)
        },
{
}

pub broadcast proof fn lemma_same_func_flags(a: FuncFlagsView, b: FuncFlagsView)
    ensures
        #[trigger] same_func_flags(a, b) == {
            &&& a.is_overload == b.is_overload
            &&& a.is_cached_property == b.is_cached_property
            &&& a.is_abstract_method == b.is_abstract_method
            &&& a.is_override == b.is_override
            &&& a.is_assert_shape == b.is_assert_shape
            &&& a.has_enum_member_decoration == b.has_enum_member_decoration
            &&& a.has_final_decoration == b.has_final_decoration
            &&& (match (a.property_metadata, b.property_metadata) {
                (Some(x), Some(y)) => same_property_metadata(x, y),
                (None, None) => true,
                _ => false,
            })
            &&& a.deprecation == b.deprecation
            &&& a.dataclass_transform_metadata == b.dataclass_transform_metadata
        },
{
}

pub broadcast proof fn lemma_same_func_metadata(a: FuncMetadataView, b: FuncMetadataView)
    ensures
        #[trigger] same_func_metadata(a, b) == {
            &&& a.kind == b.kind
            &&& same_func_flags(a.flags, b.flags)
        },
{
}

pub broadcast proof fn lemma_same_function(a: FunctionView, b: FunctionView)
    ensures
        #[trigger] same_function(a, b) == {
            &&& same_callable(a.signature, b.signature)
            &&& same_func_metadata(a.metadata, b.metadata)
        },
{
}

pub broadcast proof fn lemma_same_type_alias(a: TypeAliasView, b: TypeAliasView)
    ensures
        #[trigger] same_type_alias(a, b) == {
            &&& a.name == b.name
            &&& same_type(a.ty, b.ty)
        },
{
}

pub broadcast proof fn lemma_same_type_alias_ref(a: TypeAliasRefView, b: TypeAliasRefView)
    ensures
        #[trigger] same_type_alias_ref(a, b) == {
            &&& a.name == b.name
            &&& (match (a.args, b.args) {
                (Some(x), Some(y)) => same_targs(x, y),
                (None, None) => true,
                _ => false,
            })
        },
{
}

pub broadcast proof fn lemma_same_type_alias_data(a: TypeAliasDataView, b: TypeAliasDataView)
    ensures
        #[trigger] same_type_alias_data(a, b) == {
            match (a, b) {
                (TypeAliasDataView::Value(x), TypeAliasDataView::Value(y)) => same_type_alias(x, y),
                (TypeAliasDataView::Ref(x), TypeAliasDataView::Ref(y)) => same_type_alias_ref(x, y),
                _ => false,
            }
        },
{
}

pub broadcast proof fn lemma_same_forallable(a: ForallableView, b: ForallableView)
    ensures
        #[trigger] same_forallable(a, b) == {
            match (a, b) {
                (ForallableView::TypeAlias(x), ForallableView::TypeAlias(y)) => {
                    same_type_alias_data(x, y)
                },
                (ForallableView::Function(x), ForallableView::Function(y)) => same_function(x, y),
                (ForallableView::Callable(x), ForallableView::Callable(y)) => same_callable(x, y),
                _ => false,
            }
        },
{
}

pub broadcast proof fn lemma_same_overload_type(a: OverloadTypeView, b: OverloadTypeView)
    ensures
        #[trigger] same_overload_type(a, b) == {
            match (a, b) {
                (OverloadTypeView::Function(x), OverloadTypeView::Function(y)) => {
                    same_function(x, y)
                },
                (OverloadTypeView::Forall(x), OverloadTypeView::Forall(y)) => {
                    same_forall_function(x, y)
                },
                _ => false,
            }
        },
{
    match (a, b) {
        (OverloadTypeView::Forall(x), OverloadTypeView::Forall(y)) => {
            lemma_rel_forall_function(x, y);
        },
        _ => {},
    }
}

pub broadcast proof fn lemma_same_overload(a: OverloadView, b: OverloadView)
    ensures
        #[trigger] same_overload(a, b) == {
            &&& same_overloads(a.signatures, b.signatures)
            &&& same_func_metadata(*a.metadata, *b.metadata)
        },
{
    lemma_rel_overloads(a.signatures, b.signatures);
}

pub broadcast proof fn lemma_same_bound_method_type(a: BoundMethodTypeView, b: BoundMethodTypeView)
    ensures
        #[trigger] same_bound_method_type(a, b) == {
            match (a, b) {
                (BoundMethodTypeView::Function(x), BoundMethodTypeView::Function(y)) => {
                    same_function(x, y)
                },
                (BoundMethodTypeView::Forall(x), BoundMethodTypeView::Forall(y)) => {
                    same_forall_function(x, y)
                },
                (BoundMethodTypeView::Overload(x), BoundMethodTypeView::Overload(y)) => {
                    same_overload(x, y)
                },
                _ => false,
            }
        },
{
    match (a, b) {
        (BoundMethodTypeView::Forall(x), BoundMethodTypeView::Forall(y)) => {
            lemma_rel_forall_function(x, y);
        },
        _ => {},
    }
}

pub broadcast proof fn lemma_same_bound_method(a: BoundMethodView, b: BoundMethodView)
    ensures
        #[trigger] same_bound_method(a, b) == {
            &&& same_type(a.obj, b.obj)
            &&& same_bound_method_type(a.func, b.func)
        },
{
}

pub broadcast proof fn lemma_same_union(a: UnionView, b: UnionView)
    ensures
        #[trigger] same_union(a, b) == {
            same_types(a.members, b.members)
        },
{
    lemma_rel_types(a.members, b.members);
}

pub broadcast proof fn lemma_same_typed_dict(a: TypedDictView, b: TypedDictView)
    ensures
        #[trigger] same_typed_dict(a, b) == {
            match (a, b) {
                (TypedDictView::TypedDict(x), TypedDictView::TypedDict(y)) => same_class_type(x, y),
                (TypedDictView::Anonymous(x), TypedDictView::Anonymous(y)) => same_fields(x, y),
                _ => false,
            }
        },
{
    match (a, b) {
        (TypedDictView::Anonymous(x), TypedDictView::Anonymous(y)) => {
            lemma_rel_fields(x, y);
        },
        _ => {},
    }
}

pub broadcast proof fn lemma_same_field(a: FieldView, b: FieldView)
    ensures
        #[trigger] same_field(a, b) == {
            &&& a.name == b.name
            &&& same_type(a.ty, b.ty)
        },
{
}

pub broadcast proof fn lemma_same_int(a: IntView, b: IntView)
    ensures
        #[trigger] same_int(a, b) == {
            match (a, b) {
                (IntView::Literal(x), IntView::Literal(y)) => x == y,
                (IntView::Symbolic(x), IntView::Symbolic(y)) => same_type(*x, *y),
                (IntView::Gradual, IntView::Gradual) => true,
                (IntView::Materialization, IntView::Materialization) => true,
                _ => false,
            }
        },
{
}

pub broadcast proof fn lemma_same_shaped_array_type(a: ShapedArrayTypeView, b: ShapedArrayTypeView)
    ensures
        #[trigger] same_shaped_array_type(a, b) == {
            &&& same_class_type(a.base_class, b.base_class)
            &&& same_dims(a.shape, b.shape)
        },
{
    lemma_rel_dims(a.shape, b.shape);
}

pub broadcast proof fn lemma_same_nn_module_type(a: NNModuleTypeView, b: NNModuleTypeView)
    ensures
        #[trigger] same_nn_module_type(a, b) == {
            &&& same_class_type(a.class, b.class)
            &&& same_module_fields(a.fields, b.fields)
        },
{
    lemma_rel_module_fields(a.fields, b.fields);
}

pub broadcast proof fn lemma_same_data_frame_schema(a: DataFrameSchemaView, b: DataFrameSchemaView)
    ensures
        #[trigger] same_data_frame_schema(a, b) == {
            &&& same_class_type(a.class, b.class)
            &&& same_fields(a.columns, b.columns)
        },
{
    lemma_rel_fields(a.columns, b.columns);
}

pub broadcast proof fn lemma_same_series_schema(a: SeriesSchemaView, b: SeriesSchemaView)
    ensures
        #[trigger] same_series_schema(a, b) == {
            &&& same_class_type(a.class, b.class)
            &&& same_type(a.element, b.element)
        },
{
}

pub broadcast proof fn lemma_same_tuple(a: TupleView, b: TupleView)
    ensures
        #[trigger] same_tuple(a, b) == {
            match (a, b) {
                (TupleView::Concrete(x), TupleView::Concrete(y)) => same_types(x, y),
                (TupleView::Unbounded(x), TupleView::Unbounded(y)) => same_type(*x, *y),
                (TupleView::Unpacked(x), TupleView::Unpacked(y)) => same_types(x.0, y.0)
                    && same_type(x.1, y.1)
                    && same_types(x.2, y.2),
                _ => false,
            }
        },
{
    match (a, b) {
        (TupleView::Concrete(x), TupleView::Concrete(y)) => {
            lemma_rel_types(x, y);
        },
        (TupleView::Unpacked(x), TupleView::Unpacked(y)) => {
            lemma_rel_types(x.0, y.0);
            lemma_rel_types(x.2, y.2);
        },
        _ => {},
    }
}

pub broadcast proof fn lemma_same_kw_call(a: KwCallView, b: KwCallView)
    ensures
        #[trigger] same_kw_call(a, b) == {
            &&& same_fields(a.keywords, b.keywords)
            &&& same_type(a.return_ty, b.return_ty)
        },
{
    lemma_rel_fields(a.keywords, b.keywords);
}

pub broadcast proof fn lemma_same_callable_residual(
    a: CallableResidualView,
    b: CallableResidualView,
)
    ensures
        #[trigger] same_callable_residual(a, b) == {
            &&& same_types(a.captured, b.captured)
            &&& same_type(a.fallback, b.fallback)
        },
{
    lemma_rel_types(a.captured, b.captured);
}

pub broadcast proof fn lemma_same_type_level_dsl_call(
    a: TypeLevelDslCallView,
    b: TypeLevelDslCallView,
)
    ensures
        #[trigger] same_type_level_dsl_call(a, b) == {
            &&& a.function == b.function
            &&& same_types(a.args, b.args)
            &&& same_type(a.result_schema, b.result_schema)
        },
{
    lemma_rel_types(a.args, b.args);
}

pub broadcast proof fn lemma_same_super_obj(a: SuperObjView, b: SuperObjView)
    ensures
        #[trigger] same_super_obj(a, b) == {
            match (a, b) {
                (SuperObjView::Instance(x), SuperObjView::Instance(y)) => same_class_type(x, y),
                (SuperObjView::Class(x), SuperObjView::Class(y)) => same_class_type(x, y),
                _ => false,
            }
        },
{
}

pub broadcast proof fn lemma_same_type(a: TypeView, b: TypeView)
    ensures
        #[trigger] same_type(a, b) == {
            match a {
                TypeView::Literal(x) => b is Literal && same_literal(*x, *b->Literal_0),
                TypeView::LiteralString(x) => b is LiteralString && x == b->LiteralString_0,
                TypeView::Callable(x) => b is Callable && same_callable(*x, *b->Callable_0),
                TypeView::CallableResidual(x) => b is CallableResidual
                    && same_callable_residual(*x, *b->CallableResidual_0),
                TypeView::TypeLevelDslCall(x) => b is TypeLevelDslCall
                    && same_type_level_dsl_call(*x, *b->TypeLevelDslCall_0),
                TypeView::Function(x) => b is Function && same_function(*x, *b->Function_0),
                TypeView::BoundMethod(x) => b is BoundMethod
                    && same_bound_method(*x, *b->BoundMethod_0),
                TypeView::Overload(x) => b is Overload && same_overload(x, b->Overload_0),
                TypeView::Union(x) => b is Union && same_union(*x, *b->Union_0),
                TypeView::Intersect(x) => b is Intersect
                    && same_types(x.0, b->Intersect_0.0)
                    && same_type(x.1, b->Intersect_0.1),
                TypeView::ClassDef(x) => b is ClassDef && x == b->ClassDef_0,
                TypeView::ClassType(x) => b is ClassType && same_class_type(x, b->ClassType_0),
                TypeView::TypedDict(x) => b is TypedDict && same_typed_dict(x, b->TypedDict_0),
                TypeView::PartialTypedDict(x) => b is PartialTypedDict
                    && same_typed_dict(x, b->PartialTypedDict_0),
                TypeView::ShapedArray(x) => b is ShapedArray
                    && same_shaped_array_type(*x, *b->ShapedArray_0),
                TypeView::IntTuple(x) => b is IntTuple && same_dims(*x, *b->IntTuple_0),
                TypeView::NNModule(x) => b is NNModule && same_nn_module_type(*x, *b->NNModule_0),
                TypeView::DataFrame(x) => b is DataFrame
                    && same_data_frame_schema(*x, *b->DataFrame_0),
                TypeView::Series(x) => b is Series && same_series_schema(*x, *b->Series_0),
                TypeView::Int(x) => b is Int && same_int(x, b->Int_0),
                TypeView::Tuple(x) => b is Tuple && same_tuple(x, b->Tuple_0),
                TypeView::Module(x) => b is Module && x == b->Module_0,
                TypeView::Forall(x) => b is Forall && same_forall_forallable(*x, *b->Forall_0),
                TypeView::Var(x) => b is Var && x == b->Var_0,
                TypeView::Quantified(x) => b is Quantified && same_quantified(*x, *b->Quantified_0),
                TypeView::QuantifiedValue(x) => b is QuantifiedValue
                    && same_quantified(*x, *b->QuantifiedValue_0),
                TypeView::ElementOfTypeVarTuple(x) => b is ElementOfTypeVarTuple
                    && same_quantified(*x, *b->ElementOfTypeVarTuple_0),
                TypeView::TypeGuard(x) => b is TypeGuard && same_type(*x, *b->TypeGuard_0),
                TypeView::TypeIs(x) => b is TypeIs && same_type(*x, *b->TypeIs_0),
                TypeView::Annotated(x, x2) => b is Annotated
                    && same_type(*x, *b->Annotated_0)
                    && same_types(x2, b->Annotated_1),
                TypeView::Unpack(x) => b is Unpack && same_type(*x, *b->Unpack_0),
                TypeView::TypeVar(x) => b is TypeVar && x == b->TypeVar_0,
                TypeView::ParamSpec(x) => b is ParamSpec && x == b->ParamSpec_0,
                TypeView::TypeVarTuple(x) => b is TypeVarTuple && x == b->TypeVarTuple_0,
                TypeView::SpecialForm(x) => b is SpecialForm && x == b->SpecialForm_0,
                TypeView::Concatenate(x, x2) => b is Concatenate
                    && same_param_seq(x, b->Concatenate_0)
                    && same_type(*x2, *b->Concatenate_1),
                TypeView::ParamSpecValue(x) => b is ParamSpecValue
                    && same_param_seq(x, b->ParamSpecValue_0),
                TypeView::Args(x) => b is Args && same_quantified(*x, *b->Args_0),
                TypeView::Kwargs(x) => b is Kwargs && same_quantified(*x, *b->Kwargs_0),
                TypeView::ArgsValue(x) => b is ArgsValue && same_quantified(*x, *b->ArgsValue_0),
                TypeView::KwargsValue(x) => b is KwargsValue
                    && same_quantified(*x, *b->KwargsValue_0),
                TypeView::Type(x) => b is Type && same_type(*x, *b->Type_0),
                TypeView::TypeForm(x) => b is TypeForm && same_type(*x, *b->TypeForm_0),
                TypeView::Ellipsis => b is Ellipsis,
                TypeView::Any(x) => b is Any && x == b->Any_0,
                TypeView::Never(x) => b is Never && x == b->Never_0,
                TypeView::TypeAlias(x) => b is TypeAlias
                    && same_type_alias_data(*x, *b->TypeAlias_0),
                TypeView::UntypedAlias(x) => b is UntypedAlias
                    && same_type_alias_data(*x, *b->UntypedAlias_0),
                TypeView::Sentinel(x) => b is Sentinel && x == b->Sentinel_0,
                TypeView::SuperInstance(x) => b is SuperInstance
                    && same_class_type(x.0, b->SuperInstance_0.0)
                    && same_super_obj(x.1, b->SuperInstance_0.1),
                TypeView::SelfType(x) => b is SelfType && same_class_type(x, b->SelfType_0),
                TypeView::KwCall(x) => b is KwCall && same_kw_call(*x, *b->KwCall_0),
                TypeView::Materialization => b is Materialization,
                TypeView::NoneType => b is NoneType,
            }
        },
{
    match (a, b) {
        (TypeView::Intersect(x), TypeView::Intersect(y)) => {
            lemma_rel_types(x.0, y.0);
        },
        (TypeView::IntTuple(x), TypeView::IntTuple(y)) => {
            lemma_rel_dims(*x, *y);
        },
        (TypeView::Forall(x), TypeView::Forall(y)) => {
            lemma_rel_forall_forallable(*x, *y);
        },
        (TypeView::Annotated(_, x2), TypeView::Annotated(_, y2)) => {
            lemma_rel_types(x2, y2);
        },
        (TypeView::Concatenate(x, _), TypeView::Concatenate(y, _)) => {
            lemma_rel_param_seq(x, y);
        },
        (TypeView::ParamSpecValue(x), TypeView::ParamSpecValue(y)) => {
            lemma_rel_param_seq(x, y);
        },
        _ => {},
    }
}

} // verus!
