//! Mathematical models of types: sequences in place of vectors, and no sharing.
use vstd::prelude::*;

use crate::data::{
    BoundMethod,
    BoundMethodType,
    Callable,
    CallableResidual,
    ClassType,
    DataFrameSchema,
    Field,
    Forall,
    Forallable,
    FuncFlags,
    FuncMetadata,
    Function,
    Int,
    IntTuple,
    KwCall,
    Lit,
    LitEnum,
    Literal,
    NNModuleType,
    Overload,
    OverloadType,
    Param,
    ParamList,
    Params,
    PropertyMetadata,
    Quantified,
    Restriction,
    SeriesSchema,
    ShapedArrayType,
    SuperObj,
    TArgs,
    TParams,
    Tuple,
    Type,
    TypeAlias,
    TypeAliasData,
    TypeAliasRef,
    TypeLevelDslCall,
    TypedDict,
    Union,
};
use crate::names::{
    ClassView, DeprecationView, FunctionKindView, LitIntView, QNameView, QuantifiedIdentityView,
    Var,
};
use crate::outside::{fields_of, signatures_of};
use crate::styles::{
    AnyStyle, DataclassTransformMetadata, LitStyle, NeverStyle, ParamKind, PreInferenceVariance,
    PropertyRole, QuantifiedKind, SpecialForm,
};

verus! {

/// The model of a [`Forall`].
pub ghost struct ForallView<T> {
    pub tparams: Seq<QuantifiedView>,
    pub body: T,
}

/// The model of a [`Restriction`].
pub ghost enum RestrictionView {
    Bound(TypeView),
    Constraints(Seq<TypeView>),
    Unrestricted,
}

/// The model of a [`Quantified`].
pub ghost struct QuantifiedView {
    pub identity: QuantifiedIdentityView,
    pub name: Seq<char>,
    pub kind: QuantifiedKind,
    pub default: Option<TypeView>,
    pub restriction: RestrictionView,
    pub variance: PreInferenceVariance,
}

/// The model of a [`TArgs`].
pub ghost struct TArgsView {
    pub tparams: Seq<QuantifiedView>,
    pub args: Seq<TypeView>,
}

/// The model of a [`ClassType`].
pub ghost struct ClassTypeView {
    pub class: ClassView,
    pub targs: TArgsView,
}

/// The model of a [`LitEnum`].
pub ghost struct LitEnumView {
    pub class: ClassTypeView,
    pub member: Seq<char>,
}

/// The model of a [`Lit`].
pub ghost enum LitView {
    Str(Seq<char>),
    Int(LitIntView),
    Bool(bool),
    Bytes(Seq<u8>),
    Enum(Box<LitEnumView>),
}

/// The model of a [`Literal`].
pub ghost struct LiteralView {
    pub value: LitView,
    pub style: LitStyle,
}

/// The model of a [`Param`].
pub ghost struct ParamView {
    pub name: Option<Seq<char>>,
    pub kind: ParamKind,
    pub required: bool,
    pub ty: TypeView,
}

/// The model of a [`Params`].
pub ghost enum ParamsView {
    List(Seq<ParamView>),
    Ellipsis,
    Materialization,
    ParamSpec(Seq<ParamView>, TypeView),
}

/// The model of a [`Callable`].
pub ghost struct CallableView {
    pub params: ParamsView,
    pub ret: TypeView,
}

/// The model of a [`PropertyMetadata`].
pub ghost struct PropertyMetadataView {
    pub role: PropertyRole,
    pub getter: TypeView,
}

/// The model of a [`FuncFlags`].
pub ghost struct FuncFlagsView {
    pub is_overload: bool,
    pub is_cached_property: bool,
    pub is_abstract_method: bool,
    pub is_override: bool,
    pub is_assert_shape: bool,
    pub has_enum_member_decoration: bool,
    pub has_final_decoration: bool,
    pub property_metadata: Option<PropertyMetadataView>,
    pub deprecation: Option<DeprecationView>,
    pub dataclass_transform_metadata: Option<DataclassTransformMetadata>,
}

/// The model of a [`FuncMetadata`].
pub ghost struct FuncMetadataView {
    pub kind: FunctionKindView,
    pub flags: FuncFlagsView,
}

/// The model of a [`Function`].
pub ghost struct FunctionView {
    pub signature: CallableView,
    pub metadata: FuncMetadataView,
}

/// The model of a [`TypeAlias`].
pub ghost struct TypeAliasView {
    pub name: Seq<char>,
    pub ty: TypeView,
}

/// The model of a [`TypeAliasRef`].
pub ghost struct TypeAliasRefView {
    pub name: Seq<char>,
    pub args: Option<TArgsView>,
}

/// The model of a [`TypeAliasData`].
pub ghost enum TypeAliasDataView {
    Value(TypeAliasView),
    Ref(TypeAliasRefView),
}

/// The model of a [`Forallable`].
pub ghost enum ForallableView {
    TypeAlias(TypeAliasDataView),
    Function(FunctionView),
    Callable(CallableView),
}

/// The model of a [`OverloadType`].
pub ghost enum OverloadTypeView {
    Function(FunctionView),
    Forall(ForallView<FunctionView>),
}

/// The model of a [`Overload`].
pub ghost struct OverloadView {
    pub signatures: Seq<OverloadTypeView>,
    pub metadata: Box<FuncMetadataView>,
}

/// The model of a [`BoundMethodType`].
pub ghost enum BoundMethodTypeView {
    Function(FunctionView),
    Forall(ForallView<FunctionView>),
    Overload(OverloadView),
}

/// The model of a [`BoundMethod`].
pub ghost struct BoundMethodView {
    pub obj: TypeView,
    pub func: BoundMethodTypeView,
}

/// The model of a [`Union`].
pub ghost struct UnionView {
    pub members: Seq<TypeView>,
    pub display_name: Option<(Seq<char>, Seq<char>)>,
}

/// The model of a [`TypedDict`].
pub ghost enum TypedDictView {
    TypedDict(ClassTypeView),
    Anonymous(Seq<FieldView>),
}

/// The model of a [`Field`].
pub ghost struct FieldView {
    pub name: Seq<char>,
    pub ty: TypeView,
}

/// The model of a [`Int`].
pub ghost enum IntView {
    Literal(i64),
    Symbolic(Box<TypeView>),
    Gradual,
    Materialization,
}

/// The model of a [`ShapedArrayType`].
pub ghost struct ShapedArrayTypeView {
    pub base_class: ClassTypeView,
    pub shape: Seq<IntView>,
}

/// The model of a [`NNModuleType`].
pub ghost struct NNModuleTypeView {
    pub class: ClassTypeView,
    pub fields: Seq<FieldView>,
}

/// The model of a [`DataFrameSchema`].
pub ghost struct DataFrameSchemaView {
    pub class: ClassTypeView,
    pub columns: Seq<FieldView>,
}

/// The model of a [`SeriesSchema`].
pub ghost struct SeriesSchemaView {
    pub class: ClassTypeView,
    pub element: TypeView,
}

/// The model of a [`Tuple`].
pub ghost enum TupleView {
    Concrete(Seq<TypeView>),
    Unbounded(Box<TypeView>),
    Unpacked(Box<(Seq<TypeView>, TypeView, Seq<TypeView>)>),
}

/// The model of a [`KwCall`].
pub ghost struct KwCallView {
    pub keywords: Seq<FieldView>,
    pub return_ty: TypeView,
}

/// The model of a [`CallableResidual`].
pub ghost struct CallableResidualView {
    pub captured: Seq<TypeView>,
    pub fallback: TypeView,
}

/// The model of a [`TypeLevelDslCall`].
pub ghost struct TypeLevelDslCallView {
    pub function: Seq<char>,
    pub args: Seq<TypeView>,
    pub result_schema: TypeView,
}

/// The model of a [`SuperObj`].
pub ghost enum SuperObjView {
    Instance(ClassTypeView),
    Class(ClassTypeView),
}

/// The model of a [`Type`].
pub ghost enum TypeView {
    Literal(Box<LiteralView>),
    LiteralString(LitStyle),
    Callable(Box<CallableView>),
    CallableResidual(Box<CallableResidualView>),
    TypeLevelDslCall(Box<TypeLevelDslCallView>),
    Function(Box<FunctionView>),
    BoundMethod(Box<BoundMethodView>),
    Overload(OverloadView),
    Union(Box<UnionView>),
    Intersect(Box<(Seq<TypeView>, TypeView)>),
    ClassDef(ClassView),
    ClassType(ClassTypeView),
    TypedDict(TypedDictView),
    PartialTypedDict(TypedDictView),
    ShapedArray(Box<ShapedArrayTypeView>),
    IntTuple(Box<Seq<IntView>>),
    NNModule(Box<NNModuleTypeView>),
    DataFrame(Box<DataFrameSchemaView>),
    Series(Box<SeriesSchemaView>),
    Int(IntView),
    Tuple(TupleView),
    Module(Seq<char>),
    Forall(Box<ForallView<ForallableView>>),
    Var(Var),
    Quantified(Box<QuantifiedView>),
    QuantifiedValue(Box<QuantifiedView>),
    ElementOfTypeVarTuple(Box<QuantifiedView>),
    TypeGuard(Box<TypeView>),
    TypeIs(Box<TypeView>),
    Annotated(Box<TypeView>, Seq<TypeView>),
    Unpack(Box<TypeView>),
    TypeVar(QNameView),
    ParamSpec(QNameView),
    TypeVarTuple(QNameView),
    SpecialForm(SpecialForm),
    Concatenate(Seq<ParamView>, Box<TypeView>),
    ParamSpecValue(Seq<ParamView>),
    Args(Box<QuantifiedView>),
    Kwargs(Box<QuantifiedView>),
    ArgsValue(Box<QuantifiedView>),
    KwargsValue(Box<QuantifiedView>),
    Type(Box<TypeView>),
    TypeForm(Box<TypeView>),
    Ellipsis,
    Any(AnyStyle),
    Never(NeverStyle),
    TypeAlias(Box<TypeAliasDataView>),
    UntypedAlias(Box<TypeAliasDataView>),
    Sentinel(QNameView),
    SuperInstance(Box<(ClassTypeView, SuperObjView)>),
    SelfType(ClassTypeView),
    KwCall(Box<KwCallView>),
    Materialization,
    NoneType,
}

spec fn model_types(v: Seq<Type>) -> Seq<TypeView>
    decreases v,
{
    Seq::new(
        v.len(),
        |i: int|
            if 0 <= i < v.len() {
                model_type(v[i])
            } else {
                arbitrary()
            },
    )
}

spec fn model_param_seq(v: Seq<Param>) -> Seq<ParamView>
    decreases v,
{
    Seq::new(
        v.len(),
        |i: int|
            if 0 <= i < v.len() {
                model_param(v[i])
            } else {
                arbitrary()
            },
    )
}

spec fn model_fields(v: Seq<Field>) -> Seq<FieldView>
    decreases v,
{
    Seq::new(
        v.len(),
        |i: int|
            if 0 <= i < v.len() {
                model_field(v[i])
            } else {
                arbitrary()
            },
    )
}

spec fn model_quantifieds(v: Seq<Quantified>) -> Seq<QuantifiedView>
    decreases v,
{
    Seq::new(
        v.len(),
        |i: int|
            if 0 <= i < v.len() {
                model_quantified(v[i])
            } else {
                arbitrary()
            },
    )
}

spec fn model_dims(v: Seq<Int>) -> Seq<IntView>
    decreases v,
{
    Seq::new(
        v.len(),
        |i: int|
            if 0 <= i < v.len() {
                model_int(v[i])
            } else {
                arbitrary()
            },
    )
}

spec fn model_forall_function(x: Forall<Function>) -> ForallView<FunctionView>
    decreases x,
{
    ForallView { tparams: model_tparams(*x.tparams), body: model_function(x.body) }
}

spec fn model_forall_forallable(x: Forall<Forallable>) -> ForallView<ForallableView>
    decreases x,
{
    ForallView { tparams: model_tparams(*x.tparams), body: model_forallable(x.body) }
}

spec fn model_restriction(x: Restriction) -> RestrictionView
    decreases x,
{
    match x {
        Restriction::Bound(a) => RestrictionView::Bound(model_type(a)),
        Restriction::Constraints(a) => RestrictionView::Constraints(model_types(a@)),
        Restriction::Unrestricted => RestrictionView::Unrestricted,
    }
}

spec fn model_quantified(x: Quantified) -> QuantifiedView
    decreases x,
{
    QuantifiedView {
        identity: x.identity@,
        name: x.name@,
        kind: x.kind,
        default: match x.default { Some(y) => Some(model_type(y)), None => None },
        restriction: model_restriction(x.restriction),
        variance: x.variance,
    }
}

spec fn model_tparams(x: TParams) -> Seq<QuantifiedView>
    decreases x,
{
    model_quantifieds(x.params@)
}

spec fn model_targs(x: TArgs) -> TArgsView
    decreases x,
{
    TArgsView {
        tparams: model_tparams(*x.tparams),
        args: model_types(x.args@),
    }
}

spec fn model_class_type(x: ClassType) -> ClassTypeView
    decreases x,
{
    ClassTypeView {
        class: x.class@,
        targs: model_targs(x.targs),
    }
}

spec fn model_lit_enum(x: LitEnum) -> LitEnumView
    decreases x,
{
    LitEnumView {
        class: model_class_type(x.class),
        member: x.member@,
    }
}

spec fn model_lit(x: Lit) -> LitView
    decreases x,
{
    match x {
        Lit::Str(a) => LitView::Str(a@),
        Lit::Int(a) => LitView::Int(a@),
        Lit::Bool(a) => LitView::Bool(a),
        Lit::Bytes(a) => LitView::Bytes(a@),
        Lit::Enum(a) => LitView::Enum(Box::new(model_lit_enum(*a))),
    }
}

spec fn model_literal(x: Literal) -> LiteralView
    decreases x,
{
    LiteralView {
        value: model_lit(x.value),
        style: x.style,
    }
}

spec fn model_param(x: Param) -> ParamView
    decreases x,
{
    ParamView {
        name: match x.name { Some(y) => Some(y@), None => None },
        kind: x.kind,
        required: x.required,
        ty: model_type(x.ty),
    }
}

spec fn model_param_list(x: ParamList) -> Seq<ParamView>
    decreases x,
{
    model_param_seq(x.items@)
}

spec fn model_params(x: Params) -> ParamsView
    decreases x,
{
    match x {
        Params::List(a) => ParamsView::List(model_param_list(a)),
        Params::Ellipsis => ParamsView::Ellipsis,
        Params::Materialization => ParamsView::Materialization,
        Params::ParamSpec(a, b) => ParamsView::ParamSpec(model_param_seq(a@), model_type(b)),
    }
}

spec fn model_callable(x: Callable) -> CallableView
    decreases x,
{
    CallableView {
        params: model_params(x.params),
        ret: model_type(x.ret),
    }
}

spec fn model_property_metadata(x: PropertyMetadata) -> PropertyMetadataView
    decreases x,
{
    PropertyMetadataView {
        role: x.role,
        getter: model_type(x.getter),
    }
}

spec fn model_func_flags(x: FuncFlags) -> FuncFlagsView
    decreases x,
{
    FuncFlagsView {
        is_overload: x.is_overload,
        is_cached_property: x.is_cached_property,
        is_abstract_method: x.is_abstract_method,
        is_override: x.is_override,
        is_assert_shape: x.is_assert_shape,
        has_enum_member_decoration: x.has_enum_member_decoration,
        has_final_decoration: x.has_final_decoration,
        property_metadata: match x.property_metadata {
            Some(y) => Some(model_property_metadata(y)),
            None => None,
        },
        deprecation: match x.deprecation { Some(y) => Some(y@), None => None },
        dataclass_transform_metadata: match x.dataclass_transform_metadata {
            Some(y) => Some(y),
            None => None,
        },
    }
}

spec fn model_func_metadata(x: FuncMetadata) -> FuncMetadataView
    decreases x,
{
    FuncMetadataView {
        kind: x.kind@,
        flags: model_func_flags(x.flags),
    }
}

spec fn model_function(x: Function) -> FunctionView
    decreases x,
{
    FunctionView {
        signature: model_callable(x.signature),
        metadata: model_func_metadata(x.metadata),
    }
}

spec fn model_type_alias(x: TypeAlias) -> TypeAliasView
    decreases x,
{
    TypeAliasView {
        name: x.name@,
        ty: model_type(x.ty),
    }
}

spec fn model_type_alias_ref(x: TypeAliasRef) -> TypeAliasRefView
    decreases x,
{
    TypeAliasRefView {
        name: x.name@,
        args: match x.args { Some(y) => Some(model_targs(y)), None => None },
    }
}

spec fn model_type_alias_data(x: TypeAliasData) -> TypeAliasDataView
    decreases x,
{
    match x {
        TypeAliasData::Value(a) => TypeAliasDataView::Value(model_type_alias(a)),
        TypeAliasData::Ref(a) => TypeAliasDataView::Ref(model_type_alias_ref(a)),
    }
}

spec fn model_forallable(x: Forallable) -> ForallableView
    decreases x,
{
    match x {
        Forallable::TypeAlias(a) => ForallableView::TypeAlias(model_type_alias_data(a)),
        Forallable::Function(a) => ForallableView::Function(model_function(a)),
        Forallable::Callable(a) => ForallableView::Callable(model_callable(a)),
    }
}

spec fn model_overload_type(x: OverloadType) -> OverloadTypeView
    decreases x,
{
    match x {
        OverloadType::Function(a) => OverloadTypeView::Function(model_function(a)),
        OverloadType::Forall(a) => OverloadTypeView::Forall(model_forall_function(a)),
    }
}

spec fn model_overload(x: Overload) -> OverloadView
    decreases x,
{
    OverloadView {
        signatures: signatures_of(x.signatures),
        metadata: Box::new(model_func_metadata(*x.metadata)),
    }
}

spec fn model_bound_method_type(x: BoundMethodType) -> BoundMethodTypeView
    decreases x,
{
    match x {
        BoundMethodType::Function(a) => BoundMethodTypeView::Function(model_function(a)),
        BoundMethodType::Forall(a) => BoundMethodTypeView::Forall(model_forall_function(a)),
        BoundMethodType::Overload(a) => BoundMethodTypeView::Overload(model_overload(a)),
    }
}

spec fn model_bound_method(x: BoundMethod) -> BoundMethodView
    decreases x,
{
    BoundMethodView {
        obj: model_type(x.obj),
        func: model_bound_method_type(x.func),
    }
}

spec fn model_union(x: Union) -> UnionView
    decreases x,
{
    UnionView {
        members: model_types(x.members@),
        display_name: match x.display_name { Some(y) => Some((y.0@, y.1@)), None => None },
    }
}

spec fn model_typed_dict(x: TypedDict) -> TypedDictView
    decreases x,
{
    match x {
        TypedDict::TypedDict(a) => TypedDictView::TypedDict(model_class_type(a)),
        TypedDict::Anonymous(a) => TypedDictView::Anonymous(model_fields(a@)),
    }
}

spec fn model_field(x: Field) -> FieldView
    decreases x,
{
    FieldView {
        name: x.name@,
        ty: model_type(x.ty),
    }
}

spec fn model_int(x: Int) -> IntView
    decreases x,
{
    match x {
        Int::Literal(a) => IntView::Literal(a),
        Int::Symbolic(a) => IntView::Symbolic(Box::new(model_type(*a))),
        Int::Gradual => IntView::Gradual,
        Int::Materialization => IntView::Materialization,
    }
}

spec fn model_int_tuple(x: IntTuple) -> Seq<IntView>
    decreases x,
{
    model_dims(x.dims@)
}

spec fn model_shaped_array_type(x: ShapedArrayType) -> ShapedArrayTypeView
    decreases x,
{
    ShapedArrayTypeView {
        base_class: model_class_type(x.base_class),
        shape: model_int_tuple(x.shape),
    }
}

spec fn model_nn_module_type(x: NNModuleType) -> NNModuleTypeView
    decreases x,
{
    NNModuleTypeView {
        class: model_class_type(x.class),
        fields: fields_of(x.fields),
    }
}

spec fn model_data_frame_schema(x: DataFrameSchema) -> DataFrameSchemaView
    decreases x,
{
    DataFrameSchemaView {
        class: model_class_type(x.class),
        columns: model_fields(x.columns@),
    }
}

spec fn model_series_schema(x: SeriesSchema) -> SeriesSchemaView
    decreases x,
{
    SeriesSchemaView {
        class: model_class_type(x.class),
        element: model_type(x.element),
    }
}

spec fn model_tuple(x: Tuple) -> TupleView
    decreases x,
{
    match x {
        Tuple::Concrete(a) => TupleView::Concrete(model_types(a@)),
        Tuple::Unbounded(a) => TupleView::Unbounded(Box::new(model_type(*a))),
        Tuple::Unpacked(a) => {
            TupleView::Unpacked(Box::new((model_types(a.0@), model_type(a.1), model_types(a.2@))))
        },
    }
}

spec fn model_kw_call(x: KwCall) -> KwCallView
    decreases x,
{
    KwCallView {
        keywords: model_fields(x.keywords@),
        return_ty: model_type(x.return_ty),
    }
}

spec fn model_callable_residual(x: CallableResidual) -> CallableResidualView
    decreases x,
{
    CallableResidualView {
        captured: model_types(x.captured@),
        fallback: model_type(x.fallback),
    }
}

spec fn model_type_level_dsl_call(x: TypeLevelDslCall) -> TypeLevelDslCallView
    decreases x,
{
    TypeLevelDslCallView {
        function: x.function@,
        args: model_types(x.args@),
        result_schema: model_type(x.result_schema),
    }
}

spec fn model_super_obj(x: SuperObj) -> SuperObjView
    decreases x,
{
    match x {
        SuperObj::Instance(a) => SuperObjView::Instance(model_class_type(a)),
        SuperObj::Class(a) => SuperObjView::Class(model_class_type(a)),
    }
}

spec fn model_type(x: Type) -> TypeView
    decreases x,
{
    match x {
        Type::Literal(a) => TypeView::Literal(Box::new(model_literal(*a))),
        Type::LiteralString(a) => TypeView::LiteralString(a),
        Type::Callable(a) => TypeView::Callable(Box::new(model_callable(*a))),
        Type::CallableResidual(a) => {
            TypeView::CallableResidual(Box::new(model_callable_residual(*a)))
        },
        Type::TypeLevelDslCall(a) => {
            TypeView::TypeLevelDslCall(Box::new(model_type_level_dsl_call(*a)))
        },
        Type::Function(a) => TypeView::Function(Box::new(model_function(*a))),
        Type::BoundMethod(a) => TypeView::BoundMethod(Box::new(model_bound_method(*a))),
        Type::Overload(a) => TypeView::Overload(model_overload(a)),
        Type::Union(a) => TypeView::Union(Box::new(model_union(*a))),
        Type::Intersect(a) => TypeView::Intersect(Box::new((model_types(a.0@), model_type(a.1)))),
        Type::ClassDef(a) => TypeView::ClassDef(a@),
        Type::ClassType(a) => TypeView::ClassType(model_class_type(a)),
        Type::TypedDict(a) => TypeView::TypedDict(model_typed_dict(a)),
        Type::PartialTypedDict(a) => TypeView::PartialTypedDict(model_typed_dict(a)),
        Type::ShapedArray(a) => TypeView::ShapedArray(Box::new(model_shaped_array_type(*a))),
        Type::IntTuple(a) => TypeView::IntTuple(Box::new(model_int_tuple(*a))),
        Type::NNModule(a) => TypeView::NNModule(Box::new(model_nn_module_type(*a))),
        Type::DataFrame(a) => TypeView::DataFrame(Box::new(model_data_frame_schema(*a))),
        Type::Series(a) => TypeView::Series(Box::new(model_series_schema(*a))),
        Type::Int(a) => TypeView::Int(model_int(a)),
        Type::Tuple(a) => TypeView::Tuple(model_tuple(a)),
        Type::Module(a) => TypeView::Module(a@),
        Type::Forall(a) => TypeView::Forall(Box::new(model_forall_forallable(*a))),
        Type::Var(a) => TypeView::Var(a),
        Type::Quantified(a) => TypeView::Quantified(Box::new(model_quantified(*a))),
        Type::QuantifiedValue(a) => TypeView::QuantifiedValue(Box::new(model_quantified(*a))),
        Type::ElementOfTypeVarTuple(a) => {
            TypeView::ElementOfTypeVarTuple(Box::new(model_quantified(*a)))
        },
        Type::TypeGuard(a) => TypeView::TypeGuard(Box::new(model_type(*a))),
        Type::TypeIs(a) => TypeView::TypeIs(Box::new(model_type(*a))),
        Type::Annotated(a, b) => TypeView::Annotated(Box::new(model_type(*a)), model_types(b@)),
        Type::Unpack(a) => TypeView::Unpack(Box::new(model_type(*a))),
        Type::TypeVar(a) => TypeView::TypeVar(a@),
        Type::ParamSpec(a) => TypeView::ParamSpec(a@),
        Type::TypeVarTuple(a) => TypeView::TypeVarTuple(a@),
        Type::SpecialForm(a) => TypeView::SpecialForm(a),
        Type::Concatenate(a, b) => {
            TypeView::Concatenate(model_param_seq(a@), Box::new(model_type(*b)))
        },
        Type::ParamSpecValue(a) => TypeView::ParamSpecValue(model_param_list(a)),
        Type::Args(a) => TypeView::Args(Box::new(model_quantified(*a))),
        Type::Kwargs(a) => TypeView::Kwargs(Box::new(model_quantified(*a))),
        Type::ArgsValue(a) => TypeView::ArgsValue(Box::new(model_quantified(*a))),
        Type::KwargsValue(a) => TypeView::KwargsValue(Box::new(model_quantified(*a))),
        Type::Type(a) => TypeView::Type(Box::new(model_type(*a))),
        Type::TypeForm(a) => TypeView::TypeForm(Box::new(model_type(*a))),
        Type::Ellipsis => TypeView::Ellipsis,
        Type::Any(a) => TypeView::Any(a),
        Type::Never(a) => TypeView::Never(a),
        Type::TypeAlias(a) => TypeView::TypeAlias(Box::new(model_type_alias_data(*a))),
        Type::UntypedAlias(a) => TypeView::UntypedAlias(Box::new(model_type_alias_data(*a))),
        Type::Sentinel(a) => TypeView::Sentinel(a@),
        Type::SuperInstance(a) => {
            TypeView::SuperInstance(Box::new((model_class_type(a.0), model_super_obj(a.1))))
        },
        Type::SelfType(a) => TypeView::SelfType(model_class_type(a)),
        Type::KwCall(a) => TypeView::KwCall(Box::new(model_kw_call(*a))),
        Type::Materialization => TypeView::Materialization,
        Type::NoneType => TypeView::NoneType,
    }
}

impl View for Restriction {
    type V = RestrictionView;

    closed spec fn view(&self) -> RestrictionView {
        model_restriction(*self)
    }
}

impl View for Quantified {
    type V = QuantifiedView;

    closed spec fn view(&self) -> QuantifiedView {
        model_quantified(*self)
    }
}

impl View for TParams {
    type V = Seq<QuantifiedView>;

    closed spec fn view(&self) -> Seq<QuantifiedView> {
        model_tparams(*self)
    }
}

impl View for TArgs {
    type V = TArgsView;

    closed spec fn view(&self) -> TArgsView {
        model_targs(*self)
    }
}

impl View for ClassType {
    type V = ClassTypeView;

    closed spec fn view(&self) -> ClassTypeView {
        model_class_type(*self)
    }
}

impl View for LitEnum {
    type V = LitEnumView;

    closed spec fn view(&self) -> LitEnumView {
        model_lit_enum(*self)
    }
}

impl View for Lit {
    type V = LitView;

    closed spec fn view(&self) -> LitView {
        model_lit(*self)
    }
}

impl View for Literal {
    type V = LiteralView;

    closed spec fn view(&self) -> LiteralView {
        model_literal(*self)
    }
}

impl View for Param {
    type V = ParamView;

    closed spec fn view(&self) -> ParamView {
        model_param(*self)
    }
}

impl View for ParamList {
    type V = Seq<ParamView>;

    closed spec fn view(&self) -> Seq<ParamView> {
        model_param_list(*self)
    }
}

impl View for Params {
    type V = ParamsView;

    closed spec fn view(&self) -> ParamsView {
        model_params(*self)
    }
}

impl View for Callable {
    type V = CallableView;

    closed spec fn view(&self) -> CallableView {
        model_callable(*self)
    }
}

impl View for PropertyMetadata {
    type V = PropertyMetadataView;

    closed spec fn view(&self) -> PropertyMetadataView {
        model_property_metadata(*self)
    }
}

impl View for FuncFlags {
    type V = FuncFlagsView;

    closed spec fn view(&self) -> FuncFlagsView {
        model_func_flags(*self)
    }
}

impl View for FuncMetadata {
    type V = FuncMetadataView;

    closed spec fn view(&self) -> FuncMetadataView {
        model_func_metadata(*self)
    }
}

impl View for Function {
    type V = FunctionView;

    closed spec fn view(&self) -> FunctionView {
        model_function(*self)
    }
}

impl View for TypeAlias {
    type V = TypeAliasView;

    closed spec fn view(&self) -> TypeAliasView {
        model_type_alias(*self)
    }
}

impl View for TypeAliasRef {
    type V = TypeAliasRefView;

    closed spec fn view(&self) -> TypeAliasRefView {
        model_type_alias_ref(*self)
    }
}

impl View for TypeAliasData {
    type V = TypeAliasDataView;

    closed spec fn view(&self) -> TypeAliasDataView {
        model_type_alias_data(*self)
    }
}

impl View for Forallable {
    type V = ForallableView;

    closed spec fn view(&self) -> ForallableView {
        model_forallable(*self)
    }
}

impl View for OverloadType {
    type V = OverloadTypeView;

    closed spec fn view(&self) -> OverloadTypeView {
        model_overload_type(*self)
    }
}

impl View for Overload {
    type V = OverloadView;

    closed spec fn view(&self) -> OverloadView {
        model_overload(*self)
    }
}

impl View for BoundMethodType {
    type V = BoundMethodTypeView;

    closed spec fn view(&self) -> BoundMethodTypeView {
        model_bound_method_type(*self)
    }
}

impl View for BoundMethod {
    type V = BoundMethodView;

    closed spec fn view(&self) -> BoundMethodView {
        model_bound_method(*self)
    }
}

impl View for Union {
    type V = UnionView;

    closed spec fn view(&self) -> UnionView {
        model_union(*self)
    }
}

impl View for TypedDict {
    type V = TypedDictView;

    closed spec fn view(&self) -> TypedDictView {
        model_typed_dict(*self)
    }
}

impl View for Field {
    type V = FieldView;

    closed spec fn view(&self) -> FieldView {
        model_field(*self)
    }
}

impl View for Int {
    type V = IntView;

    closed spec fn view(&self) -> IntView {
        model_int(*self)
    }
}

impl View for IntTuple {
    type V = Seq<IntView>;

    closed spec fn view(&self) -> Seq<IntView> {
        model_int_tuple(*self)
    }
}

impl View for ShapedArrayType {
    type V = ShapedArrayTypeView;

    closed spec fn view(&self) -> ShapedArrayTypeView {
        model_shaped_array_type(*self)
    }
}

impl View for NNModuleType {
    type V = NNModuleTypeView;

    closed spec fn view(&self) -> NNModuleTypeView {
        model_nn_module_type(*self)
    }
}

impl View for DataFrameSchema {
    type V = DataFrameSchemaView;

    closed spec fn view(&self) -> DataFrameSchemaView {
        model_data_frame_schema(*self)
    }
}

impl View for SeriesSchema {
    type V = SeriesSchemaView;

    closed spec fn view(&self) -> SeriesSchemaView {
        model_series_schema(*self)
    }
}

impl View for Tuple {
    type V = TupleView;

    closed spec fn view(&self) -> TupleView {
        model_tuple(*self)
    }
}

impl View for KwCall {
    type V = KwCallView;

    closed spec fn view(&self) -> KwCallView {
        model_kw_call(*self)
    }
}

impl View for CallableResidual {
    type V = CallableResidualView;

    closed spec fn view(&self) -> CallableResidualView {
        model_callable_residual(*self)
    }
}

impl View for TypeLevelDslCall {
    type V = TypeLevelDslCallView;

    closed spec fn view(&self) -> TypeLevelDslCallView {
        model_type_level_dsl_call(*self)
    }
}

impl View for SuperObj {
    type V = SuperObjView;

    closed spec fn view(&self) -> SuperObjView {
        model_super_obj(*self)
    }
}

impl View for Type {
    type V = TypeView;

    closed spec fn view(&self) -> TypeView {
        model_type(*self)
    }
}

impl View for Forall<Function> {
    type V = ForallView<FunctionView>;

    closed spec fn view(&self) -> ForallView<FunctionView> {
        model_forall_function(*self)
    }
}

impl View for Forall<Forallable> {
    type V = ForallView<ForallableView>;

    closed spec fn view(&self) -> ForallView<ForallableView> {
        model_forall_forallable(*self)
    }
}

/// The models of the elements, in order.
pub open spec fn view_types(v: Seq<Type>) -> Seq<TypeView> {
    Seq::new(v.len(), |i: int| v[i]@)
}

/// The models of the elements, in order.
pub open spec fn view_param_seq(v: Seq<Param>) -> Seq<ParamView> {
    Seq::new(v.len(), |i: int| v[i]@)
}

/// The models of the elements, in order.
pub open spec fn view_fields(v: Seq<Field>) -> Seq<FieldView> {
    Seq::new(v.len(), |i: int| v[i]@)
}

/// The models of the elements, in order.
pub open spec fn view_quantifieds(v: Seq<Quantified>) -> Seq<QuantifiedView> {
    Seq::new(v.len(), |i: int| v[i]@)
}

/// The models of the elements, in order.
pub open spec fn view_overloads(v: Seq<OverloadType>) -> Seq<OverloadTypeView> {
    Seq::new(v.len(), |i: int| v[i]@)
}

/// The models of the elements, in order.
pub open spec fn view_dims(v: Seq<Int>) -> Seq<IntView> {
    Seq::new(v.len(), |i: int| v[i]@)
}

proof fn lemma_model_types(v: Seq<Type>)
    ensures
        model_types(v) == view_types(v),
{
    assert(model_types(v) =~= view_types(v));
}

proof fn lemma_model_param_seq(v: Seq<Param>)
    ensures
        model_param_seq(v) == view_param_seq(v),
{
    assert(model_param_seq(v) =~= view_param_seq(v));
}

proof fn lemma_model_fields(v: Seq<Field>)
    ensures
        model_fields(v) == view_fields(v),
{
    assert(model_fields(v) =~= view_fields(v));
}

proof fn lemma_model_quantifieds(v: Seq<Quantified>)
    ensures
        model_quantifieds(v) == view_quantifieds(v),
{
    assert(model_quantifieds(v) =~= view_quantifieds(v));
}

proof fn lemma_model_dims(v: Seq<Int>)
    ensures
        model_dims(v) == view_dims(v),
{
    assert(model_dims(v) =~= view_dims(v));
}

/// The model of a [`Restriction`], by the models of its parts.
pub broadcast proof fn lemma_restriction_view(x: Restriction)
    ensures
        #[trigger] x@ == match x {
            Restriction::Bound(a) => RestrictionView::Bound(a@),
            Restriction::Constraints(a) => RestrictionView::Constraints(view_types(a@)),
            Restriction::Unrestricted => RestrictionView::Unrestricted,
        },
{
    match x {
        Restriction::Constraints(a) => {
            lemma_model_types(a@);
        },
        _ => {},
    }
}

/// The model of a [`Quantified`], by the models of its parts.
pub broadcast proof fn lemma_quantified_view(x: Quantified)
    ensures
        #[trigger] x@ == (
            QuantifiedView {
                identity: x.identity@,
                name: x.name@,
                kind: x.kind,
                default: match x.default { Some(y) => Some(y@), None => None },
                restriction: x.restriction@,
                variance: x.variance,
            }
        ),
{

}

/// The model of a [`TParams`], by the models of its parts.
pub(crate) broadcast proof fn lemma_tparams_view(x: TParams)
    ensures
        #[trigger] x@ == view_quantifieds(x.params@),
{
    lemma_model_quantifieds(x.params@);
}

/// The model of a [`TArgs`], by the models of its parts.
pub(crate) broadcast proof fn lemma_targs_view(x: TArgs)
    ensures
        #[trigger] x@ == (
            TArgsView {
                tparams: x.tparams@,
                args: view_types(x.args@),
            }
        ),
{
    lemma_model_types(x.args@);
}

/// The model of a [`ClassType`], by the models of its parts.
pub broadcast proof fn lemma_class_type_view(x: ClassType)
    ensures
        #[trigger] x@ == (
            ClassTypeView {
                class: x.class@,
                targs: x.targs@,
            }
        ),
{

}

/// The model of a [`LitEnum`], by the models of its parts.
pub broadcast proof fn lemma_lit_enum_view(x: LitEnum)
    ensures
        #[trigger] x@ == (
            LitEnumView {
                class: x.class@,
                member: x.member@,
            }
        ),
{

}

/// The model of a [`Lit`], by the models of its parts.
pub broadcast proof fn lemma_lit_view(x: Lit)
    ensures
        #[trigger] x@ == match x {
            Lit::Str(a) => LitView::Str(a@),
            Lit::Int(a) => LitView::Int(a@),
            Lit::Bool(a) => LitView::Bool(a),
            Lit::Bytes(a) => LitView::Bytes(a@),
            Lit::Enum(a) => LitView::Enum(Box::new((*a)@)),
        },
{

}

/// The model of a [`Literal`], by the models of its parts.
pub broadcast proof fn lemma_literal_view(x: Literal)
    ensures
        #[trigger] x@ == (
            LiteralView {
                value: x.value@,
                style: x.style,
            }
        ),
{

}

/// The model of a [`Param`], by the models of its parts.
pub broadcast proof fn lemma_param_view(x: Param)
    ensures
        #[trigger] x@ == (
            ParamView {
                name: match x.name { Some(y) => Some(y@), None => None },
                kind: x.kind,
                required: x.required,
                ty: x.ty@,
            }
        ),
{

}

/// The model of a [`ParamList`], by the models of its parts.
pub broadcast proof fn lemma_param_list_view(x: ParamList)
    ensures
        #[trigger] x@ == view_param_seq(x.items@),
{
    lemma_model_param_seq(x.items@);
}

/// The model of a [`Params`], by the models of its parts.
pub broadcast proof fn lemma_params_view(x: Params)
    ensures
        #[trigger] x@ == match x {
            Params::List(a) => ParamsView::List(a@),
            Params::Ellipsis => ParamsView::Ellipsis,
            Params::Materialization => ParamsView::Materialization,
            Params::ParamSpec(a, b) => ParamsView::ParamSpec(view_param_seq(a@), b@),
        },
{
    match x {
        Params::ParamSpec(a, _) => {
            lemma_model_param_seq(a@);
        },
        _ => {},
    }
}

/// The model of a [`Callable`], by the models of its parts.
pub broadcast proof fn lemma_callable_view(x: Callable)
    ensures
        #[trigger] x@ == (
            CallableView {
                params: x.params@,
                ret: x.ret@,
            }
        ),
{

}

/// The model of a [`PropertyMetadata`], by the models of its parts.
pub broadcast proof fn lemma_property_metadata_view(x: PropertyMetadata)
    ensures
        #[trigger] x@ == (
            PropertyMetadataView {
                role: x.role,
                getter: x.getter@,
            }
        ),
{

}

/// The model of a [`FuncFlags`], by the models of its parts.
pub broadcast proof fn lemma_func_flags_view(x: FuncFlags)
    ensures
        #[trigger] x@ == (
            FuncFlagsView {
                is_overload: x.is_overload,
                is_cached_property: x.is_cached_property,
                is_abstract_method: x.is_abstract_method,
                is_override: x.is_override,
                is_assert_shape: x.is_assert_shape,
                has_enum_member_decoration: x.has_enum_member_decoration,
                has_final_decoration: x.has_final_decoration,
                property_metadata: match x.property_metadata { Some(y) => Some(y@), None => None },
                deprecation: match x.deprecation { Some(y) => Some(y@), None => None },
                dataclass_transform_metadata: match x.dataclass_transform_metadata {
                    Some(y) => Some(y),
                    None => None,
                },
            }
        ),
{

}

/// The model of a [`FuncMetadata`], by the models of its parts.
pub broadcast proof fn lemma_func_metadata_view(x: FuncMetadata)
    ensures
        #[trigger] x@ == (
            FuncMetadataView {
                kind: x.kind@,
                flags: x.flags@,
            }
        ),
{

}

/// The model of a [`Function`], by the models of its parts.
pub broadcast proof fn lemma_function_view(x: Function)
    ensures
        #[trigger] x@ == (
            FunctionView {
                signature: x.signature@,
                metadata: x.metadata@,
            }
        ),
{

}

/// The model of a [`TypeAlias`], by the models of its parts.
pub broadcast proof fn lemma_type_alias_view(x: TypeAlias)
    ensures
        #[trigger] x@ == (
            TypeAliasView {
                name: x.name@,
                ty: x.ty@,
            }
        ),
{

}

/// The model of a [`TypeAliasRef`], by the models of its parts.
pub broadcast proof fn lemma_type_alias_ref_view(x: TypeAliasRef)
    ensures
        #[trigger] x@ == (
            TypeAliasRefView {
                name: x.name@,
                args: match x.args { Some(y) => Some(y@), None => None },
            }
        ),
{

}

/// The model of a [`TypeAliasData`], by the models of its parts.
pub broadcast proof fn lemma_type_alias_data_view(x: TypeAliasData)
    ensures
        #[trigger] x@ == match x {
            TypeAliasData::Value(a) => TypeAliasDataView::Value(a@),
            TypeAliasData::Ref(a) => TypeAliasDataView::Ref(a@),
        },
{

}

/// The model of a [`Forallable`], by the models of its parts.
pub broadcast proof fn lemma_forallable_view(x: Forallable)
    ensures
        #[trigger] x@ == match x {
            Forallable::TypeAlias(a) => ForallableView::TypeAlias(a@),
            Forallable::Function(a) => ForallableView::Function(a@),
            Forallable::Callable(a) => ForallableView::Callable(a@),
        },
{

}

/// The model of a [`OverloadType`], by the models of its parts.
pub broadcast proof fn lemma_overload_type_view(x: OverloadType)
    ensures
        #[trigger] x@ == match x {
            OverloadType::Function(a) => OverloadTypeView::Function(a@),
            OverloadType::Forall(a) => OverloadTypeView::Forall(a@),
        },
{

}

/// The model of a [`Overload`], by the models of its parts.
pub broadcast proof fn lemma_overload_view(x: Overload)
    ensures
        #[trigger] x@ == (
            OverloadView {
                signatures: signatures_of(x.signatures),
                metadata: Box::new((*x.metadata)@),
            }
        ),
{

}

/// The model of a [`BoundMethodType`], by the models of its parts.
pub broadcast proof fn lemma_bound_method_type_view(x: BoundMethodType)
    ensures
        #[trigger] x@ == match x {
            BoundMethodType::Function(a) => BoundMethodTypeView::Function(a@),
            BoundMethodType::Forall(a) => BoundMethodTypeView::Forall(a@),
            BoundMethodType::Overload(a) => BoundMethodTypeView::Overload(a@),
        },
{

}

/// The model of a [`BoundMethod`], by the models of its parts.
pub broadcast proof fn lemma_bound_method_view(x: BoundMethod)
    ensures
        #[trigger] x@ == (
            BoundMethodView {
                obj: x.obj@,
                func: x.func@,
            }
        ),
{

}

/// The model of a [`Union`], by the models of its parts.
pub broadcast proof fn lemma_union_view(x: Union)
    ensures
        #[trigger] x@ == (
            UnionView {
                members: view_types(x.members@),
                display_name: match x.display_name { Some(y) => Some((y.0@, y.1@)), None => None },
            }
        ),
{
    lemma_model_types(x.members@);
}

/// The model of a [`TypedDict`], by the models of its parts.
pub broadcast proof fn lemma_typed_dict_view(x: TypedDict)
    ensures
        #[trigger] x@ == match x {
            TypedDict::TypedDict(a) => TypedDictView::TypedDict(a@),
            TypedDict::Anonymous(a) => TypedDictView::Anonymous(view_fields(a@)),
        },
{
    match x {
        TypedDict::Anonymous(a) => {
            lemma_model_fields(a@);
        },
        _ => {},
    }
}

/// The model of a [`Field`], by the models of its parts.
pub broadcast proof fn lemma_field_view(x: Field)
    ensures
        #[trigger] x@ == (
            FieldView {
                name: x.name@,
                ty: x.ty@,
            }
        ),
{

}

/// The model of a [`Int`], by the models of its parts.
pub broadcast proof fn lemma_int_view(x: Int)
    ensures
        #[trigger] x@ == match x {
            Int::Literal(a) => IntView::Literal(a),
            Int::Symbolic(a) => IntView::Symbolic(Box::new((*a)@)),
            Int::Gradual => IntView::Gradual,
            Int::Materialization => IntView::Materialization,
        },
{

}

/// The model of a [`IntTuple`], by the models of its parts.
pub broadcast proof fn lemma_int_tuple_view(x: IntTuple)
    ensures
        #[trigger] x@ == view_dims(x.dims@),
{
    lemma_model_dims(x.dims@);
}

/// The model of a [`ShapedArrayType`], by the models of its parts.
pub broadcast proof fn lemma_shaped_array_type_view(x: ShapedArrayType)
    ensures
        #[trigger] x@ == (
            ShapedArrayTypeView {
                base_class: x.base_class@,
                shape: x.shape@,
            }
        ),
{

}

/// The model of a [`NNModuleType`], by the models of its parts.
pub broadcast proof fn lemma_nn_module_type_view(x: NNModuleType)
    ensures
        #[trigger] x@ == (
            NNModuleTypeView {
                class: x.class@,
                fields: fields_of(x.fields),
            }
        ),
{

}

/// The model of a [`DataFrameSchema`], by the models of its parts.
pub broadcast proof fn lemma_data_frame_schema_view(x: DataFrameSchema)
    ensures
        #[trigger] x@ == (
            DataFrameSchemaView {
                class: x.class@,
                columns: view_fields(x.columns@),
            }
        ),
{
    lemma_model_fields(x.columns@);
}

/// The model of a [`SeriesSchema`], by the models of its parts.
pub broadcast proof fn lemma_series_schema_view(x: SeriesSchema)
    ensures
        #[trigger] x@ == (
            SeriesSchemaView {
                class: x.class@,
                element: x.element@,
            }
        ),
{

}

/// The model of a [`Tuple`], by the models of its parts.
pub broadcast proof fn lemma_tuple_view(x: Tuple)
    ensures
        #[trigger] x@ == match x {
            Tuple::Concrete(a) => TupleView::Concrete(view_types(a@)),
            Tuple::Unbounded(a) => TupleView::Unbounded(Box::new((*a)@)),
            Tuple::Unpacked(a) => {
                TupleView::Unpacked(Box::new((view_types(a.0@), a.1@, view_types(a.2@))))
            },
        },
{
    match x {
        Tuple::Concrete(a) => {
            lemma_model_types(a@);
        },
        Tuple::Unpacked(a) => {
            lemma_model_types(a.0@);
            lemma_model_types(a.2@);
        },
        _ => {},
    }
}

/// The model of a [`KwCall`], by the models of its parts.
pub broadcast proof fn lemma_kw_call_view(x: KwCall)
    ensures
        #[trigger] x@ == (
            KwCallView {
                keywords: view_fields(x.keywords@),
                return_ty: x.return_ty@,
            }
        ),
{
    lemma_model_fields(x.keywords@);
}

/// The model of a [`CallableResidual`], by the models of its parts.
pub broadcast proof fn lemma_callable_residual_view(x: CallableResidual)
    ensures
        #[trigger] x@ == (
            CallableResidualView {
                captured: view_types(x.captured@),
                fallback: x.fallback@,
            }
        ),
{
    lemma_model_types(x.captured@);
}

/// The model of a [`TypeLevelDslCall`], by the models of its parts.
pub broadcast proof fn lemma_type_level_dsl_call_view(x: TypeLevelDslCall)
    ensures
        #[trigger] x@ == (
            TypeLevelDslCallView {
                function: x.function@,
                args: view_types(x.args@),
                result_schema: x.result_schema@,
            }
        ),
{
    lemma_model_types(x.args@);
}

/// The model of a [`SuperObj`], by the models of its parts.
pub broadcast proof fn lemma_super_obj_view(x: SuperObj)
    ensures
        #[trigger] x@ == match x {
            SuperObj::Instance(a) => SuperObjView::Instance(a@),
            SuperObj::Class(a) => SuperObjView::Class(a@),
        },
{

}

/// The model of a [`Type`], by the models of its parts.
pub broadcast proof fn lemma_type_view(x: Type)
    ensures
        #[trigger] x@ == match x {
            Type::Literal(a) => TypeView::Literal(Box::new((*a)@)),
            Type::LiteralString(a) => TypeView::LiteralString(a),
            Type::Callable(a) => TypeView::Callable(Box::new((*a)@)),
            Type::CallableResidual(a) => TypeView::CallableResidual(Box::new((*a)@)),
            Type::TypeLevelDslCall(a) => TypeView::TypeLevelDslCall(Box::new((*a)@)),
            Type::Function(a) => TypeView::Function(Box::new((*a)@)),
            Type::BoundMethod(a) => TypeView::BoundMethod(Box::new((*a)@)),
            Type::Overload(a) => TypeView::Overload(a@),
            Type::Union(a) => TypeView::Union(Box::new((*a)@)),
            Type::Intersect(a) => TypeView::Intersect(Box::new((view_types(a.0@), a.1@))),
            Type::ClassDef(a) => TypeView::ClassDef(a@),
            Type::ClassType(a) => TypeView::ClassType(a@),
            Type::TypedDict(a) => TypeView::TypedDict(a@),
            Type::PartialTypedDict(a) => TypeView::PartialTypedDict(a@),
            Type::ShapedArray(a) => TypeView::ShapedArray(Box::new((*a)@)),
            Type::IntTuple(a) => TypeView::IntTuple(Box::new((*a)@)),
            Type::NNModule(a) => TypeView::NNModule(Box::new((*a)@)),
            Type::DataFrame(a) => TypeView::DataFrame(Box::new((*a)@)),
            Type::Series(a) => TypeView::Series(Box::new((*a)@)),
            Type::Int(a) => TypeView::Int(a@),
            Type::Tuple(a) => TypeView::Tuple(a@),
            Type::Module(a) => TypeView::Module(a@),
            Type::Forall(a) => TypeView::Forall(Box::new((*a)@)),
            Type::Var(a) => TypeView::Var(a),
            Type::Quantified(a) => TypeView::Quantified(Box::new((*a)@)),
            Type::QuantifiedValue(a) => TypeView::QuantifiedValue(Box::new((*a)@)),
            Type::ElementOfTypeVarTuple(a) => TypeView::ElementOfTypeVarTuple(Box::new((*a)@)),
            Type::TypeGuard(a) => TypeView::TypeGuard(Box::new((*a)@)),
            Type::TypeIs(a) => TypeView::TypeIs(Box::new((*a)@)),
            Type::Annotated(a, b) => TypeView::Annotated(Box::new((*a)@), view_types(b@)),
            Type::Unpack(a) => TypeView::Unpack(Box::new((*a)@)),
            Type::TypeVar(a) => TypeView::TypeVar(a@),
            Type::ParamSpec(a) => TypeView::ParamSpec(a@),
            Type::TypeVarTuple(a) => TypeView::TypeVarTuple(a@),
            Type::SpecialForm(a) => TypeView::SpecialForm(a),
            Type::Concatenate(a, b) => TypeView::Concatenate(view_param_seq(a@), Box::new((*b)@)),
            Type::ParamSpecValue(a) => TypeView::ParamSpecValue(a@),
            Type::Args(a) => TypeView::Args(Box::new((*a)@)),
            Type::Kwargs(a) => TypeView::Kwargs(Box::new((*a)@)),
            Type::ArgsValue(a) => TypeView::ArgsValue(Box::new((*a)@)),
            Type::KwargsValue(a) => TypeView::KwargsValue(Box::new((*a)@)),
            Type::Type(a) => TypeView::Type(Box::new((*a)@)),
            Type::TypeForm(a) => TypeView::TypeForm(Box::new((*a)@)),
            Type::Ellipsis => TypeView::Ellipsis,
            Type::Any(a) => TypeView::Any(a),
            Type::Never(a) => TypeView::Never(a),
            Type::TypeAlias(a) => TypeView::TypeAlias(Box::new((*a)@)),
            Type::UntypedAlias(a) => TypeView::UntypedAlias(Box::new((*a)@)),
            Type::Sentinel(a) => TypeView::Sentinel(a@),
            Type::SuperInstance(a) => TypeView::SuperInstance(Box::new((a.0@, a.1@))),
            Type::SelfType(a) => TypeView::SelfType(a@),
            Type::KwCall(a) => TypeView::KwCall(Box::new((*a)@)),
            Type::Materialization => TypeView::Materialization,
            Type::NoneType => TypeView::NoneType,
        },
{
    match x {
        Type::Intersect(a) => {
            lemma_model_types(a.0@);
        },
        Type::Annotated(_, b) => {
            lemma_model_types(b@);
        },
        Type::Concatenate(a, _) => {
            lemma_model_param_seq(a@);
        },
        _ => {},
    }
}

/// The model of a [`Forall`], by the models of its parts.
pub broadcast proof fn lemma_forall_function_view(x: Forall<Function>)
    ensures
        #[trigger] x@ == (ForallView { tparams: x.tparams@, body: x.body@ }),
{
}

/// The model of a [`Forall`], by the models of its parts.
pub broadcast proof fn lemma_forall_forallable_view(x: Forall<Forallable>)
    ensures
        #[trigger] x@ == (ForallView { tparams: x.tparams@, body: x.body@ }),
{
}

pub broadcast proof fn lemma_types_push(v: Seq<Type>, x: Type)
    ensures
        #[trigger] view_types(v.push(x)) == view_types(v).push(x@),
{
    assert(view_types(v.push(x)) =~= view_types(v).push(x@));
}

pub broadcast proof fn lemma_quantifieds_push(v: Seq<Quantified>, x: Quantified)
    ensures
        #[trigger] view_quantifieds(v.push(x)) == view_quantifieds(v).push(x@),
{
    assert(view_quantifieds(v.push(x)) =~= view_quantifieds(v).push(x@));
}

pub broadcast proof fn lemma_types_update(v: Seq<Type>, i: int, x: Type)
    requires
        0 <= i < v.len(),
    ensures
        #[trigger] view_types(v.update(i, x)) == view_types(v).update(i, x@),
{
    assert(view_types(v.update(i, x)) =~= view_types(v).update(i, x@));
}

pub broadcast proof fn lemma_dims_update(v: Seq<Int>, i: int, x: Int)
    requires
        0 <= i < v.len(),
    ensures
        #[trigger] view_dims(v.update(i, x)) == view_dims(v).update(i, x@),
{
    assert(view_dims(v.update(i, x)) =~= view_dims(v).update(i, x@));
}

} // verus!
