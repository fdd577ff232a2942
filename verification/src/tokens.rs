//! The words that a type is spelled with, by which types are ordered and looked up.
//!
//! The spelling follows the structure of a type: the position of each variant among the variants
//! of its enum, then the spelling of each part in turn. Sequences put a one before each element
//! and a zero at the end. Two types are spelled alike only if they are built alike; the name that
//! a union is displayed by is not spelled.
use vstd::prelude::*;
use vstd::utf8::encode_utf8;

use crate::names::{
    ClassView, DeprecationView, FunctionKindView, LitIntView, QNameView, QuantifiedIdentityView,
    Var,
};
use crate::styles::DataclassTransformMetadata;
use crate::view::{
    BoundMethodTypeView,
    BoundMethodView,
    CallableResidualView,
    CallableView,
    ClassTypeView,
    DataFrameSchemaView,
    FieldView,
    ForallView,
    ForallableView,
    FuncFlagsView,
    FuncMetadataView,
    FunctionView,
    IntView,
    KwCallView,
    LitEnumView,
    LitView,
    LiteralView,
    NNModuleTypeView,
    OverloadTypeView,
    OverloadView,
    ParamView,
    ParamsView,
    PropertyMetadataView,
    QuantifiedView,
    RestrictionView,
    SeriesSchemaView,
    ShapedArrayTypeView,
    SuperObjView,
    TArgsView,
    TupleView,
    TypeAliasDataView,
    TypeAliasRefView,
    TypeAliasView,
    TypeLevelDslCallView,
    TypeView,
    TypedDictView,
    UnionView,
};

verus! {

/// One word of a spelling. The first component tells the numbers of variables (one) from all
/// other words (zero).
pub type Token = (u8, u64);

/// The spelling of a number.
pub open spec fn word(n: u64) -> Seq<Token> {
    seq![(0u8, n)]
}

/// The spelling of a variable.
pub open spec fn var_token(v: Var) -> Seq<Token> {
    seq![(1u8, v.unique.id)]
}

/// The spelling of a truth value.
pub open spec fn word_of_bool(b: bool) -> Seq<Token> {
    word(if b {
        1
    } else {
        0
    })
}

/// The position of a signed number among all signed numbers.
pub open spec fn order_of_i64(n: i64) -> u64 {
    (n + 0x8000_0000_0000_0000) as u64
}

/// The spelling of a string of bytes.
pub open spec fn tokens_bytes(b: Seq<u8>) -> Seq<Token> {
    Seq::new(b.len(), |i: int| (0u8, (b[i] + 1) as u64)) + word(0)
}

/// The spelling of a text, by its bytes in UTF-8.
pub open spec fn tokens_text(s: Seq<char>) -> Seq<Token> {
    tokens_bytes(encode_utf8(s))
}

/// The spelling of the elements of a sequence of numbers.
pub open spec fn items_words(s: Seq<u64>) -> Seq<Token>
    decreases s.len(),
{
    if s.len() == 0 {
        Seq::empty()
    } else {
        items_words(s.drop_last()) + word(1) + word(s.last())
    }
}

/// The spelling of a sequence of numbers.
pub open spec fn tokens_words(s: Seq<u64>) -> Seq<Token> {
    items_words(s) + word(0)
}

pub open spec fn tokens_qname(m: QNameView) -> Seq<Token> {
    tokens_text(m.name) + tokens_text(m.module)
}

pub open spec fn tokens_quantified_identity(m: QuantifiedIdentityView) -> Seq<Token> {
    tokens_text(m.module) + word(m.anchor.range.start as u64) + word(m.anchor.range.end as u64)
        + word(m.anchor.index as u64) + word(m.origin.rank_spec())
}

pub open spec fn tokens_class(m: ClassView) -> Seq<Token> {
    tokens_qname(m.qname) + word(m.index as u64) + word(m.kind.rank_spec())
}

pub open spec fn tokens_function_kind(m: FunctionKindView) -> Seq<Token> {
    match m {
        FunctionKindView::AssertShape => word(0),
        FunctionKindView::Def(name) => word(1) + tokens_text(name),
    }
}

pub open spec fn tokens_deprecation(m: DeprecationView) -> Seq<Token> {
    match m.message {
        Some(text) => word(1) + tokens_text(text),
        None => word(0),
    }
}

pub open spec fn tokens_lit_int(m: LitIntView) -> Seq<Token> {
    word_of_bool(m.negative) + tokens_words(m.magnitude)
}

pub open spec fn tokens_transform(m: DataclassTransformMetadata) -> Seq<Token> {
    word_of_bool(m.eq_default) + word_of_bool(m.order_default) + word_of_bool(m.kw_only_default)
        + word_of_bool(m.frozen_default)
}

spec fn code_items_types(s: Seq<TypeView>) -> Seq<Token>
    decreases s, 0nat,
{
    if s.len() == 0 {
        Seq::empty()
    } else {
        code_items_types(s.drop_last()) + word(1) + code_type(s.last())
    }
}

spec fn code_types(s: Seq<TypeView>) -> Seq<Token>
    decreases s, 1nat,
{
    code_items_types(s) + word(0)
}

spec fn code_items_param_seq(s: Seq<ParamView>) -> Seq<Token>
    decreases s, 0nat,
{
    if s.len() == 0 {
        Seq::empty()
    } else {
        code_items_param_seq(s.drop_last()) + word(1) + code_param(s.last())
    }
}

spec fn code_param_seq(s: Seq<ParamView>) -> Seq<Token>
    decreases s, 1nat,
{
    code_items_param_seq(s) + word(0)
}

spec fn code_items_fields(s: Seq<FieldView>) -> Seq<Token>
    decreases s, 0nat,
{
    if s.len() == 0 {
        Seq::empty()
    } else {
        code_items_fields(s.drop_last()) + word(1) + code_field(s.last())
    }
}

spec fn code_fields(s: Seq<FieldView>) -> Seq<Token>
    decreases s, 1nat,
{
    code_items_fields(s) + word(0)
}

spec fn code_items_quantifieds(s: Seq<QuantifiedView>) -> Seq<Token>
    decreases s, 0nat,
{
    if s.len() == 0 {
        Seq::empty()
    } else {
        code_items_quantifieds(s.drop_last()) + word(1) + code_quantified(s.last())
    }
}

spec fn code_quantifieds(s: Seq<QuantifiedView>) -> Seq<Token>
    decreases s, 1nat,
{
    code_items_quantifieds(s) + word(0)
}

spec fn code_items_overloads(s: Seq<OverloadTypeView>) -> Seq<Token>
    decreases s, 0nat,
{
    if s.len() == 0 {
        Seq::empty()
    } else {
        code_items_overloads(s.drop_last()) + word(1) + code_overload_type(s.last())
    }
}

spec fn code_overloads(s: Seq<OverloadTypeView>) -> Seq<Token>
    decreases s, 1nat,
{
    code_items_overloads(s) + word(0)
}

spec fn code_items_dims(s: Seq<IntView>) -> Seq<Token>
    decreases s, 0nat,
{
    if s.len() == 0 {
        Seq::empty()
    } else {
        code_items_dims(s.drop_last()) + word(1) + code_int(s.last())
    }
}

spec fn code_dims(s: Seq<IntView>) -> Seq<Token>
    decreases s, 1nat,
{
    code_items_dims(s) + word(0)
}

spec fn code_module_fields(s: Seq<FieldView>) -> Seq<Token>
    decreases s, 2nat,
{
    word(s.len() as u64) + code_fields(s)
}

spec fn code_forall_function(m: ForallView<FunctionView>) -> Seq<Token>
    decreases m, 1nat,
{
    code_quantifieds(m.tparams) + code_function(m.body)
}

spec fn code_forall_forallable(m: ForallView<ForallableView>) -> Seq<Token>
    decreases m, 1nat,
{
    code_quantifieds(m.tparams) + code_forallable(m.body)
}

spec fn code_restriction(m: RestrictionView) -> Seq<Token>
    decreases m, 1nat,
{
    match m {
        RestrictionView::Bound(a) => word(0) + code_type(a),
        RestrictionView::Constraints(a) => word(1) + code_types(a),
        RestrictionView::Unrestricted => word(2),
    }
}

spec fn code_quantified(m: QuantifiedView) -> Seq<Token>
    decreases m, 1nat,
{
    tokens_quantified_identity(m.identity)
        + tokens_text(m.name)
        + word(m.kind.rank_spec())
        + (match m.default { Some(x) => word(1) + code_type(x), None => word(0) })
        + code_restriction(m.restriction)
        + word(m.variance.rank_spec())
}

spec fn code_targs(m: TArgsView) -> Seq<Token>
    decreases m, 1nat,
{
    code_quantifieds(m.tparams) + code_types(m.args)
}

spec fn code_class_type(m: ClassTypeView) -> Seq<Token>
    decreases m, 1nat,
{
    tokens_class(m.class) + code_targs(m.targs)
}

spec fn code_lit_enum(m: LitEnumView) -> Seq<Token>
    decreases m, 1nat,
{
    code_class_type(m.class) + tokens_text(m.member)
}

spec fn code_lit(m: LitView) -> Seq<Token>
    decreases m, 1nat,
{
    match m {
        LitView::Str(a) => word(0) + tokens_text(a),
        LitView::Int(a) => word(1) + tokens_lit_int(a),
        LitView::Bool(a) => word(2) + word_of_bool(a),
        LitView::Bytes(a) => word(3) + tokens_bytes(a),
        LitView::Enum(a) => word(4) + code_lit_enum(*a),
    }
}

spec fn code_literal(m: LiteralView) -> Seq<Token>
    decreases m, 1nat,
{
    code_lit(m.value) + word(m.style.rank_spec())
}

spec fn code_param(m: ParamView) -> Seq<Token>
    decreases m, 1nat,
{
    (match m.name { Some(x) => word(1) + tokens_text(x), None => word(0) })
        + word(m.kind.rank_spec())
        + word_of_bool(m.required)
        + code_type(m.ty)
}

spec fn code_params(m: ParamsView) -> Seq<Token>
    decreases m, 1nat,
{
    match m {
        ParamsView::List(a) => word(0) + code_param_seq(a),
        ParamsView::Ellipsis => word(1),
        ParamsView::Materialization => word(2),
        ParamsView::ParamSpec(a, b) => word(3) + code_param_seq(a) + code_type(b),
    }
}

spec fn code_callable(m: CallableView) -> Seq<Token>
    decreases m, 1nat,
{
    code_params(m.params) + code_type(m.ret)
}

spec fn code_property_metadata(m: PropertyMetadataView) -> Seq<Token>
    decreases m, 1nat,
{
    word(m.role.rank_spec()) + code_type(m.getter)
}

spec fn code_func_flags(m: FuncFlagsView) -> Seq<Token>
    decreases m, 1nat,
{
    word_of_bool(m.is_overload)
        + word_of_bool(m.is_cached_property)
        + word_of_bool(m.is_abstract_method)
        + word_of_bool(m.is_override)
        + word_of_bool(m.is_assert_shape)
        + word_of_bool(m.has_enum_member_decoration)
        + word_of_bool(m.has_final_decoration)
        + (match m.property_metadata {
            Some(x) => word(1) + code_property_metadata(x),
            None => word(0),
        })
        + (match m.deprecation { Some(x) => word(1) + tokens_deprecation(x), None => word(0) })
        + (match m.dataclass_transform_metadata {
            Some(x) => word(1) + tokens_transform(x),
            None => word(0),
        })
}

spec fn code_func_metadata(m: FuncMetadataView) -> Seq<Token>
    decreases m, 1nat,
{
    tokens_function_kind(m.kind) + code_func_flags(m.flags)
}

spec fn code_function(m: FunctionView) -> Seq<Token>
    decreases m, 1nat,
{
    code_callable(m.signature) + code_func_metadata(m.metadata)
}

spec fn code_type_alias(m: TypeAliasView) -> Seq<Token>
    decreases m, 1nat,
{
    tokens_text(m.name) + code_type(m.ty)
}

spec fn code_type_alias_ref(m: TypeAliasRefView) -> Seq<Token>
    decreases m, 1nat,
{
    tokens_text(m.name) + (match m.args { Some(x) => word(1) + code_targs(x), None => word(0) })
}

spec fn code_type_alias_data(m: TypeAliasDataView) -> Seq<Token>
    decreases m, 1nat,
{
    match m {
        TypeAliasDataView::Value(a) => word(0) + code_type_alias(a),
        TypeAliasDataView::Ref(a) => word(1) + code_type_alias_ref(a),
    }
}

spec fn code_forallable(m: ForallableView) -> Seq<Token>
    decreases m, 1nat,
{
    match m {
        ForallableView::TypeAlias(a) => word(0) + code_type_alias_data(a),
        ForallableView::Function(a) => word(1) + code_function(a),
        ForallableView::Callable(a) => word(2) + code_callable(a),
    }
}

spec fn code_overload_type(m: OverloadTypeView) -> Seq<Token>
    decreases m, 1nat,
{
    match m {
        OverloadTypeView::Function(a) => word(0) + code_function(a),
        OverloadTypeView::Forall(a) => word(1) + code_forall_function(a),
    }
}

spec fn code_overload(m: OverloadView) -> Seq<Token>
    decreases m, 1nat,
{
    code_overloads(m.signatures) + code_func_metadata(*m.metadata)
}

spec fn code_bound_method_type(m: BoundMethodTypeView) -> Seq<Token>
    decreases m, 1nat,
{
    match m {
        BoundMethodTypeView::Function(a) => word(0) + code_function(a),
        BoundMethodTypeView::Forall(a) => word(1) + code_forall_function(a),
        BoundMethodTypeView::Overload(a) => word(2) + code_overload(a),
    }
}

spec fn code_bound_method(m: BoundMethodView) -> Seq<Token>
    decreases m, 1nat,
{
    code_type(m.obj) + code_bound_method_type(m.func)
}

spec fn code_union(m: UnionView) -> Seq<Token>
    decreases m, 1nat,
{
    code_types(m.members)
}

spec fn code_typed_dict(m: TypedDictView) -> Seq<Token>
    decreases m, 1nat,
{
    match m {
        TypedDictView::TypedDict(a) => word(0) + code_class_type(a),
        TypedDictView::Anonymous(a) => word(1) + code_fields(a),
    }
}

spec fn code_field(m: FieldView) -> Seq<Token>
    decreases m, 1nat,
{
    tokens_text(m.name) + code_type(m.ty)
}

spec fn code_int(m: IntView) -> Seq<Token>
    decreases m, 1nat,
{
    match m {
        IntView::Literal(a) => word(0) + word(order_of_i64(a)),
        IntView::Symbolic(a) => word(1) + code_type(*a),
        IntView::Gradual => word(2),
        IntView::Materialization => word(3),
    }
}

spec fn code_shaped_array_type(m: ShapedArrayTypeView) -> Seq<Token>
    decreases m, 1nat,
{
    code_class_type(m.base_class) + code_dims(m.shape)
}

spec fn code_nn_module_type(m: NNModuleTypeView) -> Seq<Token>
    decreases m, 1nat,
{
    code_class_type(m.class) + code_module_fields(m.fields)
}

spec fn code_data_frame_schema(m: DataFrameSchemaView) -> Seq<Token>
    decreases m, 1nat,
{
    code_class_type(m.class) + code_fields(m.columns)
}

spec fn code_series_schema(m: SeriesSchemaView) -> Seq<Token>
    decreases m, 1nat,
{
    code_class_type(m.class) + code_type(m.element)
}

spec fn code_tuple(m: TupleView) -> Seq<Token>
    decreases m, 1nat,
{
    match m {
        TupleView::Concrete(a) => word(0) + code_types(a),
        TupleView::Unbounded(a) => word(1) + code_type(*a),
        TupleView::Unpacked(a) => word(2) + code_types(a.0) + code_type(a.1) + code_types(a.2),
    }
}

spec fn code_kw_call(m: KwCallView) -> Seq<Token>
    decreases m, 1nat,
{
    code_fields(m.keywords) + code_type(m.return_ty)
}

spec fn code_callable_residual(m: CallableResidualView) -> Seq<Token>
    decreases m, 1nat,
{
    code_types(m.captured) + code_type(m.fallback)
}

spec fn code_type_level_dsl_call(m: TypeLevelDslCallView) -> Seq<Token>
    decreases m, 1nat,
{
    tokens_text(m.function) + code_types(m.args) + code_type(m.result_schema)
}

spec fn code_super_obj(m: SuperObjView) -> Seq<Token>
    decreases m, 1nat,
{
    match m {
        SuperObjView::Instance(a) => word(0) + code_class_type(a),
        SuperObjView::Class(a) => word(1) + code_class_type(a),
    }
}

spec fn code_type(m: TypeView) -> Seq<Token>
    decreases m, 1nat,
{
    match m {
        TypeView::Literal(a) => word(0) + code_literal(*a),
        TypeView::LiteralString(a) => word(1) + word(a.rank_spec()),
        TypeView::Callable(a) => word(2) + code_callable(*a),
        TypeView::CallableResidual(a) => word(3) + code_callable_residual(*a),
        TypeView::TypeLevelDslCall(a) => word(4) + code_type_level_dsl_call(*a),
        TypeView::Function(a) => word(5) + code_function(*a),
        TypeView::BoundMethod(a) => word(6) + code_bound_method(*a),
        TypeView::Overload(a) => word(7) + code_overload(a),
        TypeView::Union(a) => word(8) + code_union(*a),
        TypeView::Intersect(a) => word(9) + code_types(a.0) + code_type(a.1),
        TypeView::ClassDef(a) => word(10) + tokens_class(a),
        TypeView::ClassType(a) => word(11) + code_class_type(a),
        TypeView::TypedDict(a) => word(12) + code_typed_dict(a),
        TypeView::PartialTypedDict(a) => word(13) + code_typed_dict(a),
        TypeView::ShapedArray(a) => word(14) + code_shaped_array_type(*a),
        TypeView::IntTuple(a) => word(15) + code_dims(*a),
        TypeView::NNModule(a) => word(16) + code_nn_module_type(*a),
        TypeView::DataFrame(a) => word(17) + code_data_frame_schema(*a),
        TypeView::Series(a) => word(18) + code_series_schema(*a),
        TypeView::Int(a) => word(19) + code_int(a),
        TypeView::Tuple(a) => word(20) + code_tuple(a),
        TypeView::Module(a) => word(21) + tokens_text(a),
        TypeView::Forall(a) => word(22) + code_forall_forallable(*a),
        TypeView::Var(a) => word(23) + var_token(a),
        TypeView::Quantified(a) => word(24) + code_quantified(*a),
        TypeView::QuantifiedValue(a) => word(25) + code_quantified(*a),
        TypeView::ElementOfTypeVarTuple(a) => word(26) + code_quantified(*a),
        TypeView::TypeGuard(a) => word(27) + code_type(*a),
        TypeView::TypeIs(a) => word(28) + code_type(*a),
        TypeView::Annotated(a, b) => word(29) + code_type(*a) + code_types(b),
        TypeView::Unpack(a) => word(30) + code_type(*a),
        TypeView::TypeVar(a) => word(31) + tokens_qname(a),
        TypeView::ParamSpec(a) => word(32) + tokens_qname(a),
        TypeView::TypeVarTuple(a) => word(33) + tokens_qname(a),
        TypeView::SpecialForm(a) => word(34) + word(a.rank_spec()),
        TypeView::Concatenate(a, b) => word(35) + code_param_seq(a) + code_type(*b),
        TypeView::ParamSpecValue(a) => word(36) + code_param_seq(a),
        TypeView::Args(a) => word(37) + code_quantified(*a),
        TypeView::Kwargs(a) => word(38) + code_quantified(*a),
        TypeView::ArgsValue(a) => word(39) + code_quantified(*a),
        TypeView::KwargsValue(a) => word(40) + code_quantified(*a),
        TypeView::Type(a) => word(41) + code_type(*a),
        TypeView::TypeForm(a) => word(42) + code_type(*a),
        TypeView::Ellipsis => word(43),
        TypeView::Any(a) => word(44) + word(a.rank_spec()),
        TypeView::Never(a) => word(45) + word(a.rank_spec()),
        TypeView::TypeAlias(a) => word(46) + code_type_alias_data(*a),
        TypeView::UntypedAlias(a) => word(47) + code_type_alias_data(*a),
        TypeView::Sentinel(a) => word(48) + tokens_qname(a),
        TypeView::SuperInstance(a) => word(49) + code_class_type(a.0) + code_super_obj(a.1),
        TypeView::SelfType(a) => word(50) + code_class_type(a),
        TypeView::KwCall(a) => word(51) + code_kw_call(*a),
        TypeView::Materialization => word(52),
        TypeView::NoneType => word(53),
    }
}

/// The spelling of a [`Restriction`].
pub closed spec fn tokens_restriction(m: RestrictionView) -> Seq<Token> {
    code_restriction(m)
}

/// The spelling of a [`Quantified`].
pub closed spec fn tokens_quantified(m: QuantifiedView) -> Seq<Token> {
    code_quantified(m)
}

/// The spelling of a [`TArgs`].
pub closed spec fn tokens_targs(m: TArgsView) -> Seq<Token> {
    code_targs(m)
}

/// The spelling of a [`ClassType`].
pub closed spec fn tokens_class_type(m: ClassTypeView) -> Seq<Token> {
    code_class_type(m)
}

/// The spelling of a [`LitEnum`].
pub closed spec fn tokens_lit_enum(m: LitEnumView) -> Seq<Token> {
    code_lit_enum(m)
}

/// The spelling of a [`Lit`].
pub closed spec fn tokens_lit(m: LitView) -> Seq<Token> {
    code_lit(m)
}

/// The spelling of a [`Literal`].
pub closed spec fn tokens_literal(m: LiteralView) -> Seq<Token> {
    code_literal(m)
}

/// The spelling of a [`Param`].
pub closed spec fn tokens_param(m: ParamView) -> Seq<Token> {
    code_param(m)
}

/// The spelling of a [`Params`].
pub closed spec fn tokens_params(m: ParamsView) -> Seq<Token> {
    code_params(m)
}

/// The spelling of a [`Callable`].
pub closed spec fn tokens_callable(m: CallableView) -> Seq<Token> {
    code_callable(m)
}

/// The spelling of a [`PropertyMetadata`].
pub closed spec fn tokens_property_metadata(m: PropertyMetadataView) -> Seq<Token> {
    code_property_metadata(m)
}

/// The spelling of a [`FuncFlags`].
pub closed spec fn tokens_func_flags(m: FuncFlagsView) -> Seq<Token> {
    code_func_flags(m)
}

/// The spelling of a [`FuncMetadata`].
pub closed spec fn tokens_func_metadata(m: FuncMetadataView) -> Seq<Token> {
    code_func_metadata(m)
}

/// The spelling of a [`Function`].
pub closed spec fn tokens_function(m: FunctionView) -> Seq<Token> {
    code_function(m)
}

/// The spelling of a [`TypeAlias`].
pub closed spec fn tokens_type_alias(m: TypeAliasView) -> Seq<Token> {
    code_type_alias(m)
}

/// The spelling of a [`TypeAliasRef`].
pub closed spec fn tokens_type_alias_ref(m: TypeAliasRefView) -> Seq<Token> {
    code_type_alias_ref(m)
}

/// The spelling of a [`TypeAliasData`].
pub closed spec fn tokens_type_alias_data(m: TypeAliasDataView) -> Seq<Token> {
    code_type_alias_data(m)
}

/// The spelling of a [`Forallable`].
pub closed spec fn tokens_forallable(m: ForallableView) -> Seq<Token> {
    code_forallable(m)
}

/// The spelling of a [`OverloadType`].
pub closed spec fn tokens_overload_type(m: OverloadTypeView) -> Seq<Token> {
    code_overload_type(m)
}

/// The spelling of a [`Overload`].
pub closed spec fn tokens_overload(m: OverloadView) -> Seq<Token> {
    code_overload(m)
}

/// The spelling of a [`BoundMethodType`].
pub closed spec fn tokens_bound_method_type(m: BoundMethodTypeView) -> Seq<Token> {
    code_bound_method_type(m)
}

/// The spelling of a [`BoundMethod`].
pub closed spec fn tokens_bound_method(m: BoundMethodView) -> Seq<Token> {
    code_bound_method(m)
}

/// The spelling of a [`Union`].
pub closed spec fn tokens_union(m: UnionView) -> Seq<Token> {
    code_union(m)
}

/// The spelling of a [`TypedDict`].
pub closed spec fn tokens_typed_dict(m: TypedDictView) -> Seq<Token> {
    code_typed_dict(m)
}

/// The spelling of a [`Field`].
pub closed spec fn tokens_field(m: FieldView) -> Seq<Token> {
    code_field(m)
}

/// The spelling of a [`Int`].
pub closed spec fn tokens_int(m: IntView) -> Seq<Token> {
    code_int(m)
}

/// The spelling of a [`ShapedArrayType`].
pub closed spec fn tokens_shaped_array_type(m: ShapedArrayTypeView) -> Seq<Token> {
    code_shaped_array_type(m)
}

/// The spelling of a [`NNModuleType`].
pub closed spec fn tokens_nn_module_type(m: NNModuleTypeView) -> Seq<Token> {
    code_nn_module_type(m)
}

/// The spelling of a [`DataFrameSchema`].
pub closed spec fn tokens_data_frame_schema(m: DataFrameSchemaView) -> Seq<Token> {
    code_data_frame_schema(m)
}

/// The spelling of a [`SeriesSchema`].
pub closed spec fn tokens_series_schema(m: SeriesSchemaView) -> Seq<Token> {
    code_series_schema(m)
}

/// The spelling of a [`Tuple`].
pub closed spec fn tokens_tuple(m: TupleView) -> Seq<Token> {
    code_tuple(m)
}

/// The spelling of a [`KwCall`].
pub closed spec fn tokens_kw_call(m: KwCallView) -> Seq<Token> {
    code_kw_call(m)
}

/// The spelling of a [`CallableResidual`].
pub closed spec fn tokens_callable_residual(m: CallableResidualView) -> Seq<Token> {
    code_callable_residual(m)
}

/// The spelling of a [`TypeLevelDslCall`].
pub closed spec fn tokens_type_level_dsl_call(m: TypeLevelDslCallView) -> Seq<Token> {
    code_type_level_dsl_call(m)
}

/// The spelling of a [`SuperObj`].
pub closed spec fn tokens_super_obj(m: SuperObjView) -> Seq<Token> {
    code_super_obj(m)
}

/// The spelling of a [`Type`].
pub closed spec fn tokens_type(m: TypeView) -> Seq<Token> {
    code_type(m)
}

/// The spelling of a [`Forall`].
pub open spec fn tokens_forall_function(m: ForallView<FunctionView>) -> Seq<Token> {
    tokens_quantifieds(m.tparams) + tokens_function(m.body)
}

/// The spelling of a [`Forall`].
pub open spec fn tokens_forall_forallable(m: ForallView<ForallableView>) -> Seq<Token> {
    tokens_quantifieds(m.tparams) + tokens_forallable(m.body)
}

/// The spelling of the elements of a sequence.
pub open spec fn items_types(s: Seq<TypeView>) -> Seq<Token>
    decreases s.len(),
{
    if s.len() == 0 {
        Seq::empty()
    } else {
        items_types(s.drop_last()) + word(1) + tokens_type(s.last())
    }
}

/// The spelling of a sequence.
pub open spec fn tokens_types(s: Seq<TypeView>) -> Seq<Token> {
    items_types(s) + word(0)
}

/// The spelling of the elements of a sequence.
pub open spec fn items_param_seq(s: Seq<ParamView>) -> Seq<Token>
    decreases s.len(),
{
    if s.len() == 0 {
        Seq::empty()
    } else {
        items_param_seq(s.drop_last()) + word(1) + tokens_param(s.last())
    }
}

/// The spelling of a sequence.
pub open spec fn tokens_param_seq(s: Seq<ParamView>) -> Seq<Token> {
    items_param_seq(s) + word(0)
}

/// The spelling of the elements of a sequence.
pub open spec fn items_fields(s: Seq<FieldView>) -> Seq<Token>
    decreases s.len(),
{
    if s.len() == 0 {
        Seq::empty()
    } else {
        items_fields(s.drop_last()) + word(1) + tokens_field(s.last())
    }
}

/// The spelling of a sequence.
pub open spec fn tokens_fields(s: Seq<FieldView>) -> Seq<Token> {
    items_fields(s) + word(0)
}

/// The spelling of the elements of a sequence.
pub open spec fn items_quantifieds(s: Seq<QuantifiedView>) -> Seq<Token>
    decreases s.len(),
{
    if s.len() == 0 {
        Seq::empty()
    } else {
        items_quantifieds(s.drop_last()) + word(1) + tokens_quantified(s.last())
    }
}

/// The spelling of a sequence.
pub open spec fn tokens_quantifieds(s: Seq<QuantifiedView>) -> Seq<Token> {
    items_quantifieds(s) + word(0)
}

/// The spelling of the elements of a sequence.
pub open spec fn items_overloads(s: Seq<OverloadTypeView>) -> Seq<Token>
    decreases s.len(),
{
    if s.len() == 0 {
        Seq::empty()
    } else {
        items_overloads(s.drop_last()) + word(1) + tokens_overload_type(s.last())
    }
}

/// The spelling of a sequence.
pub open spec fn tokens_overloads(s: Seq<OverloadTypeView>) -> Seq<Token> {
    items_overloads(s) + word(0)
}

/// The spelling of the elements of a sequence.
pub open spec fn items_dims(s: Seq<IntView>) -> Seq<Token>
    decreases s.len(),
{
    if s.len() == 0 {
        Seq::empty()
    } else {
        items_dims(s.drop_last()) + word(1) + tokens_int(s.last())
    }
}

/// The spelling of a sequence.
pub open spec fn tokens_dims(s: Seq<IntView>) -> Seq<Token> {
    items_dims(s) + word(0)
}

/// The spelling of captured arguments: how many there are, and then each.
pub open spec fn tokens_module_fields(s: Seq<FieldView>) -> Seq<Token> {
    word(s.len() as u64) + tokens_fields(s)
}

proof fn lemma_code_types(s: Seq<TypeView>)
    ensures
        code_items_types(s) == items_types(s),
        code_types(s) == tokens_types(s),
    decreases s.len(),
{
    if s.len() > 0 {
        lemma_code_types(s.drop_last());
    }
}

proof fn lemma_code_param_seq(s: Seq<ParamView>)
    ensures
        code_items_param_seq(s) == items_param_seq(s),
        code_param_seq(s) == tokens_param_seq(s),
    decreases s.len(),
{
    if s.len() > 0 {
        lemma_code_param_seq(s.drop_last());
    }
}

proof fn lemma_code_fields(s: Seq<FieldView>)
    ensures
        code_items_fields(s) == items_fields(s),
        code_fields(s) == tokens_fields(s),
    decreases s.len(),
{
    if s.len() > 0 {
        lemma_code_fields(s.drop_last());
    }
}

proof fn lemma_code_quantifieds(s: Seq<QuantifiedView>)
    ensures
        code_items_quantifieds(s) == items_quantifieds(s),
        code_quantifieds(s) == tokens_quantifieds(s),
    decreases s.len(),
{
    if s.len() > 0 {
        lemma_code_quantifieds(s.drop_last());
    }
}

proof fn lemma_code_overloads(s: Seq<OverloadTypeView>)
    ensures
        code_items_overloads(s) == items_overloads(s),
        code_overloads(s) == tokens_overloads(s),
    decreases s.len(),
{
    if s.len() > 0 {
        lemma_code_overloads(s.drop_last());
    }
}

proof fn lemma_code_dims(s: Seq<IntView>)
    ensures
        code_items_dims(s) == items_dims(s),
        code_dims(s) == tokens_dims(s),
    decreases s.len(),
{
    if s.len() > 0 {
        lemma_code_dims(s.drop_last());
    }
}

proof fn lemma_code_module_fields(s: Seq<FieldView>)
    ensures
        code_module_fields(s) == tokens_module_fields(s),
{
    lemma_code_fields(s);
}

proof fn lemma_code_forall_function(m: ForallView<FunctionView>)
    ensures
        code_forall_function(m) == tokens_forall_function(m),
{
    lemma_code_quantifieds(m.tparams);
}

proof fn lemma_code_forall_forallable(m: ForallView<ForallableView>)
    ensures
        code_forall_forallable(m) == tokens_forall_forallable(m),
{
    lemma_code_quantifieds(m.tparams);
}

pub broadcast proof fn lemma_tokens_restriction(m: RestrictionView)
    ensures
        #[trigger] tokens_restriction(m) == ({
            match m {
                RestrictionView::Bound(a) => word(0) + tokens_type(a),
                RestrictionView::Constraints(a) => word(1) + tokens_types(a),
                RestrictionView::Unrestricted => word(2),
            }
        }),
{
    match m {
        RestrictionView::Constraints(a) => {
            lemma_code_types(a);
        },
        _ => {},
    }
}

pub broadcast proof fn lemma_tokens_quantified(m: QuantifiedView)
    ensures
        #[trigger] tokens_quantified(m) == ({
            tokens_quantified_identity(m.identity)
                + tokens_text(m.name)
                + word(m.kind.rank_spec())
                + (match m.default { Some(x) => word(1) + tokens_type(x), None => word(0) })
                + tokens_restriction(m.restriction)
                + word(m.variance.rank_spec())
        }),
{
}

pub broadcast proof fn lemma_tokens_targs(m: TArgsView)
    ensures
        #[trigger] tokens_targs(m) == ({
            tokens_quantifieds(m.tparams) + tokens_types(m.args)
        }),
{
    lemma_code_quantifieds(m.tparams);
    lemma_code_types(m.args);
}

pub broadcast proof fn lemma_tokens_class_type(m: ClassTypeView)
    ensures
        #[trigger] tokens_class_type(m) == ({
            tokens_class(m.class) + tokens_targs(m.targs)
        }),
{
}

pub broadcast proof fn lemma_tokens_lit_enum(m: LitEnumView)
    ensures
        #[trigger] tokens_lit_enum(m) == ({
            tokens_class_type(m.class) + tokens_text(m.member)
        }),
{
}

pub broadcast proof fn lemma_tokens_lit(m: LitView)
    ensures
        #[trigger] tokens_lit(m) == ({
            match m {
                LitView::Str(a) => word(0) + tokens_text(a),
                LitView::Int(a) => word(1) + tokens_lit_int(a),
                LitView::Bool(a) => word(2) + word_of_bool(a),
                LitView::Bytes(a) => word(3) + tokens_bytes(a),
                LitView::Enum(a) => word(4) + tokens_lit_enum(*a),
            }
        }),
{
}

pub broadcast proof fn lemma_tokens_literal(m: LiteralView)
    ensures
        #[trigger] tokens_literal(m) == ({
            tokens_lit(m.value) + word(m.style.rank_spec())
        }),
{
}

pub broadcast proof fn lemma_tokens_param(m: ParamView)
    ensures
        #[trigger] tokens_param(m) == ({
            (match m.name { Some(x) => word(1) + tokens_text(x), None => word(0) })
                + word(m.kind.rank_spec())
                + word_of_bool(m.required)
                + tokens_type(m.ty)
        }),
{
}

pub broadcast proof fn lemma_tokens_params(m: ParamsView)
    ensures
        #[trigger] tokens_params(m) == ({
            match m {
                ParamsView::List(a) => word(0) + tokens_param_seq(a),
                ParamsView::Ellipsis => word(1),
                ParamsView::Materialization => word(2),
                ParamsView::ParamSpec(a, b) => word(3) + tokens_param_seq(a) + tokens_type(b),
            }
        }),
{
    match m {
        ParamsView::List(a) => {
            lemma_code_param_seq(a);
        },
        ParamsView::ParamSpec(a, _) => {
            lemma_code_param_seq(a);
        },
        _ => {},
    }
}

pub broadcast proof fn lemma_tokens_callable(m: CallableView)
    ensures
        #[trigger] tokens_callable(m) == ({
            tokens_params(m.params) + tokens_type(m.ret)
        }),
{
}

pub broadcast proof fn lemma_tokens_property_metadata(m: PropertyMetadataView)
    ensures
        #[trigger] tokens_property_metadata(m) == ({
            word(m.role.rank_spec()) + tokens_type(m.getter)
        }),
{
}

pub broadcast proof fn lemma_tokens_func_flags(m: FuncFlagsView)
    ensures
        #[trigger] tokens_func_flags(m) == ({
            word_of_bool(m.is_overload)
                + word_of_bool(m.is_cached_property)
                + word_of_bool(m.is_abstract_method)
                + word_of_bool(m.is_override)
                + word_of_bool(m.is_assert_shape)
                + word_of_bool(m.has_enum_member_decoration)
                + word_of_bool(m.has_final_decoration)
                + (match m.property_metadata {
                    Some(x) => word(1) + tokens_property_metadata(x),
                    None => word(0),
                })
                + (match m.deprecation {
                    Some(x) => word(1) + tokens_deprecation(x),
                    None => word(0),
                })
                + (match m.dataclass_transform_metadata {
                    Some(x) => word(1) + tokens_transform(x),
                    None => word(0),
                })
        }),
{
}

pub broadcast proof fn lemma_tokens_func_metadata(m: FuncMetadataView)
    ensures
        #[trigger] tokens_func_metadata(m) == ({
            tokens_function_kind(m.kind) + tokens_func_flags(m.flags)
        }),
{
}

pub broadcast proof fn lemma_tokens_function(m: FunctionView)
    ensures
        #[trigger] tokens_function(m) == ({
            tokens_callable(m.signature) + tokens_func_metadata(m.metadata)
        }),
{
}

pub broadcast proof fn lemma_tokens_type_alias(m: TypeAliasView)
    ensures
        #[trigger] tokens_type_alias(m) == ({
            tokens_text(m.name) + tokens_type(m.ty)
        }),
{
}

pub broadcast proof fn lemma_tokens_type_alias_ref(m: TypeAliasRefView)
    ensures
        #[trigger] tokens_type_alias_ref(m) == ({
            tokens_text(m.name)
                + (match m.args { Some(x) => word(1) + tokens_targs(x), None => word(0) })
        }),
{
}

pub broadcast proof fn lemma_tokens_type_alias_data(m: TypeAliasDataView)
    ensures
        #[trigger] tokens_type_alias_data(m) == ({
            match m {
                TypeAliasDataView::Value(a) => word(0) + tokens_type_alias(a),
                TypeAliasDataView::Ref(a) => word(1) + tokens_type_alias_ref(a),
            }
        }),
{
}

pub broadcast proof fn lemma_tokens_forallable(m: ForallableView)
    ensures
        #[trigger] tokens_forallable(m) == ({
            match m {
                ForallableView::TypeAlias(a) => word(0) + tokens_type_alias_data(a),
                ForallableView::Function(a) => word(1) + tokens_function(a),
                ForallableView::Callable(a) => word(2) + tokens_callable(a),
            }
        }),
{
}

pub broadcast proof fn lemma_tokens_overload_type(m: OverloadTypeView)
    ensures
        #[trigger] tokens_overload_type(m) == ({
            match m {
                OverloadTypeView::Function(a) => word(0) + tokens_function(a),
                OverloadTypeView::Forall(a) => word(1) + tokens_forall_function(a),
            }
        }),
{
    match m {
        OverloadTypeView::Forall(a) => {
            lemma_code_forall_function(a);
        },
        _ => {},
    }
}

pub broadcast proof fn lemma_tokens_overload(m: OverloadView)
    ensures
        #[trigger] tokens_overload(m) == ({
            tokens_overloads(m.signatures) + tokens_func_metadata(*m.metadata)
        }),
{
    lemma_code_overloads(m.signatures);
}

pub broadcast proof fn lemma_tokens_bound_method_type(m: BoundMethodTypeView)
    ensures
        #[trigger] tokens_bound_method_type(m) == ({
            match m {
                BoundMethodTypeView::Function(a) => word(0) + tokens_function(a),
                BoundMethodTypeView::Forall(a) => word(1) + tokens_forall_function(a),
                BoundMethodTypeView::Overload(a) => word(2) + tokens_overload(a),
            }
        }),
{
    match m {
        BoundMethodTypeView::Forall(a) => {
            lemma_code_forall_function(a);
        },
        _ => {},
    }
}

pub broadcast proof fn lemma_tokens_bound_method(m: BoundMethodView)
    ensures
        #[trigger] tokens_bound_method(m) == ({
            tokens_type(m.obj) + tokens_bound_method_type(m.func)
        }),
{
}

pub broadcast proof fn lemma_tokens_union(m: UnionView)
    ensures
        #[trigger] tokens_union(m) == ({
            tokens_types(m.members)
        }),
{
    lemma_code_types(m.members);
}

pub broadcast proof fn lemma_tokens_typed_dict(m: TypedDictView)
    ensures
        #[trigger] tokens_typed_dict(m) == ({
            match m {
                TypedDictView::TypedDict(a) => word(0) + tokens_class_type(a),
                TypedDictView::Anonymous(a) => word(1) + tokens_fields(a),
            }
        }),
{
    match m {
        TypedDictView::Anonymous(a) => {
            lemma_code_fields(a);
        },
        _ => {},
    }
}

pub broadcast proof fn lemma_tokens_field(m: FieldView)
    ensures
        #[trigger] tokens_field(m) == ({
            tokens_text(m.name) + tokens_type(m.ty)
        }),
{
}

pub broadcast proof fn lemma_tokens_int(m: IntView)
    ensures
        #[trigger] tokens_int(m) == ({
            match m {
                IntView::Literal(a) => word(0) + word(order_of_i64(a)),
                IntView::Symbolic(a) => word(1) + tokens_type(*a),
                IntView::Gradual => word(2),
                IntView::Materialization => word(3),
            }
        }),
{
}

pub broadcast proof fn lemma_tokens_shaped_array_type(m: ShapedArrayTypeView)
    ensures
        #[trigger] tokens_shaped_array_type(m) == ({
            tokens_class_type(m.base_class) + tokens_dims(m.shape)
        }),
{
    lemma_code_dims(m.shape);
}

pub broadcast proof fn lemma_tokens_nn_module_type(m: NNModuleTypeView)
    ensures
        #[trigger] tokens_nn_module_type(m) == ({
            tokens_class_type(m.class) + tokens_module_fields(m.fields)
        }),
{
    lemma_code_module_fields(m.fields);
}

pub broadcast proof fn lemma_tokens_data_frame_schema(m: DataFrameSchemaView)
    ensures
        #[trigger] tokens_data_frame_schema(m) == ({
            tokens_class_type(m.class) + tokens_fields(m.columns)
        }),
{
    lemma_code_fields(m.columns);
}

pub broadcast proof fn lemma_tokens_series_schema(m: SeriesSchemaView)
    ensures
        #[trigger] tokens_series_schema(m) == ({
            tokens_class_type(m.class) + tokens_type(m.element)
        }),
{
}

pub broadcast proof fn lemma_tokens_tuple(m: TupleView)
    ensures
        #[trigger] tokens_tuple(m) == ({
            match m {
                TupleView::Concrete(a) => word(0) + tokens_types(a),
                TupleView::Unbounded(a) => word(1) + tokens_type(*a),
                TupleView::Unpacked(a) => word(2)
                    + tokens_types(a.0)
                    + tokens_type(a.1)
                    + tokens_types(a.2),
            }
        }),
{
    match m {
        TupleView::Concrete(a) => {
            lemma_code_types(a);
        },
        TupleView::Unpacked(a) => {
            lemma_code_types(a.0);
            lemma_code_types(a.2);
        },
        _ => {},
    }
}

pub broadcast proof fn lemma_tokens_kw_call(m: KwCallView)
    ensures
        #[trigger] tokens_kw_call(m) == ({
            tokens_fields(m.keywords) + tokens_type(m.return_ty)
        }),
{
    lemma_code_fields(m.keywords);
}

pub broadcast proof fn lemma_tokens_callable_residual(m: CallableResidualView)
    ensures
        #[trigger] tokens_callable_residual(m) == ({
            tokens_types(m.captured) + tokens_type(m.fallback)
        }),
{
    lemma_code_types(m.captured);
}

pub broadcast proof fn lemma_tokens_type_level_dsl_call(m: TypeLevelDslCallView)
    ensures
        #[trigger] tokens_type_level_dsl_call(m) == ({
            tokens_text(m.function) + tokens_types(m.args) + tokens_type(m.result_schema)
        }),
{
    lemma_code_types(m.args);
}

pub broadcast proof fn lemma_tokens_super_obj(m: SuperObjView)
    ensures
        #[trigger] tokens_super_obj(m) == ({
            match m {
                SuperObjView::Instance(a) => word(0) + tokens_class_type(a),
                SuperObjView::Class(a) => word(1) + tokens_class_type(a),
            }
        }),
{
}

pub broadcast proof fn lemma_tokens_type(m: TypeView)
    ensures
        #[trigger] tokens_type(m) == ({
            match m {
                TypeView::Literal(a) => word(0) + tokens_literal(*a),
                TypeView::LiteralString(a) => word(1) + word(a.rank_spec()),
                TypeView::Callable(a) => word(2) + tokens_callable(*a),
                TypeView::CallableResidual(a) => word(3) + tokens_callable_residual(*a),
                TypeView::TypeLevelDslCall(a) => word(4) + tokens_type_level_dsl_call(*a),
                TypeView::Function(a) => word(5) + tokens_function(*a),
                TypeView::BoundMethod(a) => word(6) + tokens_bound_method(*a),
                TypeView::Overload(a) => word(7) + tokens_overload(a),
                TypeView::Union(a) => word(8) + tokens_union(*a),
                TypeView::Intersect(a) => word(9) + tokens_types(a.0) + tokens_type(a.1),
                TypeView::ClassDef(a) => word(10) + tokens_class(a),
                TypeView::ClassType(a) => word(11) + tokens_class_type(a),
                TypeView::TypedDict(a) => word(12) + tokens_typed_dict(a),
                TypeView::PartialTypedDict(a) => word(13) + tokens_typed_dict(a),
                TypeView::ShapedArray(a) => word(14) + tokens_shaped_array_type(*a),
                TypeView::IntTuple(a) => word(15) + tokens_dims(*a),
                TypeView::NNModule(a) => word(16) + tokens_nn_module_type(*a),
                TypeView::DataFrame(a) => word(17) + tokens_data_frame_schema(*a),
                TypeView::Series(a) => word(18) + tokens_series_schema(*a),
                TypeView::Int(a) => word(19) + tokens_int(a),
                TypeView::Tuple(a) => word(20) + tokens_tuple(a),
                TypeView::Module(a) => word(21) + tokens_text(a),
                TypeView::Forall(a) => word(22) + tokens_forall_forallable(*a),
                TypeView::Var(a) => word(23) + var_token(a),
                TypeView::Quantified(a) => word(24) + tokens_quantified(*a),
                TypeView::QuantifiedValue(a) => word(25) + tokens_quantified(*a),
                TypeView::ElementOfTypeVarTuple(a) => word(26) + tokens_quantified(*a),
                TypeView::TypeGuard(a) => word(27) + tokens_type(*a),
                TypeView::TypeIs(a) => word(28) + tokens_type(*a),
                TypeView::Annotated(a, b) => word(29) + tokens_type(*a) + tokens_types(b),
                TypeView::Unpack(a) => word(30) + tokens_type(*a),
                TypeView::TypeVar(a) => word(31) + tokens_qname(a),
                TypeView::ParamSpec(a) => word(32) + tokens_qname(a),
                TypeView::TypeVarTuple(a) => word(33) + tokens_qname(a),
                TypeView::SpecialForm(a) => word(34) + word(a.rank_spec()),
                TypeView::Concatenate(a, b) => word(35) + tokens_param_seq(a) + tokens_type(*b),
                TypeView::ParamSpecValue(a) => word(36) + tokens_param_seq(a),
                TypeView::Args(a) => word(37) + tokens_quantified(*a),
                TypeView::Kwargs(a) => word(38) + tokens_quantified(*a),
                TypeView::ArgsValue(a) => word(39) + tokens_quantified(*a),
                TypeView::KwargsValue(a) => word(40) + tokens_quantified(*a),
                TypeView::Type(a) => word(41) + tokens_type(*a),
                TypeView::TypeForm(a) => word(42) + tokens_type(*a),
                TypeView::Ellipsis => word(43),
                TypeView::Any(a) => word(44) + word(a.rank_spec()),
                TypeView::Never(a) => word(45) + word(a.rank_spec()),
                TypeView::TypeAlias(a) => word(46) + tokens_type_alias_data(*a),
                TypeView::UntypedAlias(a) => word(47) + tokens_type_alias_data(*a),
                TypeView::Sentinel(a) => word(48) + tokens_qname(a),
                TypeView::SuperInstance(a) => word(49)
                    + tokens_class_type(a.0)
                    + tokens_super_obj(a.1),
                TypeView::SelfType(a) => word(50) + tokens_class_type(a),
                TypeView::KwCall(a) => word(51) + tokens_kw_call(*a),
                TypeView::Materialization => word(52),
                TypeView::NoneType => word(53),
            }
        }),
{
    match m {
        TypeView::Intersect(a) => {
            lemma_code_types(a.0);
        },
        TypeView::IntTuple(a) => {
            lemma_code_dims(*a);
        },
        TypeView::Forall(a) => {
            lemma_code_forall_forallable(*a);
        },
        TypeView::Annotated(_, b) => {
            lemma_code_types(b);
        },
        TypeView::Concatenate(a, _) => {
            lemma_code_param_seq(a);
        },
        TypeView::ParamSpecValue(a) => {
            lemma_code_param_seq(a);
        },
        _ => {},
    }
}

} // verus!
