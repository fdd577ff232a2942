//! Equal types are the same, but for what equality ignores.
use vstd::prelude::*;

use crate::parts::{
    lemma_bound_method_parts,
    lemma_bound_method_type_parts,
    lemma_callable_parts,
    lemma_callable_residual_parts,
    lemma_class_type_parts,
    lemma_data_frame_schema_parts,
    lemma_field_parts,
    lemma_forall_forallable_parts,
    lemma_forall_function_parts,
    lemma_forallable_parts,
    lemma_func_flags_parts,
    lemma_func_metadata_parts,
    lemma_function_parts,
    lemma_int_parts,
    lemma_kw_call_parts,
    lemma_lit_enum_parts,
    lemma_lit_parts,
    lemma_literal_parts,
    lemma_nn_module_type_parts,
    lemma_overload_parts,
    lemma_overload_type_parts,
    lemma_param_parts,
    lemma_params_parts,
    lemma_property_metadata_parts,
    lemma_quantified_parts,
    lemma_restriction_parts,
    lemma_series_schema_parts,
    lemma_shaped_array_type_parts,
    lemma_super_obj_parts,
    lemma_targs_parts,
    lemma_tuple_parts,
    lemma_type_alias_data_parts,
    lemma_type_alias_parts,
    lemma_type_alias_ref_parts,
    lemma_type_level_dsl_call_parts,
    lemma_type_parts,
    lemma_typed_dict_parts,
    lemma_union_parts,
};
use crate::same::{
    has_field,
    lemma_same_bound_method,
    lemma_same_bound_method_type,
    lemma_same_callable,
    lemma_same_callable_residual,
    lemma_same_class_type,
    lemma_same_data_frame_schema,
    lemma_same_field,
    lemma_same_forallable,
    lemma_same_func_flags,
    lemma_same_func_metadata,
    lemma_same_function,
    lemma_same_int,
    lemma_same_kw_call,
    lemma_same_lit,
    lemma_same_lit_enum,
    lemma_same_literal,
    lemma_same_nn_module_type,
    lemma_same_overload,
    lemma_same_overload_type,
    lemma_same_param,
    lemma_same_params,
    lemma_same_property_metadata,
    lemma_same_quantified,
    lemma_same_restriction,
    lemma_same_series_schema,
    lemma_same_shaped_array_type,
    lemma_same_super_obj,
    lemma_same_targs,
    lemma_same_tuple,
    lemma_same_type,
    lemma_same_type_alias,
    lemma_same_type_alias_data,
    lemma_same_type_alias_ref,
    lemma_same_type_level_dsl_call,
    lemma_same_typed_dict,
    lemma_same_union,
    same_bound_method,
    same_bound_method_type,
    same_callable,
    same_callable_residual,
    same_class_type,
    same_data_frame_schema,
    same_dims,
    same_field,
    same_fields,
    same_forall_forallable,
    same_forall_function,
    same_forallable,
    same_func_flags,
    same_func_metadata,
    same_function,
    same_int,
    same_kw_call,
    same_lit,
    same_lit_enum,
    same_literal,
    same_module_fields,
    same_nn_module_type,
    same_overload,
    same_overload_type,
    same_overloads,
    same_param,
    same_param_seq,
    same_params,
    same_property_metadata,
    same_quantified,
    same_quantifieds,
    same_restriction,
    same_series_schema,
    same_shaped_array_type,
    same_super_obj,
    same_targs,
    same_tuple,
    same_type,
    same_type_alias,
    same_type_alias_data,
    same_type_alias_ref,
    same_type_level_dsl_call,
    same_typed_dict,
    same_types,
    same_union,
};
use crate::view::{
    BoundMethodTypeView,
    BoundMethodView,
    CallableResidualView,
    CallableView,
    ClassTypeView,
    DataFrameSchemaView,
    FieldView,
    ForallView,
    ForallableView,
    FuncFlagsView,
    FuncMetadataView,
    FunctionView,
    IntView,
    KwCallView,
    LitEnumView,
    LitView,
    LiteralView,
    NNModuleTypeView,
    OverloadTypeView,
    OverloadView,
    ParamView,
    ParamsView,
    PropertyMetadataView,
    QuantifiedView,
    RestrictionView,
    SeriesSchemaView,
    ShapedArrayTypeView,
    SuperObjView,
    TArgsView,
    TupleView,
    TypeAliasDataView,
    TypeAliasRefView,
    TypeAliasView,
    TypeLevelDslCallView,
    TypeView,
    TypedDictView,
    UnionView,
};

verus! {

pub open spec fn plain_types(s: Seq<TypeView>) -> bool
    decreases s, 0nat,
{
    forall|i: int|
        if 0 <= i < s.len() {
            plain_type(#[trigger] s[i])
        } else {
            true
        }
}

pub open spec fn plain_param_seq(s: Seq<ParamView>) -> bool
    decreases s, 0nat,
{
    forall|i: int|
        if 0 <= i < s.len() {
            plain_param(#[trigger] s[i])
        } else {
            true
        }
}

pub open spec fn plain_fields(s: Seq<FieldView>) -> bool
    decreases s, 0nat,
{
    forall|i: int|
        if 0 <= i < s.len() {
            plain_field(#[trigger] s[i])
        } else {
            true
        }
}

pub open spec fn plain_quantifieds(s: Seq<QuantifiedView>) -> bool
    decreases s, 0nat,
{
    forall|i: int|
        if 0 <= i < s.len() {
            plain_quantified(#[trigger] s[i])
        } else {
            true
        }
}

pub open spec fn plain_overloads(s: Seq<OverloadTypeView>) -> bool
    decreases s, 0nat,
{
    forall|i: int|
        if 0 <= i < s.len() {
            plain_overload_type(#[trigger] s[i])
        } else {
            true
        }
}

pub open spec fn plain_dims(s: Seq<IntView>) -> bool
    decreases s, 0nat,
{
    forall|i: int|
        if 0 <= i < s.len() {
            plain_int(#[trigger] s[i])
        } else {
            true
        }
}

/// There is one field at most, so that there is only one order.
pub open spec fn plain_module_fields(s: Seq<FieldView>) -> bool
    decreases s, 1nat,
{
    s.len() <= 1 && plain_fields(s)
}

pub open spec fn plain_forall_function(m: ForallView<FunctionView>) -> bool
    decreases m, 0nat,
{
    plain_quantifieds(m.tparams) && plain_function(m.body)
}

pub open spec fn plain_forall_forallable(m: ForallView<ForallableView>) -> bool
    decreases m, 0nat,
{
    plain_quantifieds(m.tparams) && plain_forallable(m.body)
}

pub open spec fn plain_restriction(m: RestrictionView) -> bool
    decreases m, 0nat,
{
    match m {
        RestrictionView::Bound(x) => plain_type(x),
        RestrictionView::Constraints(x) => plain_types(x),
        _ => true,
    }
}

pub open spec fn plain_quantified(m: QuantifiedView) -> bool
    decreases m, 0nat,
{
    (match m.default { Some(x) => plain_type(x), None => true }) && plain_restriction(m.restriction)
}

pub open spec fn plain_targs(m: TArgsView) -> bool
    decreases m, 0nat,
{
    plain_quantifieds(m.tparams) && plain_types(m.args)
}

pub open spec fn plain_class_type(m: ClassTypeView) -> bool
    decreases m, 0nat,
{
    plain_targs(m.targs)
}

pub open spec fn plain_lit_enum(m: LitEnumView) -> bool
    decreases m, 0nat,
{
    plain_class_type(m.class)
}

pub open spec fn plain_lit(m: LitView) -> bool
    decreases m, 0nat,
{
    match m {
        LitView::Enum(x) => plain_lit_enum(*x),
        _ => true,
    }
}

pub open spec fn plain_literal(m: LiteralView) -> bool
    decreases m, 0nat,
{
    plain_lit(m.value)
}

pub open spec fn plain_param(m: ParamView) -> bool
    decreases m, 0nat,
{
    plain_type(m.ty)
}

pub open spec fn plain_params(m: ParamsView) -> bool
    decreases m, 0nat,
{
    match m {
        ParamsView::List(x) => plain_param_seq(x),
        ParamsView::ParamSpec(x, x2) => plain_param_seq(x) && plain_type(x2),
        _ => true,
    }
}

pub open spec fn plain_callable(m: CallableView) -> bool
    decreases m, 0nat,
{
    plain_params(m.params) && plain_type(m.ret)
}

pub open spec fn plain_property_metadata(m: PropertyMetadataView) -> bool
    decreases m, 0nat,
{
    plain_type(m.getter)
}

pub open spec fn plain_func_flags(m: FuncFlagsView) -> bool
    decreases m, 0nat,
{
    (match m.property_metadata { Some(x) => plain_property_metadata(x), None => true })
}

pub open spec fn plain_func_metadata(m: FuncMetadataView) -> bool
    decreases m, 0nat,
{
    plain_func_flags(m.flags)
}

pub open spec fn plain_function(m: FunctionView) -> bool
    decreases m, 0nat,
{
    plain_callable(m.signature) && plain_func_metadata(m.metadata)
}

pub open spec fn plain_type_alias(m: TypeAliasView) -> bool
    decreases m, 0nat,
{
    plain_type(m.ty)
}

pub open spec fn plain_type_alias_ref(m: TypeAliasRefView) -> bool
    decreases m, 0nat,
{
    (match m.args { Some(x) => plain_targs(x), None => true })
}

pub open spec fn plain_type_alias_data(m: TypeAliasDataView) -> bool
    decreases m, 0nat,
{
    match m {
        TypeAliasDataView::Value(x) => plain_type_alias(x),
        TypeAliasDataView::Ref(x) => plain_type_alias_ref(x),
    }
}

pub open spec fn plain_forallable(m: ForallableView) -> bool
    decreases m, 0nat,
{
    match m {
        ForallableView::TypeAlias(x) => plain_type_alias_data(x),
        ForallableView::Function(x) => plain_function(x),
        ForallableView::Callable(x) => plain_callable(x),
    }
}

pub open spec fn plain_overload_type(m: OverloadTypeView) -> bool
    decreases m, 0nat,
{
    match m {
        OverloadTypeView::Function(x) => plain_function(x),
        OverloadTypeView::Forall(x) => plain_forall_function(x),
    }
}

pub open spec fn plain_overload(m: OverloadView) -> bool
    decreases m, 0nat,
{
    plain_overloads(m.signatures) && plain_func_metadata(*m.metadata)
}

pub open spec fn plain_bound_method_type(m: BoundMethodTypeView) -> bool
    decreases m, 0nat,
{
    match m {
        BoundMethodTypeView::Function(x) => plain_function(x),
        BoundMethodTypeView::Forall(x) => plain_forall_function(x),
        BoundMethodTypeView::Overload(x) => plain_overload(x),
    }
}

pub open spec fn plain_bound_method(m: BoundMethodView) -> bool
    decreases m, 0nat,
{
    plain_type(m.obj) && plain_bound_method_type(m.func)
}

pub open spec fn plain_union(m: UnionView) -> bool
    decreases m, 0nat,
{
    m.display_name is None && plain_types(m.members)
}

pub open spec fn plain_typed_dict(m: TypedDictView) -> bool
    decreases m, 0nat,
{
    match m {
        TypedDictView::TypedDict(x) => plain_class_type(x),
        TypedDictView::Anonymous(x) => plain_fields(x),
    }
}

pub open spec fn plain_field(m: FieldView) -> bool
    decreases m, 0nat,
{
    plain_type(m.ty)
}

pub open spec fn plain_int(m: IntView) -> bool
    decreases m, 0nat,
{
    match m {
        IntView::Symbolic(x) => plain_type(*x),
        _ => true,
    }
}

pub open spec fn plain_shaped_array_type(m: ShapedArrayTypeView) -> bool
    decreases m, 0nat,
{
    plain_class_type(m.base_class) && plain_dims(m.shape)
}

pub open spec fn plain_nn_module_type(m: NNModuleTypeView) -> bool
    decreases m, 0nat,
{
    plain_class_type(m.class) && plain_module_fields(m.fields)
}

pub open spec fn plain_data_frame_schema(m: DataFrameSchemaView) -> bool
    decreases m, 0nat,
{
    plain_class_type(m.class) && plain_fields(m.columns)
}

pub open spec fn plain_series_schema(m: SeriesSchemaView) -> bool
    decreases m, 0nat,
{
    plain_class_type(m.class) && plain_type(m.element)
}

pub open spec fn plain_tuple(m: TupleView) -> bool
    decreases m, 0nat,
{
    match m {
        TupleView::Concrete(x) => plain_types(x),
        TupleView::Unbounded(x) => plain_type(*x),
        TupleView::Unpacked(x) => plain_types(x.0) && plain_type(x.1) && plain_types(x.2),
    }
}

pub open spec fn plain_kw_call(m: KwCallView) -> bool
    decreases m, 0nat,
{
    plain_fields(m.keywords) && plain_type(m.return_ty)
}

pub open spec fn plain_callable_residual(m: CallableResidualView) -> bool
    decreases m, 0nat,
{
    plain_types(m.captured) && plain_type(m.fallback)
}

pub open spec fn plain_type_level_dsl_call(m: TypeLevelDslCallView) -> bool
    decreases m, 0nat,
{
    plain_types(m.args) && plain_type(m.result_schema)
}

pub open spec fn plain_super_obj(m: SuperObjView) -> bool
    decreases m, 0nat,
{
    match m {
        SuperObjView::Instance(x) => plain_class_type(x),
        SuperObjView::Class(x) => plain_class_type(x),
    }
}

/// Is no union in the type, at any depth, displayed by a name, and has no nn.Module instance in it
/// more than one captured argument?
pub open spec fn plain_type(m: TypeView) -> bool
    decreases m, 0nat,
{
    match m {
        TypeView::Literal(x) => plain_literal(*x),
        TypeView::Callable(x) => plain_callable(*x),
        TypeView::CallableResidual(x) => plain_callable_residual(*x),
        TypeView::TypeLevelDslCall(x) => plain_type_level_dsl_call(*x),
        TypeView::Function(x) => plain_function(*x),
        TypeView::BoundMethod(x) => plain_bound_method(*x),
        TypeView::Overload(x) => plain_overload(x),
        TypeView::Union(x) => plain_union(*x),
        TypeView::Intersect(x) => plain_types(x.0) && plain_type(x.1),
        TypeView::ClassType(x) => plain_class_type(x),
        TypeView::TypedDict(x) => plain_typed_dict(x),
        TypeView::PartialTypedDict(x) => plain_typed_dict(x),
        TypeView::ShapedArray(x) => plain_shaped_array_type(*x),
        TypeView::IntTuple(x) => plain_dims(*x),
        TypeView::NNModule(x) => plain_nn_module_type(*x),
        TypeView::DataFrame(x) => plain_data_frame_schema(*x),
        TypeView::Series(x) => plain_series_schema(*x),
        TypeView::Int(x) => plain_int(x),
        TypeView::Tuple(x) => plain_tuple(x),
        TypeView::Forall(x) => plain_forall_forallable(*x),
        TypeView::Quantified(x) => plain_quantified(*x),
        TypeView::QuantifiedValue(x) => plain_quantified(*x),
        TypeView::ElementOfTypeVarTuple(x) => plain_quantified(*x),
        TypeView::TypeGuard(x) => plain_type(*x),
        TypeView::TypeIs(x) => plain_type(*x),
        TypeView::Annotated(x, x2) => plain_type(*x) && plain_types(x2),
        TypeView::Unpack(x) => plain_type(*x),
        TypeView::Concatenate(x, x2) => plain_param_seq(x) && plain_type(*x2),
        TypeView::ParamSpecValue(x) => plain_param_seq(x),
        TypeView::Args(x) => plain_quantified(*x),
        TypeView::Kwargs(x) => plain_quantified(*x),
        TypeView::ArgsValue(x) => plain_quantified(*x),
        TypeView::KwargsValue(x) => plain_quantified(*x),
        TypeView::Type(x) => plain_type(*x),
        TypeView::TypeForm(x) => plain_type(*x),
        TypeView::TypeAlias(x) => plain_type_alias_data(*x),
        TypeView::UntypedAlias(x) => plain_type_alias_data(*x),
        TypeView::SuperInstance(x) => plain_class_type(x.0) && plain_super_obj(x.1),
        TypeView::SelfType(x) => plain_class_type(x),
        TypeView::KwCall(x) => plain_kw_call(*x),
        _ => true,
    }
}

proof fn lemma_identical_types(a: Seq<TypeView>, b: Seq<TypeView>)
    requires
        same_types(a, b),
        plain_types(a),
        plain_types(b),
    ensures
        a == b,
    decreases a, 0nat,
{
    assert forall|i: int| 0 <= i < a.len() implies a[i] == b[i] by {
        assert(same_type(a[i], b[i]));
        assert(plain_type(a[i]));
        assert(plain_type(b[i]));
        lemma_identical_type(a[i], b[i]);
    }
    assert(a =~= b);
}

proof fn lemma_identical_param_seq(a: Seq<ParamView>, b: Seq<ParamView>)
    requires
        same_param_seq(a, b),
        plain_param_seq(a),
        plain_param_seq(b),
    ensures
        a == b,
    decreases a, 0nat,
{
    assert forall|i: int| 0 <= i < a.len() implies a[i] == b[i] by {
        assert(same_param(a[i], b[i]));
        assert(plain_param(a[i]));
        assert(plain_param(b[i]));
        lemma_identical_param(a[i], b[i]);
    }
    assert(a =~= b);
}

proof fn lemma_identical_fields(a: Seq<FieldView>, b: Seq<FieldView>)
    requires
        same_fields(a, b),
        plain_fields(a),
        plain_fields(b),
    ensures
        a == b,
    decreases a, 0nat,
{
    assert forall|i: int| 0 <= i < a.len() implies a[i] == b[i] by {
        assert(same_field(a[i], b[i]));
        assert(plain_field(a[i]));
        assert(plain_field(b[i]));
        lemma_identical_field(a[i], b[i]);
    }
    assert(a =~= b);
}

proof fn lemma_identical_quantifieds(a: Seq<QuantifiedView>, b: Seq<QuantifiedView>)
    requires
        same_quantifieds(a, b),
        plain_quantifieds(a),
        plain_quantifieds(b),
    ensures
        a == b,
    decreases a, 0nat,
{
    assert forall|i: int| 0 <= i < a.len() implies a[i] == b[i] by {
        assert(same_quantified(a[i], b[i]));
        assert(plain_quantified(a[i]));
        assert(plain_quantified(b[i]));
        lemma_identical_quantified(a[i], b[i]);
    }
    assert(a =~= b);
}

proof fn lemma_identical_overloads(a: Seq<OverloadTypeView>, b: Seq<OverloadTypeView>)
    requires
        same_overloads(a, b),
        plain_overloads(a),
        plain_overloads(b),
    ensures
        a == b,
    decreases a, 0nat,
{
    assert forall|i: int| 0 <= i < a.len() implies a[i] == b[i] by {
        assert(same_overload_type(a[i], b[i]));
        assert(plain_overload_type(a[i]));
        assert(plain_overload_type(b[i]));
        lemma_identical_overload_type(a[i], b[i]);
    }
    assert(a =~= b);
}

proof fn lemma_identical_dims(a: Seq<IntView>, b: Seq<IntView>)
    requires
        same_dims(a, b),
        plain_dims(a),
        plain_dims(b),
    ensures
        a == b,
    decreases a, 0nat,
{
    assert forall|i: int| 0 <= i < a.len() implies a[i] == b[i] by {
        assert(same_int(a[i], b[i]));
        assert(plain_int(a[i]));
        assert(plain_int(b[i]));
        lemma_identical_int(a[i], b[i]);
    }
    assert(a =~= b);
}

proof fn lemma_identical_module_fields(a: Seq<FieldView>, b: Seq<FieldView>)
    requires
        same_module_fields(a, b),
        plain_module_fields(a),
        plain_module_fields(b),
    ensures
        a == b,
    decreases a, 1nat,
{
    if a.len() == 1 {
        reveal(has_field);
        assert(has_field(b, a[0].name, a[0].ty));
        assert(same_type(a[0].ty, b[0].ty) && a[0].name == b[0].name);
        assert(decreases_to!(a => a[0]));
        lemma_field_parts(a[0]);
        assert(plain_field(a[0]) && plain_field(b[0]));
        lemma_identical_type(a[0].ty, b[0].ty);
    }
    assert(a =~= b);
}

proof fn lemma_identical_forall_function(a: ForallView<FunctionView>, b: ForallView<FunctionView>)
    requires
        same_forall_function(a, b),
        plain_forall_function(a),
        plain_forall_function(b),
    ensures
        a == b,
    decreases a, 1nat,
{
    lemma_forall_function_parts(a);
    lemma_identical_quantifieds(a.tparams, b.tparams);
    lemma_identical_function(a.body, b.body);
}

proof fn lemma_identical_forall_forallable(
    a: ForallView<ForallableView>,
    b: ForallView<ForallableView>,
)
    requires
        same_forall_forallable(a, b),
        plain_forall_forallable(a),
        plain_forall_forallable(b),
    ensures
        a == b,
    decreases a, 1nat,
{
    lemma_forall_forallable_parts(a);
    lemma_identical_quantifieds(a.tparams, b.tparams);
    lemma_identical_forallable(a.body, b.body);
}

proof fn lemma_identical_restriction(a: RestrictionView, b: RestrictionView)
    requires
        same_restriction(a, b),
        plain_restriction(a),
        plain_restriction(b),
    ensures
        a == b,
    decreases a, 1nat,
{
    lemma_same_restriction(a, b);
    lemma_restriction_parts(a);
    match a {
        RestrictionView::Bound(x) => {
            lemma_identical_type(x, b->Bound_0);
        },
        RestrictionView::Constraints(x) => {
            lemma_identical_types(x, b->Constraints_0);
        },
        _ => {},
    }
}

/// Type parameters that are equal are the same, but for what equality of types ignores.
pub proof fn lemma_identical_quantified(a: QuantifiedView, b: QuantifiedView)
    requires
        same_quantified(a, b),
        plain_quantified(a),
        plain_quantified(b),
    ensures
        a == b,
    decreases a, 1nat,
{
    lemma_same_quantified(a, b);
    lemma_quantified_parts(a);
    if let (Some(x), Some(y)) = (a.default, b.default) {
        lemma_identical_type(x, y);
    }
    lemma_identical_restriction(a.restriction, b.restriction);
}

proof fn lemma_identical_targs(a: TArgsView, b: TArgsView)
    requires
        same_targs(a, b),
        plain_targs(a),
        plain_targs(b),
    ensures
        a == b,
    decreases a, 1nat,
{
    lemma_same_targs(a, b);
    lemma_targs_parts(a);
    lemma_identical_quantifieds(a.tparams, b.tparams);
    lemma_identical_types(a.args, b.args);
}

proof fn lemma_identical_class_type(a: ClassTypeView, b: ClassTypeView)
    requires
        same_class_type(a, b),
        plain_class_type(a),
        plain_class_type(b),
    ensures
        a == b,
    decreases a, 1nat,
{
    lemma_same_class_type(a, b);
    lemma_class_type_parts(a);
    lemma_identical_targs(a.targs, b.targs);
}

proof fn lemma_identical_lit_enum(a: LitEnumView, b: LitEnumView)
    requires
        same_lit_enum(a, b),
        plain_lit_enum(a),
        plain_lit_enum(b),
    ensures
        a == b,
    decreases a, 1nat,
{
    lemma_same_lit_enum(a, b);
    lemma_lit_enum_parts(a);
    lemma_identical_class_type(a.class, b.class);
}

proof fn lemma_identical_lit(a: LitView, b: LitView)
    requires
        same_lit(a, b),
        plain_lit(a),
        plain_lit(b),
    ensures
        a == b,
    decreases a, 1nat,
{
    lemma_same_lit(a, b);
    lemma_lit_parts(a);
    match a {
        LitView::Enum(x) => {
            lemma_identical_lit_enum(*x, *b->Enum_0);
        },
        _ => {},
    }
}

proof fn lemma_identical_literal(a: LiteralView, b: LiteralView)
    requires
        same_literal(a, b),
        plain_literal(a),
        plain_literal(b),
    ensures
        a == b,
    decreases a, 1nat,
{
    lemma_same_literal(a, b);
    lemma_literal_parts(a);
    lemma_identical_lit(a.value, b.value);
}

proof fn lemma_identical_param(a: ParamView, b: ParamView)
    requires
        same_param(a, b),
        plain_param(a),
        plain_param(b),
    ensures
        a == b,
    decreases a, 1nat,
{
    lemma_same_param(a, b);
    lemma_param_parts(a);
    lemma_identical_type(a.ty, b.ty);
}

proof fn lemma_identical_params(a: ParamsView, b: ParamsView)
    requires
        same_params(a, b),
        plain_params(a),
        plain_params(b),
    ensures
        a == b,
    decreases a, 1nat,
{
    lemma_same_params(a, b);
    lemma_params_parts(a);
    match a {
        ParamsView::List(x) => {
            lemma_identical_param_seq(x, b->List_0);
        },
        ParamsView::ParamSpec(x, x2) => {
            lemma_identical_param_seq(x, b->ParamSpec_0);
            lemma_identical_type(x2, b->ParamSpec_1);
        },
        _ => {},
    }
}

proof fn lemma_identical_callable(a: CallableView, b: CallableView)
    requires
        same_callable(a, b),
        plain_callable(a),
        plain_callable(b),
    ensures
        a == b,
    decreases a, 1nat,
{
    lemma_same_callable(a, b);
    lemma_callable_parts(a);
    lemma_identical_params(a.params, b.params);
    lemma_identical_type(a.ret, b.ret);
}

proof fn lemma_identical_property_metadata(a: PropertyMetadataView, b: PropertyMetadataView)
    requires
        same_property_metadata(a, b),
        plain_property_metadata(a),
        plain_property_metadata(b),
    ensures
        a == b,
    decreases a, 1nat,
{
    lemma_same_property_metadata(a, b);
    lemma_property_metadata_parts(a);
    lemma_identical_type(a.getter, b.getter);
}

proof fn lemma_identical_func_flags(a: FuncFlagsView, b: FuncFlagsView)
    requires
        same_func_flags(a, b),
        plain_func_flags(a),
        plain_func_flags(b),
    ensures
        a == b,
    decreases a, 1nat,
{
    lemma_same_func_flags(a, b);
    lemma_func_flags_parts(a);
    if let (Some(x), Some(y)) = (a.property_metadata, b.property_metadata) {
        lemma_identical_property_metadata(x, y);
    }
}

proof fn lemma_identical_func_metadata(a: FuncMetadataView, b: FuncMetadataView)
    requires
        same_func_metadata(a, b),
        plain_func_metadata(a),
        plain_func_metadata(b),
    ensures
        a == b,
    decreases a, 1nat,
{
    lemma_same_func_metadata(a, b);
    lemma_func_metadata_parts(a);
    lemma_identical_func_flags(a.flags, b.flags);
}

proof fn lemma_identical_function(a: FunctionView, b: FunctionView)
    requires
        same_function(a, b),
        plain_function(a),
        plain_function(b),
    ensures
        a == b,
    decreases a, 1nat,
{
    lemma_same_function(a, b);
    lemma_function_parts(a);
    lemma_identical_callable(a.signature, b.signature);
    lemma_identical_func_metadata(a.metadata, b.metadata);
}

proof fn lemma_identical_type_alias(a: TypeAliasView, b: TypeAliasView)
    requires
        same_type_alias(a, b),
        plain_type_alias(a),
        plain_type_alias(b),
    ensures
        a == b,
    decreases a, 1nat,
{
    lemma_same_type_alias(a, b);
    lemma_type_alias_parts(a);
    lemma_identical_type(a.ty, b.ty);
}

proof fn lemma_identical_type_alias_ref(a: TypeAliasRefView, b: TypeAliasRefView)
    requires
        same_type_alias_ref(a, b),
        plain_type_alias_ref(a),
        plain_type_alias_ref(b),
    ensures
        a == b,
    decreases a, 1nat,
{
    lemma_same_type_alias_ref(a, b);
    lemma_type_alias_ref_parts(a);
    if let (Some(x), Some(y)) = (a.args, b.args) {
        lemma_identical_targs(x, y);
    }
}

proof fn lemma_identical_type_alias_data(a: TypeAliasDataView, b: TypeAliasDataView)
    requires
        same_type_alias_data(a, b),
        plain_type_alias_data(a),
        plain_type_alias_data(b),
    ensures
        a == b,
    decreases a, 1nat,
{
    lemma_same_type_alias_data(a, b);
    lemma_type_alias_data_parts(a);
    match a {
        TypeAliasDataView::Value(x) => {
            lemma_identical_type_alias(x, b->Value_0);
        },
        TypeAliasDataView::Ref(x) => {
            lemma_identical_type_alias_ref(x, b->Ref_0);
        },
    }
}

proof fn lemma_identical_forallable(a: ForallableView, b: ForallableView)
    requires
        same_forallable(a, b),
        plain_forallable(a),
        plain_forallable(b),
    ensures
        a == b,
    decreases a, 1nat,
{
    lemma_same_forallable(a, b);
    lemma_forallable_parts(a);
    match a {
        ForallableView::TypeAlias(x) => {
            lemma_identical_type_alias_data(x, b->TypeAlias_0);
        },
        ForallableView::Function(x) => {
            lemma_identical_function(x, b->Function_0);
        },
        ForallableView::Callable(x) => {
            lemma_identical_callable(x, b->Callable_0);
        },
    }
}

proof fn lemma_identical_overload_type(a: OverloadTypeView, b: OverloadTypeView)
    requires
        same_overload_type(a, b),
        plain_overload_type(a),
        plain_overload_type(b),
    ensures
        a == b,
    decreases a, 1nat,
{
    lemma_same_overload_type(a, b);
    lemma_overload_type_parts(a);
    match a {
        OverloadTypeView::Function(x) => {
            lemma_identical_function(x, b->Function_0);
        },
        OverloadTypeView::Forall(x) => {
            lemma_identical_forall_function(x, b->Forall_0);
        },
    }
}

proof fn lemma_identical_overload(a: OverloadView, b: OverloadView)
    requires
        same_overload(a, b),
        plain_overload(a),
        plain_overload(b),
    ensures
        a == b,
    decreases a, 1nat,
{
    lemma_same_overload(a, b);
    lemma_overload_parts(a);
    lemma_identical_overloads(a.signatures, b.signatures);
    lemma_identical_func_metadata(*a.metadata, *b.metadata);
}

proof fn lemma_identical_bound_method_type(a: BoundMethodTypeView, b: BoundMethodTypeView)
    requires
        same_bound_method_type(a, b),
        plain_bound_method_type(a),
        plain_bound_method_type(b),
    ensures
        a == b,
    decreases a, 1nat,
{
    lemma_same_bound_method_type(a, b);
    lemma_bound_method_type_parts(a);
    match a {
        BoundMethodTypeView::Function(x) => {
            lemma_identical_function(x, b->Function_0);
        },
        BoundMethodTypeView::Forall(x) => {
            lemma_identical_forall_function(x, b->Forall_0);
        },
        BoundMethodTypeView::Overload(x) => {
            lemma_identical_overload(x, b->Overload_0);
        },
    }
}

proof fn lemma_identical_bound_method(a: BoundMethodView, b: BoundMethodView)
    requires
        same_bound_method(a, b),
        plain_bound_method(a),
        plain_bound_method(b),
    ensures
        a == b,
    decreases a, 1nat,
{
    lemma_same_bound_method(a, b);
    lemma_bound_method_parts(a);
    lemma_identical_type(a.obj, b.obj);
    lemma_identical_bound_method_type(a.func, b.func);
}

proof fn lemma_identical_union(a: UnionView, b: UnionView)
    requires
        same_union(a, b),
        plain_union(a),
        plain_union(b),
    ensures
        a == b,
    decreases a, 1nat,
{
    lemma_same_union(a, b);
    lemma_union_parts(a);
    lemma_identical_types(a.members, b.members);
}

proof fn lemma_identical_typed_dict(a: TypedDictView, b: TypedDictView)
    requires
        same_typed_dict(a, b),
        plain_typed_dict(a),
        plain_typed_dict(b),
    ensures
        a == b,
    decreases a, 1nat,
{
    lemma_same_typed_dict(a, b);
    lemma_typed_dict_parts(a);
    match a {
        TypedDictView::TypedDict(x) => {
            lemma_identical_class_type(x, b->TypedDict_0);
        },
        TypedDictView::Anonymous(x) => {
            lemma_identical_fields(x, b->Anonymous_0);
        },
    }
}

proof fn lemma_identical_field(a: FieldView, b: FieldView)
    requires
        same_field(a, b),
        plain_field(a),
        plain_field(b),
    ensures
        a == b,
    decreases a, 1nat,
{
    lemma_same_field(a, b);
    lemma_field_parts(a);
    lemma_identical_type(a.ty, b.ty);
}

proof fn lemma_identical_int(a: IntView, b: IntView)
    requires
        same_int(a, b),
        plain_int(a),
        plain_int(b),
    ensures
        a == b,
    decreases a, 1nat,
{
    lemma_same_int(a, b);
    lemma_int_parts(a);
    match a {
        IntView::Symbolic(x) => {
            lemma_identical_type(*x, *b->Symbolic_0);
        },
        _ => {},
    }
}

proof fn lemma_identical_shaped_array_type(a: ShapedArrayTypeView, b: ShapedArrayTypeView)
    requires
        same_shaped_array_type(a, b),
        plain_shaped_array_type(a),
        plain_shaped_array_type(b),
    ensures
        a == b,
    decreases a, 1nat,
{
    lemma_same_shaped_array_type(a, b);
    lemma_shaped_array_type_parts(a);
    lemma_identical_class_type(a.base_class, b.base_class);
    lemma_identical_dims(a.shape, b.shape);
}

proof fn lemma_identical_nn_module_type(a: NNModuleTypeView, b: NNModuleTypeView)
    requires
        same_nn_module_type(a, b),
        plain_nn_module_type(a),
        plain_nn_module_type(b),
    ensures
        a == b,
    decreases a, 1nat,
{
    lemma_same_nn_module_type(a, b);
    lemma_nn_module_type_parts(a);
    lemma_identical_class_type(a.class, b.class);
    lemma_identical_module_fields(a.fields, b.fields);
}

proof fn lemma_identical_data_frame_schema(a: DataFrameSchemaView, b: DataFrameSchemaView)
    requires
        same_data_frame_schema(a, b),
        plain_data_frame_schema(a),
        plain_data_frame_schema(b),
    ensures
        a == b,
    decreases a, 1nat,
{
    lemma_same_data_frame_schema(a, b);
    lemma_data_frame_schema_parts(a);
    lemma_identical_class_type(a.class, b.class);
    lemma_identical_fields(a.columns, b.columns);
}

proof fn lemma_identical_series_schema(a: SeriesSchemaView, b: SeriesSchemaView)
    requires
        same_series_schema(a, b),
        plain_series_schema(a),
        plain_series_schema(b),
    ensures
        a == b,
    decreases a, 1nat,
{
    lemma_same_series_schema(a, b);
    lemma_series_schema_parts(a);
    lemma_identical_class_type(a.class, b.class);
    lemma_identical_type(a.element, b.element);
}

proof fn lemma_identical_tuple(a: TupleView, b: TupleView)
    requires
        same_tuple(a, b),
        plain_tuple(a),
        plain_tuple(b),
    ensures
        a == b,
    decreases a, 1nat,
{
    lemma_same_tuple(a, b);
    lemma_tuple_parts(a);
    match a {
        TupleView::Concrete(x) => {
            lemma_identical_types(x, b->Concrete_0);
        },
        TupleView::Unbounded(x) => {
            lemma_identical_type(*x, *b->Unbounded_0);
        },
        TupleView::Unpacked(x) => {
            lemma_identical_types(x.0, b->Unpacked_0.0);
            lemma_identical_type(x.1, b->Unpacked_0.1);
            lemma_identical_types(x.2, b->Unpacked_0.2);
        },
    }
}

proof fn lemma_identical_kw_call(a: KwCallView, b: KwCallView)
    requires
        same_kw_call(a, b),
        plain_kw_call(a),
        plain_kw_call(b),
    ensures
        a == b,
    decreases a, 1nat,
{
    lemma_same_kw_call(a, b);
    lemma_kw_call_parts(a);
    lemma_identical_fields(a.keywords, b.keywords);
    lemma_identical_type(a.return_ty, b.return_ty);
}

proof fn lemma_identical_callable_residual(a: CallableResidualView, b: CallableResidualView)
    requires
        same_callable_residual(a, b),
        plain_callable_residual(a),
        plain_callable_residual(b),
    ensures
        a == b,
    decreases a, 1nat,
{
    lemma_same_callable_residual(a, b);
    lemma_callable_residual_parts(a);
    lemma_identical_types(a.captured, b.captured);
    lemma_identical_type(a.fallback, b.fallback);
}

proof fn lemma_identical_type_level_dsl_call(a: TypeLevelDslCallView, b: TypeLevelDslCallView)
    requires
        same_type_level_dsl_call(a, b),
        plain_type_level_dsl_call(a),
        plain_type_level_dsl_call(b),
    ensures
        a == b,
    decreases a, 1nat,
{
    lemma_same_type_level_dsl_call(a, b);
    lemma_type_level_dsl_call_parts(a);
    lemma_identical_types(a.args, b.args);
    lemma_identical_type(a.result_schema, b.result_schema);
}

proof fn lemma_identical_super_obj(a: SuperObjView, b: SuperObjView)
    requires
        same_super_obj(a, b),
        plain_super_obj(a),
        plain_super_obj(b),
    ensures
        a == b,
    decreases a, 1nat,
{
    lemma_same_super_obj(a, b);
    lemma_super_obj_parts(a);
    match a {
        SuperObjView::Instance(x) => {
            lemma_identical_class_type(x, b->Instance_0);
        },
        SuperObjView::Class(x) => {
            lemma_identical_class_type(x, b->Class_0);
        },
    }
}

/// Types that are equal are the same, but for the names that unions are displayed by and the order
/// of the captured arguments of nn.Module instances: where the first are missing and of the second
/// there is one at most, nothing tells equal types apart, at any depth.
#[verifier::rlimit(80)]
#[verifier::spinoff_prover]
pub proof fn lemma_identical_type(a: TypeView, b: TypeView)
    requires
        same_type(a, b),
        plain_type(a),
        plain_type(b),
    ensures
        a == b,
    decreases a, 1nat,
{
    lemma_same_type(a, b);
    lemma_type_parts(a);
    match a {
        TypeView::Literal(x) => {
            lemma_identical_literal(*x, *b->Literal_0);
        },
        TypeView::Callable(x) => {
            lemma_identical_callable(*x, *b->Callable_0);
        },
        TypeView::CallableResidual(x) => {
            lemma_identical_callable_residual(*x, *b->CallableResidual_0);
        },
        TypeView::TypeLevelDslCall(x) => {
            lemma_identical_type_level_dsl_call(*x, *b->TypeLevelDslCall_0);
        },
        TypeView::Function(x) => {
            lemma_identical_function(*x, *b->Function_0);
        },
        TypeView::BoundMethod(x) => {
            lemma_identical_bound_method(*x, *b->BoundMethod_0);
        },
        TypeView::Overload(x) => {
            lemma_identical_overload(x, b->Overload_0);
        },
        TypeView::Union(x) => {
            lemma_identical_union(*x, *b->Union_0);
        },
        TypeView::Intersect(x) => {
            lemma_identical_types(x.0, b->Intersect_0.0);
            lemma_identical_type(x.1, b->Intersect_0.1);
        },
        TypeView::ClassType(x) => {
            lemma_identical_class_type(x, b->ClassType_0);
        },
        TypeView::TypedDict(x) => {
            lemma_identical_typed_dict(x, b->TypedDict_0);
        },
        TypeView::PartialTypedDict(x) => {
            lemma_identical_typed_dict(x, b->PartialTypedDict_0);
        },
        TypeView::ShapedArray(x) => {
            lemma_identical_shaped_array_type(*x, *b->ShapedArray_0);
        },
        TypeView::IntTuple(x) => {
            lemma_identical_dims(*x, *b->IntTuple_0);
        },
        TypeView::NNModule(x) => {
            lemma_identical_nn_module_type(*x, *b->NNModule_0);
        },
        TypeView::DataFrame(x) => {
            lemma_identical_data_frame_schema(*x, *b->DataFrame_0);
        },
        TypeView::Series(x) => {
            lemma_identical_series_schema(*x, *b->Series_0);
        },
        TypeView::Int(x) => {
            lemma_identical_int(x, b->Int_0);
        },
        TypeView::Tuple(x) => {
            lemma_identical_tuple(x, b->Tuple_0);
        },
        TypeView::Forall(x) => {
            lemma_identical_forall_forallable(*x, *b->Forall_0);
        },
        TypeView::Quantified(x) => {
            lemma_identical_quantified(*x, *b->Quantified_0);
        },
        TypeView::QuantifiedValue(x) => {
            lemma_identical_quantified(*x, *b->QuantifiedValue_0);
        },
        TypeView::ElementOfTypeVarTuple(x) => {
            lemma_identical_quantified(*x, *b->ElementOfTypeVarTuple_0);
        },
        TypeView::TypeGuard(x) => {
            lemma_identical_type(*x, *b->TypeGuard_0);
        },
        TypeView::TypeIs(x) => {
            lemma_identical_type(*x, *b->TypeIs_0);
        },
        TypeView::Annotated(x, x2) => {
            lemma_identical_type(*x, *b->Annotated_0);
            lemma_identical_types(x2, b->Annotated_1);
        },
        TypeView::Unpack(x) => {
            lemma_identical_type(*x, *b->Unpack_0);
        },
        TypeView::Concatenate(x, x2) => {
            lemma_identical_param_seq(x, b->Concatenate_0);
            lemma_identical_type(*x2, *b->Concatenate_1);
        },
        TypeView::ParamSpecValue(x) => {
            lemma_identical_param_seq(x, b->ParamSpecValue_0);
        },
        TypeView::Args(x) => {
            lemma_identical_quantified(*x, *b->Args_0);
        },
        TypeView::Kwargs(x) => {
            lemma_identical_quantified(*x, *b->Kwargs_0);
        },
        TypeView::ArgsValue(x) => {
            lemma_identical_quantified(*x, *b->ArgsValue_0);
        },
        TypeView::KwargsValue(x) => {
            lemma_identical_quantified(*x, *b->KwargsValue_0);
        },
        TypeView::Type(x) => {
            lemma_identical_type(*x, *b->Type_0);
        },
        TypeView::TypeForm(x) => {
            lemma_identical_type(*x, *b->TypeForm_0);
        },
        TypeView::TypeAlias(x) => {
            lemma_identical_type_alias_data(*x, *b->TypeAlias_0);
        },
        TypeView::UntypedAlias(x) => {
            lemma_identical_type_alias_data(*x, *b->UntypedAlias_0);
        },
        TypeView::SuperInstance(x) => {
            lemma_identical_class_type(x.0, b->SuperInstance_0.0);
            lemma_identical_super_obj(x.1, b->SuperInstance_0.1);
        },
        TypeView::SelfType(x) => {
            lemma_identical_class_type(x, b->SelfType_0);
        },
        TypeView::KwCall(x) => {
            lemma_identical_kw_call(*x, *b->KwCall_0);
        },
        _ => {},
    }
}

} // verus!
