//! Copies that have the model of what they were copied from.
use vstd::prelude::*;

use crate::data::{
    BoundMethod,
    BoundMethodType,
    Callable,
    CallableResidual,
    ClassType,
    DataFrameSchema,
    Field,
    Forall,
    Forallable,
    FuncFlags,
    FuncMetadata,
    Function,
    Int,
    IntTuple,
    KwCall,
    Lit,
    LitEnum,
    Literal,
    NNModuleType,
    Overload,
    OverloadType,
    Param,
    ParamList,
    Params,
    PropertyMetadata,
    Quantified,
    Restriction,
    SeriesSchema,
    ShapedArrayType,
    SuperObj,
    TArgs,
    TParams,
    Tuple,
    Type,
    TypeAlias,
    TypeAliasData,
    TypeAliasRef,
    TypeLevelDslCall,
    TypedDict,
    Union,
};
use crate::names::copy_bytes;
use crate::outside::{
    fields_of, put_field, share, signatures_of, ModuleFields, Signatures,
};
use crate::parts::{
    lemma_bound_method_parts,
    lemma_bound_method_type_parts,
    lemma_callable_parts,
    lemma_callable_residual_parts,
    lemma_class_type_parts,
    lemma_data_frame_schema_parts,
    lemma_field_parts,
    lemma_forall_forallable_parts,
    lemma_forall_function_parts,
    lemma_forallable_parts,
    lemma_func_flags_parts,
    lemma_func_metadata_parts,
    lemma_function_parts,
    lemma_int_parts,
    lemma_kw_call_parts,
    lemma_lit_enum_parts,
    lemma_lit_parts,
    lemma_literal_parts,
    lemma_nn_module_type_parts,
    lemma_overload_parts,
    lemma_overload_type_parts,
    lemma_param_parts,
    lemma_params_parts,
    lemma_property_metadata_parts,
    lemma_quantified_parts,
    lemma_restriction_parts,
    lemma_series_schema_parts,
    lemma_shaped_array_type_parts,
    lemma_super_obj_parts,
    lemma_targs_parts,
    lemma_tuple_parts,
    lemma_type_alias_data_parts,
    lemma_type_alias_parts,
    lemma_type_alias_ref_parts,
    lemma_type_level_dsl_call_parts,
    lemma_type_parts,
    lemma_typed_dict_parts,
    lemma_union_parts,
};
use crate::view::{
    lemma_bound_method_type_view,
    lemma_bound_method_view,
    lemma_callable_residual_view,
    lemma_callable_view,
    lemma_class_type_view,
    lemma_data_frame_schema_view,
    lemma_field_view,
    lemma_forall_forallable_view,
    lemma_forall_function_view,
    lemma_forallable_view,
    lemma_func_flags_view,
    lemma_func_metadata_view,
    lemma_function_view,
    lemma_int_tuple_view,
    lemma_int_view,
    lemma_kw_call_view,
    lemma_lit_enum_view,
    lemma_lit_view,
    lemma_literal_view,
    lemma_nn_module_type_view,
    lemma_overload_type_view,
    lemma_overload_view,
    lemma_param_list_view,
    lemma_param_view,
    lemma_params_view,
    lemma_property_metadata_view,
    lemma_quantified_view,
    lemma_restriction_view,
    lemma_series_schema_view,
    lemma_shaped_array_type_view,
    lemma_super_obj_view,
    lemma_targs_view,
    lemma_tparams_view,
    lemma_tuple_view,
    lemma_type_alias_data_view,
    lemma_type_alias_ref_view,
    lemma_type_alias_view,
    lemma_type_level_dsl_call_view,
    lemma_type_view,
    lemma_typed_dict_view,
    lemma_union_view,
    view_dims,
    view_fields,
    view_overloads,
    view_param_seq,
    view_quantifieds,
    view_types,
};

verus! {

fn copy_module_fields(m: &ModuleFields) -> (r: ModuleFields)
    ensures
        fields_of(r) == fields_of(*m),
    decreases fields_of(*m), 0nat,
{
    let n = m.len();
    let mut r = ModuleFields::new();
    for i in 0..n
        invariant
            n == fields_of(*m).len(),
            fields_of(r) == fields_of(*m).take(i as int),
        decreases n - i,
    {
        let (name, ty) = m.get(i);
        let ghost f = fields_of(*m)[i as int];
        proof {
            assert(decreases_to!(fields_of(*m) => f));
            lemma_field_parts(f);
        }
        r.insert(name.clone(), copy_type(ty));
        proof {
            let s = fields_of(*m).take(i as int);
            assert(forall|j: int| 0 <= j < s.len() ==> s[j].name != f.name);
            assert(put_field(s, f.name, f.ty) =~= fields_of(*m).take(i + 1));
        }
    }
    assert(fields_of(*m).take(n as int) =~= fields_of(*m));
    r
}

fn copy_types(v: &Vec<Type>) -> (r: Vec<Type>)
    ensures
        view_types(r@) == view_types(v@),
    decreases view_types(v@), 0nat,
{
    let mut r: Vec<Type> = Vec::new();
    for i in 0..v.len()
        invariant
            r@.len() == i,
            forall|j: int| 0 <= j < i ==> (#[trigger] r@[j])@ == v@[j]@,
        decreases v.len() - i,
    {
        proof {
            assert(decreases_to!(view_types(v@) => view_types(v@)[i as int]));
        }
        r.push(copy_type(&v[i]));
    }
    assert(view_types(r@) =~= view_types(v@));
    r
}

fn copy_param_seq(v: &Vec<Param>) -> (r: Vec<Param>)
    ensures
        view_param_seq(r@) == view_param_seq(v@),
    decreases view_param_seq(v@), 0nat,
{
    let mut r: Vec<Param> = Vec::new();
    for i in 0..v.len()
        invariant
            r@.len() == i,
            forall|j: int| 0 <= j < i ==> (#[trigger] r@[j])@ == v@[j]@,
        decreases v.len() - i,
    {
        proof {
            assert(decreases_to!(view_param_seq(v@) => view_param_seq(v@)[i as int]));
        }
        r.push(copy_param(&v[i]));
    }
    assert(view_param_seq(r@) =~= view_param_seq(v@));
    r
}

fn copy_fields(v: &Vec<Field>) -> (r: Vec<Field>)
    ensures
        view_fields(r@) == view_fields(v@),
    decreases view_fields(v@), 0nat,
{
    let mut r: Vec<Field> = Vec::new();
    for i in 0..v.len()
        invariant
            r@.len() == i,
            forall|j: int| 0 <= j < i ==> (#[trigger] r@[j])@ == v@[j]@,
        decreases v.len() - i,
    {
        proof {
            assert(decreases_to!(view_fields(v@) => view_fields(v@)[i as int]));
        }
        r.push(copy_field(&v[i]));
    }
    assert(view_fields(r@) =~= view_fields(v@));
    r
}

fn copy_quantifieds(v: &Vec<Quantified>) -> (r: Vec<Quantified>)
    ensures
        view_quantifieds(r@) == view_quantifieds(v@),
    decreases view_quantifieds(v@), 0nat,
{
    let mut r: Vec<Quantified> = Vec::new();
    for i in 0..v.len()
        invariant
            r@.len() == i,
            forall|j: int| 0 <= j < i ==> (#[trigger] r@[j])@ == v@[j]@,
        decreases v.len() - i,
    {
        proof {
            assert(decreases_to!(view_quantifieds(v@) => view_quantifieds(v@)[i as int]));
        }
        r.push(copy_quantified(&v[i]));
    }
    assert(view_quantifieds(r@) =~= view_quantifieds(v@));
    r
}

fn copy_overloads(v: &Vec<OverloadType>) -> (r: Vec<OverloadType>)
    ensures
        view_overloads(r@) == view_overloads(v@),
    decreases view_overloads(v@), 0nat,
{
    let mut r: Vec<OverloadType> = Vec::new();
    for i in 0..v.len()
        invariant
            r@.len() == i,
            forall|j: int| 0 <= j < i ==> (#[trigger] r@[j])@ == v@[j]@,
        decreases v.len() - i,
    {
        proof {
            assert(decreases_to!(view_overloads(v@) => view_overloads(v@)[i as int]));
        }
        r.push(copy_overload_type(&v[i]));
    }
    assert(view_overloads(r@) =~= view_overloads(v@));
    r
}

fn copy_dims(v: &Vec<Int>) -> (r: Vec<Int>)
    ensures
        view_dims(r@) == view_dims(v@),
    decreases view_dims(v@), 0nat,
{
    let mut r: Vec<Int> = Vec::new();
    for i in 0..v.len()
        invariant
            r@.len() == i,
            forall|j: int| 0 <= j < i ==> (#[trigger] r@[j])@ == v@[j]@,
        decreases v.len() - i,
    {
        proof {
            assert(decreases_to!(view_dims(v@) => view_dims(v@)[i as int]));
        }
        r.push(copy_int(&v[i]));
    }
    assert(view_dims(r@) =~= view_dims(v@));
    r
}

fn copy_forall_function(x: &Forall<Function>) -> (r: Forall<Function>)
    ensures
        r@ == x@,
    decreases x@, 1nat,
{
    broadcast use lemma_forall_function_view;

    proof {
        lemma_forall_function_parts(x@);
    }
    Forall { tparams: share(&x.tparams), body: copy_function(&x.body) }
}

fn copy_forall_forallable(x: &Forall<Forallable>) -> (r: Forall<Forallable>)
    ensures
        r@ == x@,
    decreases x@, 1nat,
{
    broadcast use lemma_forall_forallable_view;

    proof {
        lemma_forall_forallable_parts(x@);
    }
    Forall { tparams: share(&x.tparams), body: copy_forallable(&x.body) }
}

fn copy_restriction(x: &Restriction) -> (r: Restriction)
    ensures
        r@ == x@,
    decreases x@, 1nat,
{
    broadcast use lemma_restriction_view;

    proof {
        lemma_restriction_parts(x@);
    }
    match x {
        Restriction::Bound(a) => Restriction::Bound(copy_type(a)),
        Restriction::Constraints(a) => Restriction::Constraints(copy_types(a)),
        Restriction::Unrestricted => Restriction::Unrestricted,
    }
}

fn copy_quantified(x: &Quantified) -> (r: Quantified)
    ensures
        r@ == x@,
    decreases x@, 1nat,
{
    broadcast use lemma_quantified_view;

    proof {
        lemma_quantified_parts(x@);
    }
    Quantified {
        identity: x.identity.clone(),
        name: x.name.clone(),
        kind: x.kind,
        default: match &x.default { Some(x) => Some(copy_type(x)), None => None },
        restriction: copy_restriction(&x.restriction),
        variance: x.variance,
    }
}

fn copy_tparams(x: &TParams) -> (r: TParams)
    ensures
        r@ == x@,
    decreases x@, 1nat,
{
    broadcast use lemma_tparams_view;

    TParams {
        params: copy_quantifieds(&x.params),
    }
}

fn copy_targs(x: &TArgs) -> (r: TArgs)
    ensures
        r@ == x@,
    decreases x@, 1nat,
{
    broadcast use lemma_targs_view;

    proof {
        lemma_targs_parts(x@);
    }
    TArgs {
        tparams: share(&x.tparams),
        args: copy_types(&x.args),
    }
}

fn copy_class_type(x: &ClassType) -> (r: ClassType)
    ensures
        r@ == x@,
    decreases x@, 1nat,
{
    broadcast use lemma_class_type_view;

    proof {
        lemma_class_type_parts(x@);
    }
    ClassType {
        class: x.class.clone(),
        targs: copy_targs(&x.targs),
    }
}

fn copy_lit_enum(x: &LitEnum) -> (r: LitEnum)
    ensures
        r@ == x@,
    decreases x@, 1nat,
{
    broadcast use lemma_lit_enum_view;

    proof {
        lemma_lit_enum_parts(x@);
    }
    LitEnum {
        class: copy_class_type(&x.class),
        member: x.member.clone(),
    }
}

fn copy_lit(x: &Lit) -> (r: Lit)
    ensures
        r@ == x@,
    decreases x@, 1nat,
{
    broadcast use lemma_lit_view;

    proof {
        lemma_lit_parts(x@);
    }
    match x {
        Lit::Str(a) => Lit::Str(a.clone()),
        Lit::Int(a) => Lit::Int(a.clone()),
        Lit::Bool(a) => Lit::Bool(*a),
        Lit::Bytes(a) => Lit::Bytes(copy_bytes(a)),
        Lit::Enum(a) => Lit::Enum(Box::new(copy_lit_enum(&**a))),
    }
}

fn copy_literal(x: &Literal) -> (r: Literal)
    ensures
        r@ == x@,
    decreases x@, 1nat,
{
    broadcast use lemma_literal_view;

    proof {
        lemma_literal_parts(x@);
    }
    Literal {
        value: copy_lit(&x.value),
        style: x.style,
    }
}

fn copy_param(x: &Param) -> (r: Param)
    ensures
        r@ == x@,
    decreases x@, 1nat,
{
    broadcast use lemma_param_view;

    proof {
        lemma_param_parts(x@);
    }
    Param {
        name: match &x.name { Some(x) => Some(x.clone()), None => None },
        kind: x.kind,
        required: x.required,
        ty: copy_type(&x.ty),
    }
}

fn copy_param_list(x: &ParamList) -> (r: ParamList)
    ensures
        r@ == x@,
    decreases x@, 1nat,
{
    broadcast use lemma_param_list_view;

    ParamList {
        items: copy_param_seq(&x.items),
    }
}

fn copy_params(x: &Params) -> (r: Params)
    ensures
        r@ == x@,
    decreases x@, 1nat,
{
    broadcast use lemma_params_view;

    proof {
        lemma_params_parts(x@);
    }
    match x {
        Params::List(a) => Params::List(copy_param_list(a)),
        Params::Ellipsis => Params::Ellipsis,
        Params::Materialization => Params::Materialization,
        Params::ParamSpec(a, b) => Params::ParamSpec(copy_param_seq(a), copy_type(b)),
    }
}

fn copy_callable(x: &Callable) -> (r: Callable)
    ensures
        r@ == x@,
    decreases x@, 1nat,
{
    broadcast use lemma_callable_view;

    proof {
        lemma_callable_parts(x@);
    }
    Callable {
        params: copy_params(&x.params),
        ret: copy_type(&x.ret),
    }
}

fn copy_property_metadata(x: &PropertyMetadata) -> (r: PropertyMetadata)
    ensures
        r@ == x@,
    decreases x@, 1nat,
{
    broadcast use lemma_property_metadata_view;

    proof {
        lemma_property_metadata_parts(x@);
    }
    PropertyMetadata {
        role: x.role,
        getter: copy_type(&x.getter),
    }
}

fn copy_func_flags(x: &FuncFlags) -> (r: FuncFlags)
    ensures
        r@ == x@,
    decreases x@, 1nat,
{
    broadcast use lemma_func_flags_view;

    proof {
        lemma_func_flags_parts(x@);
    }
    FuncFlags {
        is_overload: x.is_overload,
        is_cached_property: x.is_cached_property,
        is_abstract_method: x.is_abstract_method,
        is_override: x.is_override,
        is_assert_shape: x.is_assert_shape,
        has_enum_member_decoration: x.has_enum_member_decoration,
        has_final_decoration: x.has_final_decoration,
        property_metadata: match &x.property_metadata {
            Some(x) => Some(copy_property_metadata(x)),
            None => None,
        },
        deprecation: match &x.deprecation { Some(x) => Some(x.clone()), None => None },
        dataclass_transform_metadata: match &x.dataclass_transform_metadata {
            Some(x) => Some(*x),
            None => None,
        },
    }
}

fn copy_func_metadata(x: &FuncMetadata) -> (r: FuncMetadata)
    ensures
        r@ == x@,
    decreases x@, 1nat,
{
    broadcast use lemma_func_metadata_view;

    proof {
        lemma_func_metadata_parts(x@);
    }
    FuncMetadata {
        kind: x.kind.clone(),
        flags: copy_func_flags(&x.flags),
    }
}

fn copy_function(x: &Function) -> (r: Function)
    ensures
        r@ == x@,
    decreases x@, 1nat,
{
    broadcast use lemma_function_view;

    proof {
        lemma_function_parts(x@);
    }
    Function {
        signature: copy_callable(&x.signature),
        metadata: copy_func_metadata(&x.metadata),
    }
}

fn copy_type_alias(x: &TypeAlias) -> (r: TypeAlias)
    ensures
        r@ == x@,
    decreases x@, 1nat,
{
    broadcast use lemma_type_alias_view;

    proof {
        lemma_type_alias_parts(x@);
    }
    TypeAlias {
        name: x.name.clone(),
        ty: copy_type(&x.ty),
    }
}

fn copy_type_alias_ref(x: &TypeAliasRef) -> (r: TypeAliasRef)
    ensures
        r@ == x@,
    decreases x@, 1nat,
{
    broadcast use lemma_type_alias_ref_view;

    proof {
        lemma_type_alias_ref_parts(x@);
    }
    TypeAliasRef {
        name: x.name.clone(),
        args: match &x.args { Some(x) => Some(copy_targs(x)), None => None },
    }
}

fn copy_type_alias_data(x: &TypeAliasData) -> (r: TypeAliasData)
    ensures
        r@ == x@,
    decreases x@, 1nat,
{
    broadcast use lemma_type_alias_data_view;

    proof {
        lemma_type_alias_data_parts(x@);
    }
    match x {
        TypeAliasData::Value(a) => TypeAliasData::Value(copy_type_alias(a)),
        TypeAliasData::Ref(a) => TypeAliasData::Ref(copy_type_alias_ref(a)),
    }
}

fn copy_forallable(x: &Forallable) -> (r: Forallable)
    ensures
        r@ == x@,
    decreases x@, 1nat,
{
    broadcast use lemma_forallable_view;

    proof {
        lemma_forallable_parts(x@);
    }
    match x {
        Forallable::TypeAlias(a) => Forallable::TypeAlias(copy_type_alias_data(a)),
        Forallable::Function(a) => Forallable::Function(copy_function(a)),
        Forallable::Callable(a) => Forallable::Callable(copy_callable(a)),
    }
}

fn copy_overload_type(x: &OverloadType) -> (r: OverloadType)
    ensures
        r@ == x@,
    decreases x@, 1nat,
{
    broadcast use lemma_overload_type_view;

    proof {
        lemma_overload_type_parts(x@);
    }
    match x {
        OverloadType::Function(a) => OverloadType::Function(copy_function(a)),
        OverloadType::Forall(a) => OverloadType::Forall(copy_forall_function(a)),
    }
}

fn copy_overload(x: &Overload) -> (r: Overload)
    ensures
        r@ == x@,
    decreases x@, 1nat,
{
    broadcast use lemma_overload_view;

    proof {
        lemma_overload_parts(x@);
    }
    Overload {
        signatures: copy_signatures(&x.signatures),
        metadata: Box::new(copy_func_metadata(&*x.metadata)),
    }
}

fn copy_bound_method_type(x: &BoundMethodType) -> (r: BoundMethodType)
    ensures
        r@ == x@,
    decreases x@, 1nat,
{
    broadcast use lemma_bound_method_type_view;

    proof {
        lemma_bound_method_type_parts(x@);
    }
    match x {
        BoundMethodType::Function(a) => BoundMethodType::Function(copy_function(a)),
        BoundMethodType::Forall(a) => BoundMethodType::Forall(copy_forall_function(a)),
        BoundMethodType::Overload(a) => BoundMethodType::Overload(copy_overload(a)),
    }
}

fn copy_bound_method(x: &BoundMethod) -> (r: BoundMethod)
    ensures
        r@ == x@,
    decreases x@, 1nat,
{
    broadcast use lemma_bound_method_view;

    proof {
        lemma_bound_method_parts(x@);
    }
    BoundMethod {
        obj: copy_type(&x.obj),
        func: copy_bound_method_type(&x.func),
    }
}

fn copy_union(x: &Union) -> (r: Union)
    ensures
        r@ == x@,
    decreases x@, 1nat,
{
    broadcast use lemma_union_view;

    proof {
        lemma_union_parts(x@);
    }
    Union {
        members: copy_types(&x.members),
        display_name: match &x.display_name {
            Some(x) => Some((x.0.clone(), x.1.clone())),
            None => None,
        },
    }
}

fn copy_typed_dict(x: &TypedDict) -> (r: TypedDict)
    ensures
        r@ == x@,
    decreases x@, 1nat,
{
    broadcast use lemma_typed_dict_view;

    proof {
        lemma_typed_dict_parts(x@);
    }
    match x {
        TypedDict::TypedDict(a) => TypedDict::TypedDict(copy_class_type(a)),
        TypedDict::Anonymous(a) => TypedDict::Anonymous(copy_fields(a)),
    }
}

fn copy_field(x: &Field) -> (r: Field)
    ensures
        r@ == x@,
    decreases x@, 1nat,
{
    broadcast use lemma_field_view;

    proof {
        lemma_field_parts(x@);
    }
    Field {
        name: x.name.clone(),
        ty: copy_type(&x.ty),
    }
}

fn copy_int(x: &Int) -> (r: Int)
    ensures
        r@ == x@,
    decreases x@, 1nat,
{
    broadcast use lemma_int_view;

    proof {
        lemma_int_parts(x@);
    }
    match x {
        Int::Literal(a) => Int::Literal(*a),
        Int::Symbolic(a) => Int::Symbolic(Box::new(copy_type(&**a))),
        Int::Gradual => Int::Gradual,
        Int::Materialization => Int::Materialization,
    }
}

fn copy_int_tuple(x: &IntTuple) -> (r: IntTuple)
    ensures
        r@ == x@,
    decreases x@, 1nat,
{
    broadcast use lemma_int_tuple_view;

    IntTuple {
        dims: copy_dims(&x.dims),
    }
}

fn copy_shaped_array_type(x: &ShapedArrayType) -> (r: ShapedArrayType)
    ensures
        r@ == x@,
    decreases x@, 1nat,
{
    broadcast use lemma_shaped_array_type_view;

    proof {
        lemma_shaped_array_type_parts(x@);
    }
    ShapedArrayType {
        base_class: copy_class_type(&x.base_class),
        shape: copy_int_tuple(&x.shape),
    }
}

fn copy_nn_module_type(x: &NNModuleType) -> (r: NNModuleType)
    ensures
        r@ == x@,
    decreases x@, 1nat,
{
    broadcast use lemma_nn_module_type_view;

    proof {
        lemma_nn_module_type_parts(x@);
    }
    NNModuleType {
        class: copy_class_type(&x.class),
        fields: copy_module_fields(&x.fields),
    }
}

fn copy_data_frame_schema(x: &DataFrameSchema) -> (r: DataFrameSchema)
    ensures
        r@ == x@,
    decreases x@, 1nat,
{
    broadcast use lemma_data_frame_schema_view;

    proof {
        lemma_data_frame_schema_parts(x@);
    }
    DataFrameSchema {
        class: copy_class_type(&x.class),
        columns: copy_fields(&x.columns),
    }
}

fn copy_series_schema(x: &SeriesSchema) -> (r: SeriesSchema)
    ensures
        r@ == x@,
    decreases x@, 1nat,
{
    broadcast use lemma_series_schema_view;

    proof {
        lemma_series_schema_parts(x@);
    }
    SeriesSchema {
        class: copy_class_type(&x.class),
        element: copy_type(&x.element),
    }
}

fn copy_tuple(x: &Tuple) -> (r: Tuple)
    ensures
        r@ == x@,
    decreases x@, 1nat,
{
    broadcast use lemma_tuple_view;

    proof {
        lemma_tuple_parts(x@);
    }
    match x {
        Tuple::Concrete(a) => Tuple::Concrete(copy_types(a)),
        Tuple::Unbounded(a) => Tuple::Unbounded(Box::new(copy_type(&**a))),
        Tuple::Unpacked(a) => Tuple::Unpacked(
            Box::new((copy_types(&(**a).0), copy_type(&(**a).1), copy_types(&(**a).2))),
        ),
    }
}

fn copy_kw_call(x: &KwCall) -> (r: KwCall)
    ensures
        r@ == x@,
    decreases x@, 1nat,
{
    broadcast use lemma_kw_call_view;

    proof {
        lemma_kw_call_parts(x@);
    }
    KwCall {
        keywords: copy_fields(&x.keywords),
        return_ty: copy_type(&x.return_ty),
    }
}

fn copy_callable_residual(x: &CallableResidual) -> (r: CallableResidual)
    ensures
        r@ == x@,
    decreases x@, 1nat,
{
    broadcast use lemma_callable_residual_view;

    proof {
        lemma_callable_residual_parts(x@);
    }
    CallableResidual {
        captured: copy_types(&x.captured),
        fallback: copy_type(&x.fallback),
    }
}

fn copy_type_level_dsl_call(x: &TypeLevelDslCall) -> (r: TypeLevelDslCall)
    ensures
        r@ == x@,
    decreases x@, 1nat,
{
    broadcast use lemma_type_level_dsl_call_view;

    proof {
        lemma_type_level_dsl_call_parts(x@);
    }
    TypeLevelDslCall {
        function: x.function.clone(),
        args: copy_types(&x.args),
        result_schema: copy_type(&x.result_schema),
    }
}

fn copy_super_obj(x: &SuperObj) -> (r: SuperObj)
    ensures
        r@ == x@,
    decreases x@, 1nat,
{
    broadcast use lemma_super_obj_view;

    proof {
        lemma_super_obj_parts(x@);
    }
    match x {
        SuperObj::Instance(a) => SuperObj::Instance(copy_class_type(a)),
        SuperObj::Class(a) => SuperObj::Class(copy_class_type(a)),
    }
}

fn copy_type(x: &Type) -> (r: Type)
    ensures
        r@ == x@,
    decreases x@, 1nat,
{
    broadcast use lemma_type_view;

    proof {
        lemma_type_parts(x@);
    }
    match x {
        Type::Literal(a) => Type::Literal(Box::new(copy_literal(&**a))),
        Type::LiteralString(a) => Type::LiteralString(*a),
        Type::Callable(a) => Type::Callable(Box::new(copy_callable(&**a))),
        Type::CallableResidual(a) => Type::CallableResidual(Box::new(copy_callable_residual(&**a))),
        Type::TypeLevelDslCall(a) => {
            Type::TypeLevelDslCall(Box::new(copy_type_level_dsl_call(&**a)))
        },
        Type::Function(a) => Type::Function(Box::new(copy_function(&**a))),
        Type::BoundMethod(a) => Type::BoundMethod(Box::new(copy_bound_method(&**a))),
        Type::Overload(a) => Type::Overload(copy_overload(a)),
        Type::Union(a) => Type::Union(Box::new(copy_union(&**a))),
        Type::Intersect(a) => {
            Type::Intersect(Box::new((copy_types(&(**a).0), copy_type(&(**a).1))))
        },
        Type::ClassDef(a) => Type::ClassDef(a.clone()),
        Type::ClassType(a) => Type::ClassType(copy_class_type(a)),
        Type::TypedDict(a) => Type::TypedDict(copy_typed_dict(a)),
        Type::PartialTypedDict(a) => Type::PartialTypedDict(copy_typed_dict(a)),
        Type::ShapedArray(a) => Type::ShapedArray(Box::new(copy_shaped_array_type(&**a))),
        Type::IntTuple(a) => Type::IntTuple(Box::new(copy_int_tuple(&**a))),
        Type::NNModule(a) => Type::NNModule(Box::new(copy_nn_module_type(&**a))),
        Type::DataFrame(a) => Type::DataFrame(Box::new(copy_data_frame_schema(&**a))),
        Type::Series(a) => Type::Series(Box::new(copy_series_schema(&**a))),
        Type::Int(a) => Type::Int(copy_int(a)),
        Type::Tuple(a) => Type::Tuple(copy_tuple(a)),
        Type::Module(a) => Type::Module(a.clone()),
        Type::Forall(a) => Type::Forall(Box::new(copy_forall_forallable(&**a))),
        Type::Var(a) => Type::Var(*a),
        Type::Quantified(a) => Type::Quantified(Box::new(copy_quantified(&**a))),
        Type::QuantifiedValue(a) => Type::QuantifiedValue(Box::new(copy_quantified(&**a))),
        Type::ElementOfTypeVarTuple(a) => {
            Type::ElementOfTypeVarTuple(Box::new(copy_quantified(&**a)))
        },
        Type::TypeGuard(a) => Type::TypeGuard(Box::new(copy_type(&**a))),
        Type::TypeIs(a) => Type::TypeIs(Box::new(copy_type(&**a))),
        Type::Annotated(a, b) => Type::Annotated(Box::new(copy_type(&**a)), copy_types(b)),
        Type::Unpack(a) => Type::Unpack(Box::new(copy_type(&**a))),
        Type::TypeVar(a) => Type::TypeVar(a.clone()),
        Type::ParamSpec(a) => Type::ParamSpec(a.clone()),
        Type::TypeVarTuple(a) => Type::TypeVarTuple(a.clone()),
        Type::SpecialForm(a) => Type::SpecialForm(*a),
        Type::Concatenate(a, b) => Type::Concatenate(copy_param_seq(a), Box::new(copy_type(&**b))),
        Type::ParamSpecValue(a) => Type::ParamSpecValue(copy_param_list(a)),
        Type::Args(a) => Type::Args(Box::new(copy_quantified(&**a))),
        Type::Kwargs(a) => Type::Kwargs(Box::new(copy_quantified(&**a))),
        Type::ArgsValue(a) => Type::ArgsValue(Box::new(copy_quantified(&**a))),
        Type::KwargsValue(a) => Type::KwargsValue(Box::new(copy_quantified(&**a))),
        Type::Type(a) => Type::Type(Box::new(copy_type(&**a))),
        Type::TypeForm(a) => Type::TypeForm(Box::new(copy_type(&**a))),
        Type::Ellipsis => Type::Ellipsis,
        Type::Any(a) => Type::Any(*a),
        Type::Never(a) => Type::Never(*a),
        Type::TypeAlias(a) => Type::TypeAlias(Box::new(copy_type_alias_data(&**a))),
        Type::UntypedAlias(a) => Type::UntypedAlias(Box::new(copy_type_alias_data(&**a))),
        Type::Sentinel(a) => Type::Sentinel(a.clone()),
        Type::SuperInstance(a) => {
            Type::SuperInstance(Box::new((copy_class_type(&(**a).0), copy_super_obj(&(**a).1))))
        },
        Type::SelfType(a) => Type::SelfType(copy_class_type(a)),
        Type::KwCall(a) => Type::KwCall(Box::new(copy_kw_call(&**a))),
        Type::Materialization => Type::Materialization,
        Type::NoneType => Type::NoneType,
    }
}

fn copy_signatures(s: &Signatures) -> (r: Signatures)
    ensures
        signatures_of(r) == signatures_of(*s),
    decreases signatures_of(*s), 1nat,
{
    let v = s.as_vec();
    let r = copy_overloads(v);
    assert(view_overloads(r@).len() == view_overloads(v@).len());
    Signatures::from_vec(r)
}

impl Clone for Restriction {
    fn clone(&self) -> (r: Self)
        ensures
            r@ == self@,
    {
        copy_restriction(self)
    }
}

impl Clone for Quantified {
    fn clone(&self) -> (r: Self)
        ensures
            r@ == self@,
    {
        copy_quantified(self)
    }
}

impl Clone for TParams {
    fn clone(&self) -> (r: Self)
        ensures
            r@ == self@,
    {
        copy_tparams(self)
    }
}

impl Clone for TArgs {
    fn clone(&self) -> (r: Self)
        ensures
            r@ == self@,
    {
        copy_targs(self)
    }
}

impl Clone for ClassType {
    fn clone(&self) -> (r: Self)
        ensures
            r@ == self@,
    {
        copy_class_type(self)
    }
}

impl Clone for LitEnum {
    fn clone(&self) -> (r: Self)
        ensures
            r@ == self@,
    {
        copy_lit_enum(self)
    }
}

impl Clone for Lit {
    fn clone(&self) -> (r: Self)
        ensures
            r@ == self@,
    {
        copy_lit(self)
    }
}

impl Clone for Literal {
    fn clone(&self) -> (r: Self)
        ensures
            r@ == self@,
    {
        copy_literal(self)
    }
}

impl Clone for Param {
    fn clone(&self) -> (r: Self)
        ensures
            r@ == self@,
    {
        copy_param(self)
    }
}

impl Clone for ParamList {
    fn clone(&self) -> (r: Self)
        ensures
            r@ == self@,
    {
        copy_param_list(self)
    }
}

impl Clone for Params {
    fn clone(&self) -> (r: Self)
        ensures
            r@ == self@,
    {
        copy_params(self)
    }
}

impl Clone for Callable {
    fn clone(&self) -> (r: Self)
        ensures
            r@ == self@,
    {
        copy_callable(self)
    }
}

impl Clone for PropertyMetadata {
    fn clone(&self) -> (r: Self)
        ensures
            r@ == self@,
    {
        copy_property_metadata(self)
    }
}

impl Clone for FuncFlags {
    fn clone(&self) -> (r: Self)
        ensures
            r@ == self@,
    {
        copy_func_flags(self)
    }
}

impl Clone for FuncMetadata {
    fn clone(&self) -> (r: Self)
        ensures
            r@ == self@,
    {
        copy_func_metadata(self)
    }
}

impl Clone for Function {
    fn clone(&self) -> (r: Self)
        ensures
            r@ == self@,
    {
        copy_function(self)
    }
}

impl Clone for TypeAlias {
    fn clone(&self) -> (r: Self)
        ensures
            r@ == self@,
    {
        copy_type_alias(self)
    }
}

impl Clone for TypeAliasRef {
    fn clone(&self) -> (r: Self)
        ensures
            r@ == self@,
    {
        copy_type_alias_ref(self)
    }
}

impl Clone for TypeAliasData {
    fn clone(&self) -> (r: Self)
        ensures
            r@ == self@,
    {
        copy_type_alias_data(self)
    }
}

impl Clone for Forallable {
    fn clone(&self) -> (r: Self)
        ensures
            r@ == self@,
    {
        copy_forallable(self)
    }
}

impl Clone for OverloadType {
    fn clone(&self) -> (r: Self)
        ensures
            r@ == self@,
    {
        copy_overload_type(self)
    }
}

impl Clone for Overload {
    fn clone(&self) -> (r: Self)
        ensures
            r@ == self@,
    {
        copy_overload(self)
    }
}

impl Clone for BoundMethodType {
    fn clone(&self) -> (r: Self)
        ensures
            r@ == self@,
    {
        copy_bound_method_type(self)
    }
}

impl Clone for BoundMethod {
    fn clone(&self) -> (r: Self)
        ensures
            r@ == self@,
    {
        copy_bound_method(self)
    }
}

impl Clone for Union {
    fn clone(&self) -> (r: Self)
        ensures
            r@ == self@,
    {
        copy_union(self)
    }
}

impl Clone for TypedDict {
    fn clone(&self) -> (r: Self)
        ensures
            r@ == self@,
    {
        copy_typed_dict(self)
    }
}

impl Clone for Field {
    fn clone(&self) -> (r: Self)
        ensures
            r@ == self@,
    {
        copy_field(self)
    }
}

impl Clone for Int {
    fn clone(&self) -> (r: Self)
        ensures
            r@ == self@,
    {
        copy_int(self)
    }
}

impl Clone for IntTuple {
    fn clone(&self) -> (r: Self)
        ensures
            r@ == self@,
    {
        copy_int_tuple(self)
    }
}

impl Clone for ShapedArrayType {
    fn clone(&self) -> (r: Self)
        ensures
            r@ == self@,
    {
        copy_shaped_array_type(self)
    }
}

impl Clone for NNModuleType {
    fn clone(&self) -> (r: Self)
        ensures
            r@ == self@,
    {
        copy_nn_module_type(self)
    }
}

impl Clone for DataFrameSchema {
    fn clone(&self) -> (r: Self)
        ensures
            r@ == self@,
    {
        copy_data_frame_schema(self)
    }
}

impl Clone for SeriesSchema {
    fn clone(&self) -> (r: Self)
        ensures
            r@ == self@,
    {
        copy_series_schema(self)
    }
}

impl Clone for Tuple {
    fn clone(&self) -> (r: Self)
        ensures
            r@ == self@,
    {
        copy_tuple(self)
    }
}

impl Clone for KwCall {
    fn clone(&self) -> (r: Self)
        ensures
            r@ == self@,
    {
        copy_kw_call(self)
    }
}

impl Clone for CallableResidual {
    fn clone(&self) -> (r: Self)
        ensures
            r@ == self@,
    {
        copy_callable_residual(self)
    }
}

impl Clone for TypeLevelDslCall {
    fn clone(&self) -> (r: Self)
        ensures
            r@ == self@,
    {
        copy_type_level_dsl_call(self)
    }
}

impl Clone for SuperObj {
    fn clone(&self) -> (r: Self)
        ensures
            r@ == self@,
    {
        copy_super_obj(self)
    }
}

impl Clone for Type {
    fn clone(&self) -> (r: Self)
        ensures
            r@ == self@,
    {
        copy_type(self)
    }
}

impl Clone for Forall<Function> {
    fn clone(&self) -> (r: Self)
        ensures
            r@ == self@,
    {
        copy_forall_function(self)
    }
}

impl Clone for Forall<Forallable> {
    fn clone(&self) -> (r: Self)
        ensures
            r@ == self@,
    {
        copy_forall_forallable(self)
    }
}

} // verus!
