//! The `==` of types.
use vstd::prelude::*;
use vstd::set_lib::{lemma_int_range, lemma_subset_equality, set_int_range};
use vstd::std_specs::cmp::PartialEqSpecImpl;

use crate::data::{
    BoundMethod,
    BoundMethodType,
    Callable,
    CallableResidual,
    ClassType,
    DataFrameSchema,
    Field,
    Forall,
    Forallable,
    FuncFlags,
    FuncMetadata,
    Function,
    Int,
    IntTuple,
    KwCall,
    Lit,
    LitEnum,
    Literal,
    NNModuleType,
    Overload,
    OverloadType,
    Param,
    ParamList,
    Params,
    PropertyMetadata,
    Quantified,
    Restriction,
    SeriesSchema,
    ShapedArrayType,
    SuperObj,
    TArgs,
    TParams,
    Tuple,
    Type,
    TypeAlias,
    TypeAliasData,
    TypeAliasRef,
    TypeLevelDslCall,
    TypedDict,
    Union,
};
use crate::names::same_bytes;
use crate::outside::{fields_of, signatures_of, ModuleFields, Signatures};
use crate::parts::{
    lemma_bound_method_parts,
    lemma_bound_method_type_parts,
    lemma_callable_parts,
    lemma_callable_residual_parts,
    lemma_class_type_parts,
    lemma_data_frame_schema_parts,
    lemma_field_parts,
    lemma_forall_forallable_parts,
    lemma_forall_function_parts,
    lemma_forallable_parts,
    lemma_func_flags_parts,
    lemma_func_metadata_parts,
    lemma_function_parts,
    lemma_int_parts,
    lemma_kw_call_parts,
    lemma_lit_enum_parts,
    lemma_lit_parts,
    lemma_literal_parts,
    lemma_nn_module_type_parts,
    lemma_overload_parts,
    lemma_overload_type_parts,
    lemma_param_parts,
    lemma_params_parts,
    lemma_property_metadata_parts,
    lemma_quantified_parts,
    lemma_restriction_parts,
    lemma_series_schema_parts,
    lemma_shaped_array_type_parts,
    lemma_super_obj_parts,
    lemma_targs_parts,
    lemma_tuple_parts,
    lemma_type_alias_data_parts,
    lemma_type_alias_parts,
    lemma_type_alias_ref_parts,
    lemma_type_level_dsl_call_parts,
    lemma_type_parts,
    lemma_typed_dict_parts,
    lemma_union_parts,
};
use crate::same::{
    has_field,
    is_field,
    lemma_same_bound_method,
    lemma_same_bound_method_type,
    lemma_same_callable,
    lemma_same_callable_residual,
    lemma_same_class_type,
    lemma_same_data_frame_schema,
    lemma_same_field,
    lemma_same_forallable,
    lemma_same_func_flags,
    lemma_same_func_metadata,
    lemma_same_function,
    lemma_same_int,
    lemma_same_kw_call,
    lemma_same_lit,
    lemma_same_lit_enum,
    lemma_same_literal,
    lemma_same_nn_module_type,
    lemma_same_overload,
    lemma_same_overload_type,
    lemma_same_param,
    lemma_same_params,
    lemma_same_property_metadata,
    lemma_same_quantified,
    lemma_same_restriction,
    lemma_same_series_schema,
    lemma_same_shaped_array_type,
    lemma_same_super_obj,
    lemma_same_targs,
    lemma_same_tuple,
    lemma_same_type,
    lemma_same_type_alias,
    lemma_same_type_alias_data,
    lemma_same_type_alias_ref,
    lemma_same_type_level_dsl_call,
    lemma_same_typed_dict,
    lemma_same_union,
    same_bound_method,
    same_bound_method_type,
    same_callable,
    same_callable_residual,
    same_class_type,
    same_data_frame_schema,
    same_dims,
    same_field,
    same_fields,
    same_forall_forallable,
    same_forall_function,
    same_forallable,
    same_func_flags,
    same_func_metadata,
    same_function,
    same_int,
    same_kw_call,
    same_lit,
    same_lit_enum,
    same_literal,
    same_module_fields,
    same_nn_module_type,
    same_overload,
    same_overload_type,
    same_overloads,
    same_param,
    same_param_seq,
    same_params,
    same_property_metadata,
    same_quantified,
    same_quantifieds,
    same_restriction,
    same_series_schema,
    same_shaped_array_type,
    same_super_obj,
    same_targs,
    same_tuple,
    same_type,
    same_type_alias,
    same_type_alias_data,
    same_type_alias_ref,
    same_type_level_dsl_call,
    same_typed_dict,
    same_types,
    same_union,
};
use crate::view::{
    lemma_bound_method_type_view,
    lemma_bound_method_view,
    lemma_callable_residual_view,
    lemma_callable_view,
    lemma_class_type_view,
    lemma_data_frame_schema_view,
    lemma_field_view,
    lemma_forall_forallable_view,
    lemma_forall_function_view,
    lemma_forallable_view,
    lemma_func_flags_view,
    lemma_func_metadata_view,
    lemma_function_view,
    lemma_int_tuple_view,
    lemma_int_view,
    lemma_kw_call_view,
    lemma_lit_enum_view,
    lemma_lit_view,
    lemma_literal_view,
    lemma_nn_module_type_view,
    lemma_overload_type_view,
    lemma_overload_view,
    lemma_param_list_view,
    lemma_param_view,
    lemma_params_view,
    lemma_property_metadata_view,
    lemma_quantified_view,
    lemma_restriction_view,
    lemma_series_schema_view,
    lemma_shaped_array_type_view,
    lemma_super_obj_view,
    lemma_targs_view,
    lemma_tparams_view,
    lemma_tuple_view,
    lemma_type_alias_data_view,
    lemma_type_alias_ref_view,
    lemma_type_alias_view,
    lemma_type_level_dsl_call_view,
    lemma_type_view,
    lemma_typed_dict_view,
    lemma_union_view,
    view_dims,
    view_fields,
    view_overloads,
    view_param_seq,
    view_quantifieds,
    view_types,
    FieldView,
};

verus! {

fn eq_types(a: &Vec<Type>, b: &Vec<Type>) -> (r: bool)
    ensures
        r == same_types(view_types(a@), view_types(b@)),
    decreases view_types(a@), 0nat,
{
    if a.len() != b.len() {
        return false;
    }
    for i in 0..a.len()
        invariant
            a.len() == b.len(),
            forall|j: int|
                0 <= j < i ==> same_type(#[trigger] view_types(a@)[j], view_types(b@)[j]),
        decreases a.len() - i,
    {
        assert(decreases_to!(view_types(a@) => view_types(a@)[i as int]));
        if !eq_type(&a[i], &b[i]) {
            assert(!same_type(view_types(a@)[i as int], view_types(b@)[i as int]));
            return false;
        }
    }
    true
}

fn eq_param_seq(a: &Vec<Param>, b: &Vec<Param>) -> (r: bool)
    ensures
        r == same_param_seq(view_param_seq(a@), view_param_seq(b@)),
    decreases view_param_seq(a@), 0nat,
{
    if a.len() != b.len() {
        return false;
    }
    for i in 0..a.len()
        invariant
            a.len() == b.len(),
            forall|j: int|
                0 <= j < i ==> same_param(#[trigger] view_param_seq(a@)[j], view_param_seq(b@)[j]),
        decreases a.len() - i,
    {
        assert(decreases_to!(view_param_seq(a@) => view_param_seq(a@)[i as int]));
        if !eq_param(&a[i], &b[i]) {
            assert(!same_param(view_param_seq(a@)[i as int], view_param_seq(b@)[i as int]));
            return false;
        }
    }
    true
}

fn eq_fields(a: &Vec<Field>, b: &Vec<Field>) -> (r: bool)
    ensures
        r == same_fields(view_fields(a@), view_fields(b@)),
    decreases view_fields(a@), 0nat,
{
    if a.len() != b.len() {
        return false;
    }
    for i in 0..a.len()
        invariant
            a.len() == b.len(),
            forall|j: int|
                0 <= j < i ==> same_field(#[trigger] view_fields(a@)[j], view_fields(b@)[j]),
        decreases a.len() - i,
    {
        assert(decreases_to!(view_fields(a@) => view_fields(a@)[i as int]));
        if !eq_field(&a[i], &b[i]) {
            assert(!same_field(view_fields(a@)[i as int], view_fields(b@)[i as int]));
            return false;
        }
    }
    true
}

fn eq_quantifieds(a: &Vec<Quantified>, b: &Vec<Quantified>) -> (r: bool)
    ensures
        r == same_quantifieds(view_quantifieds(a@), view_quantifieds(b@)),
    decreases view_quantifieds(a@), 0nat,
{
    if a.len() != b.len() {
        return false;
    }
    for i in 0..a.len()
        invariant
            a.len() == b.len(),
            forall|j: int|
                0 <= j < i ==> same_quantified(
                    #[trigger] view_quantifieds(a@)[j],
                    view_quantifieds(b@)[j],
                ),
        decreases a.len() - i,
    {
        assert(decreases_to!(view_quantifieds(a@) => view_quantifieds(a@)[i as int]));
        if !eq_quantified(&a[i], &b[i]) {
            assert(
                !same_quantified(view_quantifieds(a@)[i as int], view_quantifieds(b@)[i as int])
            );
            return false;
        }
    }
    true
}

fn eq_overloads(a: &Vec<OverloadType>, b: &Vec<OverloadType>) -> (r: bool)
    ensures
        r == same_overloads(view_overloads(a@), view_overloads(b@)),
    decreases view_overloads(a@), 0nat,
{
    if a.len() != b.len() {
        return false;
    }
    for i in 0..a.len()
        invariant
            a.len() == b.len(),
            forall|j: int|
                0 <= j < i ==> same_overload_type(
                    #[trigger] view_overloads(a@)[j],
                    view_overloads(b@)[j],
                ),
        decreases a.len() - i,
    {
        assert(decreases_to!(view_overloads(a@) => view_overloads(a@)[i as int]));
        if !eq_overload_type(&a[i], &b[i]) {
            assert(!same_overload_type(view_overloads(a@)[i as int], view_overloads(b@)[i as int]));
            return false;
        }
    }
    true
}

fn eq_dims(a: &Vec<Int>, b: &Vec<Int>) -> (r: bool)
    ensures
        r == same_dims(view_dims(a@), view_dims(b@)),
    decreases view_dims(a@), 0nat,
{
    if a.len() != b.len() {
        return false;
    }
    for i in 0..a.len()
        invariant
            a.len() == b.len(),
            forall|j: int|
                0 <= j < i ==> same_int(#[trigger] view_dims(a@)[j], view_dims(b@)[j]),
        decreases a.len() - i,
    {
        assert(decreases_to!(view_dims(a@) => view_dims(a@)[i as int]));
        if !eq_int(&a[i], &b[i]) {
            assert(!same_int(view_dims(a@)[i as int], view_dims(b@)[i as int]));
            return false;
        }
    }
    true
}

fn eq_signatures(a: &Signatures, b: &Signatures) -> (r: bool)
    ensures
        r == same_overloads(signatures_of(*a), signatures_of(*b)),
    decreases signatures_of(*a), 1nat,
{
    eq_overloads(a.as_vec(), b.as_vec())
}

/// A sequence of `n` different numbers below `n` holds all of them.
proof fn lemma_all_numbers(js: Seq<int>, n: int, j: int)
    requires
        js.len() == n,
        js.no_duplicates(),
        forall|i: int| 0 <= i < n ==> 0 <= #[trigger] js[i] < n,
        0 <= j < n,
    ensures
        js.contains(j),
{
    let range = set_int_range(0, n);
    js.unique_seq_to_set();
    lemma_int_range(0, n);
    assert forall|k: int| js.to_set().contains(k) implies range.contains(k) by {
        let i = choose|i: int| 0 <= i < js.len() && js[i] == k;
    }
    lemma_subset_equality(js.to_set(), range);
    assert(range.contains(j));
}

/// Does `s` have just one field of the given name?
spec fn is_alone(s: Seq<FieldView>, name: Seq<char>) -> bool {
    forall|j: int, k: int|
        0 <= j < s.len() && 0 <= k < s.len() && (#[trigger] s[j]).name == name && (
        #[trigger] s[k]).name == name ==> j == k
}

/// Where there are as many fields in `b` as in `a`, the names in `a` differ, and each field of `a`
/// has one field of `b` that agrees with it, each field of `b` has one in `a`.
proof fn lemma_fields_agree(a: Seq<FieldView>, b: Seq<FieldView>)
    requires
        a.len() == b.len(),
        forall|i: int, j: int|
            0 <= i < a.len() && 0 <= j < a.len() && i != j ==> (#[trigger] a[i]).name != (
            #[trigger] a[j]).name,
        forall|i: int|
            0 <= i < a.len() ==> has_field(b, (#[trigger] a[i]).name, a[i].ty) && is_alone(
                b,
                a[i].name,
            ),
    ensures
        same_module_fields(a, b),
{
    let n = a.len() as int;
    let js = Seq::new(
        a.len(),
        |i: int|
            choose|j: int|
                0 <= j < b.len() && (#[trigger] b[j]).name == a[i].name && same_type(
                    a[i].ty,
                    b[j].ty,
                ),
    );
    assert forall|i: int| 0 <= i < n implies 0 <= #[trigger] js[i] < n && b[js[i]].name == a[i].name
        && same_type(a[i].ty, b[js[i]].ty) by {
        assert(has_field(b, a[i].name, a[i].ty));
        reveal(has_field);
    }
    assert(js.no_duplicates()) by {
        assert forall|i: int, k: int| 0 <= i < n && 0 <= k < n && i != k implies js[i] != js[k] by {
            assert(a[i].name != a[k].name);
        }
    }
    assert forall|j: int| 0 <= j < b.len() implies is_field(a, (#[trigger] b[j]).name, b[j].ty) by {
        lemma_all_numbers(js, n, j);
        reveal(is_field);
        let i = choose|i: int| 0 <= i < js.len() && js[i] == j;
        assert(a[i].name == b[j].name && same_type(a[i].ty, b[j].ty));
    }
}

/// Is there a field in `b` of the given name and type?
fn eq_module_field(name: &String, ty: &Type, b: &ModuleFields) -> (r: bool)
    ensures
        r == has_field(fields_of(*b), name@, ty@),
        r ==> is_alone(fields_of(*b), name@),
    decreases ty@, 2nat,
{
    reveal(has_field);
    let ghost s = fields_of(*b);
    let n = b.len();
    for j in 0..n
        invariant
            s == fields_of(*b),
            n == s.len(),
            forall|k: int| 0 <= k < j ==> (#[trigger] s[k]).name != name@,
        decreases n - j,
    {
        let (other_name, other_ty) = b.get(j);
        if *name == *other_name {
            proof {
                reveal(has_field);
                assert forall|k: int| 0 <= k < s.len() && k != j implies (#[trigger] s[k]).name
                    != name@ by {
                    assert(fields_of(*b)[k].name != other_name@);
                }
                if has_field(s, name@, ty@) {
                    let k = choose|k: int|
                        0 <= k < s.len() && (#[trigger] s[k]).name == name@ && same_type(
                            ty@,
                            s[k].ty,
                        );
                    assert(k == j);
                }
                assert(s[j as int].name == name@);
            }
            return eq_type(ty, other_ty);
        }
    }
    false
}

fn eq_module_fields(a: &ModuleFields, b: &ModuleFields) -> (r: bool)
    ensures
        r == same_module_fields(fields_of(*a), fields_of(*b)),
    decreases fields_of(*a), 1nat,
{
    let n = a.len();
    if n != b.len() {
        return false;
    }
    let ghost s = fields_of(*a);
    for i in 0..n
        invariant
            s == fields_of(*a),
            n == s.len(),
            n == fields_of(*b).len(),
            forall|k: int, j: int|
                0 <= k < i && 0 <= j < n && k != j ==> (#[trigger] s[k]).name != (
                #[trigger] s[j]).name,
            forall|k: int|
                0 <= k < i ==> has_field(fields_of(*b), (#[trigger] s[k]).name, s[k].ty)
                    && is_alone(fields_of(*b), s[k].name),
        decreases n - i,
    {
        let (name, ty) = a.get(i);
        proof {
            assert(decreases_to!(s => s[i as int]));
            lemma_field_parts(s[i as int]);
            assert forall|j: int| 0 <= j < n && j != i implies (#[trigger] s[j]).name
                != s[i as int].name by {
                assert(fields_of(*a)[j].name != name@);
            }
        }
        if !eq_module_field(name, ty, b) {
            assert(!has_field(fields_of(*b), s[i as int].name, s[i as int].ty));
            return false;
        }
    }
    proof {
        lemma_fields_agree(s, fields_of(*b));
    }
    true
}

fn eq_forall_function(a: &Forall<Function>, b: &Forall<Function>) -> (r: bool)
    ensures
        r == same_forall_function(a@, b@),
    decreases a@, 1nat,
{
    broadcast use lemma_forall_function_view;

    proof {
        lemma_forall_function_parts(a@);
    }
    eq_tparams(&*a.tparams, &*b.tparams) && eq_function(&a.body, &b.body)
}

fn eq_forall_forallable(a: &Forall<Forallable>, b: &Forall<Forallable>) -> (r: bool)
    ensures
        r == same_forall_forallable(a@, b@),
    decreases a@, 1nat,
{
    broadcast use lemma_forall_forallable_view;

    proof {
        lemma_forall_forallable_parts(a@);
    }
    eq_tparams(&*a.tparams, &*b.tparams) && eq_forallable(&a.body, &b.body)
}

fn eq_restriction(a: &Restriction, b: &Restriction) -> (r: bool)
    ensures
        r == same_restriction(a@, b@),
    decreases a@, 1nat,
{
    broadcast use lemma_restriction_view;

    proof {
        lemma_same_restriction(a@, b@);
        lemma_restriction_parts(a@);
    }
    match (a, b) {
        (Restriction::Bound(x), Restriction::Bound(y)) => eq_type(x, y),
        (Restriction::Constraints(x), Restriction::Constraints(y)) => eq_types(x, y),
        (Restriction::Unrestricted, Restriction::Unrestricted) => true,
        _ => false,
    }
}

fn eq_quantified(a: &Quantified, b: &Quantified) -> (r: bool)
    ensures
        r == same_quantified(a@, b@),
    decreases a@, 1nat,
{
    broadcast use lemma_quantified_view;

    proof {
        lemma_same_quantified(a@, b@);
        lemma_quantified_parts(a@);
    }
    a.identity.same(&b.identity)
        && a.name.same(&b.name)
        && a.kind == b.kind
        && (match (&a.default, &b.default) {
            (Some(x), Some(y)) => eq_type(x, y),
            (None, None) => true,
            _ => false,
        })
        && eq_restriction(&a.restriction, &b.restriction)
        && a.variance == b.variance
}

fn eq_tparams(a: &TParams, b: &TParams) -> (r: bool)
    ensures
        r == same_quantifieds(a@, b@),
    decreases a@, 1nat,
{
    broadcast use lemma_tparams_view;

    eq_quantifieds(&a.params, &b.params)
}

fn eq_targs(a: &TArgs, b: &TArgs) -> (r: bool)
    ensures
        r == same_targs(a@, b@),
    decreases a@, 1nat,
{
    broadcast use lemma_targs_view;

    proof {
        lemma_same_targs(a@, b@);
        lemma_targs_parts(a@);
    }
    eq_tparams(&*a.tparams, &*b.tparams) && eq_types(&a.args, &b.args)
}

fn eq_class_type(a: &ClassType, b: &ClassType) -> (r: bool)
    ensures
        r == same_class_type(a@, b@),
    decreases a@, 1nat,
{
    broadcast use lemma_class_type_view;

    proof {
        lemma_same_class_type(a@, b@);
        lemma_class_type_parts(a@);
    }
    a.class.same(&b.class) && eq_targs(&a.targs, &b.targs)
}

fn eq_lit_enum(a: &LitEnum, b: &LitEnum) -> (r: bool)
    ensures
        r == same_lit_enum(a@, b@),
    decreases a@, 1nat,
{
    broadcast use lemma_lit_enum_view;

    proof {
        lemma_same_lit_enum(a@, b@);
        lemma_lit_enum_parts(a@);
    }
    eq_class_type(&a.class, &b.class) && a.member.same(&b.member)
}

fn eq_lit(a: &Lit, b: &Lit) -> (r: bool)
    ensures
        r == same_lit(a@, b@),
    decreases a@, 1nat,
{
    broadcast use lemma_lit_view;

    proof {
        lemma_same_lit(a@, b@);
        lemma_lit_parts(a@);
    }
    match (a, b) {
        (Lit::Str(x), Lit::Str(y)) => x.same(y),
        (Lit::Int(x), Lit::Int(y)) => x.same(y),
        (Lit::Bool(x), Lit::Bool(y)) => *x == *y,
        (Lit::Bytes(x), Lit::Bytes(y)) => same_bytes(x, y),
        (Lit::Enum(x), Lit::Enum(y)) => eq_lit_enum(&**x, &**y),
        _ => false,
    }
}

fn eq_literal(a: &Literal, b: &Literal) -> (r: bool)
    ensures
        r == same_literal(a@, b@),
    decreases a@, 1nat,
{
    broadcast use lemma_literal_view;

    proof {
        lemma_same_literal(a@, b@);
        lemma_literal_parts(a@);
    }
    eq_lit(&a.value, &b.value) && a.style == b.style
}

fn eq_param(a: &Param, b: &Param) -> (r: bool)
    ensures
        r == same_param(a@, b@),
    decreases a@, 1nat,
{
    broadcast use lemma_param_view;

    proof {
        lemma_same_param(a@, b@);
        lemma_param_parts(a@);
    }
    (match (&a.name, &b.name) { (Some(x), Some(y)) => x.same(y), (None, None) => true, _ => false })
        && a.kind == b.kind
        && a.required == b.required
        && eq_type(&a.ty, &b.ty)
}

fn eq_param_list(a: &ParamList, b: &ParamList) -> (r: bool)
    ensures
        r == same_param_seq(a@, b@),
    decreases a@, 1nat,
{
    broadcast use lemma_param_list_view;

    eq_param_seq(&a.items, &b.items)
}

fn eq_params(a: &Params, b: &Params) -> (r: bool)
    ensures
        r == same_params(a@, b@),
    decreases a@, 1nat,
{
    broadcast use lemma_params_view;

    proof {
        lemma_same_params(a@, b@);
        lemma_params_parts(a@);
    }
    match (a, b) {
        (Params::List(x), Params::List(y)) => eq_param_list(x, y),
        (Params::Ellipsis, Params::Ellipsis) => true,
        (Params::Materialization, Params::Materialization) => true,
        (Params::ParamSpec(x, x2), Params::ParamSpec(y, y2)) => eq_param_seq(x, y)
            && eq_type(x2, y2),
        _ => false,
    }
}

fn eq_callable(a: &Callable, b: &Callable) -> (r: bool)
    ensures
        r == same_callable(a@, b@),
    decreases a@, 1nat,
{
    broadcast use lemma_callable_view;

    proof {
        lemma_same_callable(a@, b@);
        lemma_callable_parts(a@);
    }
    eq_params(&a.params, &b.params) && eq_type(&a.ret, &b.ret)
}

fn eq_property_metadata(a: &PropertyMetadata, b: &PropertyMetadata) -> (r: bool)
    ensures
        r == same_property_metadata(a@, b@),
    decreases a@, 1nat,
{
    broadcast use lemma_property_metadata_view;

    proof {
        lemma_same_property_metadata(a@, b@);
        lemma_property_metadata_parts(a@);
    }
    a.role == b.role && eq_type(&a.getter, &b.getter)
}

fn eq_func_flags(a: &FuncFlags, b: &FuncFlags) -> (r: bool)
    ensures
        r == same_func_flags(a@, b@),
    decreases a@, 1nat,
{
    broadcast use lemma_func_flags_view;

    proof {
        lemma_same_func_flags(a@, b@);
        lemma_func_flags_parts(a@);
    }
    a.is_overload == b.is_overload
        && a.is_cached_property == b.is_cached_property
        && a.is_abstract_method == b.is_abstract_method
        && a.is_override == b.is_override
        && a.is_assert_shape == b.is_assert_shape
        && a.has_enum_member_decoration == b.has_enum_member_decoration
        && a.has_final_decoration == b.has_final_decoration
        && (match (&a.property_metadata, &b.property_metadata) {
            (Some(x), Some(y)) => eq_property_metadata(x, y),
            (None, None) => true,
            _ => false,
        })
        && (match (&a.deprecation, &b.deprecation) {
            (Some(x), Some(y)) => x.same(y),
            (None, None) => true,
            _ => false,
        })
        && (match (&a.dataclass_transform_metadata, &b.dataclass_transform_metadata) {
            (Some(x), Some(y)) => *x == *y,
            (None, None) => true,
            _ => false,
        })
}

fn eq_func_metadata(a: &FuncMetadata, b: &FuncMetadata) -> (r: bool)
    ensures
        r == same_func_metadata(a@, b@),
    decreases a@, 1nat,
{
    broadcast use lemma_func_metadata_view;

    proof {
        lemma_same_func_metadata(a@, b@);
        lemma_func_metadata_parts(a@);
    }
    a.kind.same(&b.kind) && eq_func_flags(&a.flags, &b.flags)
}

fn eq_function(a: &Function, b: &Function) -> (r: bool)
    ensures
        r == same_function(a@, b@),
    decreases a@, 1nat,
{
    broadcast use lemma_function_view;

    proof {
        lemma_same_function(a@, b@);
        lemma_function_parts(a@);
    }
    eq_callable(&a.signature, &b.signature) && eq_func_metadata(&a.metadata, &b.metadata)
}

fn eq_type_alias(a: &TypeAlias, b: &TypeAlias) -> (r: bool)
    ensures
        r == same_type_alias(a@, b@),
    decreases a@, 1nat,
{
    broadcast use lemma_type_alias_view;

    proof {
        lemma_same_type_alias(a@, b@);
        lemma_type_alias_parts(a@);
    }
    a.name.same(&b.name) && eq_type(&a.ty, &b.ty)
}

fn eq_type_alias_ref(a: &TypeAliasRef, b: &TypeAliasRef) -> (r: bool)
    ensures
        r == same_type_alias_ref(a@, b@),
    decreases a@, 1nat,
{
    broadcast use lemma_type_alias_ref_view;

    proof {
        lemma_same_type_alias_ref(a@, b@);
        lemma_type_alias_ref_parts(a@);
    }
    a.name.same(&b.name)
        && (match (&a.args, &b.args) {
            (Some(x), Some(y)) => eq_targs(x, y),
            (None, None) => true,
            _ => false,
        })
}

fn eq_type_alias_data(a: &TypeAliasData, b: &TypeAliasData) -> (r: bool)
    ensures
        r == same_type_alias_data(a@, b@),
    decreases a@, 1nat,
{
    broadcast use lemma_type_alias_data_view;

    proof {
        lemma_same_type_alias_data(a@, b@);
        lemma_type_alias_data_parts(a@);
    }
    match (a, b) {
        (TypeAliasData::Value(x), TypeAliasData::Value(y)) => eq_type_alias(x, y),
        (TypeAliasData::Ref(x), TypeAliasData::Ref(y)) => eq_type_alias_ref(x, y),
        _ => false,
    }
}

fn eq_forallable(a: &Forallable, b: &Forallable) -> (r: bool)
    ensures
        r == same_forallable(a@, b@),
    decreases a@, 1nat,
{
    broadcast use lemma_forallable_view;

    proof {
        lemma_same_forallable(a@, b@);
        lemma_forallable_parts(a@);
    }
    match (a, b) {
        (Forallable::TypeAlias(x), Forallable::TypeAlias(y)) => eq_type_alias_data(x, y),
        (Forallable::Function(x), Forallable::Function(y)) => eq_function(x, y),
        (Forallable::Callable(x), Forallable::Callable(y)) => eq_callable(x, y),
        _ => false,
    }
}

fn eq_overload_type(a: &OverloadType, b: &OverloadType) -> (r: bool)
    ensures
        r == same_overload_type(a@, b@),
    decreases a@, 1nat,
{
    broadcast use lemma_overload_type_view;

    proof {
        lemma_same_overload_type(a@, b@);
        lemma_overload_type_parts(a@);
    }
    match (a, b) {
        (OverloadType::Function(x), OverloadType::Function(y)) => eq_function(x, y),
        (OverloadType::Forall(x), OverloadType::Forall(y)) => eq_forall_function(x, y),
        _ => false,
    }
}

fn eq_overload(a: &Overload, b: &Overload) -> (r: bool)
    ensures
        r == same_overload(a@, b@),
    decreases a@, 1nat,
{
    broadcast use lemma_overload_view;

    proof {
        lemma_same_overload(a@, b@);
        lemma_overload_parts(a@);
    }
    eq_signatures(&a.signatures, &b.signatures) && eq_func_metadata(&*a.metadata, &*b.metadata)
}

fn eq_bound_method_type(a: &BoundMethodType, b: &BoundMethodType) -> (r: bool)
    ensures
        r == same_bound_method_type(a@, b@),
    decreases a@, 1nat,
{
    broadcast use lemma_bound_method_type_view;

    proof {
        lemma_same_bound_method_type(a@, b@);
        lemma_bound_method_type_parts(a@);
    }
    match (a, b) {
        (BoundMethodType::Function(x), BoundMethodType::Function(y)) => eq_function(x, y),
        (BoundMethodType::Forall(x), BoundMethodType::Forall(y)) => eq_forall_function(x, y),
        (BoundMethodType::Overload(x), BoundMethodType::Overload(y)) => eq_overload(x, y),
        _ => false,
    }
}

fn eq_bound_method(a: &BoundMethod, b: &BoundMethod) -> (r: bool)
    ensures
        r == same_bound_method(a@, b@),
    decreases a@, 1nat,
{
    broadcast use lemma_bound_method_view;

    proof {
        lemma_same_bound_method(a@, b@);
        lemma_bound_method_parts(a@);
    }
    eq_type(&a.obj, &b.obj) && eq_bound_method_type(&a.func, &b.func)
}

fn eq_union(a: &Union, b: &Union) -> (r: bool)
    ensures
        r == same_union(a@, b@),
    decreases a@, 1nat,
{
    broadcast use lemma_union_view;

    proof {
        lemma_same_union(a@, b@);
        lemma_union_parts(a@);
    }
    eq_types(&a.members, &b.members)
}

fn eq_typed_dict(a: &TypedDict, b: &TypedDict) -> (r: bool)
    ensures
        r == same_typed_dict(a@, b@),
    decreases a@, 1nat,
{
    broadcast use lemma_typed_dict_view;

    proof {
        lemma_same_typed_dict(a@, b@);
        lemma_typed_dict_parts(a@);
    }
    match (a, b) {
        (TypedDict::TypedDict(x), TypedDict::TypedDict(y)) => eq_class_type(x, y),
        (TypedDict::Anonymous(x), TypedDict::Anonymous(y)) => eq_fields(x, y),
        _ => false,
    }
}

fn eq_field(a: &Field, b: &Field) -> (r: bool)
    ensures
        r == same_field(a@, b@),
    decreases a@, 1nat,
{
    broadcast use lemma_field_view;

    proof {
        lemma_same_field(a@, b@);
        lemma_field_parts(a@);
    }
    a.name.same(&b.name) && eq_type(&a.ty, &b.ty)
}

fn eq_int(a: &Int, b: &Int) -> (r: bool)
    ensures
        r == same_int(a@, b@),
    decreases a@, 1nat,
{
    broadcast use lemma_int_view;

    proof {
        lemma_same_int(a@, b@);
        lemma_int_parts(a@);
    }
    match (a, b) {
        (Int::Literal(x), Int::Literal(y)) => *x == *y,
        (Int::Symbolic(x), Int::Symbolic(y)) => eq_type(&**x, &**y),
        (Int::Gradual, Int::Gradual) => true,
        (Int::Materialization, Int::Materialization) => true,
        _ => false,
    }
}

fn eq_int_tuple(a: &IntTuple, b: &IntTuple) -> (r: bool)
    ensures
        r == same_dims(a@, b@),
    decreases a@, 1nat,
{
    broadcast use lemma_int_tuple_view;

    eq_dims(&a.dims, &b.dims)
}

fn eq_shaped_array_type(a: &ShapedArrayType, b: &ShapedArrayType) -> (r: bool)
    ensures
        r == same_shaped_array_type(a@, b@),
    decreases a@, 1nat,
{
    broadcast use lemma_shaped_array_type_view;

    proof {
        lemma_same_shaped_array_type(a@, b@);
        lemma_shaped_array_type_parts(a@);
    }
    eq_class_type(&a.base_class, &b.base_class) && eq_int_tuple(&a.shape, &b.shape)
}

fn eq_nn_module_type(a: &NNModuleType, b: &NNModuleType) -> (r: bool)
    ensures
        r == same_nn_module_type(a@, b@),
    decreases a@, 1nat,
{
    broadcast use lemma_nn_module_type_view;

    proof {
        lemma_same_nn_module_type(a@, b@);
        lemma_nn_module_type_parts(a@);
    }
    eq_class_type(&a.class, &b.class) && eq_module_fields(&a.fields, &b.fields)
}

fn eq_data_frame_schema(a: &DataFrameSchema, b: &DataFrameSchema) -> (r: bool)
    ensures
        r == same_data_frame_schema(a@, b@),
    decreases a@, 1nat,
{
    broadcast use lemma_data_frame_schema_view;

    proof {
        lemma_same_data_frame_schema(a@, b@);
        lemma_data_frame_schema_parts(a@);
    }
    eq_class_type(&a.class, &b.class) && eq_fields(&a.columns, &b.columns)
}

fn eq_series_schema(a: &SeriesSchema, b: &SeriesSchema) -> (r: bool)
    ensures
        r == same_series_schema(a@, b@),
    decreases a@, 1nat,
{
    broadcast use lemma_series_schema_view;

    proof {
        lemma_same_series_schema(a@, b@);
        lemma_series_schema_parts(a@);
    }
    eq_class_type(&a.class, &b.class) && eq_type(&a.element, &b.element)
}

fn eq_tuple(a: &Tuple, b: &Tuple) -> (r: bool)
    ensures
        r == same_tuple(a@, b@),
    decreases a@, 1nat,
{
    broadcast use lemma_tuple_view;

    proof {
        lemma_same_tuple(a@, b@);
        lemma_tuple_parts(a@);
    }
    match (a, b) {
        (Tuple::Concrete(x), Tuple::Concrete(y)) => eq_types(x, y),
        (Tuple::Unbounded(x), Tuple::Unbounded(y)) => eq_type(&**x, &**y),
        (Tuple::Unpacked(x), Tuple::Unpacked(y)) => eq_types(&(**x).0, &(**y).0)
            && eq_type(&(**x).1, &(**y).1)
            && eq_types(&(**x).2, &(**y).2),
        _ => false,
    }
}

fn eq_kw_call(a: &KwCall, b: &KwCall) -> (r: bool)
    ensures
        r == same_kw_call(a@, b@),
    decreases a@, 1nat,
{
    broadcast use lemma_kw_call_view;

    proof {
        lemma_same_kw_call(a@, b@);
        lemma_kw_call_parts(a@);
    }
    eq_fields(&a.keywords, &b.keywords) && eq_type(&a.return_ty, &b.return_ty)
}

fn eq_callable_residual(a: &CallableResidual, b: &CallableResidual) -> (r: bool)
    ensures
        r == same_callable_residual(a@, b@),
    decreases a@, 1nat,
{
    broadcast use lemma_callable_residual_view;

    proof {
        lemma_same_callable_residual(a@, b@);
        lemma_callable_residual_parts(a@);
    }
    eq_types(&a.captured, &b.captured) && eq_type(&a.fallback, &b.fallback)
}

fn eq_type_level_dsl_call(a: &TypeLevelDslCall, b: &TypeLevelDslCall) -> (r: bool)
    ensures
        r == same_type_level_dsl_call(a@, b@),
    decreases a@, 1nat,
{
    broadcast use lemma_type_level_dsl_call_view;

    proof {
        lemma_same_type_level_dsl_call(a@, b@);
        lemma_type_level_dsl_call_parts(a@);
    }
    a.function.same(&b.function)
        && eq_types(&a.args, &b.args)
        && eq_type(&a.result_schema, &b.result_schema)
}

fn eq_super_obj(a: &SuperObj, b: &SuperObj) -> (r: bool)
    ensures
        r == same_super_obj(a@, b@),
    decreases a@, 1nat,
{
    broadcast use lemma_super_obj_view;

    proof {
        lemma_same_super_obj(a@, b@);
        lemma_super_obj_parts(a@);
    }
    match (a, b) {
        (SuperObj::Instance(x), SuperObj::Instance(y)) => eq_class_type(x, y),
        (SuperObj::Class(x), SuperObj::Class(y)) => eq_class_type(x, y),
        _ => false,
    }
}

#[verifier::rlimit(80)]
#[verifier::spinoff_prover]
fn eq_type(a: &Type, b: &Type) -> (r: bool)
    ensures
        r == same_type(a@, b@),
    decreases a@, 1nat,
{
    proof {
        lemma_type_view(*a);
        lemma_type_view(*b);
        lemma_same_type(a@, b@);
        lemma_type_parts(a@);
    }
    match a {
        Type::Literal(x) => match b {
            Type::Literal(y) => eq_literal(&**x, &**y),
            _ => false,
        },
        Type::LiteralString(x) => match b {
            Type::LiteralString(y) => *x == *y,
            _ => false,
        },
        Type::Callable(x) => match b {
            Type::Callable(y) => eq_callable(&**x, &**y),
            _ => false,
        },
        Type::CallableResidual(x) => match b {
            Type::CallableResidual(y) => eq_callable_residual(&**x, &**y),
            _ => false,
        },
        Type::TypeLevelDslCall(x) => match b {
            Type::TypeLevelDslCall(y) => eq_type_level_dsl_call(&**x, &**y),
            _ => false,
        },
        Type::Function(x) => match b {
            Type::Function(y) => eq_function(&**x, &**y),
            _ => false,
        },
        Type::BoundMethod(x) => match b {
            Type::BoundMethod(y) => eq_bound_method(&**x, &**y),
            _ => false,
        },
        Type::Overload(x) => match b {
            Type::Overload(y) => eq_overload(x, y),
            _ => false,
        },
        Type::Union(x) => match b {
            Type::Union(y) => eq_union(&**x, &**y),
            _ => false,
        },
        Type::Intersect(x) => match b {
            Type::Intersect(y) => eq_types(&(**x).0, &(**y).0) && eq_type(&(**x).1, &(**y).1),
            _ => false,
        },
        Type::ClassDef(x) => match b {
            Type::ClassDef(y) => x.same(y),
            _ => false,
        },
        Type::ClassType(x) => match b {
            Type::ClassType(y) => eq_class_type(x, y),
            _ => false,
        },
        Type::TypedDict(x) => match b {
            Type::TypedDict(y) => eq_typed_dict(x, y),
            _ => false,
        },
        Type::PartialTypedDict(x) => match b {
            Type::PartialTypedDict(y) => eq_typed_dict(x, y),
            _ => false,
        },
        Type::ShapedArray(x) => match b {
            Type::ShapedArray(y) => eq_shaped_array_type(&**x, &**y),
            _ => false,
        },
        Type::IntTuple(x) => match b {
            Type::IntTuple(y) => eq_int_tuple(&**x, &**y),
            _ => false,
        },
        Type::NNModule(x) => match b {
            Type::NNModule(y) => eq_nn_module_type(&**x, &**y),
            _ => false,
        },
        Type::DataFrame(x) => match b {
            Type::DataFrame(y) => eq_data_frame_schema(&**x, &**y),
            _ => false,
        },
        Type::Series(x) => match b {
            Type::Series(y) => eq_series_schema(&**x, &**y),
            _ => false,
        },
        Type::Int(x) => match b {
            Type::Int(y) => eq_int(x, y),
            _ => false,
        },
        Type::Tuple(x) => match b {
            Type::Tuple(y) => eq_tuple(x, y),
            _ => false,
        },
        Type::Module(x) => match b {
            Type::Module(y) => x.same(y),
            _ => false,
        },
        Type::Forall(x) => match b {
            Type::Forall(y) => eq_forall_forallable(&**x, &**y),
            _ => false,
        },
        Type::Var(x) => match b {
            Type::Var(y) => *x == *y,
            _ => false,
        },
        Type::Quantified(x) => match b {
            Type::Quantified(y) => eq_quantified(&**x, &**y),
            _ => false,
        },
        Type::QuantifiedValue(x) => match b {
            Type::QuantifiedValue(y) => eq_quantified(&**x, &**y),
            _ => false,
        },
        Type::ElementOfTypeVarTuple(x) => match b {
            Type::ElementOfTypeVarTuple(y) => eq_quantified(&**x, &**y),
            _ => false,
        },
        Type::TypeGuard(x) => match b {
            Type::TypeGuard(y) => eq_type(&**x, &**y),
            _ => false,
        },
        Type::TypeIs(x) => match b {
            Type::TypeIs(y) => eq_type(&**x, &**y),
            _ => false,
        },
        Type::Annotated(x, x2) => match b {
            Type::Annotated(y, y2) => eq_type(&**x, &**y) && eq_types(x2, y2),
            _ => false,
        },
        Type::Unpack(x) => match b {
            Type::Unpack(y) => eq_type(&**x, &**y),
            _ => false,
        },
        Type::TypeVar(x) => match b {
            Type::TypeVar(y) => x.same(y),
            _ => false,
        },
        Type::ParamSpec(x) => match b {
            Type::ParamSpec(y) => x.same(y),
            _ => false,
        },
        Type::TypeVarTuple(x) => match b {
            Type::TypeVarTuple(y) => x.same(y),
            _ => false,
        },
        Type::SpecialForm(x) => match b {
            Type::SpecialForm(y) => *x == *y,
            _ => false,
        },
        Type::Concatenate(x, x2) => match b {
            Type::Concatenate(y, y2) => eq_param_seq(x, y) && eq_type(&**x2, &**y2),
            _ => false,
        },
        Type::ParamSpecValue(x) => match b {
            Type::ParamSpecValue(y) => eq_param_list(x, y),
            _ => false,
        },
        Type::Args(x) => match b {
            Type::Args(y) => eq_quantified(&**x, &**y),
            _ => false,
        },
        Type::Kwargs(x) => match b {
            Type::Kwargs(y) => eq_quantified(&**x, &**y),
            _ => false,
        },
        Type::ArgsValue(x) => match b {
            Type::ArgsValue(y) => eq_quantified(&**x, &**y),
            _ => false,
        },
        Type::KwargsValue(x) => match b {
            Type::KwargsValue(y) => eq_quantified(&**x, &**y),
            _ => false,
        },
        Type::Type(x) => match b {
            Type::Type(y) => eq_type(&**x, &**y),
            _ => false,
        },
        Type::TypeForm(x) => match b {
            Type::TypeForm(y) => eq_type(&**x, &**y),
            _ => false,
        },
        Type::Ellipsis => match b {
            Type::Ellipsis => true,
            _ => false,
        },
        Type::Any(x) => match b {
            Type::Any(y) => *x == *y,
            _ => false,
        },
        Type::Never(x) => match b {
            Type::Never(y) => *x == *y,
            _ => false,
        },
        Type::TypeAlias(x) => match b {
            Type::TypeAlias(y) => eq_type_alias_data(&**x, &**y),
            _ => false,
        },
        Type::UntypedAlias(x) => match b {
            Type::UntypedAlias(y) => eq_type_alias_data(&**x, &**y),
            _ => false,
        },
        Type::Sentinel(x) => match b {
            Type::Sentinel(y) => x.same(y),
            _ => false,
        },
        Type::SuperInstance(x) => match b {
            Type::SuperInstance(y) => eq_class_type(&(**x).0, &(**y).0)
                && eq_super_obj(&(**x).1, &(**y).1),
            _ => false,
        },
        Type::SelfType(x) => match b {
            Type::SelfType(y) => eq_class_type(x, y),
            _ => false,
        },
        Type::KwCall(x) => match b {
            Type::KwCall(y) => eq_kw_call(&**x, &**y),
            _ => false,
        },
        Type::Materialization => match b {
            Type::Materialization => true,
            _ => false,
        },
        Type::NoneType => match b {
            Type::NoneType => true,
            _ => false,
        },
    }
}

impl PartialEq for Restriction {
    fn eq(&self, other: &Self) -> (r: bool) {
        eq_restriction(self, other)
    }
}

impl PartialEqSpecImpl for Restriction {
    open spec fn obeys_eq_spec() -> bool {
        true
    }

    open spec fn eq_spec(&self, other: &Self) -> bool {
        same_restriction(self@, other@)
    }
}

impl PartialEq for Quantified {
    fn eq(&self, other: &Self) -> (r: bool) {
        eq_quantified(self, other)
    }
}

impl PartialEqSpecImpl for Quantified {
    open spec fn obeys_eq_spec() -> bool {
        true
    }

    open spec fn eq_spec(&self, other: &Self) -> bool {
        same_quantified(self@, other@)
    }
}

impl PartialEq for TParams {
    fn eq(&self, other: &Self) -> (r: bool) {
        eq_tparams(self, other)
    }
}

impl PartialEqSpecImpl for TParams {
    open spec fn obeys_eq_spec() -> bool {
        true
    }

    open spec fn eq_spec(&self, other: &Self) -> bool {
        same_quantifieds(self@, other@)
    }
}

impl PartialEq for TArgs {
    fn eq(&self, other: &Self) -> (r: bool) {
        eq_targs(self, other)
    }
}

impl PartialEqSpecImpl for TArgs {
    open spec fn obeys_eq_spec() -> bool {
        true
    }

    open spec fn eq_spec(&self, other: &Self) -> bool {
        same_targs(self@, other@)
    }
}

impl PartialEq for ClassType {
    fn eq(&self, other: &Self) -> (r: bool) {
        eq_class_type(self, other)
    }
}

impl PartialEqSpecImpl for ClassType {
    open spec fn obeys_eq_spec() -> bool {
        true
    }

    open spec fn eq_spec(&self, other: &Self) -> bool {
        same_class_type(self@, other@)
    }
}

impl PartialEq for LitEnum {
    fn eq(&self, other: &Self) -> (r: bool) {
        eq_lit_enum(self, other)
    }
}

impl PartialEqSpecImpl for LitEnum {
    open spec fn obeys_eq_spec() -> bool {
        true
    }

    open spec fn eq_spec(&self, other: &Self) -> bool {
        same_lit_enum(self@, other@)
    }
}

impl PartialEq for Lit {
    fn eq(&self, other: &Self) -> (r: bool) {
        eq_lit(self, other)
    }
}

impl PartialEqSpecImpl for Lit {
    open spec fn obeys_eq_spec() -> bool {
        true
    }

    open spec fn eq_spec(&self, other: &Self) -> bool {
        same_lit(self@, other@)
    }
}

impl PartialEq for Literal {
    fn eq(&self, other: &Self) -> (r: bool) {
        eq_literal(self, other)
    }
}

impl PartialEqSpecImpl for Literal {
    open spec fn obeys_eq_spec() -> bool {
        true
    }

    open spec fn eq_spec(&self, other: &Self) -> bool {
        same_literal(self@, other@)
    }
}

impl PartialEq for Param {
    fn eq(&self, other: &Self) -> (r: bool) {
        eq_param(self, other)
    }
}

impl PartialEqSpecImpl for Param {
    open spec fn obeys_eq_spec() -> bool {
        true
    }

    open spec fn eq_spec(&self, other: &Self) -> bool {
        same_param(self@, other@)
    }
}

impl PartialEq for ParamList {
    fn eq(&self, other: &Self) -> (r: bool) {
        eq_param_list(self, other)
    }
}

impl PartialEqSpecImpl for ParamList {
    open spec fn obeys_eq_spec() -> bool {
        true
    }

    open spec fn eq_spec(&self, other: &Self) -> bool {
        same_param_seq(self@, other@)
    }
}

impl PartialEq for Params {
    fn eq(&self, other: &Self) -> (r: bool) {
        eq_params(self, other)
    }
}

impl PartialEqSpecImpl for Params {
    open spec fn obeys_eq_spec() -> bool {
        true
    }

    open spec fn eq_spec(&self, other: &Self) -> bool {
        same_params(self@, other@)
    }
}

impl PartialEq for Callable {
    fn eq(&self, other: &Self) -> (r: bool) {
        eq_callable(self, other)
    }
}

impl PartialEqSpecImpl for Callable {
    open spec fn obeys_eq_spec() -> bool {
        true
    }

    open spec fn eq_spec(&self, other: &Self) -> bool {
        same_callable(self@, other@)
    }
}

impl PartialEq for PropertyMetadata {
    fn eq(&self, other: &Self) -> (r: bool) {
        eq_property_metadata(self, other)
    }
}

impl PartialEqSpecImpl for PropertyMetadata {
    open spec fn obeys_eq_spec() -> bool {
        true
    }

    open spec fn eq_spec(&self, other: &Self) -> bool {
        same_property_metadata(self@, other@)
    }
}

impl PartialEq for FuncFlags {
    fn eq(&self, other: &Self) -> (r: bool) {
        eq_func_flags(self, other)
    }
}

impl PartialEqSpecImpl for FuncFlags {
    open spec fn obeys_eq_spec() -> bool {
        true
    }

    open spec fn eq_spec(&self, other: &Self) -> bool {
        same_func_flags(self@, other@)
    }
}

impl PartialEq for FuncMetadata {
    fn eq(&self, other: &Self) -> (r: bool) {
        eq_func_metadata(self, other)
    }
}

impl PartialEqSpecImpl for FuncMetadata {
    open spec fn obeys_eq_spec() -> bool {
        true
    }

    open spec fn eq_spec(&self, other: &Self) -> bool {
        same_func_metadata(self@, other@)
    }
}

impl PartialEq for Function {
    fn eq(&self, other: &Self) -> (r: bool) {
        eq_function(self, other)
    }
}

impl PartialEqSpecImpl for Function {
    open spec fn obeys_eq_spec() -> bool {
        true
    }

    open spec fn eq_spec(&self, other: &Self) -> bool {
        same_function(self@, other@)
    }
}

impl PartialEq for TypeAlias {
    fn eq(&self, other: &Self) -> (r: bool) {
        eq_type_alias(self, other)
    }
}

impl PartialEqSpecImpl for TypeAlias {
    open spec fn obeys_eq_spec() -> bool {
        true
    }

    open spec fn eq_spec(&self, other: &Self) -> bool {
        same_type_alias(self@, other@)
    }
}

impl PartialEq for TypeAliasRef {
    fn eq(&self, other: &Self) -> (r: bool) {
        eq_type_alias_ref(self, other)
    }
}

impl PartialEqSpecImpl for TypeAliasRef {
    open spec fn obeys_eq_spec() -> bool {
        true
    }

    open spec fn eq_spec(&self, other: &Self) -> bool {
        same_type_alias_ref(self@, other@)
    }
}

impl PartialEq for TypeAliasData {
    fn eq(&self, other: &Self) -> (r: bool) {
        eq_type_alias_data(self, other)
    }
}

impl PartialEqSpecImpl for TypeAliasData {
    open spec fn obeys_eq_spec() -> bool {
        true
    }

    open spec fn eq_spec(&self, other: &Self) -> bool {
        same_type_alias_data(self@, other@)
    }
}

impl PartialEq for Forallable {
    fn eq(&self, other: &Self) -> (r: bool) {
        eq_forallable(self, other)
    }
}

impl PartialEqSpecImpl for Forallable {
    open spec fn obeys_eq_spec() -> bool {
        true
    }

    open spec fn eq_spec(&self, other: &Self) -> bool {
        same_forallable(self@, other@)
    }
}

impl PartialEq for OverloadType {
    fn eq(&self, other: &Self) -> (r: bool) {
        eq_overload_type(self, other)
    }
}

impl PartialEqSpecImpl for OverloadType {
    open spec fn obeys_eq_spec() -> bool {
        true
    }

    open spec fn eq_spec(&self, other: &Self) -> bool {
        same_overload_type(self@, other@)
    }
}

impl PartialEq for Overload {
    fn eq(&self, other: &Self) -> (r: bool) {
        eq_overload(self, other)
    }
}

impl PartialEqSpecImpl for Overload {
    open spec fn obeys_eq_spec() -> bool {
        true
    }

    open spec fn eq_spec(&self, other: &Self) -> bool {
        same_overload(self@, other@)
    }
}

impl PartialEq for BoundMethodType {
    fn eq(&self, other: &Self) -> (r: bool) {
        eq_bound_method_type(self, other)
    }
}

impl PartialEqSpecImpl for BoundMethodType {
    open spec fn obeys_eq_spec() -> bool {
        true
    }

    open spec fn eq_spec(&self, other: &Self) -> bool {
        same_bound_method_type(self@, other@)
    }
}

impl PartialEq for BoundMethod {
    fn eq(&self, other: &Self) -> (r: bool) {
        eq_bound_method(self, other)
    }
}

impl PartialEqSpecImpl for BoundMethod {
    open spec fn obeys_eq_spec() -> bool {
        true
    }

    open spec fn eq_spec(&self, other: &Self) -> bool {
        same_bound_method(self@, other@)
    }
}

impl PartialEq for Union {
    fn eq(&self, other: &Self) -> (r: bool) {
        eq_union(self, other)
    }
}

impl PartialEqSpecImpl for Union {
    open spec fn obeys_eq_spec() -> bool {
        true
    }

    open spec fn eq_spec(&self, other: &Self) -> bool {
        same_union(self@, other@)
    }
}

impl PartialEq for TypedDict {
    fn eq(&self, other: &Self) -> (r: bool) {
        eq_typed_dict(self, other)
    }
}

impl PartialEqSpecImpl for TypedDict {
    open spec fn obeys_eq_spec() -> bool {
        true
    }

    open spec fn eq_spec(&self, other: &Self) -> bool {
        same_typed_dict(self@, other@)
    }
}

impl PartialEq for Field {
    fn eq(&self, other: &Self) -> (r: bool) {
        eq_field(self, other)
    }
}

impl PartialEqSpecImpl for Field {
    open spec fn obeys_eq_spec() -> bool {
        true
    }

    open spec fn eq_spec(&self, other: &Self) -> bool {
        same_field(self@, other@)
    }
}

impl PartialEq for Int {
    fn eq(&self, other: &Self) -> (r: bool) {
        eq_int(self, other)
    }
}

impl PartialEqSpecImpl for Int {
    open spec fn obeys_eq_spec() -> bool {
        true
    }

    open spec fn eq_spec(&self, other: &Self) -> bool {
        same_int(self@, other@)
    }
}

impl PartialEq for IntTuple {
    fn eq(&self, other: &Self) -> (r: bool) {
        eq_int_tuple(self, other)
    }
}

impl PartialEqSpecImpl for IntTuple {
    open spec fn obeys_eq_spec() -> bool {
        true
    }

    open spec fn eq_spec(&self, other: &Self) -> bool {
        same_dims(self@, other@)
    }
}

impl PartialEq for ShapedArrayType {
    fn eq(&self, other: &Self) -> (r: bool) {
        eq_shaped_array_type(self, other)
    }
}

impl PartialEqSpecImpl for ShapedArrayType {
    open spec fn obeys_eq_spec() -> bool {
        true
    }

    open spec fn eq_spec(&self, other: &Self) -> bool {
        same_shaped_array_type(self@, other@)
    }
}

impl PartialEq for NNModuleType {
    fn eq(&self, other: &Self) -> (r: bool) {
        eq_nn_module_type(self, other)
    }
}

impl PartialEqSpecImpl for NNModuleType {
    open spec fn obeys_eq_spec() -> bool {
        true
    }

    open spec fn eq_spec(&self, other: &Self) -> bool {
        same_nn_module_type(self@, other@)
    }
}

impl PartialEq for DataFrameSchema {
    fn eq(&self, other: &Self) -> (r: bool) {
        eq_data_frame_schema(self, other)
    }
}

impl PartialEqSpecImpl for DataFrameSchema {
    open spec fn obeys_eq_spec() -> bool {
        true
    }

    open spec fn eq_spec(&self, other: &Self) -> bool {
        same_data_frame_schema(self@, other@)
    }
}

impl PartialEq for SeriesSchema {
    fn eq(&self, other: &Self) -> (r: bool) {
        eq_series_schema(self, other)
    }
}

impl PartialEqSpecImpl for SeriesSchema {
    open spec fn obeys_eq_spec() -> bool {
        true
    }

    open spec fn eq_spec(&self, other: &Self) -> bool {
        same_series_schema(self@, other@)
    }
}

impl PartialEq for Tuple {
    fn eq(&self, other: &Self) -> (r: bool) {
        eq_tuple(self, other)
    }
}

impl PartialEqSpecImpl for Tuple {
    open spec fn obeys_eq_spec() -> bool {
        true
    }

    open spec fn eq_spec(&self, other: &Self) -> bool {
        same_tuple(self@, other@)
    }
}

impl PartialEq for KwCall {
    fn eq(&self, other: &Self) -> (r: bool) {
        eq_kw_call(self, other)
    }
}

impl PartialEqSpecImpl for KwCall {
    open spec fn obeys_eq_spec() -> bool {
        true
    }

    open spec fn eq_spec(&self, other: &Self) -> bool {
        same_kw_call(self@, other@)
    }
}

impl PartialEq for CallableResidual {
    fn eq(&self, other: &Self) -> (r: bool) {
        eq_callable_residual(self, other)
    }
}

impl PartialEqSpecImpl for CallableResidual {
    open spec fn obeys_eq_spec() -> bool {
        true
    }

    open spec fn eq_spec(&self, other: &Self) -> bool {
        same_callable_residual(self@, other@)
    }
}

impl PartialEq for TypeLevelDslCall {
    fn eq(&self, other: &Self) -> (r: bool) {
        eq_type_level_dsl_call(self, other)
    }
}

impl PartialEqSpecImpl for TypeLevelDslCall {
    open spec fn obeys_eq_spec() -> bool {
        true
    }

    open spec fn eq_spec(&self, other: &Self) -> bool {
        same_type_level_dsl_call(self@, other@)
    }
}

impl PartialEq for SuperObj {
    fn eq(&self, other: &Self) -> (r: bool) {
        eq_super_obj(self, other)
    }
}

impl PartialEqSpecImpl for SuperObj {
    open spec fn obeys_eq_spec() -> bool {
        true
    }

    open spec fn eq_spec(&self, other: &Self) -> bool {
        same_super_obj(self@, other@)
    }
}

impl PartialEq for Type {
    fn eq(&self, other: &Self) -> (r: bool) {
        eq_type(self, other)
    }
}

impl PartialEqSpecImpl for Type {
    open spec fn obeys_eq_spec() -> bool {
        true
    }

    open spec fn eq_spec(&self, other: &Self) -> bool {
        same_type(self@, other@)
    }
}

impl PartialEq for Forall<Function> {
    fn eq(&self, other: &Self) -> (r: bool) {
        eq_forall_function(self, other)
    }
}

impl PartialEqSpecImpl for Forall<Function> {
    open spec fn obeys_eq_spec() -> bool {
        true
    }

    open spec fn eq_spec(&self, other: &Self) -> bool {
        same_forall_function(self@, other@)
    }
}

impl PartialEq for Forall<Forallable> {
    fn eq(&self, other: &Self) -> (r: bool) {
        eq_forall_forallable(self, other)
    }
}

impl PartialEqSpecImpl for Forall<Forallable> {
    open spec fn obeys_eq_spec() -> bool {
        true
    }

    open spec fn eq_spec(&self, other: &Self) -> bool {
        same_forall_forallable(self@, other@)
    }
}

} // verus!
