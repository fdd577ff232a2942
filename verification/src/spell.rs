//! Spelling out types.
use vstd::prelude::*;

use crate::data::{
    BoundMethod,
    BoundMethodType,
    Callable,
    CallableResidual,
    ClassType,
    DataFrameSchema,
    Field,
    Forall,
    Forallable,
    FuncFlags,
    FuncMetadata,
    Function,
    Int,
    IntTuple,
    KwCall,
    Lit,
    LitEnum,
    Literal,
    NNModuleType,
    Overload,
    OverloadType,
    Param,
    ParamList,
    Params,
    PropertyMetadata,
    Quantified,
    Restriction,
    SeriesSchema,
    ShapedArrayType,
    SuperObj,
    TArgs,
    TParams,
    Tuple,
    Type,
    TypeAlias,
    TypeAliasData,
    TypeAliasRef,
    TypeLevelDslCall,
    TypedDict,
    Union,
};
use crate::names::{Class, Deprecation, FunctionKind, LitInt, QName, QuantifiedIdentity, Var};
use crate::outside::{fields_of, signatures_of, ModuleFields, Signatures};
use crate::parts::{
    lemma_bound_method_parts,
    lemma_bound_method_type_parts,
    lemma_callable_parts,
    lemma_callable_residual_parts,
    lemma_class_type_parts,
    lemma_data_frame_schema_parts,
    lemma_field_parts,
    lemma_forall_forallable_parts,
    lemma_forall_function_parts,
    lemma_forallable_parts,
    lemma_func_flags_parts,
    lemma_func_metadata_parts,
    lemma_function_parts,
    lemma_int_parts,
    lemma_kw_call_parts,
    lemma_lit_enum_parts,
    lemma_lit_parts,
    lemma_literal_parts,
    lemma_nn_module_type_parts,
    lemma_overload_parts,
    lemma_overload_type_parts,
    lemma_param_parts,
    lemma_params_parts,
    lemma_property_metadata_parts,
    lemma_quantified_parts,
    lemma_restriction_parts,
    lemma_series_schema_parts,
    lemma_shaped_array_type_parts,
    lemma_super_obj_parts,
    lemma_targs_parts,
    lemma_tuple_parts,
    lemma_type_alias_data_parts,
    lemma_type_alias_parts,
    lemma_type_alias_ref_parts,
    lemma_type_level_dsl_call_parts,
    lemma_type_parts,
    lemma_typed_dict_parts,
    lemma_union_parts,
};
use crate::styles::DataclassTransformMetadata;
use crate::tokens::{
    Token,
    items_dims,
    items_fields,
    items_overloads,
    items_param_seq,
    items_quantifieds,
    items_types,
    items_words,
    lemma_tokens_bound_method,
    lemma_tokens_bound_method_type,
    lemma_tokens_callable,
    lemma_tokens_callable_residual,
    lemma_tokens_class_type,
    lemma_tokens_data_frame_schema,
    lemma_tokens_field,
    lemma_tokens_forallable,
    lemma_tokens_func_flags,
    lemma_tokens_func_metadata,
    lemma_tokens_function,
    lemma_tokens_int,
    lemma_tokens_kw_call,
    lemma_tokens_lit,
    lemma_tokens_lit_enum,
    lemma_tokens_literal,
    lemma_tokens_nn_module_type,
    lemma_tokens_overload,
    lemma_tokens_overload_type,
    lemma_tokens_param,
    lemma_tokens_params,
    lemma_tokens_property_metadata,
    lemma_tokens_quantified,
    lemma_tokens_restriction,
    lemma_tokens_series_schema,
    lemma_tokens_shaped_array_type,
    lemma_tokens_super_obj,
    lemma_tokens_targs,
    lemma_tokens_tuple,
    lemma_tokens_type,
    lemma_tokens_type_alias,
    lemma_tokens_type_alias_data,
    lemma_tokens_type_alias_ref,
    lemma_tokens_type_level_dsl_call,
    lemma_tokens_typed_dict,
    lemma_tokens_union,
    order_of_i64,
    tokens_bound_method,
    tokens_bound_method_type,
    tokens_bytes,
    tokens_callable,
    tokens_callable_residual,
    tokens_class,
    tokens_class_type,
    tokens_data_frame_schema,
    tokens_deprecation,
    tokens_dims,
    tokens_field,
    tokens_fields,
    tokens_forall_forallable,
    tokens_forall_function,
    tokens_forallable,
    tokens_func_flags,
    tokens_func_metadata,
    tokens_function,
    tokens_function_kind,
    tokens_int,
    tokens_kw_call,
    tokens_lit,
    tokens_lit_enum,
    tokens_lit_int,
    tokens_literal,
    tokens_module_fields,
    tokens_nn_module_type,
    tokens_overload,
    tokens_overload_type,
    tokens_overloads,
    tokens_param,
    tokens_param_seq,
    tokens_params,
    tokens_property_metadata,
    tokens_qname,
    tokens_quantified,
    tokens_quantified_identity,
    tokens_quantifieds,
    tokens_restriction,
    tokens_series_schema,
    tokens_shaped_array_type,
    tokens_super_obj,
    tokens_targs,
    tokens_text,
    tokens_transform,
    tokens_tuple,
    tokens_type,
    tokens_type_alias,
    tokens_type_alias_data,
    tokens_type_alias_ref,
    tokens_type_level_dsl_call,
    tokens_typed_dict,
    tokens_types,
    tokens_union,
    tokens_words,
    var_token,
    word,
    word_of_bool,
};
use crate::view::{
    FieldView,
    lemma_bound_method_type_view,
    lemma_bound_method_view,
    lemma_callable_residual_view,
    lemma_callable_view,
    lemma_class_type_view,
    lemma_data_frame_schema_view,
    lemma_field_view,
    lemma_forall_forallable_view,
    lemma_forall_function_view,
    lemma_forallable_view,
    lemma_func_flags_view,
    lemma_func_metadata_view,
    lemma_function_view,
    lemma_int_tuple_view,
    lemma_int_view,
    lemma_kw_call_view,
    lemma_lit_enum_view,
    lemma_lit_view,
    lemma_literal_view,
    lemma_nn_module_type_view,
    lemma_overload_type_view,
    lemma_overload_view,
    lemma_param_list_view,
    lemma_param_view,
    lemma_params_view,
    lemma_property_metadata_view,
    lemma_quantified_view,
    lemma_restriction_view,
    lemma_series_schema_view,
    lemma_shaped_array_type_view,
    lemma_super_obj_view,
    lemma_targs_view,
    lemma_tparams_view,
    lemma_tuple_view,
    lemma_type_alias_data_view,
    lemma_type_alias_ref_view,
    lemma_type_alias_view,
    lemma_type_level_dsl_call_view,
    lemma_type_view,
    lemma_typed_dict_view,
    lemma_union_view,
    view_dims,
    view_fields,
    view_overloads,
    view_param_seq,
    view_quantifieds,
    view_types,
};

verus! {

/// Appending in two steps is appending at once.
broadcast proof fn lemma_append(a: Seq<Token>, b: Seq<Token>, c: Seq<Token>)
    ensures
        #[trigger] ((a + b) + c) == a + (b + c),
{
    assert((a + b) + c =~= a + (b + c));
}

fn push_word(n: u64, out: &mut Vec<Token>)
    ensures
        final(out)@ == old(out)@ + word(n),
{
    out.push((0u8, n));
}

fn push_var(v: Var, out: &mut Vec<Token>)
    ensures
        final(out)@ == old(out)@ + var_token(v),
{
    out.push((1u8, v.unique.id));
}

fn push_bool(b: bool, out: &mut Vec<Token>)
    ensures
        final(out)@ == old(out)@ + word_of_bool(b),
{
    push_word(if b { 1 } else { 0 }, out);
}

fn push_i64(n: i64, out: &mut Vec<Token>)
    ensures
        final(out)@ == old(out)@ + word(order_of_i64(n)),
{
    push_word((n as i128 + 0x8000_0000_0000_0000) as u64, out);
}

fn push_slice(b: &[u8], out: &mut Vec<Token>)
    ensures
        final(out)@ == old(out)@ + tokens_bytes(b@),
{
    let ghost before = out@;
    for i in 0..b.len()
        invariant
            out@ == before + Seq::new(i as nat, |j: int| (0u8, (b@[j] + 1) as u64)),
    {
        out.push((0u8, b[i] as u64 + 1));
        assert(Seq::new((i + 1) as nat, |j: int| (0u8, (b@[j] + 1) as u64)) =~= Seq::new(
            i as nat,
            |j: int| (0u8, (b@[j] + 1) as u64),
        ).push((0u8, (b@[i as int] + 1) as u64)));
        assert(out@ =~= before + Seq::new((i + 1) as nat, |j: int| (0u8, (b@[j] + 1) as u64)));
    }
    push_word(0, out);
    assert(out@ =~= before + tokens_bytes(b@));
}

fn push_bytes(b: &Vec<u8>, out: &mut Vec<Token>)
    ensures
        final(out)@ == old(out)@ + tokens_bytes(b@),
{
    push_slice(b.as_slice(), out);
}

fn push_text(s: &str, out: &mut Vec<Token>)
    ensures
        final(out)@ == old(out)@ + tokens_text(s@),
{
    push_slice(s.as_bytes(), out);
}

fn push_words(s: &Vec<u64>, out: &mut Vec<Token>)
    ensures
        final(out)@ == old(out)@ + tokens_words(s@),
{
    let ghost before = out@;
    assert(out@ =~= before + items_words(s@.take(0)));
    for i in 0..s.len()
        invariant
            out@ == before + items_words(s@.take(i as int)),
    {
        push_word(1, out);
        push_word(s[i], out);
        proof {
            let done = items_words(s@.take(i as int));
            lemma_append(before, done, word(1));
            lemma_append(before, done + word(1), word(s@[i as int]));
            assert(s@.take(i + 1).drop_last() =~= s@.take(i as int));
        }
    }
    proof {
        assert(s@.take(s@.len() as int) =~= s@);
        lemma_append(before, items_words(s@), word(0));
    }
    push_word(0, out);
}

fn push_qname(x: &QName, out: &mut Vec<Token>)
    ensures
        final(out)@ == old(out)@ + tokens_qname(x@),
{
    broadcast use lemma_append;

    push_text(x.name.text.as_str(), out);
    push_text(x.module.text.as_str(), out);
}

fn push_quantified_identity(x: &QuantifiedIdentity, out: &mut Vec<Token>)
    ensures
        final(out)@ == old(out)@ + tokens_quantified_identity(x@),
{
    broadcast use lemma_append;

    push_text(x.module.text.as_str(), out);
    push_word(x.anchor.range.start as u64, out);
    push_word(x.anchor.range.end as u64, out);
    push_word(x.anchor.index as u64, out);
    push_word(x.origin.rank(), out);
}

fn push_class(x: &Class, out: &mut Vec<Token>)
    ensures
        final(out)@ == old(out)@ + tokens_class(x@),
{
    broadcast use lemma_append;

    push_qname(&x.qname, out);
    push_word(x.index as u64, out);
    push_word(x.kind.rank(), out);
}

fn push_function_kind(x: &FunctionKind, out: &mut Vec<Token>)
    ensures
        final(out)@ == old(out)@ + tokens_function_kind(x@),
{
    broadcast use lemma_append;

    match x {
        FunctionKind::AssertShape => push_word(0, out),
        FunctionKind::Def(name) => {
            push_word(1, out);
            push_text(name.text.as_str(), out);
        },
    }
}

fn push_deprecation(x: &Deprecation, out: &mut Vec<Token>)
    ensures
        final(out)@ == old(out)@ + tokens_deprecation(x@),
{
    broadcast use lemma_append;

    match &x.message {
        Some(text) => {
            push_word(1, out);
            push_text(text.text.as_str(), out);
        },
        None => push_word(0, out),
    }
}

fn push_lit_int(x: &LitInt, out: &mut Vec<Token>)
    ensures
        final(out)@ == old(out)@ + tokens_lit_int(x@),
{
    broadcast use lemma_append;

    push_bool(x.negative, out);
    push_words(&x.magnitude, out);
}

fn push_transform(x: &DataclassTransformMetadata, out: &mut Vec<Token>)
    ensures
        final(out)@ == old(out)@ + tokens_transform(*x),
{
    broadcast use lemma_append;

    push_bool(x.eq_default, out);
    push_bool(x.order_default, out);
    push_bool(x.kw_only_default, out);
    push_bool(x.frozen_default, out);
}

fn push_types(v: &Vec<Type>, out: &mut Vec<Token>)
    ensures
        final(out)@ == old(out)@ + tokens_types(view_types(v@)),
    decreases view_types(v@), 0nat,
{
    let ghost before = out@;
    let ghost s = view_types(v@);
    assert(out@ =~= before + items_types(s.take(0)));
    for i in 0..v.len()
        invariant
            s == view_types(v@),
            out@ == before + items_types(s.take(i as int)),
        decreases v.len() - i,
    {
        assert(decreases_to!(s => s[i as int]));
        push_word(1, out);
        push_type(&v[i], out);
        proof {
            let done = items_types(s.take(i as int));
            lemma_append(before, done, word(1));
            lemma_append(before, done + word(1), tokens_type(s[i as int]));
            assert(s.take(i + 1).last() == s[i as int]);
            assert(s.take(i + 1).drop_last() =~= s.take(i as int));
        }
    }
    proof {
        assert(s.take(s.len() as int) =~= s);
        lemma_append(before, items_types(s), word(0));
    }
    push_word(0, out);
}

fn push_param_seq(v: &Vec<Param>, out: &mut Vec<Token>)
    ensures
        final(out)@ == old(out)@ + tokens_param_seq(view_param_seq(v@)),
    decreases view_param_seq(v@), 0nat,
{
    let ghost before = out@;
    let ghost s = view_param_seq(v@);
    assert(out@ =~= before + items_param_seq(s.take(0)));
    for i in 0..v.len()
        invariant
            s == view_param_seq(v@),
            out@ == before + items_param_seq(s.take(i as int)),
        decreases v.len() - i,
    {
        assert(decreases_to!(s => s[i as int]));
        push_word(1, out);
        push_param(&v[i], out);
        proof {
            let done = items_param_seq(s.take(i as int));
            lemma_append(before, done, word(1));
            lemma_append(before, done + word(1), tokens_param(s[i as int]));
            assert(s.take(i + 1).last() == s[i as int]);
            assert(s.take(i + 1).drop_last() =~= s.take(i as int));
        }
    }
    proof {
        assert(s.take(s.len() as int) =~= s);
        lemma_append(before, items_param_seq(s), word(0));
    }
    push_word(0, out);
}

fn push_fields(v: &Vec<Field>, out: &mut Vec<Token>)
    ensures
        final(out)@ == old(out)@ + tokens_fields(view_fields(v@)),
    decreases view_fields(v@), 0nat,
{
    let ghost before = out@;
    let ghost s = view_fields(v@);
    assert(out@ =~= before + items_fields(s.take(0)));
    for i in 0..v.len()
        invariant
            s == view_fields(v@),
            out@ == before + items_fields(s.take(i as int)),
        decreases v.len() - i,
    {
        assert(decreases_to!(s => s[i as int]));
        push_word(1, out);
        push_field(&v[i], out);
        proof {
            let done = items_fields(s.take(i as int));
            lemma_append(before, done, word(1));
            lemma_append(before, done + word(1), tokens_field(s[i as int]));
            assert(s.take(i + 1).last() == s[i as int]);
            assert(s.take(i + 1).drop_last() =~= s.take(i as int));
        }
    }
    proof {
        assert(s.take(s.len() as int) =~= s);
        lemma_append(before, items_fields(s), word(0));
    }
    push_word(0, out);
}

fn push_quantifieds(v: &Vec<Quantified>, out: &mut Vec<Token>)
    ensures
        final(out)@ == old(out)@ + tokens_quantifieds(view_quantifieds(v@)),
    decreases view_quantifieds(v@), 0nat,
{
    let ghost before = out@;
    let ghost s = view_quantifieds(v@);
    assert(out@ =~= before + items_quantifieds(s.take(0)));
    for i in 0..v.len()
        invariant
            s == view_quantifieds(v@),
            out@ == before + items_quantifieds(s.take(i as int)),
        decreases v.len() - i,
    {
        assert(decreases_to!(s => s[i as int]));
        push_word(1, out);
        push_quantified(&v[i], out);
        proof {
            let done = items_quantifieds(s.take(i as int));
            lemma_append(before, done, word(1));
            lemma_append(before, done + word(1), tokens_quantified(s[i as int]));
            assert(s.take(i + 1).last() == s[i as int]);
            assert(s.take(i + 1).drop_last() =~= s.take(i as int));
        }
    }
    proof {
        assert(s.take(s.len() as int) =~= s);
        lemma_append(before, items_quantifieds(s), word(0));
    }
    push_word(0, out);
}

fn push_overloads(v: &Vec<OverloadType>, out: &mut Vec<Token>)
    ensures
        final(out)@ == old(out)@ + tokens_overloads(view_overloads(v@)),
    decreases view_overloads(v@), 0nat,
{
    let ghost before = out@;
    let ghost s = view_overloads(v@);
    assert(out@ =~= before + items_overloads(s.take(0)));
    for i in 0..v.len()
        invariant
            s == view_overloads(v@),
            out@ == before + items_overloads(s.take(i as int)),
        decreases v.len() - i,
    {
        assert(decreases_to!(s => s[i as int]));
        push_word(1, out);
        push_overload_type(&v[i], out);
        proof {
            let done = items_overloads(s.take(i as int));
            lemma_append(before, done, word(1));
            lemma_append(before, done + word(1), tokens_overload_type(s[i as int]));
            assert(s.take(i + 1).last() == s[i as int]);
            assert(s.take(i + 1).drop_last() =~= s.take(i as int));
        }
    }
    proof {
        assert(s.take(s.len() as int) =~= s);
        lemma_append(before, items_overloads(s), word(0));
    }
    push_word(0, out);
}

fn push_dims(v: &Vec<Int>, out: &mut Vec<Token>)
    ensures
        final(out)@ == old(out)@ + tokens_dims(view_dims(v@)),
    decreases view_dims(v@), 0nat,
{
    let ghost before = out@;
    let ghost s = view_dims(v@);
    assert(out@ =~= before + items_dims(s.take(0)));
    for i in 0..v.len()
        invariant
            s == view_dims(v@),
            out@ == before + items_dims(s.take(i as int)),
        decreases v.len() - i,
    {
        assert(decreases_to!(s => s[i as int]));
        push_word(1, out);
        push_int(&v[i], out);
        proof {
            let done = items_dims(s.take(i as int));
            lemma_append(before, done, word(1));
            lemma_append(before, done + word(1), tokens_int(s[i as int]));
            assert(s.take(i + 1).last() == s[i as int]);
            assert(s.take(i + 1).drop_last() =~= s.take(i as int));
        }
    }
    proof {
        assert(s.take(s.len() as int) =~= s);
        lemma_append(before, items_dims(s), word(0));
    }
    push_word(0, out);
}

fn push_signatures(s: &Signatures, out: &mut Vec<Token>)
    ensures
        final(out)@ == old(out)@ + tokens_overloads(signatures_of(*s)),
    decreases signatures_of(*s), 1nat,
{
    push_overloads(s.as_vec(), out);
}

fn push_module_fields(m: &ModuleFields, out: &mut Vec<Token>)
    ensures
        final(out)@ == old(out)@ + tokens_module_fields(fields_of(*m)),
    decreases fields_of(*m), 0nat,
{
    let ghost s: Seq<FieldView> = fields_of(*m);
    let n = m.len();
    let ghost start = out@;
    push_word(n as u64, out);
    let ghost before = out@;
    assert(out@ =~= before + items_fields(s.take(0)));
    for i in 0..n
        invariant
            s == fields_of(*m),
            n == s.len(),
            out@ == before + items_fields(s.take(i as int)),
        decreases n - i,
    {
        let (name, ty) = m.get(i);
        let ghost f = s[i as int];
        let ghost done = items_fields(s.take(i as int));
        proof {
            assert(decreases_to!(s => s[i as int]));
            lemma_field_parts(f);
        }
        push_word(1, out);
        push_text(name.as_str(), out);
        push_type(ty, out);
        proof {
            lemma_tokens_field(f);
            lemma_append(before, done, word(1));
            lemma_append(before + (done + word(1)), tokens_text(f.name), tokens_type(f.ty));
            lemma_append(before, done + word(1), tokens_field(f));
            assert(s.take(i + 1).last() == f);
            assert(s.take(i + 1).drop_last() =~= s.take(i as int));
        }
    }
    proof {
        assert(s.take(n as int) =~= s);
        lemma_append(before, items_fields(s), word(0));
        lemma_append(start, word(n as u64), tokens_fields(s));
    }
    push_word(0, out);
}

fn push_forall_function(x: &Forall<Function>, out: &mut Vec<Token>)
    ensures
        final(out)@ == old(out)@ + tokens_forall_function(x@),
    decreases x@, 1nat,
{
    let ghost before = out@;
    proof {
        lemma_forall_function_view(*x);
        lemma_forall_function_parts(x@);
    }
    push_tparams(&*x.tparams, out);
    push_function(&x.body, out);
    proof {
        lemma_append(before, tokens_quantifieds(x@.tparams), tokens_function(x@.body));
    }
}

fn push_forall_forallable(x: &Forall<Forallable>, out: &mut Vec<Token>)
    ensures
        final(out)@ == old(out)@ + tokens_forall_forallable(x@),
    decreases x@, 1nat,
{
    let ghost before = out@;
    proof {
        lemma_forall_forallable_view(*x);
        lemma_forall_forallable_parts(x@);
    }
    push_tparams(&*x.tparams, out);
    push_forallable(&x.body, out);
    proof {
        lemma_append(before, tokens_quantifieds(x@.tparams), tokens_forallable(x@.body));
    }
}

fn push_restriction(x: &Restriction, out: &mut Vec<Token>)
    ensures
        final(out)@ == old(out)@ + tokens_restriction(x@),
    decreases x@, 1nat,
{
    let ghost before = out@;
    proof {
        lemma_restriction_view(*x);
        lemma_tokens_restriction(x@);
        lemma_restriction_parts(x@);
    }
    match x {
        Restriction::Bound(a) => {
            push_word(0, out);
            push_type(a, out);
            proof {
                lemma_append(before, word(0), tokens_type(x@->Bound_0));
            }
        },
        Restriction::Constraints(a) => {
            push_word(1, out);
            push_types(a, out);
            proof {
                lemma_append(before, word(1), tokens_types(x@->Constraints_0));
            }
        },
        Restriction::Unrestricted => push_word(2, out),
    }
}

fn push_quantified(x: &Quantified, out: &mut Vec<Token>)
    ensures
        final(out)@ == old(out)@ + tokens_quantified(x@),
    decreases x@, 1nat,
{
    let ghost before = out@;
    proof {
        lemma_quantified_view(*x);
        lemma_tokens_quantified(x@);
        lemma_quantified_parts(x@);
    }
    push_quantified_identity(&x.identity, out);
    push_text(x.name.text.as_str(), out);
    push_word(x.kind.rank(), out);
    match &x.default {
        Some(x) => {
            push_word(1, out);
            push_type(x, out);
        },
        None => push_word(0, out),
    }
    push_restriction(&x.restriction, out);
    push_word(x.variance.rank(), out);
    proof {
        lemma_append(before, tokens_quantified_identity(x@.identity), tokens_text(x@.name));
        lemma_append(
            before,
            tokens_quantified_identity(x@.identity) + tokens_text(x@.name),
            word(x@.kind.rank_spec()),
        );
        if x@.default is Some {
            lemma_append(
                before
                    + (
                        tokens_quantified_identity(x@.identity)
                            + tokens_text(x@.name)
                            + word(x@.kind.rank_spec())
                    ),
                word(1),
                tokens_type(x@.default->0),
            );
        }
        lemma_append(
            before,
            tokens_quantified_identity(x@.identity)
                + tokens_text(x@.name)
                + word(x@.kind.rank_spec()),
            (match x@.default { Some(x) => word(1) + tokens_type(x), None => word(0) }),
        );
        lemma_append(
            before,
            tokens_quantified_identity(x@.identity)
                + tokens_text(x@.name)
                + word(x@.kind.rank_spec())
                + (match x@.default { Some(x) => word(1) + tokens_type(x), None => word(0) }),
            tokens_restriction(x@.restriction),
        );
        lemma_append(
            before,
            tokens_quantified_identity(x@.identity)
                + tokens_text(x@.name)
                + word(x@.kind.rank_spec())
                + (match x@.default { Some(x) => word(1) + tokens_type(x), None => word(0) })
                + tokens_restriction(x@.restriction),
            word(x@.variance.rank_spec()),
        );
    }
}

fn push_tparams(x: &TParams, out: &mut Vec<Token>)
    ensures
        final(out)@ == old(out)@ + tokens_quantifieds(x@),
    decreases x@, 1nat,
{
    proof {
        lemma_tparams_view(*x);
    }
    push_quantifieds(&x.params, out);
}

fn push_targs(x: &TArgs, out: &mut Vec<Token>)
    ensures
        final(out)@ == old(out)@ + tokens_targs(x@),
    decreases x@, 1nat,
{
    let ghost before = out@;
    proof {
        lemma_targs_view(*x);
        lemma_tokens_targs(x@);
        lemma_targs_parts(x@);
    }
    push_tparams(&*x.tparams, out);
    push_types(&x.args, out);
    proof {
        lemma_append(before, tokens_quantifieds(x@.tparams), tokens_types(x@.args));
    }
}

fn push_class_type(x: &ClassType, out: &mut Vec<Token>)
    ensures
        final(out)@ == old(out)@ + tokens_class_type(x@),
    decreases x@, 1nat,
{
    let ghost before = out@;
    proof {
        lemma_class_type_view(*x);
        lemma_tokens_class_type(x@);
        lemma_class_type_parts(x@);
    }
    push_class(&x.class, out);
    push_targs(&x.targs, out);
    proof {
        lemma_append(before, tokens_class(x@.class), tokens_targs(x@.targs));
    }
}

fn push_lit_enum(x: &LitEnum, out: &mut Vec<Token>)
    ensures
        final(out)@ == old(out)@ + tokens_lit_enum(x@),
    decreases x@, 1nat,
{
    let ghost before = out@;
    proof {
        lemma_lit_enum_view(*x);
        lemma_tokens_lit_enum(x@);
        lemma_lit_enum_parts(x@);
    }
    push_class_type(&x.class, out);
    push_text(x.member.text.as_str(), out);
    proof {
        lemma_append(before, tokens_class_type(x@.class), tokens_text(x@.member));
    }
}

fn push_lit(x: &Lit, out: &mut Vec<Token>)
    ensures
        final(out)@ == old(out)@ + tokens_lit(x@),
    decreases x@, 1nat,
{
    let ghost before = out@;
    proof {
        lemma_lit_view(*x);
        lemma_tokens_lit(x@);
        lemma_lit_parts(x@);
    }
    match x {
        Lit::Str(a) => {
            push_word(0, out);
            push_text(a.text.as_str(), out);
            proof {
                lemma_append(before, word(0), tokens_text(x@->Str_0));
            }
        },
        Lit::Int(a) => {
            push_word(1, out);
            push_lit_int(a, out);
            proof {
                lemma_append(before, word(1), tokens_lit_int(x@->Int_0));
            }
        },
        Lit::Bool(a) => {
            push_word(2, out);
            push_bool(*a, out);
            proof {
                lemma_append(before, word(2), word_of_bool(x@->Bool_0));
            }
        },
        Lit::Bytes(a) => {
            push_word(3, out);
            push_bytes(a, out);
            proof {
                lemma_append(before, word(3), tokens_bytes(x@->Bytes_0));
            }
        },
        Lit::Enum(a) => {
            push_word(4, out);
            push_lit_enum(&**a, out);
            proof {
                lemma_append(before, word(4), tokens_lit_enum(*x@->Enum_0));
            }
        },
    }
}

fn push_literal(x: &Literal, out: &mut Vec<Token>)
    ensures
        final(out)@ == old(out)@ + tokens_literal(x@),
    decreases x@, 1nat,
{
    let ghost before = out@;
    proof {
        lemma_literal_view(*x);
        lemma_tokens_literal(x@);
        lemma_literal_parts(x@);
    }
    push_lit(&x.value, out);
    push_word(x.style.rank(), out);
    proof {
        lemma_append(before, tokens_lit(x@.value), word(x@.style.rank_spec()));
    }
}

fn push_param(x: &Param, out: &mut Vec<Token>)
    ensures
        final(out)@ == old(out)@ + tokens_param(x@),
    decreases x@, 1nat,
{
    let ghost before = out@;
    proof {
        lemma_param_view(*x);
        lemma_tokens_param(x@);
        lemma_param_parts(x@);
    }
    match &x.name {
        Some(x) => {
            push_word(1, out);
            push_text(x.text.as_str(), out);
        },
        None => push_word(0, out),
    }
    push_word(x.kind.rank(), out);
    push_bool(x.required, out);
    push_type(&x.ty, out);
    proof {
        if x@.name is Some {
            lemma_append(before, word(1), tokens_text(x@.name->0));
        }
        lemma_append(
            before,
            (match x@.name { Some(x) => word(1) + tokens_text(x), None => word(0) }),
            word(x@.kind.rank_spec()),
        );
        lemma_append(
            before,
            (match x@.name { Some(x) => word(1) + tokens_text(x), None => word(0) })
                + word(x@.kind.rank_spec()),
            word_of_bool(x@.required),
        );
        lemma_append(
            before,
            (match x@.name { Some(x) => word(1) + tokens_text(x), None => word(0) })
                + word(x@.kind.rank_spec())
                + word_of_bool(x@.required),
            tokens_type(x@.ty),
        );
    }
}

fn push_param_list(x: &ParamList, out: &mut Vec<Token>)
    ensures
        final(out)@ == old(out)@ + tokens_param_seq(x@),
    decreases x@, 1nat,
{
    proof {
        lemma_param_list_view(*x);
    }
    push_param_seq(&x.items, out);
}

fn push_params(x: &Params, out: &mut Vec<Token>)
    ensures
        final(out)@ == old(out)@ + tokens_params(x@),
    decreases x@, 1nat,
{
    let ghost before = out@;
    proof {
        lemma_params_view(*x);
        lemma_tokens_params(x@);
        lemma_params_parts(x@);
    }
    match x {
        Params::List(a) => {
            push_word(0, out);
            push_param_list(a, out);
            proof {
                lemma_append(before, word(0), tokens_param_seq(x@->List_0));
            }
        },
        Params::Ellipsis => push_word(1, out),
        Params::Materialization => push_word(2, out),
        Params::ParamSpec(a, b) => {
            push_word(3, out);
            push_param_seq(a, out);
            push_type(b, out);
            proof {
                lemma_append(before, word(3), tokens_param_seq(x@->ParamSpec_0));
                lemma_append(
                    before,
                    word(3) + tokens_param_seq(x@->ParamSpec_0),
                    tokens_type(x@->ParamSpec_1),
                );
            }
        },
    }
}

fn push_callable(x: &Callable, out: &mut Vec<Token>)
    ensures
        final(out)@ == old(out)@ + tokens_callable(x@),
    decreases x@, 1nat,
{
    let ghost before = out@;
    proof {
        lemma_callable_view(*x);
        lemma_tokens_callable(x@);
        lemma_callable_parts(x@);
    }
    push_params(&x.params, out);
    push_type(&x.ret, out);
    proof {
        lemma_append(before, tokens_params(x@.params), tokens_type(x@.ret));
    }
}

fn push_property_metadata(x: &PropertyMetadata, out: &mut Vec<Token>)
    ensures
        final(out)@ == old(out)@ + tokens_property_metadata(x@),
    decreases x@, 1nat,
{
    let ghost before = out@;
    proof {
        lemma_property_metadata_view(*x);
        lemma_tokens_property_metadata(x@);
        lemma_property_metadata_parts(x@);
    }
    push_word(x.role.rank(), out);
    push_type(&x.getter, out);
    proof {
        lemma_append(before, word(x@.role.rank_spec()), tokens_type(x@.getter));
    }
}

fn push_func_flags(x: &FuncFlags, out: &mut Vec<Token>)
    ensures
        final(out)@ == old(out)@ + tokens_func_flags(x@),
    decreases x@, 1nat,
{
    let ghost before = out@;
    proof {
        lemma_func_flags_view(*x);
        lemma_tokens_func_flags(x@);
        lemma_func_flags_parts(x@);
    }
    push_bool(x.is_overload, out);
    push_bool(x.is_cached_property, out);
    push_bool(x.is_abstract_method, out);
    push_bool(x.is_override, out);
    push_bool(x.is_assert_shape, out);
    push_bool(x.has_enum_member_decoration, out);
    push_bool(x.has_final_decoration, out);
    match &x.property_metadata {
        Some(x) => {
            push_word(1, out);
            push_property_metadata(x, out);
        },
        None => push_word(0, out),
    }
    match &x.deprecation {
        Some(x) => {
            push_word(1, out);
            push_deprecation(x, out);
        },
        None => push_word(0, out),
    }
    match &x.dataclass_transform_metadata {
        Some(x) => {
            push_word(1, out);
            push_transform(x, out);
        },
        None => push_word(0, out),
    }
    proof {
        lemma_append(before, word_of_bool(x@.is_overload), word_of_bool(x@.is_cached_property));
        lemma_append(
            before,
            word_of_bool(x@.is_overload) + word_of_bool(x@.is_cached_property),
            word_of_bool(x@.is_abstract_method),
        );
        lemma_append(
            before,
            word_of_bool(x@.is_overload)
                + word_of_bool(x@.is_cached_property)
                + word_of_bool(x@.is_abstract_method),
            word_of_bool(x@.is_override),
        );
        lemma_append(
            before,
            word_of_bool(x@.is_overload)
                + word_of_bool(x@.is_cached_property)
                + word_of_bool(x@.is_abstract_method)
                + word_of_bool(x@.is_override),
            word_of_bool(x@.is_assert_shape),
        );
        lemma_append(
            before,
            word_of_bool(x@.is_overload)
                + word_of_bool(x@.is_cached_property)
                + word_of_bool(x@.is_abstract_method)
                + word_of_bool(x@.is_override)
                + word_of_bool(x@.is_assert_shape),
            word_of_bool(x@.has_enum_member_decoration),
        );
        lemma_append(
            before,
            word_of_bool(x@.is_overload)
                + word_of_bool(x@.is_cached_property)
                + word_of_bool(x@.is_abstract_method)
                + word_of_bool(x@.is_override)
                + word_of_bool(x@.is_assert_shape)
                + word_of_bool(x@.has_enum_member_decoration),
            word_of_bool(x@.has_final_decoration),
        );
        if x@.property_metadata is Some {
            lemma_append(
                before
                    + (
                        word_of_bool(x@.is_overload)
                            + word_of_bool(x@.is_cached_property)
                            + word_of_bool(x@.is_abstract_method)
                            + word_of_bool(x@.is_override)
                            + word_of_bool(x@.is_assert_shape)
                            + word_of_bool(x@.has_enum_member_decoration)
                            + word_of_bool(x@.has_final_decoration)
                    ),
                word(1),
                tokens_property_metadata(x@.property_metadata->0),
            );
        }
        lemma_append(
            before,
            word_of_bool(x@.is_overload)
                + word_of_bool(x@.is_cached_property)
                + word_of_bool(x@.is_abstract_method)
                + word_of_bool(x@.is_override)
                + word_of_bool(x@.is_assert_shape)
                + word_of_bool(x@.has_enum_member_decoration)
                + word_of_bool(x@.has_final_decoration),
            (match x@.property_metadata {
                Some(x) => word(1) + tokens_property_metadata(x),
                None => word(0),
            }),
        );
        if x@.deprecation is Some {
            lemma_append(
                before
                    + (
                        word_of_bool(x@.is_overload)
                            + word_of_bool(x@.is_cached_property)
                            + word_of_bool(x@.is_abstract_method)
                            + word_of_bool(x@.is_override)
                            + word_of_bool(x@.is_assert_shape)
                            + word_of_bool(x@.has_enum_member_decoration)
                            + word_of_bool(x@.has_final_decoration)
                            + (match x@.property_metadata {
                                Some(x) => word(1) + tokens_property_metadata(x),
                                None => word(0),
                            })
                    ),
                word(1),
                tokens_deprecation(x@.deprecation->0),
            );
        }
        lemma_append(
            before,
            word_of_bool(x@.is_overload)
                + word_of_bool(x@.is_cached_property)
                + word_of_bool(x@.is_abstract_method)
                + word_of_bool(x@.is_override)
                + word_of_bool(x@.is_assert_shape)
                + word_of_bool(x@.has_enum_member_decoration)
                + word_of_bool(x@.has_final_decoration)
                + (match x@.property_metadata {
                    Some(x) => word(1) + tokens_property_metadata(x),
                    None => word(0),
                }),
            (match x@.deprecation { Some(x) => word(1) + tokens_deprecation(x), None => word(0) }),
        );
        if x@.dataclass_transform_metadata is Some {
            lemma_append(
                before
                    + (
                        word_of_bool(x@.is_overload)
                            + word_of_bool(x@.is_cached_property)
                            + word_of_bool(x@.is_abstract_method)
                            + word_of_bool(x@.is_override)
                            + word_of_bool(x@.is_assert_shape)
                            + word_of_bool(x@.has_enum_member_decoration)
                            + word_of_bool(x@.has_final_decoration)
                            + (match x@.property_metadata {
                                Some(x) => word(1) + tokens_property_metadata(x),
                                None => word(0),
                            })
                            + (match x@.deprecation {
                                Some(x) => word(1) + tokens_deprecation(x),
                                None => word(0),
                            })
                    ),
                word(1),
                tokens_transform(x@.dataclass_transform_metadata->0),
            );
        }
        lemma_append(
            before,
            word_of_bool(x@.is_overload)
                + word_of_bool(x@.is_cached_property)
                + word_of_bool(x@.is_abstract_method)
                + word_of_bool(x@.is_override)
                + word_of_bool(x@.is_assert_shape)
                + word_of_bool(x@.has_enum_member_decoration)
                + word_of_bool(x@.has_final_decoration)
                + (match x@.property_metadata {
                    Some(x) => word(1) + tokens_property_metadata(x),
                    None => word(0),
                })
                + (match x@.deprecation {
                    Some(x) => word(1) + tokens_deprecation(x),
                    None => word(0),
                }),
            (match x@.dataclass_transform_metadata {
                Some(x) => word(1) + tokens_transform(x),
                None => word(0),
            }),
        );
    }
}

fn push_func_metadata(x: &FuncMetadata, out: &mut Vec<Token>)
    ensures
        final(out)@ == old(out)@ + tokens_func_metadata(x@),
    decreases x@, 1nat,
{
    let ghost before = out@;
    proof {
        lemma_func_metadata_view(*x);
        lemma_tokens_func_metadata(x@);
        lemma_func_metadata_parts(x@);
    }
    push_function_kind(&x.kind, out);
    push_func_flags(&x.flags, out);
    proof {
        lemma_append(before, tokens_function_kind(x@.kind), tokens_func_flags(x@.flags));
    }
}

fn push_function(x: &Function, out: &mut Vec<Token>)
    ensures
        final(out)@ == old(out)@ + tokens_function(x@),
    decreases x@, 1nat,
{
    let ghost before = out@;
    proof {
        lemma_function_view(*x);
        lemma_tokens_function(x@);
        lemma_function_parts(x@);
    }
    push_callable(&x.signature, out);
    push_func_metadata(&x.metadata, out);
    proof {
        lemma_append(before, tokens_callable(x@.signature), tokens_func_metadata(x@.metadata));
    }
}

fn push_type_alias(x: &TypeAlias, out: &mut Vec<Token>)
    ensures
        final(out)@ == old(out)@ + tokens_type_alias(x@),
    decreases x@, 1nat,
{
    let ghost before = out@;
    proof {
        lemma_type_alias_view(*x);
        lemma_tokens_type_alias(x@);
        lemma_type_alias_parts(x@);
    }
    push_text(x.name.text.as_str(), out);
    push_type(&x.ty, out);
    proof {
        lemma_append(before, tokens_text(x@.name), tokens_type(x@.ty));
    }
}

fn push_type_alias_ref(x: &TypeAliasRef, out: &mut Vec<Token>)
    ensures
        final(out)@ == old(out)@ + tokens_type_alias_ref(x@),
    decreases x@, 1nat,
{
    let ghost before = out@;
    proof {
        lemma_type_alias_ref_view(*x);
        lemma_tokens_type_alias_ref(x@);
        lemma_type_alias_ref_parts(x@);
    }
    push_text(x.name.text.as_str(), out);
    match &x.args {
        Some(x) => {
            push_word(1, out);
            push_targs(x, out);
        },
        None => push_word(0, out),
    }
    proof {
        if x@.args is Some {
            lemma_append(before + (tokens_text(x@.name)), word(1), tokens_targs(x@.args->0));
        }
        lemma_append(
            before,
            tokens_text(x@.name),
            (match x@.args { Some(x) => word(1) + tokens_targs(x), None => word(0) }),
        );
    }
}

fn push_type_alias_data(x: &TypeAliasData, out: &mut Vec<Token>)
    ensures
        final(out)@ == old(out)@ + tokens_type_alias_data(x@),
    decreases x@, 1nat,
{
    let ghost before = out@;
    proof {
        lemma_type_alias_data_view(*x);
        lemma_tokens_type_alias_data(x@);
        lemma_type_alias_data_parts(x@);
    }
    match x {
        TypeAliasData::Value(a) => {
            push_word(0, out);
            push_type_alias(a, out);
            proof {
                lemma_append(before, word(0), tokens_type_alias(x@->Value_0));
            }
        },
        TypeAliasData::Ref(a) => {
            push_word(1, out);
            push_type_alias_ref(a, out);
            proof {
                lemma_append(before, word(1), tokens_type_alias_ref(x@->Ref_0));
            }
        },
    }
}

fn push_forallable(x: &Forallable, out: &mut Vec<Token>)
    ensures
        final(out)@ == old(out)@ + tokens_forallable(x@),
    decreases x@, 1nat,
{
    let ghost before = out@;
    proof {
        lemma_forallable_view(*x);
        lemma_tokens_forallable(x@);
        lemma_forallable_parts(x@);
    }
    match x {
        Forallable::TypeAlias(a) => {
            push_word(0, out);
            push_type_alias_data(a, out);
            proof {
                lemma_append(before, word(0), tokens_type_alias_data(x@->TypeAlias_0));
            }
        },
        Forallable::Function(a) => {
            push_word(1, out);
            push_function(a, out);
            proof {
                lemma_append(before, word(1), tokens_function(x@->Function_0));
            }
        },
        Forallable::Callable(a) => {
            push_word(2, out);
            push_callable(a, out);
            proof {
                lemma_append(before, word(2), tokens_callable(x@->Callable_0));
            }
        },
    }
}

fn push_overload_type(x: &OverloadType, out: &mut Vec<Token>)
    ensures
        final(out)@ == old(out)@ + tokens_overload_type(x@),
    decreases x@, 1nat,
{
    let ghost before = out@;
    proof {
        lemma_overload_type_view(*x);
        lemma_tokens_overload_type(x@);
        lemma_overload_type_parts(x@);
    }
    match x {
        OverloadType::Function(a) => {
            push_word(0, out);
            push_function(a, out);
            proof {
                lemma_append(before, word(0), tokens_function(x@->Function_0));
            }
        },
        OverloadType::Forall(a) => {
            push_word(1, out);
            push_forall_function(a, out);
            proof {
                lemma_append(before, word(1), tokens_forall_function(x@->Forall_0));
            }
        },
    }
}

fn push_overload(x: &Overload, out: &mut Vec<Token>)
    ensures
        final(out)@ == old(out)@ + tokens_overload(x@),
    decreases x@, 1nat,
{
    let ghost before = out@;
    proof {
        lemma_overload_view(*x);
        lemma_tokens_overload(x@);
        lemma_overload_parts(x@);
    }
    push_signatures(&x.signatures, out);
    push_func_metadata(&*x.metadata, out);
    proof {
        lemma_append(before, tokens_overloads(x@.signatures), tokens_func_metadata(*x@.metadata));
    }
}

fn push_bound_method_type(x: &BoundMethodType, out: &mut Vec<Token>)
    ensures
        final(out)@ == old(out)@ + tokens_bound_method_type(x@),
    decreases x@, 1nat,
{
    let ghost before = out@;
    proof {
        lemma_bound_method_type_view(*x);
        lemma_tokens_bound_method_type(x@);
        lemma_bound_method_type_parts(x@);
    }
    match x {
        BoundMethodType::Function(a) => {
            push_word(0, out);
            push_function(a, out);
            proof {
                lemma_append(before, word(0), tokens_function(x@->Function_0));
            }
        },
        BoundMethodType::Forall(a) => {
            push_word(1, out);
            push_forall_function(a, out);
            proof {
                lemma_append(before, word(1), tokens_forall_function(x@->Forall_0));
            }
        },
        BoundMethodType::Overload(a) => {
            push_word(2, out);
            push_overload(a, out);
            proof {
                lemma_append(before, word(2), tokens_overload(x@->Overload_0));
            }
        },
    }
}

fn push_bound_method(x: &BoundMethod, out: &mut Vec<Token>)
    ensures
        final(out)@ == old(out)@ + tokens_bound_method(x@),
    decreases x@, 1nat,
{
    let ghost before = out@;
    proof {
        lemma_bound_method_view(*x);
        lemma_tokens_bound_method(x@);
        lemma_bound_method_parts(x@);
    }
    push_type(&x.obj, out);
    push_bound_method_type(&x.func, out);
    proof {
        lemma_append(before, tokens_type(x@.obj), tokens_bound_method_type(x@.func));
    }
}

fn push_union(x: &Union, out: &mut Vec<Token>)
    ensures
        final(out)@ == old(out)@ + tokens_union(x@),
    decreases x@, 1nat,
{
    let ghost before = out@;
    proof {
        lemma_union_view(*x);
        lemma_tokens_union(x@);
        lemma_union_parts(x@);
    }
    push_types(&x.members, out);
}

fn push_typed_dict(x: &TypedDict, out: &mut Vec<Token>)
    ensures
        final(out)@ == old(out)@ + tokens_typed_dict(x@),
    decreases x@, 1nat,
{
    let ghost before = out@;
    proof {
        lemma_typed_dict_view(*x);
        lemma_tokens_typed_dict(x@);
        lemma_typed_dict_parts(x@);
    }
    match x {
        TypedDict::TypedDict(a) => {
            push_word(0, out);
            push_class_type(a, out);
            proof {
                lemma_append(before, word(0), tokens_class_type(x@->TypedDict_0));
            }
        },
        TypedDict::Anonymous(a) => {
            push_word(1, out);
            push_fields(a, out);
            proof {
                lemma_append(before, word(1), tokens_fields(x@->Anonymous_0));
            }
        },
    }
}

fn push_field(x: &Field, out: &mut Vec<Token>)
    ensures
        final(out)@ == old(out)@ + tokens_field(x@),
    decreases x@, 1nat,
{
    let ghost before = out@;
    proof {
        lemma_field_view(*x);
        lemma_tokens_field(x@);
        lemma_field_parts(x@);
    }
    push_text(x.name.text.as_str(), out);
    push_type(&x.ty, out);
    proof {
        lemma_append(before, tokens_text(x@.name), tokens_type(x@.ty));
    }
}

fn push_int(x: &Int, out: &mut Vec<Token>)
    ensures
        final(out)@ == old(out)@ + tokens_int(x@),
    decreases x@, 1nat,
{
    let ghost before = out@;
    proof {
        lemma_int_view(*x);
        lemma_tokens_int(x@);
        lemma_int_parts(x@);
    }
    match x {
        Int::Literal(a) => {
            push_word(0, out);
            push_i64(*a, out);
            proof {
                lemma_append(before, word(0), word(order_of_i64(x@->Literal_0)));
            }
        },
        Int::Symbolic(a) => {
            push_word(1, out);
            push_type(&**a, out);
            proof {
                lemma_append(before, word(1), tokens_type(*x@->Symbolic_0));
            }
        },
        Int::Gradual => push_word(2, out),
        Int::Materialization => push_word(3, out),
    }
}

fn push_int_tuple(x: &IntTuple, out: &mut Vec<Token>)
    ensures
        final(out)@ == old(out)@ + tokens_dims(x@),
    decreases x@, 1nat,
{
    proof {
        lemma_int_tuple_view(*x);
    }
    push_dims(&x.dims, out);
}

fn push_shaped_array_type(x: &ShapedArrayType, out: &mut Vec<Token>)
    ensures
        final(out)@ == old(out)@ + tokens_shaped_array_type(x@),
    decreases x@, 1nat,
{
    let ghost before = out@;
    proof {
        lemma_shaped_array_type_view(*x);
        lemma_tokens_shaped_array_type(x@);
        lemma_shaped_array_type_parts(x@);
    }
    push_class_type(&x.base_class, out);
    push_int_tuple(&x.shape, out);
    proof {
        lemma_append(before, tokens_class_type(x@.base_class), tokens_dims(x@.shape));
    }
}

fn push_nn_module_type(x: &NNModuleType, out: &mut Vec<Token>)
    ensures
        final(out)@ == old(out)@ + tokens_nn_module_type(x@),
    decreases x@, 1nat,
{
    let ghost before = out@;
    proof {
        lemma_nn_module_type_view(*x);
        lemma_tokens_nn_module_type(x@);
        lemma_nn_module_type_parts(x@);
    }
    push_class_type(&x.class, out);
    push_module_fields(&x.fields, out);
    proof {
        lemma_append(before, tokens_class_type(x@.class), tokens_module_fields(x@.fields));
    }
}

fn push_data_frame_schema(x: &DataFrameSchema, out: &mut Vec<Token>)
    ensures
        final(out)@ == old(out)@ + tokens_data_frame_schema(x@),
    decreases x@, 1nat,
{
    let ghost before = out@;
    proof {
        lemma_data_frame_schema_view(*x);
        lemma_tokens_data_frame_schema(x@);
        lemma_data_frame_schema_parts(x@);
    }
    push_class_type(&x.class, out);
    push_fields(&x.columns, out);
    proof {
        lemma_append(before, tokens_class_type(x@.class), tokens_fields(x@.columns));
    }
}

fn push_series_schema(x: &SeriesSchema, out: &mut Vec<Token>)
    ensures
        final(out)@ == old(out)@ + tokens_series_schema(x@),
    decreases x@, 1nat,
{
    let ghost before = out@;
    proof {
        lemma_series_schema_view(*x);
        lemma_tokens_series_schema(x@);
        lemma_series_schema_parts(x@);
    }
    push_class_type(&x.class, out);
    push_type(&x.element, out);
    proof {
        lemma_append(before, tokens_class_type(x@.class), tokens_type(x@.element));
    }
}

fn push_tuple(x: &Tuple, out: &mut Vec<Token>)
    ensures
        final(out)@ == old(out)@ + tokens_tuple(x@),
    decreases x@, 1nat,
{
    let ghost before = out@;
    proof {
        lemma_tuple_view(*x);
        lemma_tokens_tuple(x@);
        lemma_tuple_parts(x@);
    }
    match x {
        Tuple::Concrete(a) => {
            push_word(0, out);
            push_types(a, out);
            proof {
                lemma_append(before, word(0), tokens_types(x@->Concrete_0));
            }
        },
        Tuple::Unbounded(a) => {
            push_word(1, out);
            push_type(&**a, out);
            proof {
                lemma_append(before, word(1), tokens_type(*x@->Unbounded_0));
            }
        },
        Tuple::Unpacked(a) => {
            push_word(2, out);
            push_types(&(**a).0, out);
            push_type(&(**a).1, out);
            push_types(&(**a).2, out);
            proof {
                lemma_append(before, word(2), tokens_types(x@->Unpacked_0.0));
                lemma_append(
                    before,
                    word(2) + tokens_types(x@->Unpacked_0.0),
                    tokens_type(x@->Unpacked_0.1),
                );
                lemma_append(
                    before,
                    word(2) + tokens_types(x@->Unpacked_0.0) + tokens_type(x@->Unpacked_0.1),
                    tokens_types(x@->Unpacked_0.2),
                );
            }
        },
    }
}

fn push_kw_call(x: &KwCall, out: &mut Vec<Token>)
    ensures
        final(out)@ == old(out)@ + tokens_kw_call(x@),
    decreases x@, 1nat,
{
    let ghost before = out@;
    proof {
        lemma_kw_call_view(*x);
        lemma_tokens_kw_call(x@);
        lemma_kw_call_parts(x@);
    }
    push_fields(&x.keywords, out);
    push_type(&x.return_ty, out);
    proof {
        lemma_append(before, tokens_fields(x@.keywords), tokens_type(x@.return_ty));
    }
}

fn push_callable_residual(x: &CallableResidual, out: &mut Vec<Token>)
    ensures
        final(out)@ == old(out)@ + tokens_callable_residual(x@),
    decreases x@, 1nat,
{
    let ghost before = out@;
    proof {
        lemma_callable_residual_view(*x);
        lemma_tokens_callable_residual(x@);
        lemma_callable_residual_parts(x@);
    }
    push_types(&x.captured, out);
    push_type(&x.fallback, out);
    proof {
        lemma_append(before, tokens_types(x@.captured), tokens_type(x@.fallback));
    }
}

fn push_type_level_dsl_call(x: &TypeLevelDslCall, out: &mut Vec<Token>)
    ensures
        final(out)@ == old(out)@ + tokens_type_level_dsl_call(x@),
    decreases x@, 1nat,
{
    let ghost before = out@;
    proof {
        lemma_type_level_dsl_call_view(*x);
        lemma_tokens_type_level_dsl_call(x@);
        lemma_type_level_dsl_call_parts(x@);
    }
    push_text(x.function.text.as_str(), out);
    push_types(&x.args, out);
    push_type(&x.result_schema, out);
    proof {
        lemma_append(before, tokens_text(x@.function), tokens_types(x@.args));
        lemma_append(
            before,
            tokens_text(x@.function) + tokens_types(x@.args),
            tokens_type(x@.result_schema),
        );
    }
}

fn push_super_obj(x: &SuperObj, out: &mut Vec<Token>)
    ensures
        final(out)@ == old(out)@ + tokens_super_obj(x@),
    decreases x@, 1nat,
{
    let ghost before = out@;
    proof {
        lemma_super_obj_view(*x);
        lemma_tokens_super_obj(x@);
        lemma_super_obj_parts(x@);
    }
    match x {
        SuperObj::Instance(a) => {
            push_word(0, out);
            push_class_type(a, out);
            proof {
                lemma_append(before, word(0), tokens_class_type(x@->Instance_0));
            }
        },
        SuperObj::Class(a) => {
            push_word(1, out);
            push_class_type(a, out);
            proof {
                lemma_append(before, word(1), tokens_class_type(x@->Class_0));
            }
        },
    }
}

#[verifier::rlimit(40)]
fn push_type(x: &Type, out: &mut Vec<Token>)
    ensures
        final(out)@ == old(out)@ + tokens_type(x@),
    decreases x@, 1nat,
{
    let ghost before = out@;
    proof {
        lemma_type_view(*x);
        lemma_tokens_type(x@);
        lemma_type_parts(x@);
    }
    match x {
        Type::Literal(a) => {
            push_word(0, out);
            push_literal(&**a, out);
            proof {
                lemma_append(before, word(0), tokens_literal(*x@->Literal_0));
            }
        },
        Type::LiteralString(a) => {
            push_word(1, out);
            push_word(a.rank(), out);
            proof {
                lemma_append(before, word(1), word(x@->LiteralString_0.rank_spec()));
            }
        },
        Type::Callable(a) => {
            push_word(2, out);
            push_callable(&**a, out);
            proof {
                lemma_append(before, word(2), tokens_callable(*x@->Callable_0));
            }
        },
        Type::CallableResidual(a) => {
            push_word(3, out);
            push_callable_residual(&**a, out);
            proof {
                lemma_append(before, word(3), tokens_callable_residual(*x@->CallableResidual_0));
            }
        },
        Type::TypeLevelDslCall(a) => {
            push_word(4, out);
            push_type_level_dsl_call(&**a, out);
            proof {
                lemma_append(before, word(4), tokens_type_level_dsl_call(*x@->TypeLevelDslCall_0));
            }
        },
        Type::Function(a) => {
            push_word(5, out);
            push_function(&**a, out);
            proof {
                lemma_append(before, word(5), tokens_function(*x@->Function_0));
            }
        },
        Type::BoundMethod(a) => {
            push_word(6, out);
            push_bound_method(&**a, out);
            proof {
                lemma_append(before, word(6), tokens_bound_method(*x@->BoundMethod_0));
            }
        },
        Type::Overload(a) => {
            push_word(7, out);
            push_overload(a, out);
            proof {
                lemma_append(before, word(7), tokens_overload(x@->Overload_0));
            }
        },
        Type::Union(a) => {
            push_word(8, out);
            push_union(&**a, out);
            proof {
                lemma_append(before, word(8), tokens_union(*x@->Union_0));
            }
        },
        Type::Intersect(a) => {
            push_word(9, out);
            push_types(&(**a).0, out);
            push_type(&(**a).1, out);
            proof {
                lemma_append(before, word(9), tokens_types(x@->Intersect_0.0));
                lemma_append(
                    before,
                    word(9) + tokens_types(x@->Intersect_0.0),
                    tokens_type(x@->Intersect_0.1),
                );
            }
        },
        Type::ClassDef(a) => {
            push_word(10, out);
            push_class(a, out);
            proof {
                lemma_append(before, word(10), tokens_class(x@->ClassDef_0));
            }
        },
        Type::ClassType(a) => {
            push_word(11, out);
            push_class_type(a, out);
            proof {
                lemma_append(before, word(11), tokens_class_type(x@->ClassType_0));
            }
        },
        Type::TypedDict(a) => {
            push_word(12, out);
            push_typed_dict(a, out);
            proof {
                lemma_append(before, word(12), tokens_typed_dict(x@->TypedDict_0));
            }
        },
        Type::PartialTypedDict(a) => {
            push_word(13, out);
            push_typed_dict(a, out);
            proof {
                lemma_append(before, word(13), tokens_typed_dict(x@->PartialTypedDict_0));
            }
        },
        Type::ShapedArray(a) => {
            push_word(14, out);
            push_shaped_array_type(&**a, out);
            proof {
                lemma_append(before, word(14), tokens_shaped_array_type(*x@->ShapedArray_0));
            }
        },
        Type::IntTuple(a) => {
            push_word(15, out);
            push_int_tuple(&**a, out);
            proof {
                lemma_append(before, word(15), tokens_dims(*x@->IntTuple_0));
            }
        },
        Type::NNModule(a) => {
            push_word(16, out);
            push_nn_module_type(&**a, out);
            proof {
                lemma_append(before, word(16), tokens_nn_module_type(*x@->NNModule_0));
            }
        },
        Type::DataFrame(a) => {
            push_word(17, out);
            push_data_frame_schema(&**a, out);
            proof {
                lemma_append(before, word(17), tokens_data_frame_schema(*x@->DataFrame_0));
            }
        },
        Type::Series(a) => {
            push_word(18, out);
            push_series_schema(&**a, out);
            proof {
                lemma_append(before, word(18), tokens_series_schema(*x@->Series_0));
            }
        },
        Type::Int(a) => {
            push_word(19, out);
            push_int(a, out);
            proof {
                lemma_append(before, word(19), tokens_int(x@->Int_0));
            }
        },
        Type::Tuple(a) => {
            push_word(20, out);
            push_tuple(a, out);
            proof {
                lemma_append(before, word(20), tokens_tuple(x@->Tuple_0));
            }
        },
        Type::Module(a) => {
            push_word(21, out);
            push_text(a.name.text.as_str(), out);
            proof {
                lemma_append(before, word(21), tokens_text(x@->Module_0));
            }
        },
        Type::Forall(a) => {
            push_word(22, out);
            push_forall_forallable(&**a, out);
            proof {
                lemma_append(before, word(22), tokens_forall_forallable(*x@->Forall_0));
            }
        },
        Type::Var(a) => {
            push_word(23, out);
            push_var(*a, out);
            proof {
                lemma_append(before, word(23), var_token(x@->Var_0));
            }
        },
        Type::Quantified(a) => {
            push_word(24, out);
            push_quantified(&**a, out);
            proof {
                lemma_append(before, word(24), tokens_quantified(*x@->Quantified_0));
            }
        },
        Type::QuantifiedValue(a) => {
            push_word(25, out);
            push_quantified(&**a, out);
            proof {
                lemma_append(before, word(25), tokens_quantified(*x@->QuantifiedValue_0));
            }
        },
        Type::ElementOfTypeVarTuple(a) => {
            push_word(26, out);
            push_quantified(&**a, out);
            proof {
                lemma_append(before, word(26), tokens_quantified(*x@->ElementOfTypeVarTuple_0));
            }
        },
        Type::TypeGuard(a) => {
            push_word(27, out);
            push_type(&**a, out);
            proof {
                lemma_append(before, word(27), tokens_type(*x@->TypeGuard_0));
            }
        },
        Type::TypeIs(a) => {
            push_word(28, out);
            push_type(&**a, out);
            proof {
                lemma_append(before, word(28), tokens_type(*x@->TypeIs_0));
            }
        },
        Type::Annotated(a, b) => {
            push_word(29, out);
            push_type(&**a, out);
            push_types(b, out);
            proof {
                lemma_append(before, word(29), tokens_type(*x@->Annotated_0));
                lemma_append(
                    before,
                    word(29) + tokens_type(*x@->Annotated_0),
                    tokens_types(x@->Annotated_1),
                );
            }
        },
        Type::Unpack(a) => {
            push_word(30, out);
            push_type(&**a, out);
            proof {
                lemma_append(before, word(30), tokens_type(*x@->Unpack_0));
            }
        },
        Type::TypeVar(a) => {
            push_word(31, out);
            push_qname(&a.qname, out);
            proof {
                lemma_append(before, word(31), tokens_qname(x@->TypeVar_0));
            }
        },
        Type::ParamSpec(a) => {
            push_word(32, out);
            push_qname(&a.qname, out);
            proof {
                lemma_append(before, word(32), tokens_qname(x@->ParamSpec_0));
            }
        },
        Type::TypeVarTuple(a) => {
            push_word(33, out);
            push_qname(&a.qname, out);
            proof {
                lemma_append(before, word(33), tokens_qname(x@->TypeVarTuple_0));
            }
        },
        Type::SpecialForm(a) => {
            push_word(34, out);
            push_word(a.rank(), out);
            proof {
                lemma_append(before, word(34), word(x@->SpecialForm_0.rank_spec()));
            }
        },
        Type::Concatenate(a, b) => {
            push_word(35, out);
            push_param_seq(a, out);
            push_type(&**b, out);
            proof {
                lemma_append(before, word(35), tokens_param_seq(x@->Concatenate_0));
                lemma_append(
                    before,
                    word(35) + tokens_param_seq(x@->Concatenate_0),
                    tokens_type(*x@->Concatenate_1),
                );
            }
        },
        Type::ParamSpecValue(a) => {
            push_word(36, out);
            push_param_list(a, out);
            proof {
                lemma_append(before, word(36), tokens_param_seq(x@->ParamSpecValue_0));
            }
        },
        Type::Args(a) => {
            push_word(37, out);
            push_quantified(&**a, out);
            proof {
                lemma_append(before, word(37), tokens_quantified(*x@->Args_0));
            }
        },
        Type::Kwargs(a) => {
            push_word(38, out);
            push_quantified(&**a, out);
            proof {
                lemma_append(before, word(38), tokens_quantified(*x@->Kwargs_0));
            }
        },
        Type::ArgsValue(a) => {
            push_word(39, out);
            push_quantified(&**a, out);
            proof {
                lemma_append(before, word(39), tokens_quantified(*x@->ArgsValue_0));
            }
        },
        Type::KwargsValue(a) => {
            push_word(40, out);
            push_quantified(&**a, out);
            proof {
                lemma_append(before, word(40), tokens_quantified(*x@->KwargsValue_0));
            }
        },
        Type::Type(a) => {
            push_word(41, out);
            push_type(&**a, out);
            proof {
                lemma_append(before, word(41), tokens_type(*x@->Type_0));
            }
        },
        Type::TypeForm(a) => {
            push_word(42, out);
            push_type(&**a, out);
            proof {
                lemma_append(before, word(42), tokens_type(*x@->TypeForm_0));
            }
        },
        Type::Ellipsis => push_word(43, out),
        Type::Any(a) => {
            push_word(44, out);
            push_word(a.rank(), out);
            proof {
                lemma_append(before, word(44), word(x@->Any_0.rank_spec()));
            }
        },
        Type::Never(a) => {
            push_word(45, out);
            push_word(a.rank(), out);
            proof {
                lemma_append(before, word(45), word(x@->Never_0.rank_spec()));
            }
        },
        Type::TypeAlias(a) => {
            push_word(46, out);
            push_type_alias_data(&**a, out);
            proof {
                lemma_append(before, word(46), tokens_type_alias_data(*x@->TypeAlias_0));
            }
        },
        Type::UntypedAlias(a) => {
            push_word(47, out);
            push_type_alias_data(&**a, out);
            proof {
                lemma_append(before, word(47), tokens_type_alias_data(*x@->UntypedAlias_0));
            }
        },
        Type::Sentinel(a) => {
            push_word(48, out);
            push_qname(&a.qname, out);
            proof {
                lemma_append(before, word(48), tokens_qname(x@->Sentinel_0));
            }
        },
        Type::SuperInstance(a) => {
            push_word(49, out);
            push_class_type(&(**a).0, out);
            push_super_obj(&(**a).1, out);
            proof {
                lemma_append(before, word(49), tokens_class_type(x@->SuperInstance_0.0));
                lemma_append(
                    before,
                    word(49) + tokens_class_type(x@->SuperInstance_0.0),
                    tokens_super_obj(x@->SuperInstance_0.1),
                );
            }
        },
        Type::SelfType(a) => {
            push_word(50, out);
            push_class_type(a, out);
            proof {
                lemma_append(before, word(50), tokens_class_type(x@->SelfType_0));
            }
        },
        Type::KwCall(a) => {
            push_word(51, out);
            push_kw_call(&**a, out);
            proof {
                lemma_append(before, word(51), tokens_kw_call(*x@->KwCall_0));
            }
        },
        Type::Materialization => push_word(52, out),
        Type::NoneType => push_word(53, out),
    }
}

impl Type {
    /// The spelling of the type.
    pub fn tokens(&self) -> (r: Vec<Token>)
        ensures
            r@ == tokens_type(self@),
    {
        let mut out: Vec<Token> = Vec::new();
        push_type(self, &mut out);
        assert(out@ =~= tokens_type(self@));
        out
    }
}

impl Quantified {
    /// The spelling of the type parameter.
    pub fn tokens(&self) -> (r: Vec<Token>)
        ensures
            r@ == tokens_quantified(self@),
    {
        let mut out: Vec<Token> = Vec::new();
        push_quantified(self, &mut out);
        assert(out@ =~= tokens_quantified(self@));
        out
    }
}

impl Union {
    /// The spelling of the members.
    pub fn tokens(&self) -> (r: Vec<Token>)
        ensures
            r@ == tokens_union(self@),
    {
        let mut out: Vec<Token> = Vec::new();
        push_union(self, &mut out);
        assert(out@ =~= tokens_union(self@));
        out
    }
}

impl NNModuleType {
    /// The spelling of the class and of its captured arguments.
    pub fn tokens(&self) -> (r: Vec<Token>)
        ensures
            r@ == tokens_nn_module_type(self@),
    {
        let mut out: Vec<Token> = Vec::new();
        push_nn_module_type(self, &mut out);
        assert(out@ =~= tokens_nn_module_type(self@));
        out
    }
}

} // verus!
