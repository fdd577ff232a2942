//! What a type of each kind holds, in terms of its fields.
use vstd::prelude::*;

use crate::slots::{
    reached_bound_method, reached_bound_method_type, reached_forall_forallable,
    reached_forall_function, reached_overload, reached_overload_type, reached_overloads,
    reached_type, slots_bound_method, slots_bound_method_type, slots_callable,
    slots_callable_residual, slots_class_type, slots_class_type_super_obj,
    slots_data_frame_schema, slots_dims, slots_field, slots_fields, slots_forall_forallable,
    slots_forall_function, slots_forallable, slots_func_flags, slots_func_metadata,
    slots_function, slots_int, slots_kw_call, slots_lit, slots_lit_enum, slots_literal,
    slots_many_one, slots_many_one_many, slots_nn_module_type, slots_overload,
    slots_overload_type, slots_overloads, slots_param, slots_param_seq, slots_params,
    slots_property_metadata, slots_quantified, slots_quantifieds, slots_restriction,
    slots_series_schema, slots_shaped_array_type, slots_super_obj, slots_targs, slots_tuple,
    slots_type, slots_type_alias, slots_type_alias_data, slots_type_alias_ref,
    slots_type_level_dsl_call, slots_typed_dict, slots_union,
};
use crate::view::{
    BoundMethodTypeView, CallableView, ClassTypeView, FieldView, ForallableView, FuncMetadataView,
    FunctionView, IntView, LitView, OverloadTypeView, OverloadView, ParamView, ParamsView,
    QuantifiedView, RestrictionView, SuperObjView, TupleView, TypeAliasDataView, TypeView,
    TypedDictView,
};

verus! {

/// The types of parameters.
pub open spec fn param_types(ps: Seq<ParamView>) -> Seq<TypeView> {
    ps.map_values(|p: ParamView| p.ty)
}

/// The types of fields.
pub open spec fn field_types(fs: Seq<FieldView>) -> Seq<TypeView> {
    fs.map_values(|f: FieldView| f.ty)
}

/// The types that a signature is written with: those of the parameters, and then the one that is
/// returned.
pub open spec fn signature_types(c: CallableView) -> Seq<TypeView> {
    match c.params {
        ParamsView::List(ps) => param_types(ps).push(c.ret),
        ParamsView::Ellipsis => seq![c.ret],
        ParamsView::Materialization => seq![c.ret],
        ParamsView::ParamSpec(ps, p) => param_types(ps).push(p).push(c.ret),
    }
}

/// The getter that a function takes part in a property with.
pub open spec fn metadata_types(m: FuncMetadataView) -> Seq<TypeView> {
    match m.flags.property_metadata {
        Some(p) => seq![p.getter],
        None => Seq::empty(),
    }
}

/// The types of a signature, and then the getter.
pub open spec fn function_types(f: FunctionView) -> Seq<TypeView> {
    signature_types(f.signature) + metadata_types(f.metadata)
}

/// The default of a type parameter, and then its bound or its constraints.
pub open spec fn declared_types(q: QuantifiedView) -> Seq<TypeView> {
    (match q.default {
        Some(t) => seq![t],
        None => Seq::empty(),
    }) + (match q.restriction {
        RestrictionView::Bound(t) => seq![t],
        RestrictionView::Constraints(ts) => ts,
        RestrictionView::Unrestricted => Seq::empty(),
    })
}

/// The types of the dimensions that are given by a type.
pub open spec fn dim_types(ds: Seq<IntView>) -> Seq<TypeView> {
    ds.map_values(
        |d: IntView|
            match d {
                IntView::Symbolic(t) => seq![*t],
                _ => Seq::empty(),
            },
    ).flatten()
}

/// The value of a type alias, or the type arguments of a reference to one.
pub open spec fn alias_types(a: TypeAliasDataView) -> Seq<TypeView> {
    match a {
        TypeAliasDataView::Value(v) => seq![v.ty],
        TypeAliasDataView::Ref(r) => match r.args {
            Some(targs) => targs.args,
            None => Seq::empty(),
        },
    }
}

/// The types of each signature, and then the getter.
pub open spec fn overload_types(o: OverloadView) -> Seq<TypeView> {
    o.signatures.map_values(
        |s: OverloadTypeView|
            match s {
                OverloadTypeView::Function(f) => function_types(f),
                OverloadTypeView::Forall(g) => function_types(g.body),
            },
    ).flatten() + metadata_types(*o.metadata)
}

/// The types of each signature, after those that its type parameters are declared with, and then
/// the getter.
pub open spec fn overload_types_read(o: OverloadView) -> Seq<TypeView> {
    o.signatures.map_values(
        |s: OverloadTypeView|
            match s {
                OverloadTypeView::Function(f) => function_types(f),
                OverloadTypeView::Forall(g) => all_declared_types(g.tparams) + function_types(
                    g.body,
                ),
            },
    ).flatten() + metadata_types(*o.metadata)
}

/// The types that type parameters are declared with.
pub open spec fn all_declared_types(qs: Seq<QuantifiedView>) -> Seq<TypeView> {
    qs.map_values(|q: QuantifiedView| declared_types(q)).flatten()
}

/// The types of a typed dictionary: the type arguments of its class, or the types of its fields.
pub open spec fn typed_dict_types(d: TypedDictView) -> Seq<TypeView> {
    match d {
        TypedDictView::TypedDict(c) => c.targs.args,
        TypedDictView::Anonymous(fs) => field_types(fs),
    }
}

proof fn lemma_param_types(ps: Seq<ParamView>)
    ensures
        slots_param_seq(ps) == param_types(ps),
    decreases ps.len(),
{
    if ps.len() > 0 {
        lemma_param_types(ps.drop_last());
        reveal(slots_param);
    }
    assert(slots_param_seq(ps) =~= param_types(ps));
}

proof fn lemma_field_types(fs: Seq<FieldView>)
    ensures
        slots_fields(fs) == field_types(fs),
    decreases fs.len(),
{
    if fs.len() > 0 {
        lemma_field_types(fs.drop_last());
        reveal(slots_field);
    }
    assert(slots_fields(fs) =~= field_types(fs));
}

proof fn lemma_dim_types(ds: Seq<IntView>)
    ensures
        slots_dims(ds) == dim_types(ds),
    decreases ds.len(),
{
    let f = |d: IntView|
        match d {
            IntView::Symbolic(t) => seq![*t],
            _ => Seq::empty(),
        };
    if ds.len() > 0 {
        let (head, d) = (ds.drop_last(), ds.last());
        lemma_dim_types(head);
        reveal(slots_int);
        assert(ds.map_values(f) =~= head.map_values(f).push(f(d)));
        head.map_values(f).lemma_flatten_push(f(d));
    } else {
        assert(ds.map_values(f) =~= Seq::empty());
    }
}

proof fn lemma_declared_types(q: QuantifiedView)
    ensures
        slots_quantified(q) == declared_types(q),
{
    reveal(slots_quantified);
    reveal(slots_restriction);
    assert(slots_quantified(q) =~= declared_types(q));
}

proof fn lemma_all_declared_types(qs: Seq<QuantifiedView>)
    ensures
        slots_quantifieds(qs) == all_declared_types(qs),
    decreases qs.len(),
{
    let f = |q: QuantifiedView| declared_types(q);
    if qs.len() > 0 {
        let (head, q) = (qs.drop_last(), qs.last());
        lemma_all_declared_types(head);
        lemma_declared_types(q);
        assert(qs.map_values(f) =~= head.map_values(f).push(f(q)));
        head.map_values(f).lemma_flatten_push(f(q));
    } else {
        assert(qs.map_values(f) =~= Seq::empty());
    }
}

proof fn lemma_signature_types(c: CallableView)
    ensures
        slots_callable(c) == signature_types(c),
{
    reveal(slots_callable);
    reveal(slots_params);
    match c.params {
        ParamsView::List(ps) => {
            lemma_param_types(ps);
        },
        ParamsView::ParamSpec(ps, _) => {
            lemma_param_types(ps);
        },
        _ => {},
    }
    assert(slots_callable(c) =~= signature_types(c));
}

proof fn lemma_metadata_types(m: FuncMetadataView)
    ensures
        slots_func_metadata(m) == metadata_types(m),
{
    reveal(slots_func_metadata);
    reveal(slots_func_flags);
    reveal(slots_property_metadata);
    assert(slots_func_metadata(m) =~= metadata_types(m));
}

proof fn lemma_function_types(f: FunctionView)
    ensures
        slots_function(f) == function_types(f),
{
    reveal(slots_function);
    lemma_signature_types(f.signature);
    lemma_metadata_types(f.metadata);
}

proof fn lemma_signatures(os: Seq<OverloadTypeView>)
    ensures
        slots_overloads(os) == os.map_values(
            |s: OverloadTypeView|
                match s {
                    OverloadTypeView::Function(f) => function_types(f),
                    OverloadTypeView::Forall(g) => function_types(g.body),
                },
        ).flatten(),
        reached_overloads(os) == os.map_values(
            |s: OverloadTypeView|
                match s {
                    OverloadTypeView::Function(f) => function_types(f),
                    OverloadTypeView::Forall(g) => all_declared_types(g.tparams) + function_types(
                        g.body,
                    ),
                },
        ).flatten(),
    decreases os.len(),
{
    let f = |s: OverloadTypeView|
        match s {
            OverloadTypeView::Function(f) => function_types(f),
            OverloadTypeView::Forall(g) => function_types(g.body),
        };
    let r = |s: OverloadTypeView|
        match s {
            OverloadTypeView::Function(f) => function_types(f),
            OverloadTypeView::Forall(g) => all_declared_types(g.tparams) + function_types(g.body),
        };
    if os.len() > 0 {
        let (head, o) = (os.drop_last(), os.last());
        lemma_signatures(head);
        reveal(slots_overload_type);
        reveal(reached_overload_type);
        reveal(slots_forall_function);
        reveal(reached_forall_function);
        match o {
            OverloadTypeView::Function(f) => {
                lemma_function_types(f);
            },
            OverloadTypeView::Forall(g) => {
                lemma_function_types(g.body);
                lemma_all_declared_types(g.tparams);
            },
        }
        assert(os.map_values(f) =~= head.map_values(f).push(f(o)));
        head.map_values(f).lemma_flatten_push(f(o));
        assert(os.map_values(r) =~= head.map_values(r).push(r(o)));
        head.map_values(r).lemma_flatten_push(r(o));
    } else {
        assert(os.map_values(f) =~= Seq::empty());
        assert(os.map_values(r) =~= Seq::empty());
    }
}

proof fn lemma_overload_types(o: OverloadView)
    ensures
        slots_overload(o) == overload_types(o),
        reached_overload(o) == overload_types_read(o),
{
    reveal(slots_overload);
    reveal(reached_overload);
    lemma_signatures(o.signatures);
    lemma_metadata_types(*o.metadata);
}

proof fn lemma_class_args(c: ClassTypeView)
    ensures
        slots_class_type(c) == c.targs.args,
{
    reveal(slots_class_type);
    reveal(slots_targs);
}

proof fn lemma_alias_types(a: TypeAliasDataView)
    ensures
        slots_type_alias_data(a) == alias_types(a),
{
    reveal(slots_type_alias_data);
    reveal(slots_type_alias);
    reveal(slots_type_alias_ref);
    reveal(slots_targs);
    assert(slots_type_alias_data(a) =~= alias_types(a));
}

proof fn lemma_typed_dict_types(d: TypedDictView)
    ensures
        slots_typed_dict(d) == typed_dict_types(d),
{
    reveal(slots_typed_dict);
    match d {
        TypedDictView::TypedDict(c) => {
            lemma_class_args(c);
        },
        TypedDictView::Anonymous(fs) => {
            lemma_field_types(fs);
        },
    }
}

/// What a type holds, for each kind of type, where a visit may replace it: every type that it is
/// written with, in order, but for the metadata of `Annotated` and for the type parameters that a
/// declaration introduces.
#[verifier::rlimit(80)]
#[verifier::spinoff_prover]
pub proof fn lemma_held(t: TypeView)
    ensures
        slots_type(t) == match t {
            TypeView::Literal(lit) => match lit.value {
                LitView::Enum(e) => e.class.targs.args,
                _ => Seq::empty(),
            },
            TypeView::Callable(c) => signature_types(*c),
            TypeView::CallableResidual(r) => r.captured.push(r.fallback),
            TypeView::TypeLevelDslCall(c) => c.args.push(c.result_schema),
            TypeView::Function(f) => function_types(*f),
            TypeView::BoundMethod(m) => seq![m.obj] + (match m.func {
                BoundMethodTypeView::Function(f) => function_types(f),
                BoundMethodTypeView::Forall(g) => function_types(g.body),
                BoundMethodTypeView::Overload(o) => overload_types(o),
            }),
            TypeView::Overload(o) => overload_types(o),
            TypeView::Union(u) => u.members,
            TypeView::Intersect(x) => x.0.push(x.1),
            TypeView::ClassType(c) => c.targs.args,
            TypeView::TypedDict(d) => typed_dict_types(d),
            TypeView::PartialTypedDict(d) => typed_dict_types(d),
            TypeView::ShapedArray(s) => s.base_class.targs.args + dim_types(s.shape),
            TypeView::IntTuple(ds) => dim_types(*ds),
            TypeView::NNModule(m) => m.class.targs.args + field_types(m.fields),
            TypeView::DataFrame(d) => d.class.targs.args + field_types(d.columns),
            TypeView::Series(s) => s.class.targs.args.push(s.element),
            TypeView::Int(d) => match d {
                IntView::Symbolic(x) => seq![*x],
                _ => Seq::empty(),
            },
            TypeView::Tuple(x) => match x {
                TupleView::Concrete(ts) => ts,
                TupleView::Unbounded(x) => seq![*x],
                TupleView::Unpacked(x) => x.0.push(x.1) + x.2,
            },
            TypeView::Forall(g) => match g.body {
                ForallableView::TypeAlias(a) => alias_types(a),
                ForallableView::Function(f) => function_types(f),
                ForallableView::Callable(c) => signature_types(c),
            },
            TypeView::Quantified(q) => declared_types(*q),
            TypeView::QuantifiedValue(q) => declared_types(*q),
            TypeView::ElementOfTypeVarTuple(q) => declared_types(*q),
            TypeView::Args(q) => declared_types(*q),
            TypeView::Kwargs(q) => declared_types(*q),
            TypeView::ArgsValue(q) => declared_types(*q),
            TypeView::KwargsValue(q) => declared_types(*q),
            TypeView::TypeGuard(x) => seq![*x],
            TypeView::TypeIs(x) => seq![*x],
            TypeView::Annotated(x, _) => seq![*x],
            TypeView::Unpack(x) => seq![*x],
            TypeView::Type(x) => seq![*x],
            TypeView::TypeForm(x) => seq![*x],
            TypeView::Concatenate(ps, x) => param_types(ps).push(*x),
            TypeView::ParamSpecValue(ps) => param_types(ps),
            TypeView::TypeAlias(a) => alias_types(*a),
            TypeView::UntypedAlias(a) => alias_types(*a),
            TypeView::SuperInstance(x) => x.0.targs.args + (match x.1 {
                SuperObjView::Instance(c) => c.targs.args,
                SuperObjView::Class(c) => c.targs.args,
            }),
            TypeView::SelfType(c) => c.targs.args,
            TypeView::KwCall(c) => field_types(c.keywords).push(c.return_ty),
            TypeView::LiteralString(_)
            | TypeView::ClassDef(_)
            | TypeView::Module(_)
            | TypeView::Var(_)
            | TypeView::TypeVar(_)
            | TypeView::ParamSpec(_)
            | TypeView::TypeVarTuple(_)
            | TypeView::SpecialForm(_)
            | TypeView::Ellipsis
            | TypeView::Any(_)
            | TypeView::Never(_)
            | TypeView::Sentinel(_)
            | TypeView::Materialization
            | TypeView::NoneType => Seq::empty(),
        },
{
    reveal(slots_type);
    match t {
        TypeView::Literal(lit) => {
            reveal(slots_literal);
            reveal(slots_lit);
            reveal(slots_lit_enum);
            if let LitView::Enum(e) = lit.value {
                lemma_class_args(e.class);
            }
        },
        TypeView::Callable(c) => {
            lemma_signature_types(*c);
        },
        TypeView::CallableResidual(r) => {
            reveal(slots_callable_residual);
            assert(slots_type(t) =~= r.captured.push(r.fallback));
        },
        TypeView::TypeLevelDslCall(c) => {
            reveal(slots_type_level_dsl_call);
            assert(slots_type(t) =~= c.args.push(c.result_schema));
        },
        TypeView::Function(f) => {
            lemma_function_types(*f);
        },
        TypeView::BoundMethod(m) => {
            reveal(slots_bound_method);
            reveal(slots_bound_method_type);
            reveal(slots_forall_function);
            match m.func {
                BoundMethodTypeView::Function(f) => {
                    lemma_function_types(f);
                },
                BoundMethodTypeView::Forall(g) => {
                    lemma_function_types(g.body);
                },
                BoundMethodTypeView::Overload(o) => {
                    lemma_overload_types(o);
                },
            }
        },
        TypeView::Overload(o) => {
            lemma_overload_types(o);
        },
        TypeView::Union(u) => {
            reveal(slots_union);
        },
        TypeView::Intersect(x) => {
            reveal(slots_many_one);
            assert(slots_type(t) =~= x.0.push(x.1));
        },
        TypeView::ClassType(c) => {
            lemma_class_args(c);
        },
        TypeView::TypedDict(d) => {
            lemma_typed_dict_types(d);
        },
        TypeView::PartialTypedDict(d) => {
            lemma_typed_dict_types(d);
        },
        TypeView::ShapedArray(s) => {
            reveal(slots_shaped_array_type);
            lemma_class_args(s.base_class);
            lemma_dim_types(s.shape);
        },
        TypeView::IntTuple(ds) => {
            lemma_dim_types(*ds);
        },
        TypeView::NNModule(m) => {
            reveal(slots_nn_module_type);
            lemma_class_args(m.class);
            lemma_field_types(m.fields);
        },
        TypeView::DataFrame(d) => {
            reveal(slots_data_frame_schema);
            lemma_class_args(d.class);
            lemma_field_types(d.columns);
        },
        TypeView::Series(s) => {
            reveal(slots_series_schema);
            lemma_class_args(s.class);
            assert(slots_type(t) =~= s.class.targs.args.push(s.element));
        },
        TypeView::Int(d) => {
            reveal(slots_int);
        },
        TypeView::Tuple(x) => {
            reveal(slots_tuple);
            if let TupleView::Unpacked(x) = x {
                reveal(slots_many_one_many);
                assert(slots_type(t) =~= x.0.push(x.1) + x.2);
            }
        },
        TypeView::Forall(g) => {
            reveal(slots_forall_forallable);
            reveal(slots_forallable);
            match g.body {
                ForallableView::TypeAlias(a) => {
                    lemma_alias_types(a);
                },
                ForallableView::Function(f) => {
                    lemma_function_types(f);
                },
                ForallableView::Callable(c) => {
                    lemma_signature_types(c);
                },
            }
        },
        TypeView::Quantified(q)
        | TypeView::QuantifiedValue(q)
        | TypeView::ElementOfTypeVarTuple(q)
        | TypeView::Args(q)
        | TypeView::Kwargs(q)
        | TypeView::ArgsValue(q)
        | TypeView::KwargsValue(q) => {
            lemma_declared_types(*q);
        },
        TypeView::Concatenate(ps, x) => {
            lemma_param_types(ps);
            assert(slots_type(t) =~= param_types(ps).push(*x));
        },
        TypeView::ParamSpecValue(ps) => {
            lemma_param_types(ps);
        },
        TypeView::TypeAlias(a) | TypeView::UntypedAlias(a) => {
            lemma_alias_types(*a);
        },
        TypeView::SuperInstance(x) => {
            reveal(slots_class_type_super_obj);
            reveal(slots_super_obj);
            lemma_class_args(x.0);
            match x.1 {
                SuperObjView::Instance(c) => {
                    lemma_class_args(c);
                },
                SuperObjView::Class(c) => {
                    lemma_class_args(c);
                },
            }
        },
        TypeView::SelfType(c) => {
            lemma_class_args(c);
        },
        TypeView::KwCall(c) => {
            reveal(slots_kw_call);
            lemma_field_types(c.keywords);
            assert(slots_type(t) =~= field_types(c.keywords).push(c.return_ty));
        },
        _ => {},
    }
}

/// A visit that only reads sees what may be replaced, and before what is generic also the types
/// that its type parameters are declared with.
pub proof fn lemma_held_read(t: TypeView)
    ensures
        reached_type(t) == match t {
            TypeView::BoundMethod(m) => seq![m.obj] + (match m.func {
                BoundMethodTypeView::Function(f) => function_types(f),
                BoundMethodTypeView::Forall(g) => all_declared_types(g.tparams) + function_types(
                    g.body,
                ),
                BoundMethodTypeView::Overload(o) => overload_types_read(o),
            }),
            TypeView::Overload(o) => overload_types_read(o),
            TypeView::Forall(g) => all_declared_types(g.tparams) + slots_type(t),
            _ => slots_type(t),
        },
{
    reveal(reached_type);
    reveal(slots_type);
    match t {
        TypeView::BoundMethod(m) => {
            reveal(reached_bound_method);
            reveal(reached_bound_method_type);
            reveal(reached_forall_function);
            match m.func {
                BoundMethodTypeView::Function(f) => {
                    lemma_function_types(f);
                },
                BoundMethodTypeView::Forall(g) => {
                    lemma_function_types(g.body);
                    lemma_all_declared_types(g.tparams);
                },
                BoundMethodTypeView::Overload(o) => {
                    lemma_overload_types(o);
                },
            }
        },
        TypeView::Overload(o) => {
            lemma_overload_types(o);
        },
        TypeView::Forall(g) => {
            reveal(reached_forall_forallable);
            reveal(slots_forall_forallable);
            lemma_all_declared_types(g.tparams);
        },
        _ => {},
    }
}

} // verus!
