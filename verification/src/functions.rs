//! Callables, functions and methods.
use std::sync::Arc;

use vstd::prelude::*;
use vstd::std_specs::cmp::PartialEqSpecImpl;

use crate::data::{
    BoundMethod, BoundMethodType, Callable, Forall, Forallable, FuncMetadata, Function, Overload,
    OverloadType, ParamList, Params, PrefixParam, TArgs, TParams, Type, TypeAliasData,
};
use crate::names::{FunctionKind, FunctionKindView, Name, Var};
use crate::outside::share;
use crate::parts::{lemma_kw_call_parts, lemma_type_parts};
use crate::rewrite::self_type_at;
use crate::rewrite_laws::lemma_self_type_parts;
use crate::slots::{back, slots_callable, slots_type, with_callable, with_type};
use crate::styles::{ClassKind, ParamKind};
use crate::targs::applied;
use crate::toplevel::{
    each_callable, overload_signature, overload_signatures, toplevel_callables,
    toplevel_metadata, view_callable_refs, with_overload_signatures, with_toplevel_callables,
    UpdateCallable,
};
use crate::transform::bottom_up;
use crate::view::{
    lemma_bound_method_type_view, lemma_bound_method_view, lemma_callable_view,
    lemma_forall_forallable_view, lemma_forall_function_view, lemma_forallable_view,
    lemma_func_metadata_view, lemma_function_view, lemma_kw_call_view, lemma_overload_type_view,
    lemma_overload_view, lemma_param_list_view, lemma_param_view, lemma_params_view,
    lemma_type_alias_data_view, lemma_type_alias_ref_view, lemma_type_alias_view, lemma_type_view,
    lemma_types_push, lemma_types_update, view_overloads, view_param_seq, view_types,
    BoundMethodTypeView, BoundMethodView, CallableView, ForallView, ForallableView,
    FuncMetadataView, FunctionView, OverloadTypeView, ParamsView, QuantifiedView, TypeAliasDataView,
    TypeView, UnionView,
};
use crate::visit::{kept_callable, put_callable, take_callable};

verus! {

/// Does the callable narrow its argument where it returns true?
pub open spec fn returns_typeguard(c: CallableView) -> bool {
    c.ret is TypeGuard
}

/// Does the callable decide the type of its argument?
pub open spec fn returns_typeis(c: CallableView) -> bool {
    c.ret is TypeIs
}

/// The type of the first parameter that a positional argument reaches.
pub open spec fn first_param(c: CallableView) -> Option<TypeView> {
    match c.params {
        ParamsView::List(items) => if items.len() > 0 && (items[0].kind is PosOnly
            || items[0].kind is Pos || items[0].kind is VarArg) {
            Some(items[0].ty)
        } else {
            None
        },
        ParamsView::ParamSpec(prefix, _) => if prefix.len() > 0 {
            Some(prefix[0].ty)
        } else {
            None
        },
        _ => None,
    }
}

/// `t` with `replacement` in place of `typing.Self`.
pub open spec fn self_replaced(replacement: TypeView, t: TypeView) -> TypeView {
    bottom_up(t, |x: TypeView| self_type_at(replacement, x))
}

/// The callable with `replacement` in place of `typing.Self`.
pub open spec fn callable_self_replaced(
    replacement: TypeView,
    c: CallableView,
) -> CallableView {
    with_callable(
        c,
        slots_callable(c).map_values(|t: TypeView| self_replaced(replacement, t)),
    )
}

/// A callable is a type guard just if it returns one, and likewise for `TypeIs`.
pub proof fn lemma_returns(c: CallableView)
    ensures
        returns_typeguard(c) == (c.ret is TypeGuard),
        returns_typeis(c) == (c.ret is TypeIs),
{
}

/// A positional argument reaches the first parameter if it is positional or takes any number of
/// positional arguments, and the first of those that stand before a parameter specification. A
/// callable without either has no such parameter.
pub proof fn lemma_first_param(c: CallableView)
    ensures
        c.params is List && c.params->List_0.len() > 0 && (c.params->List_0[0].kind is PosOnly
            || c.params->List_0[0].kind is Pos || c.params->List_0[0].kind is VarArg)
            ==> first_param(c) == Some(c.params->List_0[0].ty),
        c.params is List && (c.params->List_0.len() == 0 || c.params->List_0[0].kind is KwOnly
            || c.params->List_0[0].kind is Kwargs) ==> first_param(c) is None,
        c.params is ParamSpec && c.params->ParamSpec_0.len() > 0 ==> first_param(c) == Some(
            c.params->ParamSpec_0[0].ty,
        ),
        c.params is ParamSpec && c.params->ParamSpec_0.len() == 0 ==> first_param(c) is None,
        c.params is Ellipsis || c.params is Materialization ==> first_param(c) is None,
{
}

/// Replacing `typing.Self` in a callable is replacing it in the type that the callable is.
pub proof fn lemma_callable_self_replaced(replacement: TypeView, c: CallableView)
    ensures
        self_replaced(replacement, TypeView::Callable(Box::new(c))) == TypeView::Callable(
            Box::new(callable_self_replaced(replacement, c)),
        ),
{
    let t = TypeView::Callable(Box::new(c));
    lemma_self_type_parts(replacement, t);
    reveal(slots_type);
    reveal(with_type);
    assert(slots_type(t).map_values(
        |x: TypeView| bottom_up(x, |y: TypeView| self_type_at(replacement, y)),
    ) =~= slots_callable(c).map_values(|x: TypeView| self_replaced(replacement, x)));
}

impl Callable {
    pub fn list(params: ParamList, ret: Type) -> (r: Callable)
        ensures
            r@ == (CallableView { params: ParamsView::List(params@), ret: ret@ }),
    {
        broadcast use {lemma_callable_view, lemma_params_view};

        Callable { params: Params::List(params), ret }
    }

    pub fn ellipsis(ret: Type) -> (r: Callable)
        ensures
            r@ == (CallableView { params: ParamsView::Ellipsis, ret: ret@ }),
    {
        broadcast use {lemma_callable_view, lemma_params_view};

        Callable { params: Params::Ellipsis, ret }
    }

    pub fn param_spec(p: Type, ret: Type) -> (r: Callable)
        ensures
            r@ == (CallableView { params: ParamsView::ParamSpec(Seq::empty(), p@), ret: ret@ }),
    {
        let prefix: Vec<PrefixParam> = Vec::new();
        assert(view_param_seq(prefix@) =~= Seq::empty());
        Callable::concatenate(prefix, p, ret)
    }

    pub fn concatenate(args: Vec<PrefixParam>, param_spec: Type, ret: Type) -> (r: Callable)
        ensures
            r@ == (CallableView {
                params: ParamsView::ParamSpec(view_param_seq(args@), param_spec@),
                ret: ret@,
            }),
    {
        broadcast use {lemma_callable_view, lemma_params_view};

        Callable { params: Params::ParamSpec(args, param_spec), ret }
    }

    pub fn is_typeguard(&self) -> (r: bool)
        ensures
            r == returns_typeguard(self@),
    {
        proof {
            lemma_callable_view(*self);
            lemma_type_view(self.ret);
        }
        matches!(self.ret, Type::TypeGuard(_))
    }

    pub fn is_typeis(&self) -> (r: bool)
        ensures
            r == returns_typeis(self@),
    {
        proof {
            lemma_callable_view(*self);
            lemma_type_view(self.ret);
        }
        matches!(self.ret, Type::TypeIs(_))
    }

    /// The type of the first parameter that a positional argument reaches.
    pub fn get_first_param(&self) -> (r: Option<&Type>)
        ensures
            match r {
                Some(t) => first_param(self@) == Some(t@),
                None => first_param(self@) is None,
            },
    {
        broadcast use {
            lemma_callable_view,
            lemma_params_view,
            lemma_param_list_view,
            lemma_param_view,
        };

        match &self.params {
            Params::List(params) => {
                if params.items.len() > 0 {
                    let first = &params.items[0];
                    assert(view_param_seq(params.items@)[0] == first@);
                    match first.kind {
                        ParamKind::PosOnly | ParamKind::Pos | ParamKind::VarArg => Some(
                            &first.ty,
                        ),
                        _ => None,
                    }
                } else {
                    None
                }
            },
            Params::ParamSpec(prefix, _) => {
                if prefix.len() > 0 {
                    assert(view_param_seq(prefix@)[0] == prefix@[0]@);
                    Some(&prefix[0].ty)
                } else {
                    None
                }
            },
            _ => None,
        }
    }

    /// Replaces `typing.Self` by `replacement`.
    pub fn subst_self_type_mut(&mut self, replacement: &Type)
        ensures
            final(self)@ == callable_self_replaced(replacement@, old(self)@),
    {
        let ghost c = self@;
        let ghost m = slots_callable(c);
        let ghost us = m.map_values(|t: TypeView| self_replaced(replacement@, t));
        let mut ts: Vec<Type> = Vec::new();
        take_callable(self, &mut ts);
        let ghost blank = self@;
        assert(view_types(ts@) =~= m);
        let n = ts.len();
        for i in 0..n
            invariant
                n == m.len(),
                us == m.map_values(|t: TypeView| self_replaced(replacement@, t)),
                ts@.len() == n,
                view_types(ts@) =~= us.take(i as int) + m.skip(i as int),
        {
            let ghost v = ts@;
            assert(view_types(v)[i as int] == m[i as int]);
            ts[i].subst_self_type_mut(replacement);
            proof {
                lemma_types_update(v, i as int, ts@[i as int]);
                assert(ts@ =~= v.update(i as int, ts@[i as int]));
            }
        }
        proof {
            assert(view_types(ts@) =~= us);
            assert(back(view_types(ts@), n as nat) =~= us);
            assert(kept_callable(c, blank));
        }
        put_callable(self, &mut ts);
    }
}

/// Replaces `typing.Self` in the callables that it sees.
struct ReplaceSelf<'a> {
    replacement: &'a Type,
}

impl<'a> UpdateCallable for ReplaceSelf<'a> {
    type State = TypeView;

    closed spec fn state(&self) -> TypeView {
        self.replacement@
    }

    open spec fn step(s: TypeView, c: CallableView) -> (TypeView, CallableView) {
        (s, callable_self_replaced(s, c))
    }

    fn call(&mut self, c: &mut Callable) {
        c.subst_self_type_mut(self.replacement);
    }
}

/// What can be generic, as a type of its own.
pub open spec fn as_type_of(b: ForallableView) -> TypeView {
    match b {
        ForallableView::Function(f) => TypeView::Function(Box::new(f)),
        ForallableView::Callable(c) => TypeView::Callable(Box::new(c)),
        ForallableView::TypeAlias(ta) => TypeView::TypeAlias(Box::new(ta)),
    }
}

/// `b` under the given type parameters, which are left out if there are none.
pub open spec fn forall_of(b: ForallableView, tparams: Seq<QuantifiedView>) -> TypeView {
    if tparams.len() == 0 {
        as_type_of(b)
    } else {
        TypeView::Forall(Box::new(ForallView { tparams, body: b }))
    }
}

/// The callables of something generic are those of what it is generic over.
pub proof fn lemma_forall_callables(b: ForallableView, tparams: Seq<QuantifiedView>)
    ensures
        toplevel_callables(forall_of(b, tparams)) == toplevel_callables(as_type_of(b)),
{
}

/// Something generic over no type parameters is what it is generic over; otherwise it keeps the
/// type parameters and what it is generic over.
pub proof fn lemma_forall_of(b: ForallableView, tparams: Seq<QuantifiedView>)
    ensures
        tparams.len() == 0 ==> forall_of(b, tparams) == as_type_of(b),
        tparams.len() > 0 ==> forall_of(b, tparams) == TypeView::Forall(
            Box::new(ForallView { tparams, body: b }),
        ),
        b is Function ==> as_type_of(b) == TypeView::Function(Box::new(b->Function_0)),
        b is Callable ==> as_type_of(b) == TypeView::Callable(Box::new(b->Callable_0)),
        b is TypeAlias ==> as_type_of(b) == TypeView::TypeAlias(Box::new(b->TypeAlias_0)),
{
}

/// The name of a type alias.
pub open spec fn alias_name(ta: TypeAliasDataView) -> Seq<char> {
    match ta {
        TypeAliasDataView::Value(a) => a.name,
        TypeAliasDataView::Ref(r) => r.name,
    }
}

/// The name that something generic goes by.
pub open spec fn name_of(b: ForallableView) -> Seq<char> {
    match b {
        ForallableView::Function(f) => f.metadata.kind.function_name(),
        ForallableView::Callable(_) => "<callable>"@,
        ForallableView::TypeAlias(ta) => alias_name(ta),
    }
}

/// A function goes by its own name and a type alias, known or referred to, by its own; a callable
/// has none.
pub proof fn lemma_name_of(b: ForallableView)
    ensures
        b is Function && b->Function_0.metadata.kind is Def ==> name_of(b)
            == b->Function_0.metadata.kind->Def_0,
        b is Function && b->Function_0.metadata.kind is AssertShape ==> name_of(b)
            == "assert_shape"@,
        b is Callable ==> name_of(b) == "<callable>"@,
        b is TypeAlias && b->TypeAlias_0 is Value ==> name_of(b) == b->TypeAlias_0->Value_0.name,
        b is TypeAlias && b->TypeAlias_0 is Ref ==> name_of(b) == b->TypeAlias_0->Ref_0.name,
{
}

impl TypeAliasData {
    pub fn name(&self) -> (r: &Name)
        ensures
            r@ == alias_name(self@),
    {
        broadcast use {
            lemma_type_alias_data_view,
            lemma_type_alias_view,
            lemma_type_alias_ref_view,
        };

        match self {
            TypeAliasData::Value(a) => &a.name,
            TypeAliasData::Ref(r) => &r.name,
        }
    }
}

impl Forallable {
    /// `self` under the given type parameters, which are left out if there are none.
    pub fn into_forall(self, tparams: Arc<TParams>) -> (r: Type)
        ensures
            r@ == forall_of(self@, tparams@),
    {
        broadcast use {lemma_type_view, lemma_forall_forallable_view};

        if tparams.is_empty() {
            self.as_type()
        } else {
            Type::Forall(Box::new(Forall { tparams, body: self }))
        }
    }

    pub fn name(&self) -> (r: Name)
        ensures
            r@ == name_of(self@),
    {
        broadcast use {lemma_forallable_view, lemma_function_view, lemma_func_metadata_view};

        match self {
            Forallable::Function(func) => func.metadata.kind.function_name(),
            Forallable::Callable(_) => Name::new_static("<callable>"),
            Forallable::TypeAlias(ta) => ta.name().clone(),
        }
    }

    pub fn as_type(self) -> (r: Type)
        ensures
            r@ == as_type_of(self@),
    {
        broadcast use {lemma_type_view, lemma_forallable_view};

        match self {
            Forallable::Function(func) => Type::Function(Box::new(func)),
            Forallable::Callable(callable) => Type::Callable(Box::new(callable)),
            Forallable::TypeAlias(ta) => Type::TypeAlias(Box::new(ta)),
        }
    }

    fn is_typeguard(&self) -> (r: bool)
        ensures
            r == match self@ {
                ForallableView::Function(f) => returns_typeguard(f.signature),
                ForallableView::Callable(c) => returns_typeguard(c),
                ForallableView::TypeAlias(_) => false,
            },
    {
        broadcast use {lemma_forallable_view, lemma_function_view};

        match self {
            Forallable::Function(func) => func.signature.is_typeguard(),
            Forallable::Callable(callable) => callable.is_typeguard(),
            Forallable::TypeAlias(_) => false,
        }
    }

    fn is_typeis(&self) -> (r: bool)
        ensures
            r == match self@ {
                ForallableView::Function(f) => returns_typeis(f.signature),
                ForallableView::Callable(c) => returns_typeis(c),
                ForallableView::TypeAlias(_) => false,
            },
    {
        broadcast use {lemma_forallable_view, lemma_function_view};

        match self {
            Forallable::Function(func) => func.signature.is_typeis(),
            Forallable::Callable(callable) => callable.is_typeis(),
            Forallable::TypeAlias(_) => false,
        }
    }
}

impl Forall<Forallable> {
    /// The body with the type arguments put in.
    pub fn apply_targs(self, targs: TArgs) -> (r: Type)
        ensures
            r@ == applied(targs@, as_type_of(self@.body)),
    {
        proof {
            lemma_forall_forallable_view(self);
        }
        targs.substitute_into(self.body.as_type())
    }
}

/// Is any of the callables a type guard?
pub open spec fn any_typeguard(cs: Seq<CallableView>) -> bool {
    exists|i: int| 0 <= i < cs.len() && returns_typeguard(#[trigger] cs[i])
}

/// Does any of the callables decide the type of its argument?
pub open spec fn any_typeis(cs: Seq<CallableView>) -> bool {
    exists|i: int| 0 <= i < cs.len() && returns_typeis(#[trigger] cs[i])
}

/// One callable that returns a type guard is enough, and likewise for `TypeIs`.
pub proof fn lemma_any_returns(cs: Seq<CallableView>)
    ensures
        any_typeguard(cs) == exists|i: int|
            0 <= i < cs.len() && (#[trigger] cs[i]).ret is TypeGuard,
        any_typeis(cs) == exists|i: int| 0 <= i < cs.len() && (#[trigger] cs[i]).ret is TypeIs,
{
    if any_typeguard(cs) {
        let i = choose|i: int| 0 <= i < cs.len() && returns_typeguard(#[trigger] cs[i]);
        assert(cs[i].ret is TypeGuard);
    } else {
        assert forall|i: int| 0 <= i < cs.len() implies !((#[trigger] cs[i]).ret is TypeGuard) by {
            assert(!returns_typeguard(cs[i]));
        }
    }
    if any_typeis(cs) {
        let i = choose|i: int| 0 <= i < cs.len() && returns_typeis(#[trigger] cs[i]);
        assert(cs[i].ret is TypeIs);
    } else {
        assert forall|i: int| 0 <= i < cs.len() implies !((#[trigger] cs[i]).ret is TypeIs) by {
            assert(!returns_typeis(cs[i]));
        }
    }
}

impl Overload {
    fn is_typeguard(&self) -> (r: bool)
        ensures
            r == any_typeguard(overload_signatures(self@)),
    {
        let ghost cs = overload_signatures(self@);
        proof {
            lemma_overload_view(*self);
        }
        let v = self.signatures.as_vec();
        assert(view_overloads(v@).len() == cs.len());
        for i in 0..v.len()
            invariant
                cs == overload_signatures(self@),
                view_overloads(v@) == self@.signatures,
                v@.len() == cs.len(),
                forall|j: int| 0 <= j < i ==> !returns_typeguard(#[trigger] cs[j]),
        {
            assert(view_overloads(v@)[i as int] == v@[i as int]@);
            assert(cs[i as int] == overload_signature(v@[i as int]@));
            if v[i].is_typeguard() {
                return true;
            }
        }
        false
    }

    fn is_typeis(&self) -> (r: bool)
        ensures
            r == any_typeis(overload_signatures(self@)),
    {
        let ghost cs = overload_signatures(self@);
        proof {
            lemma_overload_view(*self);
        }
        let v = self.signatures.as_vec();
        assert(view_overloads(v@).len() == cs.len());
        for i in 0..v.len()
            invariant
                cs == overload_signatures(self@),
                view_overloads(v@) == self@.signatures,
                v@.len() == cs.len(),
                forall|j: int| 0 <= j < i ==> !returns_typeis(#[trigger] cs[j]),
        {
            assert(view_overloads(v@)[i as int] == v@[i as int]@);
            assert(cs[i as int] == overload_signature(v@[i as int]@));
            if v[i].is_typeis() {
                return true;
            }
        }
        false
    }
}

impl OverloadType {
    /// The alternative, as a type of its own.
    pub fn as_type(&self) -> (r: Type)
        ensures
            r@ == match self@ {
                OverloadTypeView::Function(f) => TypeView::Function(Box::new(f)),
                OverloadTypeView::Forall(forall) => forall_of(
                    ForallableView::Function(forall.body),
                    forall.tparams,
                ),
            },
    {
        broadcast use {lemma_type_view, lemma_forallable_view, lemma_forall_function_view};

        proof {
            lemma_overload_type_view(*self);
        }
        match self {
            OverloadType::Function(f) => Type::Function(Box::new(f.clone())),
            OverloadType::Forall(forall) => Forallable::Function(forall.body.clone()).into_forall(
                share(&forall.tparams),
            ),
        }
    }

    fn is_typeguard(&self) -> (r: bool)
        ensures
            r == returns_typeguard(overload_signature(self@)),
    {
        self.signature().is_typeguard()
    }

    fn is_typeis(&self) -> (r: bool)
        ensures
            r == returns_typeis(overload_signature(self@)),
    {
        self.signature().is_typeis()
    }
}

/// The callables of a bound method, one for each signature.
pub open spec fn method_callables(m: BoundMethodTypeView) -> Seq<CallableView> {
    match m {
        BoundMethodTypeView::Function(f) => seq![f.signature],
        BoundMethodTypeView::Forall(forall) => seq![forall.body.signature],
        BoundMethodTypeView::Overload(o) => overload_signatures(o),
    }
}

/// The metadata of a bound method.
pub open spec fn method_metadata(m: BoundMethodTypeView) -> FuncMetadataView {
    match m {
        BoundMethodTypeView::Function(f) => f.metadata,
        BoundMethodTypeView::Forall(forall) => forall.body.metadata,
        BoundMethodTypeView::Overload(o) => *o.metadata,
    }
}

/// The function of a bound method with `replacement` in place of `typing.Self` in all its
/// signatures.
pub open spec fn method_self_replaced(
    replacement: TypeView,
    m: BoundMethodTypeView,
) -> BoundMethodTypeView {
    match m {
        BoundMethodTypeView::Function(f) => BoundMethodTypeView::Function(
            FunctionView { signature: callable_self_replaced(replacement, f.signature), ..f },
        ),
        BoundMethodTypeView::Forall(forall) => BoundMethodTypeView::Forall(
            ForallView {
                body: FunctionView {
                    signature: callable_self_replaced(replacement, forall.body.signature),
                    ..forall.body
                },
                ..forall
            },
        ),
        BoundMethodTypeView::Overload(o) => BoundMethodTypeView::Overload(
            with_overload_signatures(
                o,
                overload_signatures(o).map_values(
                    |c: CallableView| callable_self_replaced(replacement, c),
                ),
            ),
        ),
    }
}

/// The callables and the metadata of the function of a bound method are those of the method,
/// whatever it is bound to. Replacing `typing.Self` in the function replaces it in each of its
/// callables, and changes nothing else.
pub proof fn lemma_method(obj: TypeView, m: BoundMethodTypeView, replacement: TypeView)
    ensures
        ({
            let t = TypeView::BoundMethod(Box::new(BoundMethodView { obj, func: m }));
            let u = TypeView::BoundMethod(
                Box::new(BoundMethodView { obj, func: method_self_replaced(replacement, m) }),
            );
            &&& method_callables(m) == toplevel_callables(t)
            &&& toplevel_metadata(t) == Some(method_metadata(m))
            &&& u == with_toplevel_callables(
                t,
                toplevel_callables(t).map_values(
                    |c: CallableView| callable_self_replaced(replacement, c),
                ),
            )
        }),
{
}

proof fn lemma_replace_self(replacement: TypeView, cs: Seq<CallableView>, n: nat)
    requires
        n <= cs.len(),
    ensures
        each_callable::<ReplaceSelf>(replacement, cs, n) == (
            replacement,
            cs.map_values(|c: CallableView| callable_self_replaced(replacement, c)).take(n as int),
        ),
    decreases n,
{
    let ds = cs.map_values(|c: CallableView| callable_self_replaced(replacement, c));
    if n > 0 {
        lemma_replace_self(replacement, cs, (n - 1) as nat);
        assert(ds.take(n as int) =~= ds.take(n - 1).push(ds[n - 1]));
    } else {
        assert(ds.take(0) =~= Seq::empty());
    }
}

impl BoundMethodType {
    /// The function, as a type of its own.
    pub fn as_type(self) -> (r: Type)
        ensures
            r@ == match self@ {
                BoundMethodTypeView::Function(f) => TypeView::Function(Box::new(f)),
                BoundMethodTypeView::Forall(forall) => forall_of(
                    ForallableView::Function(forall.body),
                    forall.tparams,
                ),
                BoundMethodTypeView::Overload(o) => TypeView::Overload(o),
            },
    {
        broadcast use {lemma_type_view, lemma_forallable_view, lemma_forall_function_view};

        proof {
            lemma_bound_method_type_view(self);
        }
        match self {
            BoundMethodType::Function(func) => Type::Function(Box::new(func)),
            BoundMethodType::Forall(forall) => Forallable::Function(forall.body).into_forall(
                forall.tparams,
            ),
            BoundMethodType::Overload(overload) => Type::Overload(overload),
        }
    }

    /// Replaces `typing.Self` by `replacement` in all signatures.
    pub fn subst_self_type_mut(&mut self, replacement: &Type)
        ensures
            final(self)@ == method_self_replaced(replacement@, old(self)@),
    {
        broadcast use {
            lemma_bound_method_type_view,
            lemma_forall_function_view,
            lemma_function_view,
        };

        match self {
            BoundMethodType::Function(func) => func.signature.subst_self_type_mut(replacement),
            BoundMethodType::Forall(forall) => forall.body.signature.subst_self_type_mut(
                replacement,
            ),
            BoundMethodType::Overload(overload) => {
                proof {
                    let cs = overload_signatures(overload@);
                    lemma_replace_self(replacement@, cs, cs.len());
                    let ds = cs.map_values(
                        |c: CallableView| callable_self_replaced(replacement@, c),
                    );
                    assert(ds.take(ds.len() as int) =~= ds);
                }
                overload.update_signatures(&mut ReplaceSelf { replacement });
            },
        }
    }

    pub fn metadata(&self) -> (r: &FuncMetadata)
        ensures
            r@ == method_metadata(self@),
    {
        broadcast use {
            lemma_bound_method_type_view,
            lemma_forall_function_view,
            lemma_function_view,
            lemma_overload_view,
        };

        match self {
            BoundMethodType::Function(func) => &func.metadata,
            BoundMethodType::Forall(forall) => &forall.body.metadata,
            BoundMethodType::Overload(overload) => &*overload.metadata,
        }
    }

    fn is_typeguard(&self) -> (r: bool)
        ensures
            r == any_typeguard(method_callables(self@)),
    {
        broadcast use {
            lemma_bound_method_type_view,
            lemma_forall_function_view,
            lemma_function_view,
        };

        match self {
            BoundMethodType::Function(func) => {
                assert(method_callables(self@)[0] == func.signature@);
                func.signature.is_typeguard()
            },
            BoundMethodType::Forall(forall) => {
                assert(method_callables(self@)[0] == forall.body.signature@);
                forall.body.signature.is_typeguard()
            },
            BoundMethodType::Overload(overload) => overload.is_typeguard(),
        }
    }

    fn is_typeis(&self) -> (r: bool)
        ensures
            r == any_typeis(method_callables(self@)),
    {
        broadcast use {
            lemma_bound_method_type_view,
            lemma_forall_function_view,
            lemma_function_view,
        };

        match self {
            BoundMethodType::Function(func) => {
                assert(method_callables(self@)[0] == func.signature@);
                func.signature.is_typeis()
            },
            BoundMethodType::Forall(forall) => {
                assert(method_callables(self@)[0] == forall.body.signature@);
                forall.body.signature.is_typeis()
            },
            BoundMethodType::Overload(overload) => overload.is_typeis(),
        }
    }
}

impl BoundMethod {
    /// The same method, bound to another object.
    pub fn with_bound_object(&self, obj: Type) -> (r: Self)
        ensures
            r@ == (BoundMethodView { obj: obj@, ..self@ }),
    {
        broadcast use lemma_bound_method_view;

        BoundMethod { obj, func: self.func.clone() }
    }

    pub fn as_type(self) -> (r: Type)
        ensures
            r@ == TypeView::BoundMethod(Box::new(self@)),
    {
        broadcast use lemma_type_view;

        Type::BoundMethod(Box::new(self))
    }
}

/// The model of a [`CalleeKind`].
pub ghost enum CalleeKindView {
    Callable,
    Function(FunctionKindView),
    Class(ClassKind),
}

/// What a call calls.
#[derive(Debug)]
pub enum CalleeKind {
    Callable,
    Function(FunctionKind),
    Class(ClassKind),
}

impl View for CalleeKind {
    type V = CalleeKindView;

    open spec fn view(&self) -> CalleeKindView {
        match self {
            CalleeKind::Callable => CalleeKindView::Callable,
            CalleeKind::Function(kind) => CalleeKindView::Function(kind@),
            CalleeKind::Class(kind) => CalleeKindView::Class(*kind),
        }
    }
}

/// The model of what a call calls is of its sort, and of the kind that it holds.
pub proof fn lemma_callee_kind_view(k: CalleeKind)
    ensures
        k is Callable == k@ is Callable,
        k matches CalleeKind::Function(f) ==> k@ == CalleeKindView::Function(f@),
        k matches CalleeKind::Class(c) ==> k@ == CalleeKindView::Class(c),
{
}

impl Clone for CalleeKind {
    fn clone(&self) -> (r: CalleeKind)
        ensures
            r@ == self@,
    {
        match self {
            CalleeKind::Callable => CalleeKind::Callable,
            CalleeKind::Function(kind) => CalleeKind::Function(kind.clone()),
            CalleeKind::Class(kind) => CalleeKind::Class(*kind),
        }
    }
}

impl PartialEq for CalleeKind {
    fn eq(&self, other: &Self) -> (r: bool) {
        match (self, other) {
            (CalleeKind::Callable, CalleeKind::Callable) => true,
            (CalleeKind::Function(a), CalleeKind::Function(b)) => a.same(b),
            (CalleeKind::Class(a), CalleeKind::Class(b)) => *a == *b,
            _ => false,
        }
    }
}

impl Eq for CalleeKind {

}

impl PartialEqSpecImpl for CalleeKind {
    open spec fn obeys_eq_spec() -> bool {
        true
    }

    open spec fn eq_spec(&self, other: &Self) -> bool {
        self@ == other@
    }
}

/// What a call of a value of type `t` calls, where that is known.
pub open spec fn callee_kind_of(t: TypeView) -> Option<CalleeKindView>
    decreases t,
{
    match t {
        TypeView::Callable(_) => Some(CalleeKindView::Callable),
        TypeView::CallableResidual(_) => Some(CalleeKindView::Callable),
        TypeView::Function(f) => Some(CalleeKindView::Function(f.metadata.kind)),
        TypeView::ClassDef(c) => Some(CalleeKindView::Class(c.kind)),
        TypeView::Forall(forall) => match forall.body {
            ForallableView::Function(f) => Some(CalleeKindView::Function(f.metadata.kind)),
            ForallableView::Callable(_) => Some(CalleeKindView::Callable),
            ForallableView::TypeAlias(_) => None,
        },
        TypeView::Overload(o) => Some(CalleeKindView::Function(o.metadata.kind)),
        TypeView::KwCall(call) => callee_kind_of(call.return_ty),
        _ => None,
    }
}

/// A function and an overloaded function are called as the function that their metadata says, and a
/// class as what it is a class of. What is callable without metadata is called as a callable.
/// Something generic is called as what it is generic over, and the result of a call with keywords
/// as what the call returns. Of a bound method, and of anything else, it is not known.
pub proof fn lemma_callee_kind(t: TypeView)
    ensures
        t is Function || t is Overload ==> callee_kind_of(t) == Some(
            CalleeKindView::Function(toplevel_metadata(t)->Some_0.kind),
        ),
        t is ClassDef ==> callee_kind_of(t) == Some(CalleeKindView::Class(t->ClassDef_0.kind)),
        t is Callable || t is CallableResidual ==> callee_kind_of(t) == Some(
            CalleeKindView::Callable,
        ),
        t is Forall ==> callee_kind_of(t) == callee_kind_of(as_type_of(t->Forall_0.body)),
        t is KwCall ==> callee_kind_of(t) == callee_kind_of(t->KwCall_0.return_ty),
        !(t is Function || t is Overload || t is ClassDef || t is Callable || t is CallableResidual
            || t is Forall || t is KwCall) ==> callee_kind_of(t) is None,
{
    if let TypeView::Forall(g) = t {
        if let ForallableView::TypeAlias(ta) = g.body {
            assert(callee_kind_of(TypeView::TypeAlias(Box::new(ta))) is None);
        }
    }
    lemma_type_parts(t);
    if let TypeView::KwCall(c) = t {
        lemma_kw_call_parts(*c);
    }
}

/// Something that makes one type out of the alternatives for it.
pub trait Unions: Sized {
    /// The union of `ts`.
    spec fn union_of(&self, ts: Seq<TypeView>) -> TypeView;

    fn unions(&self, ts: Vec<Type>) -> (r: Type)
        ensures
            r@ == self.union_of(view_types(ts@)),
    ;
}

/// The types of the first parameters of `cs`, for those that have one.
pub open spec fn first_params(cs: Seq<CallableView>) -> Seq<TypeView>
    decreases cs.len(),
{
    if cs.len() == 0 {
        Seq::empty()
    } else {
        match first_param(cs.last()) {
            Some(t) => first_params(cs.drop_last()).push(t),
            None => first_params(cs.drop_last()),
        }
    }
}

/// The callables whose first parameter a positional argument reaches give its type, in order; the
/// others give nothing.
pub proof fn lemma_first_params(cs: Seq<CallableView>)
    ensures
        first_params(cs) == cs.filter_map(|c: CallableView| first_param(c)),
    decreases cs.len(),
{
    if cs.len() > 0 {
        lemma_first_params(cs.drop_last());
    }
}

impl Type {
    pub fn is_typeguard(&self) -> (r: bool)
        ensures
            r == any_typeguard(toplevel_callables(self@)),
    {
        broadcast use {
            lemma_forall_forallable_view,
            lemma_function_view,
            lemma_bound_method_view,
        };

        proof {
            lemma_type_view(*self);
        }
        let ghost cs = toplevel_callables(self@);
        match self {
            Type::Callable(c) => {
                assert(cs[0] == (**c)@);
                c.is_typeguard()
            },
            Type::Function(f) => {
                assert(cs[0] == f.signature@);
                f.signature.is_typeguard()
            },
            Type::Forall(forall) => {
                assert(cs.len() > 0 ==> returns_typeguard(cs[0]) == any_typeguard(cs));
                forall.body.is_typeguard()
            },
            Type::BoundMethod(method) => {
                assert(cs == method_callables(method.func@));
                method.func.is_typeguard()
            },
            Type::Overload(overload) => overload.is_typeguard(),
            _ => false,
        }
    }

    pub fn is_typeis(&self) -> (r: bool)
        ensures
            r == any_typeis(toplevel_callables(self@)),
    {
        broadcast use {
            lemma_forall_forallable_view,
            lemma_function_view,
            lemma_bound_method_view,
        };

        proof {
            lemma_type_view(*self);
        }
        let ghost cs = toplevel_callables(self@);
        match self {
            Type::Callable(c) => {
                assert(cs[0] == (**c)@);
                c.is_typeis()
            },
            Type::Function(f) => {
                assert(cs[0] == f.signature@);
                f.signature.is_typeis()
            },
            Type::Forall(forall) => {
                assert(cs.len() > 0 ==> returns_typeis(cs[0]) == any_typeis(cs));
                forall.body.is_typeis()
            },
            Type::BoundMethod(method) => {
                assert(cs == method_callables(method.func@));
                method.func.is_typeis()
            },
            Type::Overload(overload) => overload.is_typeis(),
            _ => false,
        }
    }

    /// What a call of a value of this type calls, where that is known.
    pub fn callee_kind(&self) -> (r: Option<CalleeKind>)
        ensures
            match r {
                Some(kind) => callee_kind_of(self@) == Some(kind@),
                None => callee_kind_of(self@) is None,
            },
        decreases self@,
    {
        broadcast use {
            lemma_func_metadata_view,
            lemma_forall_forallable_view,
            lemma_forallable_view,
            lemma_function_view,
            lemma_kw_call_view,
            lemma_overload_view,
        };

        proof {
            lemma_type_view(*self);
            lemma_type_parts(self@);
        }
        match self {
            Type::Callable(_) | Type::CallableResidual(_) => Some(CalleeKind::Callable),
            Type::Function(func) => Some(CalleeKind::Function(func.metadata.kind.clone())),
            Type::ClassDef(c) => Some(CalleeKind::Class(c.kind())),
            Type::Forall(forall) => match &forall.body {
                Forallable::Function(func) => Some(
                    CalleeKind::Function(func.metadata.kind.clone()),
                ),
                Forallable::Callable(_) => Some(CalleeKind::Callable),
                Forallable::TypeAlias(_) => None,
            },
            Type::Overload(overload) => Some(
                CalleeKind::Function(overload.metadata.kind.clone()),
            ),
            Type::KwCall(call) => {
                proof {
                    lemma_kw_call_parts((**call)@);
                }
                call.return_ty.callee_kind()
            },
            _ => None,
        }
    }

    /// The union of what the callables return. This doesn't handle generics.
    pub fn callable_return_type<U: Unions>(&self, heap: &U) -> (r: Option<Type>)
        ensures
            match r {
                Some(t) => toplevel_callables(self@).len() > 0 && t@ == heap.union_of(
                    toplevel_callables(self@).map_values(|c: CallableView| c.ret),
                ),
                None => toplevel_callables(self@).len() == 0,
            },
    {
        let sigs = self.callable_signatures();
        let ghost cs = toplevel_callables(self@);
        let ghost all = cs.map_values(|c: CallableView| c.ret);
        let mut rets: Vec<Type> = Vec::new();
        assert(view_types(rets@) =~= all.take(0));
        assert(view_callable_refs(sigs@).len() == sigs@.len());
        for i in 0..sigs.len()
            invariant
                cs == view_callable_refs(sigs@),
                all == cs.map_values(|c: CallableView| c.ret),
                view_types(rets@) == all.take(i as int),
        {
            let ghost v = rets@;
            proof {
                assert(cs[i as int] == (*sigs@[i as int])@);
                lemma_callable_view(*sigs@[i as int]);
            }
            let ret = sigs[i].ret.clone();
            rets.push(ret);
            proof {
                lemma_types_push(v, ret);
                assert(all.take(i + 1) =~= all.take(i as int).push(all[i as int]));
            }
        }
        assert(all.take(all.len() as int) =~= all);
        if sigs.len() == 0 {
            None
        } else {
            Some(heap.unions(rets))
        }
    }

    /// The union of the types of the first parameters of the callables.
    pub fn callable_first_param<U: Unions>(&self, heap: &U) -> (r: Option<Type>)
        ensures
            match r {
                Some(t) => first_params(toplevel_callables(self@)).len() > 0 && t@
                    == heap.union_of(first_params(toplevel_callables(self@))),
                None => first_params(toplevel_callables(self@)).len() == 0,
            },
    {
        let sigs = self.callable_signatures();
        let ghost cs = toplevel_callables(self@);
        let mut params: Vec<Type> = Vec::new();
        assert(view_types(params@) =~= first_params(cs.take(0)));
        for i in 0..sigs.len()
            invariant
                cs == view_callable_refs(sigs@),
                view_types(params@) == first_params(cs.take(i as int)),
        {
            let ghost v = params@;
            proof {
                assert(cs.take(i + 1).drop_last() =~= cs.take(i as int));
                assert(cs.take(i + 1).last() == (*sigs@[i as int])@);
            }
            if let Some(p) = sigs[i].get_first_param() {
                let p = p.clone();
                params.push(p);
                proof {
                    lemma_types_push(v, p);
                }
            }
        }
        assert(cs.take(cs.len() as int) =~= cs);
        assert(view_types(params@).len() == params@.len());
        if params.len() == 0 {
            None
        } else {
            Some(heap.unions(params))
        }
    }

    /// The one callable that the type is, if it is not overloaded.
    pub fn to_callable(self) -> (r: Option<Callable>)
        ensures
            match r {
                Some(c) => single_callable(self@) == Some(c@),
                None => single_callable(self@) is None,
            },
    {
        broadcast use {
            lemma_bound_method_type_view,
            lemma_bound_method_view,
            lemma_forall_function_view,
            lemma_function_view,
        };

        proof {
            lemma_type_view(self);
        }
        match self {
            Type::Callable(callable) => Some(*callable),
            Type::Function(function) => Some(function.signature),
            Type::BoundMethod(bound_method) => match bound_method.func {
                BoundMethodType::Function(function) => Some(function.signature),
                BoundMethodType::Forall(forall) => Some(forall.body.signature),
                BoundMethodType::Overload(_) => None,
            },
            _ => None,
        }
    }
}

/// The callable that `t` is, if it is neither overloaded nor generic; type parameters of a bound
/// method are dropped.
pub open spec fn single_callable(t: TypeView) -> Option<CallableView> {
    match t {
        TypeView::Callable(c) => Some(*c),
        TypeView::Function(f) => Some(f.signature),
        TypeView::BoundMethod(bm) => match bm.func {
            BoundMethodTypeView::Function(f) => Some(f.signature),
            BoundMethodTypeView::Forall(forall) => Some(forall.body.signature),
            BoundMethodTypeView::Overload(_) => None,
        },
        _ => None,
    }
}

/// The one callable of a type is all that it is at its top level. A callable, a function and a
/// bound method that is not overloaded have one, and nothing else has.
pub proof fn lemma_single_callable(t: TypeView)
    ensures
        single_callable(t) is Some == (t is Callable || t is Function || (t is BoundMethod && !(
        t->BoundMethod_0.func is Overload))),
        single_callable(t) is Some ==> toplevel_callables(t) == seq![single_callable(t)->Some_0],
{
}

/// A union as it stands, without simplification.
pub struct PlainUnions {}

impl Unions for PlainUnions {
    open spec fn union_of(&self, ts: Seq<TypeView>) -> TypeView {
        TypeView::Union(Box::new(UnionView { members: ts, display_name: None }))
    }

    fn unions(&self, ts: Vec<Type>) -> (r: Type) {
        Type::union(ts)
    }
}

/// Makes types.
pub struct TypeHeap {}

impl TypeHeap {
    pub fn mk_var(&self, var: Var) -> (r: Type)
        ensures
            r@ == TypeView::Var(var),
    {
        broadcast use lemma_type_view;

        Type::Var(var)
    }
}

impl Var {
    pub fn to_type(self, heap: &TypeHeap) -> (r: Type)
        ensures
            r@ == TypeView::Var(self),
    {
        heap.mk_var(self)
    }
}

} // verus!
