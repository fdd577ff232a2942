//! Replacing `Any` by all that it can stand for.
use vstd::prelude::*;

use crate::data::{Callable, ClassType, Int, IntTuple, Params, Restriction, ShapedArrayType, Type};
use crate::parts::{
    lemma_class_type_parts, lemma_quantified_parts, lemma_restriction_parts, lemma_targs_parts,
    lemma_type_parts,
};
use crate::positions::{
    descend, descend_slots, descends, lemma_changed_are_read, lemma_descend_slots, position_slots,
    with_positions, Descend, Rank,
};
use crate::search::{
    holds_among, lemma_any_pure, lemma_holds_append, post_order, post_order_first,
};
use crate::slots::{
    lemma_type_lens, lemma_type_smaller, reached_type, slots_bound_method, slots_bound_method_type,
    slots_callable, slots_class_type, slots_dims, slots_forall_forallable, slots_forall_function,
    slots_forallable, slots_function, slots_int, slots_overload, slots_overload_type,
    slots_overloads, slots_params, slots_shaped_array_type, slots_targs, slots_type,
    with_class_type, with_int, with_targs, with_type,
};
use crate::toplevel::{
    each_callable, overload_signature, overload_signatures, toplevel_callables,
    with_overload_signature, with_overload_signatures, with_toplevel_callables, UpdateCallable,
};
use crate::transform::{Test, Update};
use crate::variables::positions;
use crate::view::{
    lemma_callable_view, lemma_class_type_view, lemma_dims_update, lemma_int_tuple_view,
    lemma_int_view, lemma_params_view, lemma_quantified_view, lemma_restriction_view,
    lemma_shaped_array_type_view, lemma_targs_view, lemma_tparams_view, lemma_type_view,
    lemma_types_update, view_dims, view_quantifieds, view_types, BoundMethodTypeView,
    BoundMethodView, CallableView, ClassTypeView, ForallView, ForallableView, FunctionView,
    IntView, OverloadTypeView, OverloadView, ParamsView, QuantifiedView, RestrictionView,
    ShapedArrayTypeView, TArgsView, TypeView,
};

verus! {

/// Is the type `Any`?
struct IsAny {}

impl Test for IsAny {
    type State = ();

    open spec fn state(&self) -> () {
        ()
    }

    open spec fn answer(s: (), t: TypeView) -> ((), bool) {
        ((), t is Any)
    }

    fn test(&mut self, t: &Type) -> (r: bool) {
        t.is_any()
    }
}

/// Does `t` hold `Any` anywhere?
pub open spec fn mentions_any(t: TypeView) -> bool {
    holds_among(|x: TypeView| x is Any, post_order(t))
}

/// `Any` is mentioned by itself, and by whatever holds something that mentions it, whatever kind of
/// type that is.
pub proof fn lemma_mentions_any_parts(t: TypeView)
    ensures
        mentions_any(t) == (t is Any || exists|i: int|
            0 <= i < reached_type(t).len() && mentions_any(#[trigger] reached_type(t)[i])),
{
    let n = reached_type(t).len();
    let p = |x: TypeView| x is Any;
    let head = post_order_first(t, n);
    lemma_mentions_any_first(t, n);
    if mentions_any(t) {
        let k = choose|k: int| 0 <= k < post_order(t).len() && p(#[trigger] post_order(t)[k]);
        if k < head.len() {
            assert(p(head[k]));
        }
    }
    if holds_among(p, head) {
        let k = choose|k: int| 0 <= k < head.len() && p(#[trigger] head[k]);
        assert(p(post_order(t)[k]));
    }
    assert(post_order(t)[head.len() as int] == t);
}

proof fn lemma_mentions_any_first(t: TypeView, n: nat)
    requires
        n <= reached_type(t).len(),
    ensures
        holds_among(|x: TypeView| x is Any, post_order_first(t, n)) == exists|i: int|
            0 <= i < n && mentions_any(#[trigger] reached_type(t)[i]),
    decreases n,
{
    if n > 0 {
        lemma_mentions_any_first(t, (n - 1) as nat);
        lemma_holds_append(
            |x: TypeView| x is Any,
            post_order_first(t, (n - 1) as nat),
            post_order(reached_type(t)[n - 1]),
        );
    }
}

/// A dimension with a gradual one materialized.
pub open spec fn materialized_dim(d: IntView) -> IntView {
    match d {
        IntView::Gradual => IntView::Materialization,
        _ => d,
    }
}

/// A shape with its gradual dimensions materialized.
pub open spec fn materialized_dims(ds: Seq<IntView>) -> Seq<IntView> {
    Seq::new(ds.len(), |i: int| materialized_dim(ds[i]))
}

/// Type arguments, each that mentions `Any` replaced by the bound of its type parameter, where
/// it has one.
pub open spec fn bounded_args(ps: Seq<QuantifiedView>, args: Seq<TypeView>) -> Seq<TypeView> {
    Seq::new(
        args.len(),
        |i: int|
            if i < ps.len() && mentions_any(args[i]) {
                match ps[i].restriction {
                    RestrictionView::Bound(bound) => bound,
                    _ => args[i],
                }
            } else {
                args[i]
            },
    )
}

/// A callable that accepts all argument lists in place of one that accepts any.
pub open spec fn materialized_callable(c: CallableView) -> CallableView {
    match c.params {
        ParamsView::Ellipsis => CallableView { params: ParamsView::Materialization, ..c },
        _ => c,
    }
}

/// What `t` itself becomes, without regard to the types that it holds in the end.
pub open spec fn materialized_at(t: TypeView) -> TypeView {
    match t {
        TypeView::ClassType(c) => TypeView::ClassType(
            ClassTypeView {
                targs: TArgsView { args: bounded_args(c.targs.tparams, c.targs.args), ..c.targs },
                ..c
            },
        ),
        TypeView::Any(_) => TypeView::Materialization,
        TypeView::Int(d) => TypeView::Int(materialized_dim(d)),
        TypeView::IntTuple(ds) => TypeView::IntTuple(Box::new(materialized_dims(*ds))),
        TypeView::ShapedArray(s) => TypeView::ShapedArray(
            Box::new(ShapedArrayTypeView { shape: materialized_dims(s.shape), ..*s }),
        ),
        _ => with_toplevel_callables(
            t,
            toplevel_callables(t).map_values(|c: CallableView| materialized_callable(c)),
        ),
    }
}

impl Int {
    /// Materializes the dimension if it is gradual.
    pub fn materialize(&mut self)
        ensures
            final(self)@ == materialized_dim(old(self)@),
    {
        broadcast use lemma_int_view;

        match &*self {
            Int::Gradual => {
                *self = Int::Materialization;
            },
            _ => {},
        }
    }
}

impl IntTuple {
    /// Materializes the gradual dimensions.
    pub fn materialize(&mut self)
        ensures
            final(self)@ == materialized_dims(old(self)@),
    {
        broadcast use lemma_int_tuple_view;

        let ghost ds = self@;
        let n = self.dims.len();
        for i in 0..n
            invariant
                n == ds.len(),
                self.dims@.len() == n,
                view_dims(self.dims@) =~= materialized_dims(ds).take(i as int) + ds.skip(
                    i as int,
                ),
        {
            let ghost v = self.dims@;
            assert(view_dims(v)[i as int] == ds[i as int]);
            self.dims[i].materialize();
            proof {
                assert(self.dims@ =~= v.update(i as int, self.dims@[i as int]));
                lemma_dims_update(v, i as int, self.dims@[i as int]);
            }
        }
        assert(view_dims(self.dims@) =~= materialized_dims(ds));
    }
}

impl ShapedArrayType {
    /// Materializes the gradual dimensions of the shape.
    pub fn materialize_inline_shape(&mut self)
        ensures
            final(self)@ == (ShapedArrayTypeView {
                shape: materialized_dims(old(self)@.shape),
                ..old(self)@
            }),
    {
        broadcast use lemma_shaped_array_type_view;

        self.shape.materialize();
    }
}

/// Makes a callable that accepts any arguments accept all of them.
struct MaterializeParams {}

impl UpdateCallable for MaterializeParams {
    type State = ();

    open spec fn state(&self) -> () {
        ()
    }

    open spec fn step(s: (), c: CallableView) -> ((), CallableView) {
        ((), materialized_callable(c))
    }

    fn call(&mut self, c: &mut Callable) {
        broadcast use {lemma_callable_view, lemma_params_view};

        if matches!(c.params, Params::Ellipsis) {
            c.params = Params::Materialization;
        }
    }
}

proof fn lemma_materialize_params(cs: Seq<CallableView>, n: nat)
    requires
        n <= cs.len(),
    ensures
        each_callable::<MaterializeParams>((), cs, n) == (
            (),
            cs.map_values(|c: CallableView| materialized_callable(c)).take(n as int),
        ),
    decreases n,
{
    let ds = cs.map_values(|c: CallableView| materialized_callable(c));
    if n > 0 {
        lemma_materialize_params(cs, (n - 1) as nat);
        assert(ds.take(n as int) =~= ds.take(n - 1).push(ds[n - 1]));
    } else {
        assert(ds.take(0) =~= Seq::empty());
    }
}

/// Replaces the type arguments that mention `Any` by the bounds of their type parameters.
fn bound_args(cls: &mut ClassType)
    ensures
        final(cls)@ == (ClassTypeView {
            targs: TArgsView {
                args: bounded_args(old(cls)@.targs.tparams, old(cls)@.targs.args),
                ..old(cls)@.targs
            },
            ..old(cls)@
        }),
{
    broadcast use {lemma_class_type_view, lemma_targs_view, lemma_tparams_view};

    let ghost c = cls@;
    let ghost tparams = cls.targs.tparams;
    let ghost class = cls.class;
    let ghost ps = c.targs.tparams;
    let ghost args = c.targs.args;
    let ghost new = bounded_args(ps, args);
    let n = cls.targs.args.len();
    for i in 0..n
        invariant
            n == args.len(),
            new == bounded_args(ps, args),
            ps == view_quantifieds(tparams.params@),
            cls.targs.tparams == tparams,
            cls.class == class,
            cls.targs.args@.len() == n,
            view_types(cls.targs.args@) =~= new.take(i as int) + args.skip(i as int),
    {
        let ghost v = cls.targs.args@;
        assert(view_types(v)[i as int] == args[i as int]);
        if i < cls.targs.tparams.params.len() {
            proof {
                lemma_quantified_view(cls.targs.tparams.params@[i as int]);
                lemma_restriction_view(cls.targs.tparams.params@[i as int].restriction);
            }
            let bound: Option<Type> = match &cls.targs.tparams.params[i].restriction {
                Restriction::Bound(bound) => Some(bound.clone()),
                _ => None,
            };
            if let Some(bound) = bound {
                proof {
                    lemma_any_pure::<IsAny>((), args[i as int], |x: TypeView| x is Any);
                }
                if cls.targs.args[i].any(&mut IsAny {  }) {
                    proof {
                        lemma_types_update(v, i as int, bound);
                    }
                    cls.targs.args[i] = bound;
                }
            }
        }
        assert(new[i as int] == view_types(cls.targs.args@)[i as int]);
    }
    assert(view_types(cls.targs.args@) =~= new);
}

/// Materializes the type that it is called on.
struct Materialize {}

impl Update for Materialize {
    type State = ();

    open spec fn state(&self) -> () {
        ()
    }

    open spec fn step(s: (), t: TypeView) -> ((), TypeView) {
        ((), materialized_at(t))
    }

    fn call(&mut self, ty: &mut Type) {
        broadcast use lemma_type_view;

        let ghost t = ty@;
        match ty {
            Type::ClassType(cls) => bound_args(cls),
            Type::Any(_) => {
                *ty = Type::Materialization;
            },
            Type::Int(dim) => dim.materialize(),
            Type::IntTuple(tuple) => (**tuple).materialize(),
            Type::ShapedArray(shaped) => (**shaped).materialize_inline_shape(),
            _ => {
                proof {
                    let cs = toplevel_callables(t);
                    lemma_materialize_params(cs, cs.len());
                    let ds = cs.map_values(|c: CallableView| materialized_callable(c));
                    assert(ds.take(ds.len() as int) =~= ds);
                }
                ty.transform_toplevel_callable(&mut MaterializeParams {  });
            },
        }
    }
}

proof fn lemma_dims_slots(ds: Seq<IntView>)
    ensures
        slots_dims(materialized_dims(ds)) == slots_dims(ds),
    decreases ds.len(),
{
    if ds.len() > 0 {
        lemma_dims_slots(ds.drop_last());
        assert(materialized_dims(ds).drop_last() =~= materialized_dims(ds.drop_last()));
        reveal(slots_int);
    }
}

proof fn lemma_callable_slots(c: CallableView)
    ensures
        slots_callable(materialized_callable(c)) == slots_callable(c),
{
    reveal(slots_callable);
    reveal(slots_params);
}

proof fn lemma_function_slots(f: FunctionView)
    ensures
        slots_function(
            FunctionView { signature: materialized_callable(f.signature), ..f },
        ) == slots_function(f),
{
    reveal(slots_function);
    lemma_callable_slots(f.signature);
}

proof fn lemma_overload_type_slots(o: OverloadTypeView)
    ensures
        slots_overload_type(
            with_overload_signature(o, materialized_callable(overload_signature(o))),
        ) == slots_overload_type(o),
{
    reveal(slots_overload_type);
    reveal(slots_forall_function);
    match o {
        OverloadTypeView::Function(f) => {
            lemma_function_slots(f);
        },
        OverloadTypeView::Forall(forall) => {
            lemma_function_slots(forall.body);
        },
    }
}

proof fn lemma_overloads_slots(a: Seq<OverloadTypeView>, b: Seq<OverloadTypeView>)
    requires
        a.len() == b.len(),
        forall|i: int|
            0 <= i < a.len() ==> #[trigger] b[i] == with_overload_signature(
                a[i],
                materialized_callable(overload_signature(a[i])),
            ),
    ensures
        slots_overloads(a) == slots_overloads(b),
    decreases a.len(),
{
    if a.len() > 0 {
        assert forall|i: int| 0 <= i < a.len() - 1 implies #[trigger] b.drop_last()[i]
            == with_overload_signature(
            a.drop_last()[i],
            materialized_callable(overload_signature(a.drop_last()[i])),
        ) by {
            assert(b.drop_last()[i] == b[i]);
        }
        lemma_overloads_slots(a.drop_last(), b.drop_last());
        assert(b.last() == b[a.len() - 1]);
        lemma_overload_type_slots(a.last());
    }
}

proof fn lemma_overload_slots(o: OverloadView)
    ensures
        slots_overload(
            with_overload_signatures(
                o,
                overload_signatures(o).map_values(|c: CallableView| materialized_callable(c)),
            ),
        ) == slots_overload(o),
{
    reveal(slots_overload);
    let cs = overload_signatures(o).map_values(|c: CallableView| materialized_callable(c));
    lemma_overloads_slots(o.signatures, with_overload_signatures(o, cs).signatures);
}

/// But for a class, materializing a type leaves in place what it holds.
proof fn lemma_same_slots(t: TypeView)
    requires
        !(t is ClassType),
    ensures
        slots_type(materialized_at(t)) == slots_type(t),
{
    reveal(slots_type);
    match t {
        TypeView::Int(d) => {
            reveal(slots_int);
        },
        TypeView::IntTuple(ds) => {
            lemma_dims_slots(*ds);
        },
        TypeView::ShapedArray(s) => {
            reveal(slots_shaped_array_type);
            lemma_dims_slots(s.shape);
        },
        TypeView::Callable(c) => {
            lemma_callable_slots(*c);
        },
        TypeView::Forall(forall) => {
            reveal(slots_forall_forallable);
            reveal(slots_forallable);
            match forall.body {
                ForallableView::Callable(c) => {
                    lemma_callable_slots(c);
                },
                ForallableView::Function(f) => {
                    lemma_function_slots(f);
                },
                _ => {},
            }
        },
        TypeView::Function(f) => {
            lemma_function_slots(*f);
        },
        TypeView::BoundMethod(bm) => {
            reveal(slots_bound_method);
            reveal(slots_bound_method_type);
            reveal(slots_forall_function);
            match bm.func {
                BoundMethodTypeView::Function(f) => {
                    lemma_function_slots(f);
                },
                BoundMethodTypeView::Forall(forall) => {
                    lemma_function_slots(forall.body);
                },
                BoundMethodTypeView::Overload(o) => {
                    lemma_overload_slots(o);
                },
            }
        },
        TypeView::Overload(o) => {
            lemma_overload_slots(o);
        },
        _ => {},
    }
}

/// The type arguments of a class, as they are and as their bounds, are parts of the type.
proof fn lemma_class_slots(c: ClassTypeView)
    ensures
        slots_type(TypeView::ClassType(c)) == c.targs.args,
{
    reveal(slots_type);
    reveal(slots_class_type);
    reveal(slots_targs);
}

impl Descend<false> for Materialize {
    open spec fn rank(s: (), t: TypeView) -> Rank {
        0
    }

    proof fn lemma_rank(s: (), t: TypeView) {
    }

    proof fn lemma_kept(s: (), t: TypeView, c: TypeView) {
    }

    proof fn lemma_descends(s: (), t: TypeView) {
        let u = materialized_at(t);
        lemma_type_smaller(t);
        match t {
            TypeView::ClassType(c) => {
                lemma_class_slots(c);
                lemma_class_slots(u->ClassType_0);
                lemma_type_parts(t);
                lemma_class_type_parts(c);
                lemma_targs_parts(c.targs);
                let ps = c.targs.tparams;
                assert forall|i: int| 0 <= i < position_slots(u).len() implies descends(
                    0,
                    t,
                    0,
                    #[trigger] position_slots(u)[i],
                ) by {
                    assert(decreases_to!(t => slots_type(t)[i]));
                    if i < ps.len() {
                        assert(decreases_to!(ps => ps[i]));
                        lemma_quantified_parts(ps[i]);
                        lemma_restriction_parts(ps[i].restriction);
                    }
                }
            },
            _ => {
                lemma_same_slots(t);
            },
        }
    }
}

/// What stands in the places of a type that was materialized by itself is simpler than the type.
pub proof fn lemma_materialized_smaller(t: TypeView)
    ensures
        forall|i: int|
            0 <= i < position_slots(materialized_at(t)).len() ==> decreases_to!(
                t => #[trigger] position_slots(materialized_at(t))[i]
            ),
{
    Materialize::lemma_descends((), t);
    assert forall|i: int| 0 <= i < position_slots(materialized_at(t)).len() implies decreases_to!(
        t => #[trigger] position_slots(materialized_at(t))[i]
    ) by {
        assert(descends(
            Materialize::rank((), t),
            t,
            Materialize::rank((), position_slots(Materialize::step((), t).1)[i]),
            position_slots(Materialize::step((), t).1)[i],
        ));
    }
}

/// `t` materialized, and so is all that then stands in its places where a type variable can be
/// written.
pub open spec fn materialized(t: TypeView) -> TypeView
    decreases t, 1nat,
{
    with_positions(materialized_at(t), materialized_positions(t))
}

/// What stands in the places of `t` once it is materialized by itself, materialized.
pub open spec fn materialized_positions(t: TypeView) -> Seq<TypeView>
    decreases t, 0nat,
{
    proof {
        lemma_materialized_smaller(t);
    }
    Seq::new(
        position_slots(materialized_at(t)).len(),
        |i: int|
            if 0 <= i < position_slots(materialized_at(t)).len() {
                materialized(position_slots(materialized_at(t))[i])
            } else {
                arbitrary()
            },
    )
}

proof fn lemma_descend_materialize(t: TypeView)
    ensures
        descend::<false, Materialize>((), t) == ((), materialized(t)),
    decreases t, position_slots(materialized_at(t)).len() + 1,
{
    let n = position_slots(materialized_at(t)).len();
    lemma_descend_materialize_slots(t, n);
    let ts = materialized_positions(t);
    assert(ts.take(n as int) =~= ts);
}

proof fn lemma_descend_materialize_slots(t: TypeView, n: nat)
    requires
        n <= position_slots(materialized_at(t)).len(),
    ensures
        descend_slots::<false, Materialize>((), t, n) == (
            (),
            materialized_positions(t).take(n as int),
        ),
    decreases t, n,
{
    let ts = materialized_positions(t);
    if n > 0 {
        lemma_materialized_smaller(t);
        lemma_descend_slots::<false, Materialize>((), t, (n - 1) as nat);
        lemma_descend_materialize_slots(t, (n - 1) as nat);
        lemma_descend_materialize(position_slots(materialized_at(t))[n - 1]);
        assert(ts.take(n as int) =~= ts.take(n - 1).push(ts[n - 1]));
    } else {
        assert(ts.take(0) =~= Seq::empty());
    }
}

/// A callable that accepts any argument list accepts all of them; any other is as it was.
pub open spec fn accepting_all(c: CallableView) -> CallableView {
    CallableView {
        params: if c.params is Ellipsis {
            ParamsView::Materialization
        } else {
            c.params
        },
        ret: c.ret,
    }
}

/// A function whose signature accepts all argument lists if it accepts any.
pub open spec fn function_accepting_all(f: FunctionView) -> FunctionView {
    FunctionView { signature: accepting_all(f.signature), metadata: f.metadata }
}

/// An overloaded function each of whose signatures accepts all argument lists if it accepts any.
pub open spec fn overload_accepting_all(o: OverloadView) -> OverloadView {
    OverloadView {
        signatures: o.signatures.map_values(
            |s: OverloadTypeView|
                match s {
                    OverloadTypeView::Function(f) => OverloadTypeView::Function(
                        function_accepting_all(f),
                    ),
                    OverloadTypeView::Forall(g) => OverloadTypeView::Forall(
                        ForallView { tparams: g.tparams, body: function_accepting_all(g.body) },
                    ),
                },
        ),
        metadata: o.metadata,
    }
}

proof fn lemma_overload_accepting_all(o: OverloadView)
    ensures
        with_overload_signatures(
            o,
            overload_signatures(o).map_values(|c: CallableView| materialized_callable(c)),
        ) == overload_accepting_all(o),
{
    let cs = overload_signatures(o).map_values(|c: CallableView| materialized_callable(c));
    assert(with_overload_signatures(o, cs).signatures =~= overload_accepting_all(o).signatures);
}

/// What the places of `t` hold in the end, where nothing in a place is replaced by a bound.
proof fn lemma_materialized_slots(t: TypeView)
    requires
        !(t is SelfType || t is Literal),
        slots_type(materialized_at(t)) == slots_type(t),
        !(materialized_at(t) is SelfType || materialized_at(t) is Literal),
    ensures
        materialized(t) == with_type(
            materialized_at(t),
            slots_type(t).map_values(|x: TypeView| materialized(x)),
        ),
{
    assert(materialized_positions(t) =~= slots_type(t).map_values(|x: TypeView| materialized(x)));
}

/// What materializing makes of each kind of type.
///
/// `Any` becomes all that it can stand for. A type argument of a class that mentions `Any` gives
/// way to the bound of its type parameter, where it has one. A gradual dimension becomes all
/// dimensions, and a callable that accepts any argument list accepts all of them. `Self` and
/// literals are left alone. Apart from this a type changes only in what it holds, and what it holds
/// is materialized, whatever kind of type it is.
#[verifier::rlimit(60)]
#[verifier::spinoff_prover]
pub proof fn lemma_materialized_parts(t: TypeView)
    ensures
        materialized(t) == match t {
            TypeView::Any(_) => TypeView::Materialization,
            TypeView::SelfType(_) => t,
            TypeView::Literal(_) => t,
            TypeView::ClassType(c) => TypeView::ClassType(
                ClassTypeView {
                    class: c.class,
                    targs: TArgsView {
                        tparams: c.targs.tparams,
                        args: c.targs.args.map(
                            |i: int, x: TypeView|
                                if i < c.targs.tparams.len() && mentions_any(x)
                                    && c.targs.tparams[i].restriction is Bound {
                                    materialized(c.targs.tparams[i].restriction->Bound_0)
                                } else {
                                    materialized(x)
                                },
                        ),
                    },
                },
            ),
            TypeView::Int(IntView::Gradual) => TypeView::Int(IntView::Materialization),
            TypeView::IntTuple(ds) => with_type(
                TypeView::IntTuple(
                    Box::new(
                        ds.map_values(
                            |d: IntView|
                                if d is Gradual {
                                    IntView::Materialization
                                } else {
                                    d
                                },
                        ),
                    ),
                ),
                slots_type(t).map_values(|x: TypeView| materialized(x)),
            ),
            TypeView::ShapedArray(s) => with_type(
                TypeView::ShapedArray(
                    Box::new(
                        ShapedArrayTypeView {
                            base_class: s.base_class,
                            shape: s.shape.map_values(
                                |d: IntView|
                                    if d is Gradual {
                                        IntView::Materialization
                                    } else {
                                        d
                                    },
                            ),
                        },
                    ),
                ),
                slots_type(t).map_values(|x: TypeView| materialized(x)),
            ),
            TypeView::Callable(c) => with_type(
                TypeView::Callable(Box::new(accepting_all(*c))),
                slots_type(t).map_values(|x: TypeView| materialized(x)),
            ),
            TypeView::Function(f) => with_type(
                TypeView::Function(Box::new(function_accepting_all(*f))),
                slots_type(t).map_values(|x: TypeView| materialized(x)),
            ),
            TypeView::Overload(o) => with_type(
                TypeView::Overload(overload_accepting_all(o)),
                slots_type(t).map_values(|x: TypeView| materialized(x)),
            ),
            TypeView::BoundMethod(m) => with_type(
                TypeView::BoundMethod(
                    Box::new(
                        BoundMethodView {
                            obj: m.obj,
                            func: match m.func {
                                BoundMethodTypeView::Function(f) => BoundMethodTypeView::Function(
                                    function_accepting_all(f),
                                ),
                                BoundMethodTypeView::Forall(g) => BoundMethodTypeView::Forall(
                                    ForallView {
                                        tparams: g.tparams,
                                        body: function_accepting_all(g.body),
                                    },
                                ),
                                BoundMethodTypeView::Overload(o) => BoundMethodTypeView::Overload(
                                    overload_accepting_all(o),
                                ),
                            },
                        },
                    ),
                ),
                slots_type(t).map_values(|x: TypeView| materialized(x)),
            ),
            TypeView::Forall(g) => with_type(
                TypeView::Forall(
                    Box::new(
                        ForallView {
                            tparams: g.tparams,
                            body: match g.body {
                                ForallableView::Function(f) => ForallableView::Function(
                                    function_accepting_all(f),
                                ),
                                ForallableView::Callable(c) => ForallableView::Callable(
                                    accepting_all(c),
                                ),
                                ForallableView::TypeAlias(a) => ForallableView::TypeAlias(a),
                            },
                        },
                    ),
                ),
                slots_type(t).map_values(|x: TypeView| materialized(x)),
            ),
            _ => with_type(t, slots_type(t).map_values(|x: TypeView| materialized(x))),
        },
{
    match t {
        TypeView::Any(_) => {
            reveal(slots_type);
            reveal(with_type);
        },
        TypeView::SelfType(_) => {},
        TypeView::Literal(_) => {},
        TypeView::ClassType(c) => {
            let u = materialized_at(t);
            lemma_class_slots(c);
            lemma_class_slots(u->ClassType_0);
            reveal(with_type);
            reveal(with_class_type);
            reveal(with_targs);
            assert(materialized_positions(t) =~= c.targs.args.map(
                |i: int, x: TypeView|
                    if i < c.targs.tparams.len() && mentions_any(x)
                        && c.targs.tparams[i].restriction is Bound {
                        materialized(c.targs.tparams[i].restriction->Bound_0)
                    } else {
                        materialized(x)
                    },
            ));
        },
        _ => {
            lemma_same_slots(t);
            lemma_materialized_slots(t);
            match t {
                TypeView::Int(d) => {
                    reveal(slots_type);
                    reveal(with_type);
                    reveal(slots_int);
                    reveal(with_int);
                },
                TypeView::IntTuple(ds) => {
                    assert(materialized_dims(*ds) =~= ds.map_values(
                        |d: IntView|
                            if d is Gradual {
                                IntView::Materialization
                            } else {
                                d
                            },
                    ));
                },
                TypeView::ShapedArray(s) => {
                    assert(materialized_dims(s.shape) =~= s.shape.map_values(
                        |d: IntView|
                            if d is Gradual {
                                IntView::Materialization
                            } else {
                                d
                            },
                    ));
                },
                TypeView::Overload(o) => {
                    lemma_overload_accepting_all(o);
                },
                TypeView::BoundMethod(m) => {
                    if let BoundMethodTypeView::Overload(o) = m.func {
                        lemma_overload_accepting_all(o);
                    }
                },
                _ => {},
            }
        },
    }
}

/// Is `t` gradual itself: `Any`, a gradual dimension or a shape that has one, or something that can
/// be called with any argument list?
pub open spec fn is_gradual(t: TypeView) -> bool {
    match t {
        TypeView::Any(_) => true,
        TypeView::Int(d) => d is Gradual,
        TypeView::IntTuple(ds) => ds.contains(IntView::Gradual),
        TypeView::ShapedArray(s) => s.shape.contains(IntView::Gradual),
        TypeView::Callable(c) => c.params is Ellipsis,
        TypeView::Function(f) => f.signature.params is Ellipsis,
        TypeView::Overload(o) => exists|i: int|
            0 <= i < o.signatures.len() && has_ellipsis(#[trigger] o.signatures[i]),
        TypeView::BoundMethod(m) => match m.func {
            BoundMethodTypeView::Function(f) => f.signature.params is Ellipsis,
            BoundMethodTypeView::Forall(g) => g.body.signature.params is Ellipsis,
            BoundMethodTypeView::Overload(o) => exists|i: int|
                0 <= i < o.signatures.len() && has_ellipsis(#[trigger] o.signatures[i]),
        },
        TypeView::Forall(g) => match g.body {
            ForallableView::Function(f) => f.signature.params is Ellipsis,
            ForallableView::Callable(c) => c.params is Ellipsis,
            ForallableView::TypeAlias(_) => false,
        },
        _ => false,
    }
}

/// Can one signature of an overloaded function be called with any argument list?
pub open spec fn has_ellipsis(s: OverloadTypeView) -> bool {
    match s {
        OverloadTypeView::Function(f) => f.signature.params is Ellipsis,
        OverloadTypeView::Forall(g) => g.body.signature.params is Ellipsis,
    }
}

/// Does anything gradual stand in `t`, at any depth?
pub open spec fn holds_gradual(t: TypeView) -> bool
    decreases t,
{
    is_gradual(t) || exists|i: int|
        {
            proof {
                lemma_type_smaller(t);
            }
            if 0 <= i < reached_type(t).len() {
                holds_gradual(#[trigger] reached_type(t)[i])
            } else {
                false
            }
        }
}

/// Where nothing gradual stands, `Any` is not mentioned.
proof fn lemma_not_gradual(t: TypeView)
    requires
        !holds_gradual(t),
    ensures
        !mentions_any(t),
    decreases t, reached_type(t).len() + 1,
{
    let p = |x: TypeView| x is Any;
    let n = reached_type(t).len();
    lemma_not_gradual_first(t, n);
    assert forall|k: int| 0 <= k < post_order(t).len() implies !p(#[trigger] post_order(t)[k]) by {
        if k < post_order_first(t, n).len() {
            assert(post_order(t)[k] == post_order_first(t, n)[k]);
        }
    }
}

proof fn lemma_not_gradual_first(t: TypeView, n: nat)
    requires
        !holds_gradual(t),
        n <= reached_type(t).len(),
    ensures
        !holds_among(|x: TypeView| x is Any, post_order_first(t, n)),
    decreases t, n,
{
    let p = |x: TypeView| x is Any;
    if n > 0 {
        let x = reached_type(t)[n - 1];
        let (a, b) = (post_order_first(t, (n - 1) as nat), post_order(x));
        lemma_type_smaller(t);
        lemma_not_gradual_first(t, (n - 1) as nat);
        assert(!holds_gradual(x));
        lemma_not_gradual(x);
        assert forall|k: int| 0 <= k < (a + b).len() implies !p(#[trigger] (a + b)[k]) by {
            if k < a.len() {
                assert(!p(a[k]));
            } else {
                assert(!p(b[k - a.len()]));
            }
        }
    }
}

/// What may be replaced is read as well, so that nothing gradual stands in it either.
proof fn lemma_held_not_gradual(t: TypeView, i: int)
    requires
        !holds_gradual(t),
        0 <= i < slots_type(t).len(),
        !(t is SelfType || t is Literal),
    ensures
        !holds_gradual(slots_type(t)[i]),
{
    lemma_changed_are_read(t);
    assert(position_slots(t)[i] == slots_type(t)[i]);
    assert(positions(t).contains(position_slots(t)[i]));
    let j = choose|j: int| 0 <= j < positions(t).len() && positions(t)[j] == position_slots(t)[i];
    assert(!holds_gradual(reached_type(t)[j]));
}

/// A type in which nothing gradual stands is left as it is.
#[verifier::rlimit(40)]
#[verifier::spinoff_prover]
pub proof fn lemma_materialized_unchanged(t: TypeView)
    requires
        !holds_gradual(t),
    ensures
        materialized(t) == t,
    decreases t,
{
    lemma_materialized_parts(t);
    if !(t is SelfType || t is Literal) {
        let ts = slots_type(t).map_values(|x: TypeView| materialized(x));
        assert forall|i: int| 0 <= i < ts.len() implies ts[i] == slots_type(t)[i] by {
            lemma_type_smaller(t);
            lemma_held_not_gradual(t, i);
            lemma_materialized_unchanged(slots_type(t)[i]);
        }
        assert(ts =~= slots_type(t));
        lemma_type_lens(t, ts, ts);
        match t {
            TypeView::ClassType(c) => {
                lemma_class_slots(c);
                assert forall|i: int| 0 <= i < c.targs.args.len() implies !mentions_any(
                    #[trigger] c.targs.args[i],
                ) by {
                    lemma_held_not_gradual(t, i);
                    lemma_not_gradual(c.targs.args[i]);
                }
                assert(materialized(t)->ClassType_0.targs.args =~= c.targs.args) by {
                    assert forall|i: int| 0 <= i < c.targs.args.len() implies materialized(
                        t,
                    )->ClassType_0.targs.args[i] == c.targs.args[i] by {
                        assert(ts[i] == slots_type(t)[i]);
                        assert(!mentions_any(c.targs.args[i]));
                    }
                }
            },
            TypeView::IntTuple(ds) => {
                lemma_no_gradual_dims(*ds);
            },
            TypeView::ShapedArray(s) => {
                lemma_no_gradual_dims(s.shape);
            },
            TypeView::Overload(o) => {
                lemma_no_ellipsis(o);
            },
            TypeView::BoundMethod(m) => {
                if let BoundMethodTypeView::Overload(o) = m.func {
                    lemma_no_ellipsis(o);
                }
            },
            _ => {},
        }
    }
}

proof fn lemma_no_gradual_dims(ds: Seq<IntView>)
    requires
        !ds.contains(IntView::Gradual),
    ensures
        ds.map_values(
            |d: IntView|
                if d is Gradual {
                    IntView::Materialization
                } else {
                    d
                },
        ) == ds,
{
    let f = |d: IntView|
        if d is Gradual {
            IntView::Materialization
        } else {
            d
        };
    assert forall|i: int| 0 <= i < ds.len() implies ds.map_values(f)[i] == ds[i] by {
        assert(ds[i] != IntView::Gradual);
    }
    assert(ds.map_values(f) =~= ds);
}

proof fn lemma_no_ellipsis(o: OverloadView)
    requires
        forall|i: int| 0 <= i < o.signatures.len() ==> !has_ellipsis(#[trigger] o.signatures[i]),
    ensures
        overload_accepting_all(o) == o,
{
    assert forall|i: int| 0 <= i < o.signatures.len() implies overload_accepting_all(
        o,
    ).signatures[i] == o.signatures[i] by {
        assert(!has_ellipsis(o.signatures[i]));
    }
    assert(overload_accepting_all(o).signatures =~= o.signatures);
}

/// Does `Any` stand in a place of `t` where a type variable can be written, at any depth?
pub open spec fn any_in_position(t: TypeView) -> bool
    decreases t,
{
    t is Any || exists|i: int|
        {
            proof {
                lemma_type_smaller(t);
            }
            if 0 <= i < position_slots(t).len() {
                any_in_position(#[trigger] position_slots(t)[i])
            } else {
                false
            }
        }
}

proof fn lemma_with_positions(u: TypeView, ts: Seq<TypeView>)
    requires
        ts.len() == position_slots(u).len(),
        !(u is Any),
    ensures
        !(with_positions(u, ts) is Any),
        position_slots(with_positions(u, ts)) == ts,
{
    if u is SelfType || u is Literal {
        assert(ts =~= Seq::empty());
    } else {
        lemma_type_lens(u, ts, ts);
        reveal(with_type);
    }
}

/// After a type is materialized, `Any` stands in none of the places where a type variable can be
/// written.
pub proof fn lemma_materialized_no_any(t: TypeView)
    ensures
        !any_in_position(materialized(t)),
    decreases t,
{
    let u = materialized_at(t);
    let ts = materialized_positions(t);
    let r = with_positions(u, ts);
    lemma_with_positions(u, ts);
    assert forall|i: int| 0 <= i < position_slots(r).len() implies !any_in_position(
        #[trigger] position_slots(r)[i],
    ) by {
        lemma_materialized_smaller(t);
        lemma_materialized_no_any(position_slots(u)[i]);
    }
}

impl Type {
    /// The type with all that is gradual in it replaced by what it can stand for.
    ///
    /// A type argument that mentions `Any` is accepted as a gradual specialization of its type
    /// parameter. Its materializations are therefore limited by the bound of the parameter, and
    /// the bound is the widest of them.
    pub fn materialize(&self) -> (r: Type)
        ensures
            r@ == materialized(self@),
    {
        let mut ty = self.clone();
        proof {
            lemma_descend_materialize(self@);
        }
        ty.transform_types_in_type_variable_positions::<false, Materialize>(&mut Materialize {  });
        ty
    }
}

} // verus!
