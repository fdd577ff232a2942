//! The callables and the function metadata that a type has at its top level.
//!
//! Nothing here looks into a type for nested functions.
use vstd::prelude::*;

use crate::data::{
    BoundMethodType, Callable, Forallable, FuncMetadata, Function, Overload, OverloadType, Type,
};
use crate::outside::signatures_of;
use crate::view::{
    lemma_bound_method_type_view, lemma_bound_method_view, lemma_forall_forallable_view,
    lemma_forall_function_view, lemma_forallable_view, lemma_function_view,
    lemma_overload_type_view, lemma_overload_view, lemma_type_view, view_overloads,
    BoundMethodTypeView, BoundMethodView, CallableView, ForallView, ForallableView,
    FuncMetadataView, FunctionView, OverloadTypeView, OverloadView, TypeView,
};

verus! {

/// Something to be done to one callable at a time, which may remember what it has seen.
pub trait UpdateCallable: Sized {
    type State;

    /// What is remembered.
    spec fn state(&self) -> Self::State;

    /// What is remembered after a call on `c`, and what `c` becomes.
    spec fn step(s: Self::State, c: CallableView) -> (Self::State, CallableView);

    fn call(&mut self, c: &mut Callable)
        ensures
            (final(self).state(), final(c)@) == Self::step(old(self).state(), old(c)@),
    ;
}

/// Something that looks at one callable at a time and remembers what it has seen.
pub trait ObserveCallable<'a>: Sized {
    type State;

    /// What is remembered.
    spec fn state(&self) -> Self::State;

    /// What is remembered after a call on `c`.
    spec fn step(s: Self::State, c: CallableView) -> Self::State;

    fn call(&mut self, c: &'a Callable)
        ensures
            final(self).state() == Self::step(old(self).state(), c@),
    ;
}

/// Something to be done to function metadata, which may remember what it has seen.
pub trait UpdateMetadata: Sized {
    type State;

    /// What is remembered.
    spec fn state(&self) -> Self::State;

    /// What is remembered after a call on `m`, and what `m` becomes.
    spec fn step(s: Self::State, m: FuncMetadataView) -> (Self::State, FuncMetadataView);

    fn call(&mut self, m: &mut FuncMetadata)
        ensures
            (final(self).state(), final(m)@) == Self::step(old(self).state(), old(m)@),
    ;
}

/// The signature of one alternative of an overloaded function.
pub open spec fn overload_signature(o: OverloadTypeView) -> CallableView {
    match o {
        OverloadTypeView::Function(f) => f.signature,
        OverloadTypeView::Forall(forall) => forall.body.signature,
    }
}

/// One alternative of an overloaded function with another signature.
pub open spec fn with_overload_signature(
    o: OverloadTypeView,
    c: CallableView,
) -> OverloadTypeView {
    match o {
        OverloadTypeView::Function(f) => OverloadTypeView::Function(
            FunctionView { signature: c, ..f },
        ),
        OverloadTypeView::Forall(forall) => OverloadTypeView::Forall(
            ForallView { body: FunctionView { signature: c, ..forall.body }, ..forall },
        ),
    }
}

/// The signatures of an overloaded function, in order.
pub open spec fn overload_signatures(o: OverloadView) -> Seq<CallableView> {
    Seq::new(o.signatures.len(), |i: int| overload_signature(o.signatures[i]))
}

/// An overloaded function with other signatures.
pub open spec fn with_overload_signatures(
    o: OverloadView,
    cs: Seq<CallableView>,
) -> OverloadView {
    OverloadView {
        signatures: Seq::new(
            o.signatures.len(),
            |i: int| with_overload_signature(o.signatures[i], cs[i]),
        ),
        ..o
    }
}

/// The callables that a type is at its top level: one for each signature.
pub open spec fn toplevel_callables(t: TypeView) -> Seq<CallableView> {
    match t {
        TypeView::Callable(c) => seq![*c],
        TypeView::Forall(forall) => match forall.body {
            ForallableView::Callable(c) => seq![c],
            ForallableView::Function(f) => seq![f.signature],
            ForallableView::TypeAlias(_) => Seq::empty(),
        },
        TypeView::Function(f) => seq![f.signature],
        TypeView::BoundMethod(bm) => match bm.func {
            BoundMethodTypeView::Function(f) => seq![f.signature],
            BoundMethodTypeView::Forall(forall) => seq![forall.body.signature],
            BoundMethodTypeView::Overload(o) => overload_signatures(o),
        },
        TypeView::Overload(o) => overload_signatures(o),
        _ => Seq::empty(),
    }
}

/// The type with other callables at its top level.
pub open spec fn with_toplevel_callables(t: TypeView, cs: Seq<CallableView>) -> TypeView {
    match t {
        TypeView::Callable(c) => TypeView::Callable(Box::new(cs[0])),
        TypeView::Forall(forall) => match forall.body {
            ForallableView::Callable(c) => TypeView::Forall(
                Box::new(ForallView { body: ForallableView::Callable(cs[0]), ..*forall }),
            ),
            ForallableView::Function(f) => TypeView::Forall(
                Box::new(
                    ForallView {
                        body: ForallableView::Function(FunctionView { signature: cs[0], ..f }),
                        ..*forall
                    },
                ),
            ),
            ForallableView::TypeAlias(_) => t,
        },
        TypeView::Function(f) => TypeView::Function(
            Box::new(FunctionView { signature: cs[0], ..*f }),
        ),
        TypeView::BoundMethod(bm) => TypeView::BoundMethod(
            Box::new(
                BoundMethodView {
                    func: match bm.func {
                        BoundMethodTypeView::Function(f) => BoundMethodTypeView::Function(
                            FunctionView { signature: cs[0], ..f },
                        ),
                        BoundMethodTypeView::Forall(forall) => BoundMethodTypeView::Forall(
                            ForallView {
                                body: FunctionView { signature: cs[0], ..forall.body },
                                ..forall
                            },
                        ),
                        BoundMethodTypeView::Overload(o) => BoundMethodTypeView::Overload(
                            with_overload_signatures(o, cs),
                        ),
                    },
                    ..*bm
                },
            ),
        ),
        TypeView::Overload(o) => TypeView::Overload(with_overload_signatures(o, cs)),
        _ => t,
    }
}

/// A callable is one callable, and a function has one signature. Something generic has the
/// callables of what it is generic over, and a bound method those of its function. An overloaded
/// function has one for each signature. No other type is a callable.
pub proof fn lemma_toplevel_callables(t: TypeView)
    ensures
        t is Callable ==> toplevel_callables(t) == seq![*t->Callable_0],
        t is Function ==> toplevel_callables(t) == seq![t->Function_0.signature],
        t is Forall && t->Forall_0.body is Function ==> toplevel_callables(t) == toplevel_callables(
            TypeView::Function(Box::new(t->Forall_0.body->Function_0)),
        ),
        t is Forall && t->Forall_0.body is Callable ==> toplevel_callables(t) == toplevel_callables(
            TypeView::Callable(Box::new(t->Forall_0.body->Callable_0)),
        ),
        t is Forall && t->Forall_0.body is TypeAlias ==> toplevel_callables(t).len() == 0,
        t is BoundMethod && t->BoundMethod_0.func is Function ==> toplevel_callables(t)
            == toplevel_callables(
            TypeView::Function(Box::new(t->BoundMethod_0.func->Function_0)),
        ),
        t is BoundMethod && t->BoundMethod_0.func is Forall ==> toplevel_callables(t)
            == toplevel_callables(
            TypeView::Function(Box::new(t->BoundMethod_0.func->Forall_0.body)),
        ),
        t is BoundMethod && t->BoundMethod_0.func is Overload ==> toplevel_callables(t)
            == toplevel_callables(TypeView::Overload(t->BoundMethod_0.func->Overload_0)),
        t is Overload ==> toplevel_callables(t) == t->Overload_0.signatures.map_values(
            |o: OverloadTypeView|
                if o is Function {
                    o->Function_0.signature
                } else {
                    o->Forall_0.body.signature
                },
        ),
        !(t is Callable || t is Function || t is Forall || t is BoundMethod || t is Overload)
            ==> toplevel_callables(t).len() == 0,
{
    if let TypeView::Overload(o) = t {
        assert(overload_signatures(o) =~= o.signatures.map_values(
            |o: OverloadTypeView|
                if o is Function {
                    o->Function_0.signature
                } else {
                    o->Forall_0.body.signature
                },
        ));
    }
}

/// The callables that are put in are those that the type then is; putting back those that it is
/// changes nothing; and what is put in last counts. What is known of the function stays as it is.
pub proof fn lemma_with_toplevel_callables(
    t: TypeView,
    cs: Seq<CallableView>,
    ds: Seq<CallableView>,
)
    requires
        cs.len() == toplevel_callables(t).len(),
        ds.len() == cs.len(),
    ensures
        toplevel_callables(with_toplevel_callables(t, cs)) == cs,
        with_toplevel_callables(t, toplevel_callables(t)) == t,
        with_toplevel_callables(with_toplevel_callables(t, cs), ds) == with_toplevel_callables(
            t,
            ds,
        ),
        toplevel_metadata(with_toplevel_callables(t, cs)) == toplevel_metadata(t),
{
    assert(toplevel_callables(with_toplevel_callables(t, cs)) =~= cs);
    match t {
        TypeView::Overload(o) => {
            lemma_overload_lens(o, cs, ds);
        },
        TypeView::BoundMethod(bm) => {
            if let BoundMethodTypeView::Overload(o) = bm.func {
                lemma_overload_lens(o, cs, ds);
            }
        },
        _ => {},
    }
}

proof fn lemma_overload_lens(o: OverloadView, cs: Seq<CallableView>, ds: Seq<CallableView>)
    requires
        cs.len() == o.signatures.len(),
        ds.len() == cs.len(),
    ensures
        overload_signatures(with_overload_signatures(o, cs)) == cs,
        with_overload_signatures(o, overload_signatures(o)) == o,
        with_overload_signatures(with_overload_signatures(o, cs), ds) == with_overload_signatures(
            o,
            ds,
        ),
{
    assert(overload_signatures(with_overload_signatures(o, cs)) =~= cs);
    assert(with_overload_signatures(o, overload_signatures(o)).signatures =~= o.signatures);
    assert(with_overload_signatures(with_overload_signatures(o, cs), ds).signatures
        =~= with_overload_signatures(o, ds).signatures);
}

/// One call on each callable, in order, is a fold.
pub proof fn lemma_seen_callables<'a, O: ObserveCallable<'a>>(
    s: O::State,
    cs: Seq<CallableView>,
    n: nat,
)
    requires
        n <= cs.len(),
    ensures
        seen_callables::<O>(s, cs, n) == cs.take(n as int).fold_left(
            s,
            |s: O::State, c: CallableView| O::step(s, c),
        ),
    decreases n,
{
    if n > 0 {
        lemma_seen_callables::<O>(s, cs, (n - 1) as nat);
        assert(cs.take(n as int).drop_last() =~= cs.take(n - 1));
    }
}

/// Without memory, one call on each callable is a map.
pub proof fn lemma_each_callable_pure<U: UpdateCallable>(
    s: U::State,
    cs: Seq<CallableView>,
    g: spec_fn(CallableView) -> CallableView,
    n: nat,
)
    requires
        forall|c: CallableView| #[trigger] U::step(s, c) == (s, g(c)),
        n <= cs.len(),
    ensures
        each_callable::<U>(s, cs, n) == (s, cs.take(n as int).map_values(g)),
    decreases n,
{
    if n > 0 {
        lemma_each_callable_pure::<U>(s, cs, g, (n - 1) as nat);
        assert(cs.take(n as int).map_values(g) =~= cs.take(n - 1).map_values(g).push(
            g(cs[n - 1]),
        ));
    } else {
        assert(cs.take(0).map_values(g) =~= Seq::empty());
    }
}

/// What `O` remembers after it has seen the first `n` of `cs`.
pub open spec fn seen_callables<'a, O: ObserveCallable<'a>>(
    s: O::State,
    cs: Seq<CallableView>,
    n: nat,
) -> O::State
    decreases n,
{
    if n == 0 {
        s
    } else {
        O::step(seen_callables::<O>(s, cs, (n - 1) as nat), cs[n - 1])
    }
}

/// The effect of `U` on the first `n` of `cs`, one after the other.
pub open spec fn each_callable<U: UpdateCallable>(
    s: U::State,
    cs: Seq<CallableView>,
    n: nat,
) -> (U::State, Seq<CallableView>)
    decreases n,
{
    if n == 0 {
        (s, Seq::empty())
    } else {
        let (s1, ds) = each_callable::<U>(s, cs, (n - 1) as nat);
        let (s2, d) = U::step(s1, cs[n - 1]);
        (s2, ds.push(d))
    }
}

impl OverloadType {
    pub(crate) fn signature(&self) -> (r: &Callable)
        ensures
            r@ == overload_signature(self@),
    {
        broadcast use {
            lemma_overload_type_view,
            lemma_function_view,
            lemma_forall_function_view,
        };

        match self {
            OverloadType::Function(f) => &f.signature,
            OverloadType::Forall(forall) => &forall.body.signature,
        }
    }

    pub(crate) fn update<U: UpdateCallable>(&mut self, f: &mut U)
        ensures
            ({
                let (s, c) = U::step(old(f).state(), overload_signature(old(self)@));
                final(f).state() == s && final(self)@ == with_overload_signature(old(self)@, c)
            }),
    {
        broadcast use {
            lemma_overload_type_view,
            lemma_function_view,
            lemma_forall_function_view,
        };

        match self {
            OverloadType::Function(function) => f.call(&mut function.signature),
            OverloadType::Forall(forall) => f.call(&mut forall.body.signature),
        }
    }
}

impl Overload {
    fn visit_signatures<'a, O: ObserveCallable<'a>>(&'a self, f: &mut O)
        ensures
            final(f).state() == seen_callables::<O>(
                old(f).state(),
                overload_signatures(self@),
                overload_signatures(self@).len(),
            ),
    {
        let ghost s = f.state();
        let ghost cs = overload_signatures(self@);
        proof {
            lemma_overload_view(*self);
        }
        let v = self.signatures.as_vec();
        assert(view_overloads(v@).len() == cs.len());
        for i in 0..v.len()
            invariant
                view_overloads(v@) == self@.signatures,
                cs == overload_signatures(self@),
                v@.len() == cs.len(),
                f.state() == seen_callables::<O>(s, cs, i as nat),
        {
            assert(view_overloads(v@)[i as int] == v@[i as int]@);
            f.call(v[i].signature());
        }
    }

    pub(crate) fn update_signatures<U: UpdateCallable>(&mut self, f: &mut U)
        ensures
            ({
                let cs = overload_signatures(old(self)@);
                let (s, ds) = each_callable::<U>(old(f).state(), cs, cs.len());
                final(f).state() == s && final(self)@ == with_overload_signatures(
                    old(self)@,
                    ds,
                )
            }),
    {
        broadcast use lemma_overload_view;

        let ghost o = self@;
        let ghost metadata = self.metadata;
        let ghost s = f.state();
        let ghost cs = overload_signatures(o);
        let n = self.signatures.as_vec().len();
        assert(signatures_of(self.signatures).len() == n);
        for i in 0..n
            invariant
                n == o.signatures.len(),
                cs == overload_signatures(o),
                self.metadata == metadata,
                signatures_of(self.signatures).len() == n,
                each_callable::<U>(s, cs, i as nat).1.len() == i,
                f.state() == each_callable::<U>(s, cs, i as nat).0,
                forall|j: int|
                    0 <= j < i ==> #[trigger] signatures_of(self.signatures)[j]
                        == with_overload_signature(
                        o.signatures[j],
                        each_callable::<U>(s, cs, i as nat).1[j],
                    ),
                forall|j: int|
                    i <= j < n ==> #[trigger] signatures_of(self.signatures)[j]
                        == o.signatures[j],
        {
            let ghost before = signatures_of(self.signatures);
            assert(before[i as int] == o.signatures[i as int]);
            self.signatures.get_mut(i).update(f);
            proof {
                let after = signatures_of(self.signatures);
                assert forall|j: int| 0 <= j < n && j != i implies #[trigger] after[j]
                    == before[j] by {}
            }
        }
        assert(self@.signatures =~= with_overload_signatures(
            o,
            each_callable::<U>(s, cs, n as nat).1,
        ).signatures);
    }
}

/// Collects the callables that it sees.
struct CallableList<'a> {
    list: Vec<&'a Callable>,
}

/// The models of the callables referred to.
pub open spec fn view_callable_refs(s: Seq<&Callable>) -> Seq<CallableView> {
    Seq::new(s.len(), |i: int| (*s[i])@)
}

impl<'a> ObserveCallable<'a> for CallableList<'a> {
    type State = Seq<CallableView>;

    closed spec fn state(&self) -> Seq<CallableView> {
        view_callable_refs(self.list@)
    }

    open spec fn step(s: Seq<CallableView>, c: CallableView) -> Seq<CallableView> {
        s.push(c)
    }

    fn call(&mut self, c: &'a Callable) {
        let ghost before = self.state();
        self.list.push(c);
        assert(self.state() =~= before.push(c@));
    }
}

proof fn lemma_collected(s: Seq<CallableView>, cs: Seq<CallableView>, n: nat)
    requires
        n <= cs.len(),
    ensures
        seen_callables::<CallableList>(s, cs, n) == s + cs.take(n as int),
    decreases n,
{
    if n > 0 {
        lemma_collected(s, cs, (n - 1) as nat);
        assert(cs.take(n as int) =~= cs.take(n - 1).push(cs[n - 1]));
        assert((s + cs.take(n - 1)).push(cs[n - 1]) =~= s + cs.take(n as int));
    } else {
        assert(s + cs.take(0) =~= s);
    }
}

impl Type {
    /// Calls `f` on each callable that the type is at its top level.
    pub fn visit_toplevel_callable<'a, O: ObserveCallable<'a>>(&'a self, f: &mut O)
        ensures
            final(f).state() == seen_callables::<O>(
                old(f).state(),
                toplevel_callables(self@),
                toplevel_callables(self@).len(),
            ),
    {
        broadcast use {
            lemma_bound_method_type_view,
            lemma_bound_method_view,
            lemma_forall_forallable_view,
            lemma_forall_function_view,
            lemma_forallable_view,
            lemma_function_view,
        };

        proof {
            lemma_type_view(*self);
            reveal_with_fuel(seen_callables, 2);
        }
        match self {
            Type::Callable(callable) => f.call(&**callable),
            Type::Forall(forall) => match &forall.body {
                Forallable::Callable(callable) => f.call(callable),
                Forallable::Function(func) => f.call(&func.signature),
                Forallable::TypeAlias(_) => {},
            },
            Type::Function(func) => f.call(&func.signature),
            Type::BoundMethod(bm) => match &bm.func {
                BoundMethodType::Function(func) => f.call(&func.signature),
                BoundMethodType::Forall(forall) => f.call(&forall.body.signature),
                BoundMethodType::Overload(overload) => overload.visit_signatures(f),
            },
            Type::Overload(overload) => overload.visit_signatures(f),
            _ => {},
        }
    }

    /// Calls `f` on each callable that the type is at its top level, and keeps what `f` makes of
    /// it.
    pub fn transform_toplevel_callable<U: UpdateCallable>(&mut self, f: &mut U)
        ensures
            ({
                let cs = toplevel_callables(old(self)@);
                let (s, ds) = each_callable::<U>(old(f).state(), cs, cs.len());
                final(f).state() == s && final(self)@ == with_toplevel_callables(old(self)@, ds)
            }),
    {
        broadcast use {
            lemma_bound_method_type_view,
            lemma_bound_method_view,
            lemma_forall_forallable_view,
            lemma_forall_function_view,
            lemma_forallable_view,
            lemma_function_view,
            lemma_type_view,
        };

        proof {
            reveal_with_fuel(each_callable, 2);
        }
        match self {
            Type::Callable(callable) => f.call(&mut **callable),
            Type::Forall(forall) => match &mut forall.body {
                Forallable::Callable(callable) => f.call(callable),
                Forallable::Function(func) => f.call(&mut func.signature),
                Forallable::TypeAlias(_) => {},
            },
            Type::Function(func) => f.call(&mut func.signature),
            Type::BoundMethod(bm) => match &mut bm.func {
                BoundMethodType::Function(func) => f.call(&mut func.signature),
                BoundMethodType::Forall(forall) => f.call(&mut forall.body.signature),
                BoundMethodType::Overload(overload) => overload.update_signatures(f),
            },
            Type::Overload(overload) => overload.update_signatures(f),
            _ => {},
        }
    }

    /// The callables that the type is at its top level.
    pub fn callable_signatures(&self) -> (r: Vec<&Callable>)
        ensures
            view_callable_refs(r@) == toplevel_callables(self@),
    {
        let mut sigs = CallableList { list: Vec::new() };
        let ghost cs = toplevel_callables(self@);
        proof {
            assert(sigs.state() =~= Seq::empty());
            lemma_collected(Seq::empty(), cs, cs.len());
            assert(Seq::empty() + cs.take(cs.len() as int) =~= cs);
        }
        self.visit_toplevel_callable(&mut sigs);
        sigs.list
    }

    /// Is the type a callable at its top level?
    pub fn is_toplevel_callable(&self) -> (r: bool)
        ensures
            r == (toplevel_callables(self@).len() > 0),
    {
        let sigs = self.callable_signatures();
        assert(view_callable_refs(sigs@).len() == sigs@.len());
        sigs.len() > 0
    }
}

/// The metadata of the function that a type is at its top level.
pub open spec fn toplevel_metadata(t: TypeView) -> Option<FuncMetadataView> {
    match t {
        TypeView::Function(f) => Some(f.metadata),
        TypeView::Forall(forall) => match forall.body {
            ForallableView::Function(f) => Some(f.metadata),
            _ => None,
        },
        TypeView::BoundMethod(bm) => match bm.func {
            BoundMethodTypeView::Function(f) => Some(f.metadata),
            BoundMethodTypeView::Forall(forall) => Some(forall.body.metadata),
            BoundMethodTypeView::Overload(o) => Some(*o.metadata),
        },
        TypeView::Overload(o) => Some(*o.metadata),
        _ => None,
    }
}

/// The type with other metadata at its top level.
pub open spec fn with_toplevel_metadata(t: TypeView, m: FuncMetadataView) -> TypeView {
    match t {
        TypeView::Function(f) => TypeView::Function(
            Box::new(FunctionView { metadata: m, ..*f }),
        ),
        TypeView::Forall(forall) => match forall.body {
            ForallableView::Function(f) => TypeView::Forall(
                Box::new(
                    ForallView {
                        body: ForallableView::Function(FunctionView { metadata: m, ..f }),
                        ..*forall
                    },
                ),
            ),
            _ => t,
        },
        TypeView::BoundMethod(bm) => TypeView::BoundMethod(
            Box::new(
                BoundMethodView {
                    func: match bm.func {
                        BoundMethodTypeView::Function(f) => BoundMethodTypeView::Function(
                            FunctionView { metadata: m, ..f },
                        ),
                        BoundMethodTypeView::Forall(forall) => BoundMethodTypeView::Forall(
                            ForallView {
                                body: FunctionView { metadata: m, ..forall.body },
                                ..forall
                            },
                        ),
                        BoundMethodTypeView::Overload(o) => BoundMethodTypeView::Overload(
                            OverloadView { metadata: Box::new(m), ..o },
                        ),
                    },
                    ..*bm
                },
            ),
        ),
        TypeView::Overload(o) => TypeView::Overload(OverloadView { metadata: Box::new(m), ..o }),
        _ => t,
    }
}

/// A function and an overloaded function have metadata. A generic function has that of the
/// function, and a bound method that of its function. Nothing else has any.
pub proof fn lemma_toplevel_metadata(t: TypeView)
    ensures
        t is Function ==> toplevel_metadata(t) == Some(t->Function_0.metadata),
        t is Overload ==> toplevel_metadata(t) == Some(*t->Overload_0.metadata),
        t is Forall && t->Forall_0.body is Function ==> toplevel_metadata(t) == toplevel_metadata(
            TypeView::Function(Box::new(t->Forall_0.body->Function_0)),
        ),
        t is Forall && !(t->Forall_0.body is Function) ==> toplevel_metadata(t) is None,
        t is BoundMethod && t->BoundMethod_0.func is Function ==> toplevel_metadata(t)
            == toplevel_metadata(
            TypeView::Function(Box::new(t->BoundMethod_0.func->Function_0)),
        ),
        t is BoundMethod && t->BoundMethod_0.func is Forall ==> toplevel_metadata(t)
            == toplevel_metadata(
            TypeView::Function(Box::new(t->BoundMethod_0.func->Forall_0.body)),
        ),
        t is BoundMethod && t->BoundMethod_0.func is Overload ==> toplevel_metadata(t)
            == toplevel_metadata(TypeView::Overload(t->BoundMethod_0.func->Overload_0)),
        !(t is Function || t is Forall || t is BoundMethod || t is Overload) ==> toplevel_metadata(
            t,
        ) is None,
{
}

/// The metadata that is put in is what the type then has; putting back what it has changes nothing;
/// and what is put in last counts. The callables stay as they are.
pub proof fn lemma_with_toplevel_metadata(t: TypeView, m: FuncMetadataView, n: FuncMetadataView)
    requires
        toplevel_metadata(t) is Some,
    ensures
        toplevel_metadata(with_toplevel_metadata(t, m)) == Some(m),
        with_toplevel_metadata(t, toplevel_metadata(t)->Some_0) == t,
        with_toplevel_metadata(with_toplevel_metadata(t, m), n) == with_toplevel_metadata(t, n),
        toplevel_callables(with_toplevel_metadata(t, m)) == toplevel_callables(t),
{
}

/// [`toplevel_metadata`], as the type holds it.
pub open spec fn held_metadata(t: Type) -> Option<FuncMetadata> {
    match t {
        Type::Function(f) => Some(f.metadata),
        Type::Forall(forall) => match forall.body {
            Forallable::Function(f) => Some(f.metadata),
            _ => None,
        },
        Type::BoundMethod(bm) => match bm.func {
            BoundMethodType::Function(f) => Some(f.metadata),
            BoundMethodType::Forall(forall) => Some(forall.body.metadata),
            BoundMethodType::Overload(o) => Some(*o.metadata),
        },
        Type::Overload(o) => Some(*o.metadata),
        _ => None,
    }
}

/// What a type holds as metadata has [`toplevel_metadata`] as its model.
pub proof fn lemma_held_metadata(t: Type)
    ensures
        match held_metadata(t) {
            Some(m) => toplevel_metadata(t@) == Some(m@),
            None => toplevel_metadata(t@) is None,
        },
{
    broadcast use {
        lemma_bound_method_type_view,
        lemma_bound_method_view,
        lemma_forall_forallable_view,
        lemma_forall_function_view,
        lemma_forallable_view,
        lemma_function_view,
        lemma_overload_view,
    };

    lemma_type_view(t);
}

impl Type {
    /// Calls `visit` on the function metadata that the type has at its top level. Where it has
    /// none, gives the default.
    pub fn visit_toplevel_func_metadata<'a, T: Default, F: Fn(&'a FuncMetadata) -> T>(
        &'a self,
        visit: &F,
    ) -> (r: T)
        requires
            forall|m: &'a FuncMetadata| call_requires(*visit, (m,)),
        ensures
            match held_metadata(*self) {
                Some(m) => call_ensures(*visit, (&m,), r),
                None => call_ensures(T::default, (), r),
            },
    {
        let func: Option<&'a Function> = match self {
            Type::Function(func) => Some(&**func),
            Type::Forall(forall) => match &forall.body {
                Forallable::Function(func) => Some(func),
                _ => None,
            },
            Type::BoundMethod(bm) => match &bm.func {
                BoundMethodType::Function(func) => Some(func),
                BoundMethodType::Forall(forall) => Some(&forall.body),
                _ => None,
            },
            _ => None,
        };
        if let Some(func) = func {
            return visit(&func.metadata);
        }
        let overload: Option<&'a Overload> = match self {
            Type::Overload(overload) => Some(overload),
            Type::BoundMethod(bm) => match &bm.func {
                BoundMethodType::Overload(overload) => Some(overload),
                _ => None,
            },
            _ => None,
        };
        if let Some(overload) = overload {
            return visit(&*overload.metadata);
        }
        T::default()
    }

    /// Calls `f` on the function metadata that the type has at its top level, and keeps what
    /// `f` makes of it.
    pub fn transform_toplevel_func_metadata<U: UpdateMetadata>(&mut self, f: &mut U)
        ensures
            match toplevel_metadata(old(self)@) {
                Some(m) => {
                    let (s, n) = U::step(old(f).state(), m);
                    final(f).state() == s && final(self)@ == with_toplevel_metadata(
                        old(self)@,
                        n,
                    )
                },
                None => final(f).state() == old(f).state() && final(self)@ == old(self)@,
            },
    {
        broadcast use {
            lemma_bound_method_type_view,
            lemma_bound_method_view,
            lemma_forall_forallable_view,
            lemma_forall_function_view,
            lemma_forallable_view,
            lemma_function_view,
            lemma_overload_view,
            lemma_type_view,
        };

        match self {
            Type::Function(func) => f.call(&mut func.metadata),
            Type::Forall(forall) => match &mut forall.body {
                Forallable::Function(func) => f.call(&mut func.metadata),
                _ => {},
            },
            Type::BoundMethod(bm) => match &mut bm.func {
                BoundMethodType::Function(func) => f.call(&mut func.metadata),
                BoundMethodType::Forall(forall) => f.call(&mut forall.body.metadata),
                BoundMethodType::Overload(overload) => f.call(&mut *overload.metadata),
            },
            Type::Overload(overload) => f.call(&mut *overload.metadata),
            _ => {},
        }
    }
}

} // verus!
