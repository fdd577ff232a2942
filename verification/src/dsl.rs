//! Forcing type-level shape applications where a call returns.
use vstd::prelude::*;

use crate::data::{Type, TypeLevelDslCall};
use crate::names::Name;
use crate::parts::{lemma_type_level_dsl_call_parts, lemma_type_parts};
use crate::same::same_type_level_dsl_call;
use crate::slots::{back, lemma_type_lens, lemma_type_smaller, slots_type, with_type};
use crate::view::{
    lemma_type_level_dsl_call_view, lemma_type_view, lemma_types_update, view_types,
    TypeLevelDslCallView, TypeView,
};
use crate::visit::kept_type;

verus! {

/// Why a shape application has no value.
#[derive(Debug)]
pub struct ShapeError {
    pub message: Name,
}

impl View for ShapeError {
    type V = Seq<char>;

    open spec fn view(&self) -> Seq<char> {
        self.message@
    }
}

/// The value of a shape application, or why it has none.
pub type Evaluated = Result<Type, ShapeError>;

/// The model of an [`Evaluated`].
pub open spec fn view_evaluated(r: Evaluated) -> Result<TypeView, Seq<char>> {
    match r {
        Ok(t) => Ok(t@),
        Err(e) => Err(e@),
    }
}

/// Something that knows the shape functions.
pub trait Evaluate: Sized {
    /// The value of an application whose arguments are forced.
    spec fn value(&self, call: TypeLevelDslCallView) -> Result<TypeView, Seq<char>>;

    fn evaluate(&self, call: &TypeLevelDslCall) -> (r: Evaluated)
        ensures
            view_evaluated(r) == self.value(call@),
    ;
}

/// Is the type one whose insides are forced only when it is called?
pub open spec fn is_delayed(t: TypeView) -> bool {
    t is Callable || t is Function || t is BoundMethod || t is Overload || t is Forall
}

/// What has to be forced before `t` can be: the arguments of an application, and what any other
/// type holds.
pub open spec fn dependencies(t: TypeView) -> Seq<TypeView> {
    match t {
        TypeView::TypeLevelDslCall(c) => c.args,
        _ => slots_type(t),
    }
}

/// What a type depends on is smaller than the type.
pub proof fn lemma_dependencies_smaller(t: TypeView)
    ensures
        forall|i: int|
            0 <= i < dependencies(t).len() ==> decreases_to!(t => #[trigger] dependencies(t)[i]),
{
    lemma_type_smaller(t);
    if let TypeView::TypeLevelDslCall(c) = t {
        lemma_type_parts(t);
        lemma_type_level_dsl_call_parts(*c);
    }
}

/// What `t` becomes when it is forced, and the first error met on the way. An application that
/// has no value, or whose arguments have none, becomes its result schema.
pub open spec fn forced<E: Evaluate>(ev: E, t: TypeView) -> (TypeView, Option<Seq<char>>)
    decreases t, dependencies(t).len() + 1,
{
    let (ts, error) = forced_first(ev, t, dependencies(t).len());
    match t {
        TypeView::TypeLevelDslCall(c) => match error {
            Some(e) => (c.result_schema, Some(e)),
            None => match ev.value(TypeLevelDslCallView { args: ts, ..*c }) {
                Ok(u) => (u, None),
                Err(e) => (c.result_schema, Some(e)),
            },
        },
        _ => if is_delayed(t) {
            (t, None)
        } else {
            (with_type(t, ts), error)
        },
    }
}

/// The first `n` dependencies of `t`, forced up to the first error and left alone after it.
pub open spec fn forced_first<E: Evaluate>(ev: E, t: TypeView, n: nat) -> (
    Seq<TypeView>,
    Option<Seq<char>>,
)
    decreases t, n,
{
    if n == 0 || n > dependencies(t).len() {
        (Seq::empty(), None)
    } else {
        proof {
            lemma_dependencies_smaller(t);
        }
        let (us, error) = forced_first(ev, t, (n - 1) as nat);
        match error {
            Some(e) => (us.push(dependencies(t)[n - 1]), Some(e)),
            None => {
                let (u, e) = forced(ev, dependencies(t)[n - 1]);
                (us.push(u), e)
            },
        }
    }
}

/// What `t` becomes at the boundary of a call, and the errors met: each outermost application
/// that is not inside a function or callable is forced, and gives one error at most.
pub open spec fn finalized<E: Evaluate>(ev: E, t: TypeView) -> (TypeView, Seq<Seq<char>>)
    decreases t, slots_type(t).len() + 1,
{
    if t is TypeLevelDslCall {
        let (u, error) = forced(ev, t);
        (
            u,
            match error {
                Some(e) => seq![e],
                None => Seq::empty(),
            },
        )
    } else if is_delayed(t) {
        (t, Seq::empty())
    } else {
        let (ts, errors) = finalized_first(ev, t, slots_type(t).len());
        (with_type(t, ts), errors)
    }
}

/// The effect of [`finalized`] on the first `n` slots of `t`.
pub open spec fn finalized_first<E: Evaluate>(ev: E, t: TypeView, n: nat) -> (
    Seq<TypeView>,
    Seq<Seq<char>>,
)
    decreases t, n,
{
    if n == 0 || n > slots_type(t).len() {
        (Seq::empty(), Seq::empty())
    } else {
        proof {
            lemma_type_smaller(t);
        }
        let (us, errors) = finalized_first(ev, t, (n - 1) as nat);
        let (u, more) = finalized(ev, slots_type(t)[n - 1]);
        (us.push(u), errors + more)
    }
}

/// Does an application stand in `t`, outside of any callable, function, bound method, overloaded
/// function and of anything generic?
pub open spec fn has_application(t: TypeView) -> bool
    decreases t,
{
    t is TypeLevelDslCall || (!(t is Callable || t is Function || t is BoundMethod || t is Overload
        || t is Forall) && exists|i: int|
        {
            proof {
                lemma_type_smaller(t);
            }
            if 0 <= i < slots_type(t).len() {
                has_application(#[trigger] slots_type(t)[i])
            } else {
                false
            }
        })
}

/// A type in which no application stands outside of callables, functions, bound methods, overloaded
/// functions and of what is generic is left as it is, without errors.
pub proof fn lemma_finalized_unchanged<E: Evaluate>(ev: E, t: TypeView)
    requires
        !has_application(t),
    ensures
        finalized(ev, t) == (t, Seq::<Seq<char>>::empty()),
    decreases t, slots_type(t).len() + 1,
{
    if !is_delayed(t) {
        lemma_first_unchanged(ev, t, slots_type(t).len());
        assert(slots_type(t).take(slots_type(t).len() as int) =~= slots_type(t));
        lemma_type_lens(t, slots_type(t), slots_type(t));
    }
}

proof fn lemma_first_unchanged<E: Evaluate>(ev: E, t: TypeView, n: nat)
    requires
        !has_application(t),
        !is_delayed(t),
        n <= slots_type(t).len(),
    ensures
        finalized_first(ev, t, n) == (slots_type(t).take(n as int), Seq::<Seq<char>>::empty()),
    decreases t, n,
{
    let m = slots_type(t);
    if n > 0 {
        lemma_type_smaller(t);
        lemma_first_unchanged(ev, t, (n - 1) as nat);
        assert(!has_application(m[n - 1]));
        lemma_finalized_unchanged(ev, m[n - 1]);
        assert(m.take(n as int) =~= m.take(n - 1).push(m[n - 1]));
        assert(Seq::<Seq<char>>::empty() + Seq::<Seq<char>>::empty() =~= Seq::<
            Seq<char>,
        >::empty());
    } else {
        assert(m.take(0) =~= Seq::empty());
    }
}

/// An application at the boundary either gives its value without an error, or becomes its result
/// schema with exactly one error, however many of its arguments have none.
pub proof fn lemma_finalized_application<E: Evaluate>(ev: E, c: TypeLevelDslCallView)
    ensures
        ({
            let (u, errors) = finalized(ev, TypeView::TypeLevelDslCall(Box::new(c)));
            errors.len() == 0 || (errors.len() == 1 && u == c.result_schema)
        }),
{
}

/// What is not an application and is not called later is finalized by finalizing what it holds, and
/// its errors are theirs, in order. Callables, functions, bound methods, overloaded functions and
/// what is generic are left as they are.
pub proof fn lemma_finalized_parts<E: Evaluate>(ev: E, t: TypeView)
    requires
        !(t is TypeLevelDslCall),
    ensures
        finalized(ev, t) == if t is Callable || t is Function || t is BoundMethod || t is Overload
            || t is Forall {
            (t, Seq::<Seq<char>>::empty())
        } else {
            (
                with_type(t, slots_type(t).map_values(|x: TypeView| finalized(ev, x).0)),
                slots_type(t).map_values(|x: TypeView| finalized(ev, x).1).flatten(),
            )
        },
{
    let n = slots_type(t).len();
    if !(t is Callable || t is Function || t is BoundMethod || t is Overload || t is Forall) {
        lemma_finalized_each(ev, slots_type(t), t, n);
        assert(slots_type(t).take(n as int) =~= slots_type(t));
    }
}

proof fn lemma_finalized_each<E: Evaluate>(ev: E, ts: Seq<TypeView>, t: TypeView, n: nat)
    requires
        ts == slots_type(t),
        n <= ts.len(),
    ensures
        finalized_first(ev, t, n).0 == ts.take(n as int).map_values(
            |x: TypeView| finalized(ev, x).0,
        ),
        finalized_first(ev, t, n).1 == ts.take(n as int).map_values(
            |x: TypeView| finalized(ev, x).1,
        ).flatten(),
    decreases n,
{
    let results = |x: TypeView| finalized(ev, x).0;
    let errors = |x: TypeView| finalized(ev, x).1;
    if n > 0 {
        let (head, x) = (ts.take(n - 1), ts[n - 1]);
        lemma_finalized_each(ev, ts, t, (n - 1) as nat);
        assert(ts.take(n as int) =~= head.push(x));
        assert(head.push(x).map_values(results) =~= head.map_values(results).push(results(x)));
        assert(head.push(x).map_values(errors) =~= head.map_values(errors).push(errors(x)));
        head.map_values(errors).lemma_flatten_push(errors(x));
    } else {
        assert(finalized_first(ev, t, n).0 =~= ts.take(0).map_values(results));
        assert(ts.take(0).map_values(errors) =~= Seq::empty());
    }
}

/// An application is finalized by finalizing its arguments. Where all of them have a value, the
/// application has the value that the shape function gives for these. Otherwise, and where the
/// shape function gives none, it becomes its result schema, and the first error is reported.
pub proof fn lemma_finalized_application_parts<E: Evaluate>(ev: E, c: TypeLevelDslCallView)
    ensures
        finalized(ev, TypeView::TypeLevelDslCall(Box::new(c))) == ({
            let args = c.args.map_values(|x: TypeView| finalized(ev, x).0);
            let errors = c.args.map_values(|x: TypeView| finalized(ev, x).1).flatten();
            if errors.len() > 0 {
                (c.result_schema, seq![errors[0]])
            } else {
                match ev.value(TypeLevelDslCallView { args, ..c }) {
                    Ok(u) => (u, Seq::empty()),
                    Err(e) => (c.result_schema, seq![e]),
                }
            }
        }),
{
    let t = TypeView::TypeLevelDslCall(Box::new(c));
    lemma_forced_each(ev, t, c.args.len());
    assert(c.args.take(c.args.len() as int) =~= c.args);
}

/// Forcing a type gives what finalizing it gives, up to the first error.
proof fn lemma_forced_finalized<E: Evaluate>(ev: E, t: TypeView)
    ensures
        match forced(ev, t).1 {
            Some(e) => finalized(ev, t).1.len() > 0 && finalized(ev, t).1[0] == e,
            None => finalized(ev, t) == (forced(ev, t).0, Seq::<Seq<char>>::empty()),
        },
    decreases t, dependencies(t).len() + 1,
{
    if !(t is TypeLevelDslCall) && !is_delayed(t) {
        let n = slots_type(t).len();
        lemma_forced_each(ev, t, n);
        lemma_finalized_each(ev, slots_type(t), t, n);
        assert(finalized_first(ev, t, n).1.len() == 0 ==> finalized_first(ev, t, n).1
            =~= Seq::empty());
    }
}

proof fn lemma_forced_each<E: Evaluate>(ev: E, t: TypeView, n: nat)
    requires
        n <= dependencies(t).len(),
    ensures
        ({
            let head = dependencies(t).take(n as int);
            let errors = head.map_values(|x: TypeView| finalized(ev, x).1).flatten();
            match forced_first(ev, t, n).1 {
                Some(e) => errors.len() > 0 && errors[0] == e,
                None => errors.len() == 0 && forced_first(ev, t, n).0 == head.map_values(
                    |x: TypeView| finalized(ev, x).0,
                ),
            }
        }),
    decreases t, n,
{
    let ts = dependencies(t);
    let results = |x: TypeView| finalized(ev, x).0;
    let errors = |x: TypeView| finalized(ev, x).1;
    if n > 0 {
        let (head, x) = (ts.take(n - 1), ts[n - 1]);
        lemma_dependencies_smaller(t);
        lemma_forced_each(ev, t, (n - 1) as nat);
        lemma_forced_finalized(ev, x);
        assert(ts.take(n as int) =~= head.push(x));
        assert(head.push(x).map_values(results) =~= head.map_values(results).push(results(x)));
        assert(head.push(x).map_values(errors) =~= head.map_values(errors).push(errors(x)));
        head.map_values(errors).lemma_flatten_push(errors(x));
    } else {
        assert(forced_first(ev, t, n).0 =~= ts.take(0).map_values(results));
        assert(ts.take(0).map_values(errors) =~= Seq::empty());
    }
}

/// Has every outermost application in `t` a result schema without applications?
pub open spec fn schemas_closed(t: TypeView) -> bool
    decreases t,
{
    match t {
        TypeView::TypeLevelDslCall(c) => !has_application(c.result_schema),
        _ => forall|i: int|
            {
                proof {
                    lemma_type_smaller(t);
                }
                if 0 <= i < slots_type(t).len() {
                    schemas_closed(#[trigger] slots_type(t)[i])
                } else {
                    true
                }
            },
    }
}

/// Once a type is finalized no application is left in it outside of callables, functions, bound
/// methods, overloaded functions and of what is generic, provided that neither the values nor the
/// result schemas of applications hold any.
pub proof fn lemma_finalized_leaves_none<E: Evaluate>(ev: E, t: TypeView)
    requires
        forall|c: TypeLevelDslCallView|
            (#[trigger] ev.value(c)) matches Ok(u) ==> !has_application(u),
        schemas_closed(t),
    ensures
        !has_application(finalized(ev, t).0),
    decreases t,
{
    if let TypeView::TypeLevelDslCall(c) = t {
        lemma_finalized_application_parts(ev, *c);
    } else {
        lemma_finalized_parts(ev, t);
        let ts = slots_type(t).map_values(|x: TypeView| finalized(ev, x).0);
        let r = with_type(t, ts);
        lemma_type_lens(t, ts, ts);
        reveal(with_type);
        assert forall|i: int| 0 <= i < ts.len() implies !has_application(
            #[trigger] slots_type(r)[i],
        ) by {
            lemma_type_smaller(t);
            assert(schemas_closed(slots_type(t)[i]));
            lemma_finalized_leaves_none(ev, slots_type(t)[i]);
        }
    }
}

/// A table of shape applications with their values.
pub struct ShapeTable {
    pub entries: Vec<(TypeLevelDslCall, Type)>,
}

/// The value that the first `n` entries give for an application: that of the first equal one. An
/// application that is not among them is an error, which names its function.
pub open spec fn table_value(
    entries: Seq<(TypeLevelDslCall, Type)>,
    call: TypeLevelDslCallView,
    n: nat,
) -> Result<TypeView, Seq<char>>
    decreases entries.len() - n,
{
    if n >= entries.len() {
        Err(call.function)
    } else if same_type_level_dsl_call(entries[n as int].0@, call) {
        Ok(entries[n as int].1@)
    } else {
        table_value(entries, call, n + 1)
    }
}

/// A table gives the type of the first entry that is equal to the application, and an error that
/// names the function where there is none.
pub proof fn lemma_table_value(
    entries: Seq<(TypeLevelDslCall, Type)>,
    call: TypeLevelDslCallView,
    n: nat,
)
    requires
        n <= entries.len(),
    ensures
        match table_value(entries, call, n) {
            Ok(u) => exists|i: int|
                n <= i < entries.len() && same_type_level_dsl_call(
                    (#[trigger] entries[i]).0@,
                    call,
                ) && u == entries[i].1@ && forall|j: int|
                    n <= j < i ==> !same_type_level_dsl_call((#[trigger] entries[j]).0@, call),
            Err(e) => e == call.function && forall|j: int|
                n <= j < entries.len() ==> !same_type_level_dsl_call(
                    (#[trigger] entries[j]).0@,
                    call,
                ),
        },
    decreases entries.len() - n,
{
    if n < entries.len() && !same_type_level_dsl_call(entries[n as int].0@, call) {
        lemma_table_value(entries, call, n + 1);
    }
}

impl Evaluate for ShapeTable {
    open spec fn value(&self, call: TypeLevelDslCallView) -> Result<TypeView, Seq<char>> {
        table_value(self.entries@, call, 0)
    }

    fn evaluate(&self, call: &TypeLevelDslCall) -> (r: Evaluated) {
        for i in 0..self.entries.len()
            invariant
                self.value(call@) == table_value(self.entries@, call@, i as nat),
        {
            if self.entries[i].0 == *call {
                return Ok(self.entries[i].1.clone());
            }
        }
        proof {
            lemma_type_level_dsl_call_view(*call);
        }
        Err(ShapeError { message: call.function.clone() })
    }
}

impl TypeLevelDslCall {
    /// The type that stands for the application where it has no value.
    pub fn fallback(&self) -> (r: Type)
        ensures
            r@ == self@.result_schema,
    {
        proof {
            lemma_type_level_dsl_call_view(*self);
        }
        self.result_schema.clone()
    }
}

/// The model of an outcome.
spec fn view_outcome(r: Result<(), ShapeError>) -> Option<Seq<char>> {
    match r {
        Ok(_) => None,
        Err(e) => Some(e@),
    }
}

fn delayed(ty: &Type) -> (r: bool)
    ensures
        r == is_delayed(ty@),
{
    proof {
        lemma_type_view(*ty);
    }
    matches!(
        ty,
        Type::Callable(_) | Type::Function(_) | Type::BoundMethod(_) | Type::Overload(_)
            | Type::Forall(_)
    )
}

/// Forces each of `ts`, the dependencies of a type, up to the first error.
fn force_each<E: Evaluate>(ts: &mut Vec<Type>, ev: &E, Ghost(t): Ghost<TypeView>) -> (r: Result<
    (),
    ShapeError,
>)
    requires
        view_types(old(ts)@) == dependencies(t),
    ensures
        (view_types(final(ts)@), view_outcome(r)) == forced_first(*ev, t, dependencies(t).len()),
    decreases t, 0nat,
{
    let ghost m = dependencies(t);
    let n = ts.len();
    assert(view_types(ts@).len() == n);
    let mut error: Option<ShapeError> = None;
    for i in 0..n
        invariant
            m == dependencies(t),
            n == m.len(),
            ts@.len() == n,
            forced_first(*ev, t, i as nat).0.len() == i,
            forced_first(*ev, t, i as nat).1 == (match error {
                Some(e) => Some(e@),
                None => None,
            }),
            view_types(ts@) =~= forced_first(*ev, t, i as nat).0 + m.skip(i as int),
        decreases n - i,
    {
        let ghost v = ts@;
        proof {
            lemma_dependencies_smaller(t);
            assert(view_types(v)[i as int] == m[i as int]);
            assert(m.skip(i as int).skip(1) =~= m.skip(i + 1));
        }
        if error.is_none() {
            match force_nested(&mut ts[i], ev) {
                Ok(_) => {},
                Err(e) => {
                    error = Some(e);
                },
            }
        }
        proof {
            lemma_types_update(v, i as int, ts@[i as int]);
            assert(ts@ =~= v.update(i as int, ts@[i as int]));
        }
    }
    assert(view_types(ts@) =~= forced_first(*ev, t, n as nat).0);
    match error {
        Some(e) => Err(e),
        None => Ok(()),
    }
}

/// Forces a dependency of the application at the boundary. The first invalid dependency is
/// handed up, so that the fallback is applied at the boundary alone.
fn force_nested<E: Evaluate>(ty: &mut Type, ev: &E) -> (r: Result<(), ShapeError>)
    ensures
        (final(ty)@, view_outcome(r)) == forced(*ev, old(ty)@),
    decreases old(ty)@, 1nat,
{
    broadcast use {lemma_type_view, lemma_type_level_dsl_call_view};

    let ghost t = ty@;
    if let Type::TypeLevelDslCall(call) = ty {
        match force_each(&mut call.args, ev, Ghost(t)) {
            Err(error) => {
                let fallback = call.fallback();
                *ty = fallback;
                Err(error)
            },
            Ok(_) => match ev.evaluate(&**call) {
                Ok(result) => {
                    *ty = result;
                    Ok(())
                },
                Err(error) => {
                    let fallback = call.fallback();
                    *ty = fallback;
                    Err(error)
                },
            },
        }
    } else if delayed(&*ty) {
        Ok(())
    } else {
        let mut ts: Vec<Type> = Vec::new();
        ty.take_slots(&mut ts);
        let ghost blank = ty@;
        assert(view_types(ts@) =~= dependencies(t));
        let outcome = force_each(&mut ts, ev, Ghost(t));
        proof {
            lemma_first_len(*ev, t, dependencies(t).len());
            assert(back(view_types(ts@), ts@.len()) =~= view_types(ts@));
            assert(view_types(ts@).len() == ts@.len());
            assert(kept_type(t, blank));
        }
        ty.put_slots(&mut ts);
        outcome
    }
}

proof fn lemma_first_len<E: Evaluate>(ev: E, t: TypeView, n: nat)
    requires
        n <= dependencies(t).len(),
    ensures
        forced_first(ev, t, n).0.len() == n,
    decreases n,
{
    if n > 0 {
        lemma_first_len(ev, t, (n - 1) as nat);
    }
}

/// The texts of errors.
pub open spec fn view_errors(s: Seq<ShapeError>) -> Seq<Seq<char>> {
    Seq::new(s.len(), |i: int| s[i]@)
}

fn collect_errors<E: Evaluate>(ty: &mut Type, ev: &E, errors: &mut Vec<ShapeError>)
    ensures
        final(ty)@ == finalized(*ev, old(ty)@).0,
        view_errors(final(errors)@) == view_errors(old(errors)@) + finalized(*ev, old(ty)@).1,
    decreases old(ty)@,
{
    let ghost t = ty@;
    let ghost before = view_errors(errors@);
    proof {
        lemma_type_view(*ty);
    }
    if matches!(&*ty, Type::TypeLevelDslCall(_)) {
        match force_nested(ty, ev) {
            Ok(_) => {},
            Err(error) => errors.push(error),
        }
        assert(view_errors(errors@) =~= before + finalized(*ev, t).1);
        return ;
    }
    if delayed(&*ty) {
        assert(view_errors(errors@) =~= before + finalized(*ev, t).1);
        return ;
    }
    let ghost m = slots_type(t);
    let mut ts: Vec<Type> = Vec::new();
    ty.take_slots(&mut ts);
    let ghost blank = ty@;
    assert(view_types(ts@) =~= m);
    let n = ts.len();
    assert(view_errors(errors@) =~= before + finalized_first(*ev, t, 0).1);
    for i in 0..n
        invariant
            t == old(ty)@,
            m == slots_type(t),
            n == m.len(),
            ts@.len() == n,
            finalized_first(*ev, t, i as nat).0.len() == i,
            view_errors(errors@) == before + finalized_first(*ev, t, i as nat).1,
            view_types(ts@) =~= finalized_first(*ev, t, i as nat).0 + m.skip(i as int),
        decreases n - i,
    {
        let ghost v = ts@;
        let ghost (a, b) = (finalized_first(*ev, t, i as nat).1, finalized(*ev, m[i as int]).1);
        proof {
            lemma_type_smaller(t);
            assert(view_types(v)[i as int] == m[i as int]);
        }
        collect_errors(&mut ts[i], ev, errors);
        proof {
            lemma_types_update(v, i as int, ts@[i as int]);
            assert(ts@ =~= v.update(i as int, ts@[i as int]));
            assert(m.skip(i as int).skip(1) =~= m.skip(i + 1));
            assert((before + a) + b =~= before + (a + b));
        }
    }
    proof {
        assert(view_types(ts@) =~= finalized_first(*ev, t, n as nat).0);
        assert(back(view_types(ts@), n as nat) =~= view_types(ts@));
        assert(kept_type(t, blank));
    }
    ty.put_slots(&mut ts);
}

impl Type {
    /// Forces the shape applications in the type, as the type of what a call returns, and gives
    /// the errors met.
    pub fn finalize_type_level_dsl_at_boundary<E: Evaluate>(&mut self, evaluator: &E) -> (r: Vec<
        ShapeError,
    >)
        ensures
            (final(self)@, view_errors(r@)) == finalized(*evaluator, old(self)@),
    {
        let mut errors: Vec<ShapeError> = Vec::new();
        collect_errors(self, evaluator, &mut errors);
        assert(view_errors(errors@) =~= finalized(*evaluator, old(self)@).1);
        errors
    }
}

} // verus!
