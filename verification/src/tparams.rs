//! Type parameters.
use std::sync::Arc;

use vstd::prelude::*;
use vstd::string::StringExecFns;

use crate::data::{ClassType, Quantified, Restriction, TArgs, TParams, Type};
use crate::names::{Name, QuantifiedIdentity};
use crate::rewrite::{
    everywhere, everywhere_inside, lemma_bottom_up_everywhere, lemma_bottom_up_fixed,
};
use crate::slots::{
    slots_class_type, slots_targs, slots_type, with_class_type, with_targs, with_type,
};
use crate::styles::{AnyStyle, PreInferenceVariance, QuantifiedKind};
use crate::transform::{bottom_up, lemma_bottom_up_parts, lemma_walk_pure, Update};
use crate::variables::view_quantified_refs;
use crate::view::{
    lemma_class_type_view, lemma_quantified_view, lemma_quantifieds_push, lemma_restriction_view,
    lemma_targs_view, lemma_tparams_view, lemma_type_view, lemma_types_push, view_quantifieds,
    view_types, ClassTypeView, QuantifiedView, RestrictionView, TArgsView, TupleView, TypeView,
};

verus! {

/// The model of a type that may be missing.
pub open spec fn view_default(t: Option<Type>) -> Option<TypeView> {
    match t {
        Some(t) => Some(t@),
        None => None,
    }
}

/// The type that stands for a type parameter where none is given: its default, or the most
/// permissive type of its kind.
pub open spec fn gradual_type(q: QuantifiedView) -> TypeView {
    match q.default {
        Some(t) => t,
        None => match q.kind {
            QuantifiedKind::TypeVar => TypeView::Any(AnyStyle::Implicit),
            QuantifiedKind::ParamSpec => TypeView::Ellipsis,
            QuantifiedKind::TypeVarTuple => TypeView::Tuple(
                TupleView::Unbounded(Box::new(TypeView::Any(AnyStyle::Implicit))),
            ),
        },
    }
}

impl Restriction {
    /// Is not every type accepted?
    pub fn is_restricted(&self) -> (r: bool)
        ensures
            r == !(self@ is Unrestricted),
    {
        proof {
            lemma_restriction_view(*self);
        }
        !matches!(self, Restriction::Unrestricted)
    }
}

impl Quantified {
    pub fn new(
        identity: QuantifiedIdentity,
        name: Name,
        kind: QuantifiedKind,
        default: Option<Type>,
        restriction: Restriction,
        variance: PreInferenceVariance,
    ) -> (r: Quantified)
        ensures
            r@ == (QuantifiedView {
                identity: identity@,
                name: name@,
                kind,
                default: view_default(default),
                restriction: restriction@,
                variance,
            }),
    {
        broadcast use lemma_quantified_view;

        Quantified { identity, name, kind, default, restriction, variance }
    }

    pub fn restriction(&self) -> (r: &Restriction)
        ensures
            r@ == self@.restriction,
    {
        proof {
            lemma_quantified_view(*self);
        }
        &self.restriction
    }

    pub fn default(&self) -> (r: Option<&Type>)
        ensures
            match r {
                Some(t) => self@.default == Some(t@),
                None => self@.default is None,
            },
    {
        proof {
            lemma_quantified_view(*self);
        }
        self.default.as_ref()
    }

    pub fn is_type_var(&self) -> (r: bool)
        ensures
            r == (self@.kind is TypeVar),
    {
        proof {
            lemma_quantified_view(*self);
        }
        matches!(self.kind, QuantifiedKind::TypeVar)
    }

    pub fn is_param_spec(&self) -> (r: bool)
        ensures
            r == (self@.kind is ParamSpec),
    {
        proof {
            lemma_quantified_view(*self);
        }
        matches!(self.kind, QuantifiedKind::ParamSpec)
    }

    pub fn is_type_var_tuple(&self) -> (r: bool)
        ensures
            r == (self@.kind is TypeVarTuple),
    {
        proof {
            lemma_quantified_view(*self);
        }
        matches!(self.kind, QuantifiedKind::TypeVarTuple)
    }

    /// The type parameter with another restriction.
    pub fn with_restriction(self, restriction: Restriction) -> (r: Quantified)
        ensures
            r@ == (QuantifiedView { restriction: restriction@, ..self@ }),
    {
        broadcast use lemma_quantified_view;

        let mut q = self;
        q.restriction = restriction;
        q
    }

    /// The type that stands for the type parameter where none is given.
    pub fn as_gradual_type(&self) -> (r: Type)
        ensures
            r@ == gradual_type(self@),
    {
        proof {
            lemma_quantified_view(*self);
        }
        match &self.default {
            Some(t) => t.clone(),
            None => match self.kind {
                QuantifiedKind::TypeVar => Type::any_implicit(),
                QuantifiedKind::ParamSpec => Type::ellipsis(),
                QuantifiedKind::TypeVarTuple => Type::any_tuple(),
            },
        }
    }
}

/// Does any of the type parameters not accept every type?
pub open spec fn have_restrictions(ps: Seq<QuantifiedView>) -> bool {
    exists|i: int| 0 <= i < ps.len() && !((#[trigger] ps[i]).restriction is Unrestricted)
}

/// Is the type a class with type arguments for restricted type parameters?
pub open spec fn is_recursive_class(t: TypeView) -> bool {
    t matches TypeView::ClassType(c) && c.targs.args.len() > 0 && have_restrictions(
        c.targs.tparams,
    )
}

/// Type arguments for no type parameters.
pub open spec fn no_targs() -> TArgsView {
    TArgsView { tparams: Seq::empty(), args: Seq::empty() }
}

/// The class without its type arguments, if they are for restricted type parameters.
pub open spec fn unnested_at(t: TypeView) -> TypeView {
    match t {
        TypeView::ClassType(c) => if is_recursive_class(t) {
            TypeView::ClassType(ClassTypeView { targs: no_targs(), ..c })
        } else {
            t
        },
        _ => t,
    }
}

/// `t` with the type arguments for restricted type parameters dropped.
pub open spec fn unnested(t: TypeView) -> TypeView {
    bottom_up(t, |x: TypeView| unnested_at(x))
}

/// A type parameter with such type arguments dropped from its restriction.
pub open spec fn unnested_quantified(q: QuantifiedView) -> QuantifiedView {
    QuantifiedView {
        restriction: match q.restriction {
            RestrictionView::Bound(t) => RestrictionView::Bound(unnested(t)),
            RestrictionView::Constraints(ts) => RestrictionView::Constraints(
                ts.map_values(|t: TypeView| unnested(t)),
            ),
            RestrictionView::Unrestricted => RestrictionView::Unrestricted,
        },
        ..q
    }
}

/// A class with type arguments loses them if one of the type parameters that they are for is
/// restricted. Any other type changes only in what it holds, whatever kind of type it is.
pub proof fn lemma_unnested_parts(t: TypeView)
    ensures
        unnested(t) == if t is ClassType && t->ClassType_0.targs.args.len() > 0 && exists|i: int|
            0 <= i < t->ClassType_0.targs.tparams.len() && !((
            #[trigger] t->ClassType_0.targs.tparams[i]).restriction is Unrestricted) {
            TypeView::ClassType(
                ClassTypeView {
                    class: t->ClassType_0.class,
                    targs: TArgsView { tparams: Seq::empty(), args: Seq::empty() },
                },
            )
        } else {
            with_type(t, slots_type(t).map_values(|x: TypeView| unnested(x)))
        },
{
    let g = |x: TypeView| unnested_at(x);
    lemma_bottom_up_parts(t, g);
    let ts = slots_type(t).map_values(|x: TypeView| bottom_up(x, g));
    assert(ts =~= slots_type(t).map_values(|x: TypeView| unnested(x)));
    reveal(slots_type);
    reveal(with_type);
    reveal(slots_class_type);
    reveal(with_class_type);
    reveal(slots_targs);
    reveal(with_targs);
}

/// Truncation changes nothing of a type parameter but its restriction; a bound stays a bound, and
/// there are as many constraints as before.
pub proof fn lemma_unnested_restriction(q: QuantifiedView)
    ensures
        unnested_quantified(q) == (QuantifiedView {
            identity: q.identity,
            name: q.name,
            kind: q.kind,
            default: q.default,
            restriction: if q.restriction is Bound {
                RestrictionView::Bound(unnested(q.restriction->Bound_0))
            } else if q.restriction is Constraints {
                RestrictionView::Constraints(
                    q.restriction->Constraints_0.map_values(|t: TypeView| unnested(t)),
                )
            } else {
                RestrictionView::Unrestricted
            },
            variance: q.variance,
        }),
{
}

/// What stands for a type parameter where none is given: the default if it has one; otherwise `Any`
/// for a type variable, `...` for a parameter specification, and a tuple of any number of `Any` for
/// a type variable tuple.
pub proof fn lemma_gradual_type(q: QuantifiedView)
    ensures
        q.default is Some ==> Some(gradual_type(q)) == q.default,
        q.default is None && q.kind is TypeVar ==> gradual_type(q) == TypeView::Any(
            AnyStyle::Implicit,
        ),
        q.default is None && q.kind is ParamSpec ==> gradual_type(q) == TypeView::Ellipsis,
        q.default is None && q.kind is TypeVarTuple ==> gradual_type(q) == TypeView::Tuple(
            TupleView::Unbounded(Box::new(TypeView::Any(AnyStyle::Implicit))),
        ),
{
}

/// After truncation no class in a restriction has type arguments for restricted type parameters.
pub proof fn lemma_unnested_everywhere(t: TypeView)
    ensures
        everywhere(unnested(t), |x: TypeView| !is_recursive_class(x)),
{
    let g = |x: TypeView| unnested_at(x);
    let p = |x: TypeView| !is_recursive_class(x);
    assert forall|x: TypeView| everywhere_inside(x, p) implies everywhere(#[trigger] g(x), p) by {
        if is_recursive_class(x) {
            reveal(slots_type);
            reveal(slots_class_type);
            reveal(slots_targs);
            assert(slots_type(g(x)).len() == 0);
        }
    }
    lemma_bottom_up_everywhere(t, g, p);
}

/// Truncating a second time changes nothing.
pub proof fn lemma_unnested_twice(q: QuantifiedView)
    ensures
        unnested_quantified(unnested_quantified(q)) == unnested_quantified(q),
{
    match q.restriction {
        RestrictionView::Bound(t) => {
            lemma_unnested_again(t);
        },
        RestrictionView::Constraints(ts) => {
            let us = ts.map_values(|t: TypeView| unnested(t));
            let vs = us.map_values(|t: TypeView| unnested(t));
            assert forall|i: int| 0 <= i < us.len() implies vs[i] == us[i] by {
                lemma_unnested_again(ts[i]);
            }
            assert(vs =~= us);
        },
        RestrictionView::Unrestricted => {},
    }
}

proof fn lemma_unnested_again(t: TypeView)
    ensures
        unnested(unnested(t)) == unnested(t),
{
    let g = |x: TypeView| unnested_at(x);
    let p = |x: TypeView| g(x) == x;
    assert forall|x: TypeView| everywhere_inside(x, p) implies everywhere(#[trigger] g(x), p) by {
        if is_recursive_class(x) {
            reveal(slots_type);
            reveal(slots_class_type);
            reveal(slots_targs);
            assert(slots_type(g(x)).len() == 0);
        }
    }
    lemma_bottom_up_everywhere(t, g, p);
    lemma_bottom_up_fixed(unnested(t), g);
}

struct Unnest {}

impl Update for Unnest {
    type State = ();

    open spec fn state(&self) -> () {
        ()
    }

    open spec fn step(s: (), t: TypeView) -> ((), TypeView) {
        ((), unnested_at(t))
    }

    fn call(&mut self, t: &mut Type) {
        broadcast use {lemma_type_view, lemma_class_type_view, lemma_targs_view};

        if let Type::ClassType(ct) = t {
            if ct.targs.args.len() > 0 && TParams::tparams_have_restrictions(&*ct.targs.tparams) {
                ct.targs = TArgs::default();
            }
        }
    }
}

impl Default for TArgs {
    fn default() -> (r: Self)
        ensures
            r@ == no_targs(),
    {
        broadcast use lemma_targs_view;

        let args: Vec<Type> = Vec::new();
        assert(view_types(args@) =~= Seq::empty());
        TArgs { tparams: Arc::new(TParams::empty()), args }
    }
}

impl Default for TParams {
    fn default() -> (r: Self)
        ensures
            r@ == Seq::<QuantifiedView>::empty(),
    {
        TParams::empty()
    }
}

/// The first `n` texts, with a comma between each and the next.
pub open spec fn commas(texts: Seq<String>, n: nat) -> Seq<char>
    decreases n,
{
    if n == 0 {
        Seq::empty()
    } else if n == 1 {
        texts[0]@
    } else {
        commas(texts, (n - 1) as nat) + ", "@ + texts[n - 1]@
    }
}

/// The first text stands as it is, and each of the others after a comma and a space.
pub proof fn lemma_commas(texts: Seq<String>, n: nat)
    requires
        0 < n <= texts.len(),
    ensures
        commas(texts, n) == texts[0]@ + Seq::new(
            (n - 1) as nat,
            |i: int| ", "@ + texts[i + 1]@,
        ).flatten(),
    decreases n,
{
    let f = |i: int| ", "@ + texts[i + 1]@;
    if n == 1 {
        assert(Seq::new(0, f) =~= Seq::empty());
        assert(texts[0]@ + Seq::<Seq<char>>::empty().flatten() =~= texts[0]@);
    } else {
        lemma_commas(texts, (n - 1) as nat);
        let head = Seq::new((n - 2) as nat, f);
        assert(Seq::new((n - 1) as nat, f) =~= head.push(", "@ + texts[n - 1]@));
        head.lemma_flatten_push(", "@ + texts[n - 1]@);
        assert(commas(texts, n) =~= texts[0]@ + (head.flatten() + (", "@ + texts[n - 1]@)));
    }
}

impl TParams {
    /// The type parameters as they are displayed, given what each is displayed as.
    pub fn text(&self, texts: &Vec<String>) -> (r: String)
        requires
            texts@.len() == self@.len(),
        ensures
            r@ == "["@ + commas(texts@, texts@.len()) + "]"@,
    {
        let mut r = "[".to_owned();
        assert(r@ =~= "["@ + commas(texts@, 0));
        for i in 0..texts.len()
            invariant
                r@ == "["@ + commas(texts@, i as nat),
        {
            if i > 0 {
                r.append(", ");
            }
            r.append(texts[i].as_str());
            assert(r@ =~= "["@ + commas(texts@, i as nat + 1));
        }
        r.append("]");
        r
    }

    pub fn new(tparams: Vec<Quantified>) -> (r: TParams)
        ensures
            r@ == view_quantifieds(tparams@),
    {
        broadcast use lemma_tparams_view;

        TParams { params: tparams }
    }

    pub fn empty() -> (r: TParams)
        ensures
            r@ == Seq::<QuantifiedView>::empty(),
    {
        broadcast use lemma_tparams_view;

        let params: Vec<Quantified> = Vec::new();
        assert(view_quantifieds(params@) =~= Seq::<QuantifiedView>::empty());
        TParams { params }
    }

    pub fn len(&self) -> (r: usize)
        ensures
            r == self@.len(),
    {
        proof {
            lemma_tparams_view(*self);
        }
        self.params.len()
    }

    pub fn is_empty(&self) -> (r: bool)
        ensures
            r == (self@.len() == 0),
    {
        proof {
            lemma_tparams_view(*self);
        }
        self.params.len() == 0
    }

    /// The type parameters, in order.
    pub fn iter(&self) -> (r: Vec<&Quantified>)
        ensures
            view_quantified_refs(r@) == self@,
    {
        proof {
            lemma_tparams_view(*self);
        }
        let mut r: Vec<&Quantified> = Vec::new();
        for i in 0..self.params.len()
            invariant
                r@.len() == i,
                forall|j: int| 0 <= j < i ==> *#[trigger] r@[j] == self.params@[j],
        {
            r.push(&self.params[i]);
        }
        assert(view_quantified_refs(r@) =~= view_quantifieds(self.params@));
        r
    }

    pub fn as_vec(&self) -> (r: &[Quantified])
        ensures
            view_quantifieds(r@) == self@,
    {
        proof {
            lemma_tparams_view(*self);
        }
        self.params.as_slice()
    }

    /// Adds the type parameters of `other` after those that are there.
    pub fn extend(&mut self, other: &TParams)
        ensures
            final(self)@ == old(self)@ + other@,
    {
        broadcast use lemma_tparams_view;

        let ghost before = self@;
        let ghost s = other@;
        assert(view_quantifieds(self.params@) =~= before + s.take(0));
        for i in 0..other.params.len()
            invariant
                s == view_quantifieds(other.params@),
                view_quantifieds(self.params@) == before + s.take(i as int),
        {
            let ghost v = self.params@;
            let q = other.params[i].clone();
            self.params.push(q);
            proof {
                lemma_quantifieds_push(v, q);
                assert(s.take(i + 1) =~= s.take(i as int).push(s[i as int]));
                assert(view_quantifieds(self.params@) =~= before + s.take(i + 1));
            }
        }
        assert(s.take(s.len() as int) =~= s);
    }

    /// Truncates recursive nesting of type arguments in the restrictions of type parameters.
    ///
    /// While types are solved by iteration, type parameters can grow without bound when classes
    /// reference each other in the bounds of their type parameters. Each iteration embeds the
    /// type parameters of the one before one level deeper. So a class in a restriction whose
    /// type arguments are for restricted type parameters loses its type arguments. Type
    /// arguments for unrestricted type parameters are kept.
    pub fn truncate_recursive_targs(self) -> (r: Self)
        ensures
            r@ == self@.map_values(|q: QuantifiedView| unnested_quantified(q)),
    {
        broadcast use lemma_tparams_view;

        let ghost s = self@;
        let ghost all = s.map_values(|q: QuantifiedView| unnested_quantified(q));
        let mut params: Vec<Quantified> = Vec::new();
        assert(view_quantifieds(params@) =~= all.take(0));
        for i in 0..self.params.len()
            invariant
                s == view_quantifieds(self.params@),
                all == s.map_values(|q: QuantifiedView| unnested_quantified(q)),
                view_quantifieds(params@) == all.take(i as int),
        {
            let ghost v = params@;
            let q = Self::truncate_quantified(&self.params[i]);
            params.push(q);
            proof {
                lemma_quantifieds_push(v, q);
                assert(all.take(i + 1) =~= all.take(i as int).push(all[i as int]));
            }
        }
        assert(all.take(all.len() as int) =~= all);
        TParams { params }
    }

    fn truncate_quantified(q: &Quantified) -> (r: Quantified)
        ensures
            r@ == unnested_quantified(q@),
    {
        broadcast use lemma_restriction_view;

        let restriction = match q.restriction() {
            Restriction::Bound(ty) => Restriction::Bound(
                Self::strip_recursive_class_targs(ty.clone()),
            ),
            Restriction::Constraints(tys) => {
                let ghost s = view_types(tys@);
                let ghost all = s.map_values(|t: TypeView| unnested(t));
                let mut stripped: Vec<Type> = Vec::new();
                assert(view_types(stripped@) =~= all.take(0));
                for i in 0..tys.len()
                    invariant
                        s == view_types(tys@),
                        all == s.map_values(|t: TypeView| unnested(t)),
                        view_types(stripped@) == all.take(i as int),
                {
                    let ghost v = stripped@;
                    let ty = Self::strip_recursive_class_targs(tys[i].clone());
                    stripped.push(ty);
                    proof {
                        lemma_types_push(v, ty);
                        assert(all.take(i + 1) =~= all.take(i as int).push(all[i as int]));
                    }
                }
                assert(all.take(all.len() as int) =~= all);
                Restriction::Constraints(stripped)
            },
            Restriction::Unrestricted => Restriction::Unrestricted,
        };
        q.clone().with_restriction(restriction)
    }

    /// Drops the type arguments of the classes in a type that are for restricted type
    /// parameters. Such type parameters can take part in recursive nesting.
    fn strip_recursive_class_targs(ty: Type) -> (r: Type)
        ensures
            r@ == unnested(ty@),
    {
        proof {
            lemma_walk_pure::<Unnest>((), ty@, |x: TypeView| unnested_at(x));
        }
        ty.transform(&mut Unnest {  })
    }

    /// Does any of the type parameters not accept every type?
    fn tparams_have_restrictions(tparams: &TParams) -> (r: bool)
        ensures
            r == have_restrictions(tparams@),
    {
        broadcast use lemma_tparams_view;

        let ghost ps = tparams@;
        for i in 0..tparams.params.len()
            invariant
                ps == tparams@,
                ps == view_quantifieds(tparams.params@),
                forall|j: int|
                    0 <= j < i ==> (#[trigger] ps[j]).restriction is Unrestricted,
        {
            assert(ps[i as int] == tparams.params@[i as int]@);
            if tparams.params[i].restriction().is_restricted() {
                return true;
            }
        }
        false
    }
}

} // verus!
