//! Type arguments.
use std::sync::Arc;

use vstd::prelude::*;

use crate::data::{Quantified, TArgs, TParams, Type, TypeAliasData};
use crate::outside::share;
use crate::same::same_type;
use crate::slots::slots_targs;
use crate::subst::{
    lemma_paired, lemma_substituted_once, paired, substituted, QuantifiedMap, Substitution,
};
use crate::tokens::{tokens_quantified, Token};
use crate::tparams::gradual_type;
use crate::view::{
    lemma_targs_view, lemma_tparams_view, lemma_type_alias_data_view, lemma_type_alias_ref_view,
    lemma_type_view, lemma_types_push, lemma_types_update, view_types, QuantifiedView, TArgsView,
    TypeAliasDataView, TypeAliasRefView, TypeView,
};
use crate::visit::{view_refs, visit_targs};

verus! {

impl TArgsView {
    /// Is there one type argument for each type parameter?
    pub open spec fn wf(self) -> bool {
        self.tparams.len() == self.args.len()
    }

    /// How many type parameters have a type argument.
    pub open spec fn pairs(self) -> nat {
        if self.tparams.len() <= self.args.len() {
            self.tparams.len()
        } else {
            self.args.len()
        }
    }

    /// The substitution of the type arguments for the type parameters.
    pub open spec fn substitution(self) -> Map<Seq<Token>, TypeView> {
        paired(self.tparams, self.args, self.pairs())
    }
}

/// Is the type argument displayed for its own sake: is it not the default of its type parameter?
pub open spec fn is_displayed(q: QuantifiedView, arg: TypeView) -> bool {
    q.default is None || !same_type(arg, gradual_type(q))
}

/// One more than the position of the last of the first `n` type arguments that is displayed for
/// its own sake.
pub open spec fn display_count_of(ps: Seq<QuantifiedView>, args: Seq<TypeView>, n: nat) -> nat
    decreases n,
{
    if n == 0 {
        0
    } else if is_displayed(ps[n - 1], args[n - 1]) {
        n
    } else {
        display_count_of(ps, args, (n - 1) as nat)
    }
}

/// A type argument is displayed for its own sake just if its type parameter has no default, or the
/// default is not equal to it.
pub proof fn lemma_displayed(q: QuantifiedView, arg: TypeView)
    ensures
        q.default is None ==> is_displayed(q, arg),
        q.default is Some ==> is_displayed(q, arg) == !same_type(arg, q.default->Some_0),
{
}

/// The type arguments are displayed up to the last that is displayed for its own sake: all after it
/// are equal to the defaults of their type parameters, and it is not.
pub proof fn lemma_display_count_defaults(
    ps: Seq<QuantifiedView>,
    args: Seq<TypeView>,
    n: nat,
    k: nat,
)
    requires
        k <= n,
    ensures
        (display_count_of(ps, args, n) == k) == ((k > 0 ==> !(ps[k - 1].default is Some
            && same_type(args[k - 1], ps[k - 1].default->Some_0))) && forall|i: int|
            k <= i < n ==> (#[trigger] ps[i]).default is Some && same_type(
                args[i],
                ps[i].default->Some_0,
            )),
    decreases n,
{
    if n > 0 {
        let q = ps[n - 1];
        lemma_display_count(ps, args, (n - 1) as nat);
        lemma_displayed(q, args[n - 1]);
        if k < n {
            lemma_display_count_defaults(ps, args, (n - 1) as nat, k);
            if is_displayed(q, args[n - 1]) {
                assert(!(ps[n - 1].default is Some && same_type(
                    args[n - 1],
                    ps[n - 1].default->Some_0,
                )));
            }
        }
    }
}

/// All type arguments that are not displayed are the defaults of their type parameters, and the
/// last one that is displayed is not.
pub proof fn lemma_display_count(ps: Seq<QuantifiedView>, args: Seq<TypeView>, n: nat)
    ensures
        display_count_of(ps, args, n) <= n,
        forall|i: int|
            display_count_of(ps, args, n) <= i < n ==> !is_displayed(
                #[trigger] ps[i],
                args[i],
            ),
        display_count_of(ps, args, n) > 0 ==> is_displayed(
            ps[display_count_of(ps, args, n) - 1],
            args[display_count_of(ps, args, n) - 1],
        ),
    decreases n,
{
    if n > 0 {
        lemma_display_count(ps, args, (n - 1) as nat);
    }
}

/// A substitution into type arguments.
pub open spec fn substituted_targs(m: Map<Seq<Token>, TypeView>, a: TArgsView) -> TArgsView {
    TArgsView { args: a.args.map_values(|t: TypeView| substituted(m, t)), ..a }
}

/// The type with the type arguments put in. A reference to a type alias keeps them until it is
/// looked up.
pub open spec fn applied(a: TArgsView, t: TypeView) -> TypeView {
    match t {
        TypeView::TypeAlias(ta) => match *ta {
            TypeAliasDataView::Ref(r) => TypeView::TypeAlias(
                Box::new(TypeAliasDataView::Ref(TypeAliasRefView { args: Some(a), ..r })),
            ),
            TypeAliasDataView::Value(_) => substituted(a.substitution(), t),
        },
        TypeView::UntypedAlias(ta) => match *ta {
            TypeAliasDataView::Ref(r) => TypeView::UntypedAlias(
                Box::new(TypeAliasDataView::Ref(TypeAliasRefView { args: Some(a), ..r })),
            ),
            TypeAliasDataView::Value(_) => substituted(a.substitution(), t),
        },
        _ => substituted(a.substitution(), t),
    }
}

/// A reference to a type alias keeps the type arguments, in place of any that it had, and otherwise
/// stays as it is. Into any other type they are substituted.
pub proof fn lemma_applied_parts(a: TArgsView, t: TypeView)
    ensures
        t is TypeAlias && *t->TypeAlias_0 is Ref ==> applied(a, t) == TypeView::TypeAlias(
            Box::new(
                TypeAliasDataView::Ref(
                    TypeAliasRefView { name: t->TypeAlias_0->Ref_0.name, args: Some(a) },
                ),
            ),
        ),
        t is UntypedAlias && *t->UntypedAlias_0 is Ref ==> applied(a, t) == TypeView::UntypedAlias(
            Box::new(
                TypeAliasDataView::Ref(
                    TypeAliasRefView { name: t->UntypedAlias_0->Ref_0.name, args: Some(a) },
                ),
            ),
        ),
        !(t is TypeAlias && *t->TypeAlias_0 is Ref) && !(t is UntypedAlias
            && *t->UntypedAlias_0 is Ref) ==> applied(a, t) == substituted(a.substitution(), t),
{
}

/// Where no two type parameters are spelled alike, each becomes the type argument that stands in
/// its place, and what is none of them is left alone.
pub proof fn lemma_applied_to_parameter(a: TArgsView, i: int, q: QuantifiedView)
    requires
        a.wf(),
        forall|i: int, j: int|
            0 <= i < j < a.tparams.len() ==> tokens_quantified(#[trigger] a.tparams[i])
                != tokens_quantified(#[trigger] a.tparams[j]),
    ensures
        0 <= i < a.tparams.len() ==> applied(
            a,
            TypeView::Quantified(Box::new(a.tparams[i])),
        ) == a.args[i],
        (forall|j: int|
            0 <= j < a.tparams.len() ==> tokens_quantified(#[trigger] a.tparams[j])
                != tokens_quantified(q)) ==> applied(a, TypeView::Quantified(Box::new(q)))
            == TypeView::Quantified(Box::new(q)),
{
    lemma_paired(a.tparams, a.args, a.pairs(), tokens_quantified(q));
    lemma_substituted_once(a.substitution(), q);
    if 0 <= i < a.tparams.len() {
        let p = a.tparams[i];
        lemma_paired(a.tparams, a.args, a.pairs(), tokens_quantified(p));
        lemma_substituted_once(a.substitution(), p);
        assert(tokens_quantified(a.tparams[i]) == tokens_quantified(p));
    }
}

/// As many type parameters have a type argument as there are of whichever there are fewer of.
pub proof fn lemma_pairs(a: TArgsView)
    ensures
        a.pairs() <= a.tparams.len(),
        a.pairs() <= a.args.len(),
        a.pairs() == a.tparams.len() || a.pairs() == a.args.len(),
        a.wf() ==> a.pairs() == a.args.len(),
        forall|k: Seq<Token>|
            a.substitution().dom().contains(k) == exists|i: int|
                0 <= i < a.pairs() && tokens_quantified(#[trigger] a.tparams[i]) == k,
{
    assert forall|k: Seq<Token>|
        a.substitution().dom().contains(k) == exists|i: int|
            0 <= i < a.pairs() && tokens_quantified(#[trigger] a.tparams[i]) == k by {
        lemma_paired(a.tparams, a.args, a.pairs(), k);
    }
}

/// A substitution into type arguments is one into each of them.
pub proof fn lemma_substituted_args(m: Map<Seq<Token>, TypeView>, a: TArgsView, i: int)
    requires
        0 <= i < a.args.len(),
    ensures
        substituted_targs(m, a).args[i] == substituted(m, a.args[i]),
{
}

/// A substitution keeps the number of type arguments and the type parameters.
pub proof fn lemma_substituted_targs(m: Map<Seq<Token>, TypeView>, a: TArgsView)
    ensures
        substituted_targs(m, a).args.len() == a.args.len(),
        substituted_targs(m, a).tparams == a.tparams,
        a.wf() ==> substituted_targs(m, a).wf(),
{
}

impl TArgs {
    pub fn new(tparams: Arc<TParams>, targs: Vec<Type>) -> (r: Self)
        requires
            tparams@.len() == targs@.len(),
        ensures
            r@ == (TArgsView { tparams: tparams@, args: view_types(targs@) }),
            r@.wf(),
    {
        broadcast use lemma_targs_view;

        TArgs { tparams, args: targs }
    }

    pub fn tparams(&self) -> (r: &TParams)
        ensures
            r@ == self@.tparams,
    {
        proof {
            lemma_targs_view(*self);
        }
        &*self.tparams
    }

    /// The type parameters with their type arguments.
    pub fn iter_paired(&self) -> (r: Vec<(&Quantified, &Type)>)
        ensures
            r@.len() == self@.pairs(),
            forall|i: int|
                0 <= i < r@.len() ==> (*(#[trigger] r@[i]).0)@ == self@.tparams[i] && (*r@[i].1)@
                    == self@.args[i],
    {
        broadcast use {lemma_targs_view, lemma_tparams_view};

        let mut r: Vec<(&Quantified, &Type)> = Vec::new();
        let n = if self.tparams.params.len() <= self.args.len() {
            self.tparams.params.len()
        } else {
            self.args.len()
        };
        for i in 0..n
            invariant
                n <= self.tparams.params@.len(),
                n <= self.args@.len(),
                r@.len() == i,
                forall|j: int|
                    0 <= j < i ==> *(#[trigger] r@[j]).0 == self.tparams.params@[j] && *r@[j].1
                        == self.args@[j],
        {
            r.push((&self.tparams.params[i], &self.args[i]));
        }
        r
    }

    /// The type parameter at `i` with its type argument, to be written to.
    pub fn iter_paired_mut(&mut self, i: usize) -> (r: (&Quantified, &mut Type))
        requires
            i < old(self)@.pairs(),
        ensures
            r.0@ == old(self)@.tparams[i as int],
            r.1@ == old(self)@.args[i as int],
            final(self)@ == (TArgsView {
                args: old(self)@.args.update(i as int, final(r.1)@),
                ..old(self)@
            }),
    {
        broadcast use {lemma_targs_view, lemma_tparams_view, lemma_types_update};

        (&self.tparams.params[i], &mut self.args[i])
    }

    pub fn len(&self) -> (r: usize)
        ensures
            r == self@.args.len(),
    {
        proof {
            lemma_targs_view(*self);
        }
        self.args.len()
    }

    pub fn as_slice(&self) -> (r: &[Type])
        ensures
            view_types(r@) == self@.args,
    {
        proof {
            lemma_targs_view(*self);
        }
        self.args.as_slice()
    }

    /// The type arguments, to be written to.
    pub fn as_mut(&mut self) -> (r: &mut [Type])
        ensures
            view_types(r@) == old(self)@.args,
            final(self)@ == (TArgsView { args: view_types(final(r)@), ..old(self)@ }),
    {
        broadcast use lemma_targs_view;

        self.args.as_mut_slice()
    }

    /// The type parameters, and the type arguments, to be written to.
    pub fn split_mut(&mut self) -> (r: (&TParams, &mut [Type]))
        ensures
            r.0@ == old(self)@.tparams,
            view_types(r.1@) == old(self)@.args,
            final(self)@ == (TArgsView { args: view_types(final(r.1)@), ..old(self)@ }),
    {
        broadcast use lemma_targs_view;

        (&*self.tparams, self.args.as_mut_slice())
    }

    pub fn is_empty(&self) -> (r: bool)
        ensures
            r == (self@.args.len() == 0),
    {
        proof {
            lemma_targs_view(*self);
        }
        self.args.len() == 0
    }

    /// The types that the type arguments hold: the type arguments themselves. Type parameters
    /// describe a declaration, and what they hold does not count.
    pub fn visit<'a>(&'a self, out: &mut Vec<&'a Type>)
        ensures
            view_refs(final(out)@) == view_refs(old(out)@) + self@.args,
    {
        reveal(slots_targs);
        visit_targs(self, out)
    }

    /// The number of type arguments to display, without the trailing ones that match the
    /// defaults of their type parameters.
    pub fn display_count(&self) -> (r: usize)
        ensures
            r == display_count_of(self@.tparams, self@.args, self@.pairs()),
    {
        let pairs = self.iter_paired();
        let mut last_non_default: usize = 0;
        for i in 0..pairs.len()
            invariant
                forall|j: int|
                    0 <= j < pairs@.len() ==> (*(#[trigger] pairs@[j]).0)@ == self@.tparams[j]
                        && (*pairs@[j].1)@ == self@.args[j],
                last_non_default == display_count_of(self@.tparams, self@.args, i as nat),
        {
            let (param, arg) = pairs[i];
            assert((*pairs@[i as int].0)@ == self@.tparams[i as int]);
            if param.default().is_none() || *arg != param.as_gradual_type() {
                last_non_default = i + 1;
            }
        }
        last_non_default
    }

    /// Applies a substitution to type arguments.
    ///
    /// This re-expresses the ancestors of a class, which are in terms of its type parameters, in
    /// terms of the class specialized with type arguments.
    pub fn substitute_with(&self, substitution: &Substitution) -> (r: Self)
        ensures
            r@ == substituted_targs(substitution@, self@),
    {
        broadcast use lemma_targs_view;

        let ghost s = view_types(self.args@);
        let ghost all = s.map_values(|t: TypeView| substituted(substitution@, t));
        let mut tys: Vec<Type> = Vec::new();
        assert(view_types(tys@) =~= all.take(0));
        for i in 0..self.args.len()
            invariant
                s == view_types(self.args@),
                all == s.map_values(|t: TypeView| substituted(substitution@, t)),
                view_types(tys@) == all.take(i as int),
        {
            let ghost v = tys@;
            let ty = substitution.substitute_into(self.args[i].clone());
            tys.push(ty);
            proof {
                lemma_types_push(v, ty);
                assert(all.take(i + 1) =~= all.take(i as int).push(all[i as int]));
            }
        }
        assert(all.take(all.len() as int) =~= all);
        TArgs { tparams: share(&self.tparams), args: tys }
    }

    /// The type arguments by type parameter.
    pub fn substitution_map<'a>(&'a self) -> (r: QuantifiedMap<'a>)
        ensures
            r@ == self@.substitution(),
    {
        let mut map: QuantifiedMap<'a> = QuantifiedMap::new();
        let pairs = self.iter_paired();
        for i in 0..pairs.len()
            invariant
                pairs@.len() == self@.pairs(),
                forall|j: int|
                    0 <= j < pairs@.len() ==> (*(#[trigger] pairs@[j]).0)@ == self@.tparams[j]
                        && (*pairs@[j].1)@ == self@.args[j],
                map@ == paired(self@.tparams, self@.args, i as nat),
        {
            let (param, arg) = pairs[i];
            assert((*pairs@[i as int].0)@ == self@.tparams[i as int]);
            map = map.with(param, arg);
        }
        map
    }

    /// The substitution of the type arguments for the type parameters.
    pub fn substitution<'a>(&'a self) -> (r: Substitution<'a>)
        ensures
            r@ == self@.substitution(),
    {
        Substitution::new(self.substitution_map())
    }

    /// Puts the type arguments into a type.
    pub fn substitute_into_mut(&self, ty: &mut Type)
        ensures
            final(ty)@ == applied(self@, old(ty)@),
    {
        broadcast use lemma_type_view;

        let held = match &mut *ty {
            Type::TypeAlias(ta) => self.hold(&mut **ta),
            Type::UntypedAlias(ta) => self.hold(&mut **ta),
            _ => false,
        };
        if !held {
            self.substitution().substitute_into_mut(ty);
        }
    }

    /// Keeps the type arguments with a reference to a type alias, until its value is looked up.
    fn hold(&self, ta: &mut TypeAliasData) -> (r: bool)
        ensures
            r == (old(ta)@ is Ref),
            final(ta)@ == match old(ta)@ {
                TypeAliasDataView::Ref(x) => TypeAliasDataView::Ref(
                    TypeAliasRefView { args: Some(self@), ..x },
                ),
                TypeAliasDataView::Value(x) => TypeAliasDataView::Value(x),
            },
    {
        broadcast use {lemma_type_alias_data_view, lemma_type_alias_ref_view};

        match ta {
            TypeAliasData::Ref(r) => {
                r.args = Some(self.clone());
                true
            },
            TypeAliasData::Value(_) => false,
        }
    }

    /// [`TArgs::substitute_into_mut`] on a type that is given away.
    pub fn substitute_into(&self, ty: Type) -> (r: Type)
        ensures
            r@ == applied(self@, ty@),
    {
        let mut ty = ty;
        self.substitute_into_mut(&mut ty);
        ty
    }
}

} // verus!
