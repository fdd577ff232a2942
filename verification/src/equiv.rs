//! Equality of types up to the choice of variables.
use vstd::prelude::*;

use crate::data::{NNModuleType, Type, Union};
use crate::tokens::{
    lemma_tokens_union, tokens_nn_module_type, tokens_type, tokens_union, Token,
};
use crate::view::UnionView;

verus! {

/// The number that stands for `x` on the other side, if one was chosen.
pub open spec fn image(pairs: Seq<(u64, u64)>, x: u64) -> Option<u64>
    decreases pairs.len(),
{
    if pairs.len() == 0 {
        None
    } else if pairs.last().0 == x {
        Some(pairs.last().1)
    } else {
        image(pairs.drop_last(), x)
    }
}

/// Do the two spellings agree, word by word, where each variable of the first stands for one
/// variable of the second? `pairs` are the choices made so far. Gives the choices made up to the
/// first place where the spellings disagree, and whether there was none.
pub open spec fn matched(pairs: Seq<(u64, u64)>, a: Seq<Token>, b: Seq<Token>) -> (
    Seq<(u64, u64)>,
    bool,
)
    decreases a.len(),
{
    if a.len() == 0 || b.len() == 0 {
        (pairs, a.len() == b.len())
    } else if a[0].0 != b[0].0 {
        (pairs, false)
    } else if a[0].0 != 1 {
        if a[0].1 == b[0].1 {
            matched(pairs, a.skip(1), b.skip(1))
        } else {
            (pairs, false)
        }
    } else {
        match image(pairs, a[0].1) {
            Some(y) => if y == b[0].1 {
                matched(pairs, a.skip(1), b.skip(1))
            } else {
                (pairs, false)
            },
            None => matched(pairs.push((a[0].1, b[0].1)), a.skip(1), b.skip(1)),
        }
    }
}

/// A variable stands for what was chosen for it last, and for nothing where nothing was chosen.
pub proof fn lemma_image(pairs: Seq<(u64, u64)>, x: u64)
    ensures
        image(pairs, x) is None == (forall|i: int|
            0 <= i < pairs.len() ==> (#[trigger] pairs[i]).0 != x),
        forall|i: int|
            0 <= i < pairs.len() && (#[trigger] pairs[i]).0 == x && (forall|j: int|
                i < j < pairs.len() ==> (#[trigger] pairs[j]).0 != x) ==> image(pairs, x) == Some(
                pairs[i].1,
            ),
    decreases pairs.len(),
{
    if pairs.len() > 0 {
        let d = pairs.drop_last();
        lemma_image(d, x);
        assert(pairs[pairs.len() - 1] == pairs.last());
        assert forall|i: int| 0 <= i < d.len() implies #[trigger] d[i] == pairs[i] by {}
        if pairs.last().0 != x {
            assert forall|i: int|
                0 <= i < pairs.len() && (#[trigger] pairs[i]).0 == x && (forall|j: int|
                    i < j < pairs.len() ==> (#[trigger] pairs[j]).0 != x) implies image(pairs, x)
                == Some(pairs[i].1) by {
                assert(d[i] == pairs[i]);
                assert forall|j: int| i < j < d.len() implies (#[trigger] d[j]).0 != x by {
                    assert(pairs[j].0 != x);
                }
            }
            if image(pairs, x) is None {
                assert forall|i: int| 0 <= i < pairs.len() implies (#[trigger] pairs[i]).0 != x by {
                    if i < d.len() {
                        assert(d[i].0 != x);
                    }
                }
            } else {
                let i = choose|i: int| 0 <= i < d.len() && !((#[trigger] d[i]).0 != x);
                assert(pairs[i].0 == x);
            }
        }
    }
}

/// Do the spellings agree word by word, where variables stand for what `pairs` says?
pub open spec fn agrees(pairs: Seq<(u64, u64)>, a: Seq<Token>, b: Seq<Token>) -> bool {
    &&& a.len() == b.len()
    &&& forall|i: int|
        0 <= i < a.len() ==> (#[trigger] a[i]).0 == b[i].0 && (if a[i].0 == 1 {
            image(pairs, a[i].1) == Some(b[i].1)
        } else {
            a[i].1 == b[i].1
        })
}

/// Choices once made are kept: a comparison only adds some, and only for variables that had none.
pub proof fn lemma_matched_extends(
    pairs: Seq<(u64, u64)>,
    a: Seq<Token>,
    b: Seq<Token>,
    x: u64,
)
    ensures
        pairs.len() <= matched(pairs, a, b).0.len(),
        matched(pairs, a, b).0.take(pairs.len() as int) == pairs,
        image(pairs, x) is Some ==> image(matched(pairs, a, b).0, x) == image(pairs, x),
    decreases a.len(),
{
    let r = matched(pairs, a, b).0;
    assert(pairs.take(pairs.len() as int) =~= pairs);
    if a.len() > 0 && b.len() > 0 && a[0].0 == b[0].0 {
        if a[0].0 == 1 && image(pairs, a[0].1) is None {
            let more = pairs.push((a[0].1, b[0].1));
            lemma_matched_extends(more, a.skip(1), b.skip(1), x);
            assert(more.drop_last() =~= pairs);
            assert(r.take(pairs.len() as int) =~= r.take(more.len() as int).drop_last());
        } else {
            lemma_matched_extends(pairs, a.skip(1), b.skip(1), x);
        }
    }
}

/// Spellings that are found equal agree word by word under the choices made: the same words, and
/// for each variable the one that was chosen for it.
pub proof fn lemma_matched_agrees(pairs: Seq<(u64, u64)>, a: Seq<Token>, b: Seq<Token>)
    requires
        matched(pairs, a, b).1,
    ensures
        agrees(matched(pairs, a, b).0, a, b),
    decreases a.len(),
{
    if a.len() > 0 && b.len() > 0 {
        let (c, d) = (a.skip(1), b.skip(1));
        let r = matched(pairs, a, b).0;
        if a[0].0 == 1 && image(pairs, a[0].1) is None {
            let more = pairs.push((a[0].1, b[0].1));
            lemma_matched_agrees(more, c, d);
            lemma_matched_extends(more, c, d, a[0].1);
            assert(image(more, a[0].1) == Some(b[0].1));
        } else {
            lemma_matched_agrees(pairs, c, d);
            lemma_matched_extends(pairs, c, d, a[0].1);
        }
        assert forall|i: int| 0 <= i < a.len() implies (#[trigger] a[i]).0 == b[i].0 && (if a[i].0
            == 1 {
            image(r, a[i].1) == Some(b[i].1)
        } else {
            a[i].1 == b[i].1
        }) by {
            if i > 0 {
                assert(c[i - 1] == a[i]);
                assert(d[i - 1] == b[i]);
            }
        }
    }
}

/// Spellings that agree word by word under some choices, which extend those made before, are found
/// equal.
pub proof fn lemma_agreeing_matched(
    pairs: Seq<(u64, u64)>,
    chosen: Seq<(u64, u64)>,
    a: Seq<Token>,
    b: Seq<Token>,
)
    requires
        agrees(chosen, a, b),
        forall|x: u64|
            (#[trigger] image(pairs, x)) is Some ==> image(chosen, x) == image(pairs, x),
    ensures
        matched(pairs, a, b).1,
    decreases a.len(),
{
    if a.len() > 0 {
        let (c, d) = (a.skip(1), b.skip(1));
        assert(a[0].0 == b[0].0);
        assert forall|i: int| 0 <= i < c.len() implies (#[trigger] c[i]).0 == d[i].0 && (if c[i].0
            == 1 {
            image(chosen, c[i].1) == Some(d[i].1)
        } else {
            c[i].1 == d[i].1
        }) by {
            assert(a[i + 1] == c[i]);
            assert(b[i + 1] == d[i]);
        }
        if a[0].0 == 1 && image(pairs, a[0].1) is None {
            let more = pairs.push((a[0].1, b[0].1));
            assert(more.drop_last() =~= pairs);
            assert forall|x: u64| (#[trigger] image(more, x)) is Some implies image(chosen, x)
                == image(more, x) by {
                if x != a[0].1 {
                    assert(image(more, x) == image(pairs, x));
                }
            }
            lemma_agreeing_matched(more, chosen, c, d);
        } else {
            lemma_agreeing_matched(pairs, chosen, c, d);
        }
    }
}

/// Does every choice in `pairs` keep the variable as it is?
pub open spec fn keeps_variables(pairs: Seq<(u64, u64)>) -> bool {
    forall|i: int| 0 <= i < pairs.len() ==> (#[trigger] pairs[i]).0 == pairs[i].1
}

proof fn lemma_image_kept(pairs: Seq<(u64, u64)>, x: u64)
    requires
        keeps_variables(pairs),
    ensures
        image(pairs, x) matches Some(y) ==> y == x,
    decreases pairs.len(),
{
    if pairs.len() > 0 && pairs.last().0 != x {
        assert(keeps_variables(pairs.drop_last())) by {
            assert forall|i: int| 0 <= i < pairs.drop_last().len() implies (
            #[trigger] pairs.drop_last()[i]).0 == pairs.drop_last()[i].1 by {
                assert(pairs[i].0 == pairs[i].1);
            }
        }
        lemma_image_kept(pairs.drop_last(), x);
    } else if pairs.len() > 0 {
        assert(pairs[pairs.len() - 1].0 == pairs[pairs.len() - 1].1);
    }
}

/// A spelling agrees with itself, and the choices made keep every variable as it is.
pub proof fn lemma_matched_self(pairs: Seq<(u64, u64)>, a: Seq<Token>)
    requires
        keeps_variables(pairs),
    ensures
        matched(pairs, a, a).1,
        keeps_variables(matched(pairs, a, a).0),
    decreases a.len(),
{
    if a.len() > 0 {
        if a[0].0 == 1 {
            lemma_image_kept(pairs, a[0].1);
            if image(pairs, a[0].1) is None {
                lemma_matched_self(pairs.push((a[0].1, a[0].1)), a.skip(1));
            } else {
                lemma_matched_self(pairs, a.skip(1));
            }
        } else {
            lemma_matched_self(pairs, a.skip(1));
        }
    }
}

/// Unions with the same members are equal up to the choice of variables, whatever names they are
/// displayed by.
pub proof fn lemma_unions_matched(a: UnionView, b: UnionView)
    requires
        a.members == b.members,
    ensures
        matched(Seq::empty(), tokens_union(a), tokens_union(b)).1,
{
    lemma_tokens_union(a);
    lemma_tokens_union(b);
    lemma_matched_self(Seq::empty(), tokens_union(a));
}

/// The choices made while types are compared: which variable of the second type stands for a
/// variable of the first.
#[derive(Debug)]
pub struct TypeEqCtx {
    pub pairs: Vec<(u64, u64)>,
}

impl Default for TypeEqCtx {
    fn default() -> (r: Self)
        ensures
            r.pairs@ == Seq::<(u64, u64)>::empty(),
    {
        TypeEqCtx { pairs: Vec::new() }
    }
}

impl TypeEqCtx {
    /// The variable that stands for `x`, if one was chosen.
    fn image(&self, x: u64) -> (r: Option<u64>)
        ensures
            r == image(self.pairs@, x),
    {
        let mut n = self.pairs.len();
        assert(self.pairs@.take(n as int) =~= self.pairs@);
        while n > 0
            invariant
                n <= self.pairs@.len(),
                image(self.pairs@, x) == image(self.pairs@.take(n as int), x),
            decreases n,
        {
            n = n - 1;
            assert(self.pairs@.take(n + 1).drop_last() =~= self.pairs@.take(n as int));
            if self.pairs[n].0 == x {
                return Some(self.pairs[n].1);
            }
        }
        None
    }

    /// Compares two spellings, and keeps the choices made.
    fn matches(&mut self, a: &Vec<Token>, b: &Vec<Token>) -> (r: bool)
        ensures
            (final(self).pairs@, r) == matched(old(self).pairs@, a@, b@),
    {
        let n = if a.len() <= b.len() {
            a.len()
        } else {
            b.len()
        };
        assert(a@.skip(0) =~= a@);
        assert(b@.skip(0) =~= b@);
        for i in 0..n
            invariant
                n <= a@.len(),
                n <= b@.len(),
                n == a@.len() || n == b@.len(),
                matched(old(self).pairs@, a@, b@) == matched(
                    self.pairs@,
                    a@.skip(i as int),
                    b@.skip(i as int),
                ),
        {
            let (x, y) = (a[i], b[i]);
            assert(a@.skip(i as int).skip(1) =~= a@.skip(i + 1));
            assert(b@.skip(i as int).skip(1) =~= b@.skip(i + 1));
            if x.0 != y.0 {
                return false;
            }
            if x.0 != 1 {
                if x.1 != y.1 {
                    return false;
                }
            } else {
                match self.image(x.1) {
                    Some(z) => {
                        if z != y.1 {
                            return false;
                        }
                    },
                    None => self.pairs.push((x.1, y.1)),
                }
            }
        }
        a.len() == b.len()
    }
}

impl Type {
    /// Are the types equal up to the choice of variables?
    pub fn type_eq(&self, other: &Type, ctx: &mut TypeEqCtx) -> (r: bool)
        ensures
            (final(ctx).pairs@, r) == matched(
                old(ctx).pairs@,
                tokens_type(self@),
                tokens_type(other@),
            ),
    {
        ctx.matches(&self.tokens(), &other.tokens())
    }
}

impl Union {
    /// Are the members equal up to the choice of variables?
    pub fn type_eq(&self, other: &Union, ctx: &mut TypeEqCtx) -> (r: bool)
        ensures
            (final(ctx).pairs@, r) == matched(
                old(ctx).pairs@,
                tokens_union(self@),
                tokens_union(other@),
            ),
    {
        ctx.matches(&self.tokens(), &other.tokens())
    }
}

impl NNModuleType {
    /// Are the classes and the captured arguments, in order, equal up to the choice of
    /// variables?
    pub fn type_eq(&self, other: &NNModuleType, ctx: &mut TypeEqCtx) -> (r: bool)
        ensures
            (final(ctx).pairs@, r) == matched(
                old(ctx).pairs@,
                tokens_nn_module_type(self@),
                tokens_nn_module_type(other@),
            ),
    {
        ctx.matches(&self.tokens(), &other.tokens())
    }
}

} // verus!
