//! Collections of other crates that types hold.
use std::sync::Arc;

use dupe::Dupe;
use starlark_map::small_map::SmallMap;
use vec1::Vec1;
use vstd::prelude::*;

use crate::data::{Field, OverloadType, TParams, Type};
use crate::view::{
    lemma_field_view, view_fields, view_overloads, FieldView, OverloadTypeView, TypeView,
};

verus! {

/// [`Dupe::dupe`] on an [`Arc`]: another pointer to the same type parameters.
#[verifier::external_body]
pub(crate) fn share(p: &Arc<TParams>) -> (r: Arc<TParams>)
    ensures
        r == *p,
{
    p.dupe()
}

/// The signatures of an overloaded function: at least one.
#[verifier::external_body]
#[derive(Debug)]
pub struct Signatures {
    list: Vec1<OverloadType>,
}

/// What a [`Signatures`] holds, in order.
pub uninterp spec fn signatures_of(s: Signatures) -> Seq<OverloadTypeView>;

impl Signatures {
    /// [`Vec1::try_from_vec`]: the collection of the given elements, of which there must be one
    /// at least.
    #[verifier::external_body]
    pub(crate) fn from_vec(v: Vec<OverloadType>) -> (r: Signatures)
        requires
            v@.len() > 0,
        ensures
            signatures_of(r) == view_overloads(v@),
    {
        Signatures { list: Vec1::try_from_vec(v).unwrap() }
    }

    /// The given signatures, of which there is one at least.
    pub fn new(first: OverloadType, rest: Vec<OverloadType>) -> (r: Signatures)
        ensures
            signatures_of(r) == seq![first@] + view_overloads(rest@),
    {
        let mut v: Vec<OverloadType> = Vec::new();
        let mut rest = rest;
        let ghost expected = seq![first@] + view_overloads(rest@);
        v.push(first);
        v.append(&mut rest);
        assert(view_overloads(v@) =~= expected);
        Signatures::from_vec(v)
    }

    /// [`Vec1::as_vec`]: the vector behind the collection, which is never empty.
    #[verifier::external_body]
    pub(crate) fn as_vec(&self) -> (r: &Vec<OverloadType>)
        ensures
            view_overloads(r@) == signatures_of(*self),
            r@.len() > 0,
    {
        self.list.as_vec()
    }

    /// [`Vec1`]'s `IndexMut`: the element at `i`, to be written to.
    #[verifier::external_body]
    pub(crate) fn get_mut(&mut self, i: usize) -> (r: &mut OverloadType)
        requires
            i < signatures_of(*old(self)).len(),
        ensures
            r@ == signatures_of(*old(self))[i as int],
            signatures_of(*final(self)) == signatures_of(*old(self)).update(i as int, final(r)@),
    {
        &mut self.list[i]
    }
}

/// Types under names, in the order in which the names were first given a type.
#[verifier::external_body]
#[derive(Debug)]
pub struct ModuleFields {
    map: SmallMap<String, Type>,
}

/// What a [`ModuleFields`] holds, in order.
pub uninterp spec fn fields_of(m: ModuleFields) -> Seq<FieldView>;

/// The fields after `name` was given the type `ty`: in place where there was such a field, at
/// the end where there was none.
pub open spec fn put_field(s: Seq<FieldView>, name: Seq<char>, ty: TypeView) -> Seq<FieldView> {
    if exists|i: int| 0 <= i < s.len() && #[trigger] s[i].name == name {
        Seq::new(
            s.len(),
            |i: int|
                if s[i].name == name {
                    FieldView { name, ty }
                } else {
                    s[i]
                },
        )
    } else {
        s.push(FieldView { name, ty })
    }
}

/// What the first `n` of `fs` come to, given one after the other.
pub open spec fn put_all(fs: Seq<FieldView>, n: nat) -> Seq<FieldView>
    decreases n,
{
    if n == 0 {
        Seq::empty()
    } else {
        put_field(put_all(fs, (n - 1) as nat), fs[n - 1].name, fs[n - 1].ty)
    }
}

/// Fields whose names differ are kept as they were given.
pub proof fn lemma_put_all_distinct(fs: Seq<FieldView>, n: nat)
    requires
        n <= fs.len(),
        forall|i: int, j: int|
            0 <= i < j < fs.len() ==> (#[trigger] fs[i]).name != (#[trigger] fs[j]).name,
    ensures
        put_all(fs, n) == fs.take(n as int),
    decreases n,
{
    if n > 0 {
        lemma_put_all_distinct(fs, (n - 1) as nat);
        let s = fs.take(n - 1);
        assert forall|i: int| 0 <= i < s.len() implies (#[trigger] s[i]).name != fs[n - 1].name by {
            assert(s[i] == fs[i]);
        }
        assert(put_all(fs, n) =~= fs.take(n as int));
    } else {
        assert(fs.take(0) =~= Seq::empty());
    }
}

/// A name has a field just if it was given a type, and the field has the last type that it was
/// given; no name has two fields.
pub proof fn lemma_put_all(fs: Seq<FieldView>, n: nat)
    requires
        n <= fs.len(),
    ensures
        forall|i: int, j: int|
            0 <= i < j < put_all(fs, n).len() ==> (#[trigger] put_all(fs, n)[i]).name != (
            #[trigger] put_all(fs, n)[j]).name,
        forall|i: int|
            0 <= i < put_all(fs, n).len() ==> is_last_given(fs, n, #[trigger] put_all(fs, n)[i]),
        forall|k: int|
            0 <= k < n ==> exists|i: int|
                0 <= i < put_all(fs, n).len() && #[trigger] put_all(fs, n)[i].name == (
                #[trigger] fs[k]).name,
    decreases n,
{
    if n > 0 {
        let (s, x) = (put_all(fs, (n - 1) as nat), fs[n - 1]);
        let r = put_all(fs, n);
        lemma_put_all(fs, (n - 1) as nat);
        assert forall|i: int| 0 <= i < r.len() implies is_last_given(fs, n, #[trigger] r[i]) by {
            if r[i].name == x.name {
                assert(fs[n - 1] == r[i]);
            } else {
                assert(r[i] == s[i]);
                assert(is_last_given(fs, (n - 1) as nat, s[i]));
                let k = choose|k: int|
                    0 <= k < n - 1 && #[trigger] fs[k] == s[i] && forall|l: int|
                        k < l < n - 1 ==> (#[trigger] fs[l]).name != s[i].name;
                assert(fs[k] == r[i]);
            }
        }
        assert forall|k: int| 0 <= k < n implies exists|i: int|
            0 <= i < r.len() && #[trigger] r[i].name == (#[trigger] fs[k]).name by {
            if k < n - 1 {
                let i = choose|i: int|
                    0 <= i < s.len() && #[trigger] s[i].name == fs[k].name;
                assert(r[i].name == fs[k].name);
            } else if exists|i: int| 0 <= i < s.len() && #[trigger] s[i].name == x.name {
                let i = choose|i: int| 0 <= i < s.len() && #[trigger] s[i].name == x.name;
                assert(r[i].name == x.name);
            } else {
                assert(r[s.len() as int].name == x.name);
            }
        }
        assert forall|i: int, j: int| 0 <= i < j < r.len() implies (#[trigger] r[i]).name != (
        #[trigger] r[j]).name by {
            assert(r[i].name == s[i].name);
            if j < s.len() {
                assert(r[j].name == s[j].name);
            }
        }
    }
}

/// Is `f` what was given last, of the first `n` of `fs`, under its name?
pub open spec fn is_last_given(fs: Seq<FieldView>, n: nat, f: FieldView) -> bool {
    exists|k: int|
        0 <= k < n && #[trigger] fs[k] == f && forall|l: int|
            k < l < n ==> (#[trigger] fs[l]).name != f.name
}

impl ModuleFields {
    /// The given fields. Of fields with the same name, the place of the first and the type of the
    /// last count.
    pub fn from_fields(fields: &Vec<Field>) -> (r: ModuleFields)
        ensures
            fields_of(r) == put_all(view_fields(fields@), fields@.len()),
    {
        let mut r = ModuleFields::new();
        for i in 0..fields.len()
            invariant
                fields_of(r) == put_all(view_fields(fields@), i as nat),
        {
            proof {
                assert(view_fields(fields@)[i as int] == fields@[i as int]@);
                lemma_field_view(fields@[i as int]);
            }
            r.insert(fields[i].name.text.clone(), fields[i].ty.clone());
        }
        r
    }

    /// [`SmallMap::new`]: no fields.
    #[verifier::external_body]
    pub(crate) fn new() -> (r: ModuleFields)
        ensures
            fields_of(r) == Seq::<FieldView>::empty(),
    {
        ModuleFields { map: SmallMap::new() }
    }

    /// [`SmallMap::insert`]: replaces the type under `name`, or adds the field at the end.
    #[verifier::external_body]
    pub(crate) fn insert(&mut self, name: String, ty: Type)
        ensures
            fields_of(*final(self)) == put_field(fields_of(*old(self)), name@, ty@),
    {
        self.map.insert(name, ty);
    }

    /// [`SmallMap::len`]: the number of fields.
    #[verifier::external_body]
    pub(crate) fn len(&self) -> (r: usize)
        ensures
            r == fields_of(*self).len(),
    {
        self.map.len()
    }

    /// [`SmallMap::get_index`]: the field at position `i`. No other field has its
    /// name.
    #[verifier::external_body]
    pub(crate) fn get(&self, i: usize) -> (r: (&String, &Type))
        requires
            i < fields_of(*self).len(),
        ensures
            r.0@ == fields_of(*self)[i as int].name,
            r.1@ == fields_of(*self)[i as int].ty,
            forall|j: int|
                0 <= j < fields_of(*self).len() && j != i ==> (#[trigger] fields_of(*self)[j]).name
                    != r.0@,
    {
        self.map.get_index(i).unwrap()
    }

    /// [`SmallMap::values_mut`]: the type of the field at position `i`, to be written to.
    #[verifier::external_body]
    pub(crate) fn get_mut(&mut self, i: usize) -> (r: &mut Type)
        requires
            i < fields_of(*old(self)).len(),
        ensures
            r@ == fields_of(*old(self))[i as int].ty,
            fields_of(*final(self)) == fields_of(*old(self)).update(
                i as int,
                (FieldView { name: fields_of(*old(self))[i as int].name, ty: final(r)@ }),
            ),
    {
        self.map.values_mut().nth(i).unwrap()
    }
}

} // verus!
