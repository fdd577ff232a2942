//! The slots of a type: the types that it holds directly, in the order in which they are visited.
//!
//! For each kind of data `slots_x` gives the slots, and `with_x` the same data with other types in
//! its slots. A visit that only reads sees what `reached_x` gives; this differs from the slots
//! where the data holds type parameters, whose types are seen but never replaced.
//!
//! Two things are not among what a type holds: the metadata of `Annotated`, and the type parameters
//! that type arguments are given for, which belong to the declaration.
use vstd::prelude::*;

use crate::parts::{
    lemma_bound_method_parts,
    lemma_bound_method_type_parts,
    lemma_callable_parts,
    lemma_callable_residual_parts,
    lemma_class_type_parts,
    lemma_data_frame_schema_parts,
    lemma_field_parts,
    lemma_forall_forallable_parts,
    lemma_forall_function_parts,
    lemma_forallable_parts,
    lemma_func_flags_parts,
    lemma_func_metadata_parts,
    lemma_function_parts,
    lemma_int_parts,
    lemma_kw_call_parts,
    lemma_lit_enum_parts,
    lemma_lit_parts,
    lemma_literal_parts,
    lemma_nn_module_type_parts,
    lemma_overload_parts,
    lemma_overload_type_parts,
    lemma_param_parts,
    lemma_params_parts,
    lemma_property_metadata_parts,
    lemma_quantified_parts,
    lemma_restriction_parts,
    lemma_series_schema_parts,
    lemma_shaped_array_type_parts,
    lemma_super_obj_parts,
    lemma_targs_parts,
    lemma_tuple_parts,
    lemma_type_alias_data_parts,
    lemma_type_alias_parts,
    lemma_type_alias_ref_parts,
    lemma_type_level_dsl_call_parts,
    lemma_type_parts,
    lemma_typed_dict_parts,
    lemma_union_parts,
};
use crate::view::{
    BoundMethodTypeView,
    BoundMethodView,
    CallableResidualView,
    CallableView,
    ClassTypeView,
    DataFrameSchemaView,
    FieldView,
    ForallView,
    ForallableView,
    FuncFlagsView,
    FuncMetadataView,
    FunctionView,
    IntView,
    KwCallView,
    LitEnumView,
    LitView,
    LiteralView,
    NNModuleTypeView,
    OverloadTypeView,
    OverloadView,
    ParamView,
    ParamsView,
    PropertyMetadataView,
    QuantifiedView,
    RestrictionView,
    SeriesSchemaView,
    ShapedArrayTypeView,
    SuperObjView,
    TArgsView,
    TupleView,
    TypeAliasDataView,
    TypeAliasRefView,
    TypeAliasView,
    TypeLevelDslCallView,
    TypeView,
    TypedDictView,
    UnionView,
};

verus! {

/// All but the last `k` elements.
pub open spec fn front(ts: Seq<TypeView>, k: nat) -> Seq<TypeView> {
    ts.take(ts.len() - k)
}

/// The last `k` elements.
pub open spec fn back(ts: Seq<TypeView>, k: nat) -> Seq<TypeView> {
    ts.skip(ts.len() - k)
}

proof fn lemma_split(ts: Seq<TypeView>, k: nat)
    requires
        k <= ts.len(),
    ensures
        front(ts, k) + back(ts, k) == ts,
{
    assert(front(ts, k) + back(ts, k) =~= ts);
}

proof fn lemma_join(a: Seq<TypeView>, b: Seq<TypeView>)
    ensures
        front(a + b, b.len()) == a,
        back(a + b, b.len()) == b,
{
    assert(front(a + b, b.len()) =~= a);
    assert(back(a + b, b.len()) =~= b);
}

/// A type by itself is one slot.
pub open spec fn slots_one(m: TypeView) -> Seq<TypeView> {
    seq![m]
}

pub open spec fn with_one(m: TypeView, ts: Seq<TypeView>) -> TypeView {
    ts.last()
}

/// A sequence of types is its own slots.
pub open spec fn slots_many(m: Seq<TypeView>) -> Seq<TypeView> {
    m
}

pub open spec fn with_many(m: Seq<TypeView>, ts: Seq<TypeView>) -> Seq<TypeView> {
    ts
}

proof fn lemma_one_lens(m: TypeView, ts: Seq<TypeView>, us: Seq<TypeView>)
    requires
        ts.len() == slots_one(m).len(),
        us.len() == ts.len(),
    ensures
        slots_one(with_one(m, ts)) == ts,
        with_one(m, slots_one(m)) == m,
        with_one(with_one(m, ts), us) == with_one(m, us),
{
    assert(slots_one(ts.last()) =~= ts);
    assert(slots_one(m).last() == m);
}

proof fn lemma_many_lens(m: Seq<TypeView>, ts: Seq<TypeView>, us: Seq<TypeView>)
    requires
        ts.len() == slots_many(m).len(),
        us.len() == ts.len(),
    ensures
        slots_many(with_many(m, ts)) == ts,
        with_many(m, slots_many(m)) == m,
        with_many(with_many(m, ts), us) == with_many(m, us),
{
}

proof fn lemma_many_smaller(m: Seq<TypeView>)
    ensures
        forall|i: int| 0 <= i < slots_many(m).len() ==> decreases_to!(
            m => #[trigger] slots_many(m)[i]
        ),
{
}

pub open spec fn slots_opt_one(m: Option<TypeView>) -> Seq<TypeView> {
    match m {
        Some(x) => slots_one(x),
        None => Seq::empty(),
    }
}

pub open spec fn with_opt_one(m: Option<TypeView>, ts: Seq<TypeView>) -> Option<TypeView> {
    match m {
        Some(x) => Some(with_one(x, ts)),
        None => None,
    }
}

proof fn lemma_opt_one_lens(m: Option<TypeView>, ts: Seq<TypeView>, us: Seq<TypeView>)
    requires
        ts.len() == slots_opt_one(m).len(),
        us.len() == ts.len(),
    ensures
        slots_opt_one(with_opt_one(m, ts)) == ts,
        with_opt_one(m, slots_opt_one(m)) == m,
        with_opt_one(with_opt_one(m, ts), us) == with_opt_one(m, us),
{
    match m {
        Some(x) => {
            lemma_one_lens(x, ts, us);
        },
        None => {
            assert(ts =~= Seq::empty());
        },
    }
}

pub open spec fn slots_opt_property_metadata(m: Option<PropertyMetadataView>) -> Seq<TypeView> {
    match m {
        Some(x) => slots_property_metadata(x),
        None => Seq::empty(),
    }
}

pub open spec fn with_opt_property_metadata(
    m: Option<PropertyMetadataView>,
    ts: Seq<TypeView>,
) -> Option<PropertyMetadataView> {
    match m {
        Some(x) => Some(with_property_metadata(x, ts)),
        None => None,
    }
}

proof fn lemma_opt_property_metadata_lens(
    m: Option<PropertyMetadataView>,
    ts: Seq<TypeView>,
    us: Seq<TypeView>,
)
    requires
        ts.len() == slots_opt_property_metadata(m).len(),
        us.len() == ts.len(),
    ensures
        slots_opt_property_metadata(with_opt_property_metadata(m, ts)) == ts,
        with_opt_property_metadata(m, slots_opt_property_metadata(m)) == m,
        with_opt_property_metadata(with_opt_property_metadata(m, ts), us)
            == with_opt_property_metadata(m, us),
{
    match m {
        Some(x) => {
            lemma_property_metadata_lens(x, ts, us);
        },
        None => {
            assert(ts =~= Seq::empty());
        },
    }
}

pub open spec fn slots_opt_targs(m: Option<TArgsView>) -> Seq<TypeView> {
    match m {
        Some(x) => slots_targs(x),
        None => Seq::empty(),
    }
}

pub open spec fn with_opt_targs(m: Option<TArgsView>, ts: Seq<TypeView>) -> Option<TArgsView> {
    match m {
        Some(x) => Some(with_targs(x, ts)),
        None => None,
    }
}

proof fn lemma_opt_targs_lens(m: Option<TArgsView>, ts: Seq<TypeView>, us: Seq<TypeView>)
    requires
        ts.len() == slots_opt_targs(m).len(),
        us.len() == ts.len(),
    ensures
        slots_opt_targs(with_opt_targs(m, ts)) == ts,
        with_opt_targs(m, slots_opt_targs(m)) == m,
        with_opt_targs(with_opt_targs(m, ts), us) == with_opt_targs(m, us),
{
    match m {
        Some(x) => {
            lemma_targs_lens(x, ts, us);
        },
        None => {
            assert(ts =~= Seq::empty());
        },
    }
}

#[verifier::opaque]
pub open spec fn slots_many_one(m: (Seq<TypeView>, TypeView)) -> Seq<TypeView> {
    slots_many(m.0) + slots_one(m.1)
}

#[verifier::opaque]
pub open spec fn with_many_one(
    m: (Seq<TypeView>, TypeView),
    ts: Seq<TypeView>,
) -> (Seq<TypeView>, TypeView) {
    let n1 = slots_one(m.1).len();
    let r1 = front(ts, n1);
    (with_many(m.0, r1), with_one(m.1, back(ts, n1)))
}

proof fn lemma_many_one_lens(m: (Seq<TypeView>, TypeView), ts: Seq<TypeView>, us: Seq<TypeView>)
    requires
        ts.len() == slots_many_one(m).len(),
        us.len() == ts.len(),
    ensures
        slots_many_one(with_many_one(m, ts)) == ts,
        with_many_one(m, slots_many_one(m)) == m,
        with_many_one(with_many_one(m, ts), us) == with_many_one(m, us),
{
    reveal(slots_many_one);
    reveal(with_many_one);
    let n1 = slots_one(m.1).len();
    lemma_one_lens(m.1, back(ts, n1), back(us, n1));
    lemma_split(ts, n1);
    lemma_join(slots_many(m.0), slots_one(m.1));
    let (r1, u1) = (front(ts, n1), front(us, n1));
    lemma_many_lens(m.0, r1, u1);
}

proof fn lemma_many_one_smaller(m: (Seq<TypeView>, TypeView))
    ensures
        forall|i: int| 0 <= i < slots_many_one(m).len() ==> decreases_to!(
            m => #[trigger] slots_many_one(m)[i]
        ),
{
    reveal(slots_many_one);
    lemma_many_smaller(m.0);
    let p0 = slots_many(m.0);
    let p1 = slots_one(m.1);
    assert forall|i: int| 0 <= i < slots_many_one(m).len() implies decreases_to!(
        m => #[trigger] slots_many_one(m)[i]
    ) by {
        if i < p0.len() {
            assert(slots_many_one(m)[i] == p0[i]);
        } else {
            assert(slots_many_one(m)[i] == p1[i - p0.len()]);
        }
    }
}

#[verifier::opaque]
pub open spec fn slots_many_one_many(m: (Seq<TypeView>, TypeView, Seq<TypeView>)) -> Seq<TypeView> {
    slots_many(m.0) + slots_one(m.1) + slots_many(m.2)
}

#[verifier::opaque]
pub open spec fn with_many_one_many(
    m: (Seq<TypeView>, TypeView, Seq<TypeView>),
    ts: Seq<TypeView>,
) -> (Seq<TypeView>, TypeView, Seq<TypeView>) {
    let n2 = slots_many(m.2).len();
    let r2 = front(ts, n2);
    let n1 = slots_one(m.1).len();
    let r1 = front(r2, n1);
    (with_many(m.0, r1), with_one(m.1, back(r2, n1)), with_many(m.2, back(ts, n2)))
}

proof fn lemma_many_one_many_lens(
    m: (Seq<TypeView>, TypeView, Seq<TypeView>),
    ts: Seq<TypeView>,
    us: Seq<TypeView>,
)
    requires
        ts.len() == slots_many_one_many(m).len(),
        us.len() == ts.len(),
    ensures
        slots_many_one_many(with_many_one_many(m, ts)) == ts,
        with_many_one_many(m, slots_many_one_many(m)) == m,
        with_many_one_many(with_many_one_many(m, ts), us) == with_many_one_many(m, us),
{
    reveal(slots_many_one_many);
    reveal(with_many_one_many);
    let n2 = slots_many(m.2).len();
    lemma_many_lens(m.2, back(ts, n2), back(us, n2));
    lemma_split(ts, n2);
    lemma_join(slots_many(m.0) + slots_one(m.1), slots_many(m.2));
    let (r2, u2) = (front(ts, n2), front(us, n2));
    let n1 = slots_one(m.1).len();
    lemma_one_lens(m.1, back(r2, n1), back(u2, n1));
    lemma_split(r2, n1);
    lemma_join(slots_many(m.0), slots_one(m.1));
    let (r1, u1) = (front(r2, n1), front(u2, n1));
    lemma_many_lens(m.0, r1, u1);
}

proof fn lemma_many_one_many_smaller(m: (Seq<TypeView>, TypeView, Seq<TypeView>))
    ensures
        forall|i: int| 0 <= i < slots_many_one_many(m).len() ==> decreases_to!(
            m => #[trigger] slots_many_one_many(m)[i]
        ),
{
    reveal(slots_many_one_many);
    lemma_many_smaller(m.0);
    lemma_many_smaller(m.2);
    let p0 = slots_many(m.0);
    let p1 = slots_one(m.1);
    let p2 = slots_many(m.2);
    assert forall|i: int| 0 <= i < slots_many_one_many(m).len() implies decreases_to!(
        m => #[trigger] slots_many_one_many(m)[i]
    ) by {
        if i < p0.len() {
            assert(slots_many_one_many(m)[i] == p0[i]);
        } else if i < p0.len() + p1.len() {
            assert(slots_many_one_many(m)[i] == p1[i - p0.len()]);
        } else {
            assert(slots_many_one_many(m)[i] == p2[i - p0.len() - p1.len()]);
        }
    }
}

#[verifier::opaque]
pub open spec fn slots_class_type_super_obj(m: (ClassTypeView, SuperObjView)) -> Seq<TypeView> {
    slots_class_type(m.0) + slots_super_obj(m.1)
}

#[verifier::opaque]
pub open spec fn with_class_type_super_obj(
    m: (ClassTypeView, SuperObjView),
    ts: Seq<TypeView>,
) -> (ClassTypeView, SuperObjView) {
    let n1 = slots_super_obj(m.1).len();
    let r1 = front(ts, n1);
    (with_class_type(m.0, r1), with_super_obj(m.1, back(ts, n1)))
}

proof fn lemma_class_type_super_obj_lens(
    m: (ClassTypeView, SuperObjView),
    ts: Seq<TypeView>,
    us: Seq<TypeView>,
)
    requires
        ts.len() == slots_class_type_super_obj(m).len(),
        us.len() == ts.len(),
    ensures
        slots_class_type_super_obj(with_class_type_super_obj(m, ts)) == ts,
        with_class_type_super_obj(m, slots_class_type_super_obj(m)) == m,
        with_class_type_super_obj(with_class_type_super_obj(m, ts), us)
            == with_class_type_super_obj(m, us),
{
    reveal(slots_class_type_super_obj);
    reveal(with_class_type_super_obj);
    let n1 = slots_super_obj(m.1).len();
    lemma_super_obj_lens(m.1, back(ts, n1), back(us, n1));
    lemma_split(ts, n1);
    lemma_join(slots_class_type(m.0), slots_super_obj(m.1));
    let (r1, u1) = (front(ts, n1), front(us, n1));
    lemma_class_type_lens(m.0, r1, u1);
}

proof fn lemma_class_type_super_obj_smaller(m: (ClassTypeView, SuperObjView))
    ensures
        forall|i: int| 0 <= i < slots_class_type_super_obj(m).len() ==> decreases_to!(
            m => #[trigger] slots_class_type_super_obj(m)[i]
        ),
{
    reveal(slots_class_type_super_obj);
    lemma_class_type_smaller(m.0);
    lemma_super_obj_smaller(m.1);
    let p0 = slots_class_type(m.0);
    let p1 = slots_super_obj(m.1);
    assert forall|i: int| 0 <= i < slots_class_type_super_obj(m).len() implies decreases_to!(
        m => #[trigger] slots_class_type_super_obj(m)[i]
    ) by {
        if i < p0.len() {
            assert(slots_class_type_super_obj(m)[i] == p0[i]);
        } else {
            assert(slots_class_type_super_obj(m)[i] == p1[i - p0.len()]);
        }
    }
}

pub open spec fn slots_param_seq(m: Seq<ParamView>) -> Seq<TypeView>
    decreases m.len(),
{
    if m.len() == 0 {
        Seq::empty()
    } else {
        slots_param_seq(m.drop_last()) + slots_param(m.last())
    }
}

pub open spec fn with_param_seq(m: Seq<ParamView>, ts: Seq<TypeView>) -> Seq<ParamView>
    decreases m.len(),
{
    if m.len() == 0 {
        Seq::empty()
    } else {
        let k = slots_param(m.last()).len();
        with_param_seq(m.drop_last(), front(ts, k)).push(with_param(m.last(), back(ts, k)))
    }
}

proof fn lemma_param_seq_lens(m: Seq<ParamView>, ts: Seq<TypeView>, us: Seq<TypeView>)
    requires
        ts.len() == slots_param_seq(m).len(),
        us.len() == ts.len(),
    ensures
        slots_param_seq(with_param_seq(m, ts)) == ts,
        with_param_seq(m, slots_param_seq(m)) == m,
        with_param_seq(with_param_seq(m, ts), us) == with_param_seq(m, us),
        with_param_seq(m, ts).len() == m.len(),
    decreases m.len(),
{
    if m.len() == 0 {
        assert(ts =~= Seq::empty());
        assert(with_param_seq(m, slots_param_seq(m)) =~= m);
    } else {
        let (s, x) = (m.drop_last(), m.last());
        let k = slots_param(x).len();
        lemma_param_seq_lens(s, front(ts, k), front(us, k));
        lemma_param_lens(x, back(ts, k), back(us, k));
        lemma_split(ts, k);
        lemma_join(slots_param_seq(s), slots_param(x));
        let w = with_param_seq(m, ts);
        assert(w.drop_last() =~= with_param_seq(s, front(ts, k)));
        assert(w.last() == with_param(x, back(ts, k)));
        assert(s.push(x) =~= m);
    }
}

proof fn lemma_param_seq_slots_smaller(m: Seq<ParamView>, s: Seq<ParamView>, k: int)
    requires
        0 <= k <= s.len(),
        m == s.take(k),
    ensures
        forall|i: int| 0 <= i < slots_param_seq(m).len() ==> decreases_to!(
            s => #[trigger] slots_param_seq(m)[i]
        ),
    decreases k,
{
    if k > 0 {
        assert(m.drop_last() =~= s.take(k - 1));
        lemma_param_seq_slots_smaller(m.drop_last(), s, k - 1);
        assert(m.last() == s[k - 1]);
        assert(decreases_to!(s => s[k - 1]));
        lemma_param_smaller(s[k - 1]);
        let a = slots_param_seq(m.drop_last());
        let b = slots_param(m.last());
        assert forall|i: int| 0 <= i < slots_param_seq(m).len() implies decreases_to!(
            s => #[trigger] slots_param_seq(m)[i]
        ) by {
            if i < a.len() {
                assert(slots_param_seq(m)[i] == a[i]);
            } else {
                assert(slots_param_seq(m)[i] == b[i - a.len()]);
            }
        }
    }
}

proof fn lemma_param_seq_smaller(m: Seq<ParamView>)
    ensures
        forall|i: int| 0 <= i < slots_param_seq(m).len() ==> decreases_to!(
            m => #[trigger] slots_param_seq(m)[i]
        ),
{
    assert(m.take(m.len() as int) =~= m);
    lemma_param_seq_slots_smaller(m, m, m.len() as int);
}

pub open spec fn slots_fields(m: Seq<FieldView>) -> Seq<TypeView>
    decreases m.len(),
{
    if m.len() == 0 {
        Seq::empty()
    } else {
        slots_fields(m.drop_last()) + slots_field(m.last())
    }
}

pub open spec fn with_fields(m: Seq<FieldView>, ts: Seq<TypeView>) -> Seq<FieldView>
    decreases m.len(),
{
    if m.len() == 0 {
        Seq::empty()
    } else {
        let k = slots_field(m.last()).len();
        with_fields(m.drop_last(), front(ts, k)).push(with_field(m.last(), back(ts, k)))
    }
}

proof fn lemma_fields_lens(m: Seq<FieldView>, ts: Seq<TypeView>, us: Seq<TypeView>)
    requires
        ts.len() == slots_fields(m).len(),
        us.len() == ts.len(),
    ensures
        slots_fields(with_fields(m, ts)) == ts,
        with_fields(m, slots_fields(m)) == m,
        with_fields(with_fields(m, ts), us) == with_fields(m, us),
        with_fields(m, ts).len() == m.len(),
    decreases m.len(),
{
    if m.len() == 0 {
        assert(ts =~= Seq::empty());
        assert(with_fields(m, slots_fields(m)) =~= m);
    } else {
        let (s, x) = (m.drop_last(), m.last());
        let k = slots_field(x).len();
        lemma_fields_lens(s, front(ts, k), front(us, k));
        lemma_field_lens(x, back(ts, k), back(us, k));
        lemma_split(ts, k);
        lemma_join(slots_fields(s), slots_field(x));
        let w = with_fields(m, ts);
        assert(w.drop_last() =~= with_fields(s, front(ts, k)));
        assert(w.last() == with_field(x, back(ts, k)));
        assert(s.push(x) =~= m);
    }
}

proof fn lemma_fields_slots_smaller(m: Seq<FieldView>, s: Seq<FieldView>, k: int)
    requires
        0 <= k <= s.len(),
        m == s.take(k),
    ensures
        forall|i: int| 0 <= i < slots_fields(m).len() ==> decreases_to!(
            s => #[trigger] slots_fields(m)[i]
        ),
    decreases k,
{
    if k > 0 {
        assert(m.drop_last() =~= s.take(k - 1));
        lemma_fields_slots_smaller(m.drop_last(), s, k - 1);
        assert(m.last() == s[k - 1]);
        assert(decreases_to!(s => s[k - 1]));
        lemma_field_smaller(s[k - 1]);
        let a = slots_fields(m.drop_last());
        let b = slots_field(m.last());
        assert forall|i: int| 0 <= i < slots_fields(m).len() implies decreases_to!(
            s => #[trigger] slots_fields(m)[i]
        ) by {
            if i < a.len() {
                assert(slots_fields(m)[i] == a[i]);
            } else {
                assert(slots_fields(m)[i] == b[i - a.len()]);
            }
        }
    }
}

proof fn lemma_fields_smaller(m: Seq<FieldView>)
    ensures
        forall|i: int| 0 <= i < slots_fields(m).len() ==> decreases_to!(
            m => #[trigger] slots_fields(m)[i]
        ),
{
    assert(m.take(m.len() as int) =~= m);
    lemma_fields_slots_smaller(m, m, m.len() as int);
}

pub open spec fn slots_overloads(m: Seq<OverloadTypeView>) -> Seq<TypeView>
    decreases m.len(),
{
    if m.len() == 0 {
        Seq::empty()
    } else {
        slots_overloads(m.drop_last()) + slots_overload_type(m.last())
    }
}

pub open spec fn with_overloads(
    m: Seq<OverloadTypeView>,
    ts: Seq<TypeView>,
) -> Seq<OverloadTypeView>
    decreases m.len(),
{
    if m.len() == 0 {
        Seq::empty()
    } else {
        let k = slots_overload_type(m.last()).len();
        with_overloads(m.drop_last(), front(ts, k)).push(with_overload_type(m.last(), back(ts, k)))
    }
}

proof fn lemma_overloads_lens(m: Seq<OverloadTypeView>, ts: Seq<TypeView>, us: Seq<TypeView>)
    requires
        ts.len() == slots_overloads(m).len(),
        us.len() == ts.len(),
    ensures
        slots_overloads(with_overloads(m, ts)) == ts,
        with_overloads(m, slots_overloads(m)) == m,
        with_overloads(with_overloads(m, ts), us) == with_overloads(m, us),
        with_overloads(m, ts).len() == m.len(),
    decreases m.len(),
{
    if m.len() == 0 {
        assert(ts =~= Seq::empty());
        assert(with_overloads(m, slots_overloads(m)) =~= m);
    } else {
        let (s, x) = (m.drop_last(), m.last());
        let k = slots_overload_type(x).len();
        lemma_overloads_lens(s, front(ts, k), front(us, k));
        lemma_overload_type_lens(x, back(ts, k), back(us, k));
        lemma_split(ts, k);
        lemma_join(slots_overloads(s), slots_overload_type(x));
        let w = with_overloads(m, ts);
        assert(w.drop_last() =~= with_overloads(s, front(ts, k)));
        assert(w.last() == with_overload_type(x, back(ts, k)));
        assert(s.push(x) =~= m);
    }
}

pub open spec fn reached_overloads(m: Seq<OverloadTypeView>) -> Seq<TypeView>
    decreases m.len(),
{
    if m.len() == 0 {
        Seq::empty()
    } else {
        reached_overloads(m.drop_last()) + reached_overload_type(m.last())
    }
}

proof fn lemma_overloads_slots_smaller(m: Seq<OverloadTypeView>, s: Seq<OverloadTypeView>, k: int)
    requires
        0 <= k <= s.len(),
        m == s.take(k),
    ensures
        forall|i: int| 0 <= i < slots_overloads(m).len() ==> decreases_to!(
            s => #[trigger] slots_overloads(m)[i]
        ),
    decreases k,
{
    if k > 0 {
        assert(m.drop_last() =~= s.take(k - 1));
        lemma_overloads_slots_smaller(m.drop_last(), s, k - 1);
        assert(m.last() == s[k - 1]);
        assert(decreases_to!(s => s[k - 1]));
        lemma_overload_type_smaller(s[k - 1]);
        let a = slots_overloads(m.drop_last());
        let b = slots_overload_type(m.last());
        assert forall|i: int| 0 <= i < slots_overloads(m).len() implies decreases_to!(
            s => #[trigger] slots_overloads(m)[i]
        ) by {
            if i < a.len() {
                assert(slots_overloads(m)[i] == a[i]);
            } else {
                assert(slots_overloads(m)[i] == b[i - a.len()]);
            }
        }
    }
}

proof fn lemma_overloads_reached_smaller(m: Seq<OverloadTypeView>, s: Seq<OverloadTypeView>, k: int)
    requires
        0 <= k <= s.len(),
        m == s.take(k),
    ensures
        forall|i: int| 0 <= i < reached_overloads(m).len() ==> decreases_to!(
            s => #[trigger] reached_overloads(m)[i]
        ),
    decreases k,
{
    if k > 0 {
        assert(m.drop_last() =~= s.take(k - 1));
        lemma_overloads_reached_smaller(m.drop_last(), s, k - 1);
        assert(m.last() == s[k - 1]);
        assert(decreases_to!(s => s[k - 1]));
        lemma_overload_type_smaller(s[k - 1]);
        let a = reached_overloads(m.drop_last());
        let b = reached_overload_type(m.last());
        assert forall|i: int| 0 <= i < reached_overloads(m).len() implies decreases_to!(
            s => #[trigger] reached_overloads(m)[i]
        ) by {
            if i < a.len() {
                assert(reached_overloads(m)[i] == a[i]);
            } else {
                assert(reached_overloads(m)[i] == b[i - a.len()]);
            }
        }
    }
}

proof fn lemma_overloads_smaller(m: Seq<OverloadTypeView>)
    ensures
        forall|i: int| 0 <= i < reached_overloads(m).len() ==> decreases_to!(
            m => #[trigger] reached_overloads(m)[i]
        ),
        forall|i: int| 0 <= i < slots_overloads(m).len() ==> decreases_to!(
            m => #[trigger] slots_overloads(m)[i]
        ),
{
    assert(m.take(m.len() as int) =~= m);
    lemma_overloads_slots_smaller(m, m, m.len() as int);
    lemma_overloads_reached_smaller(m, m, m.len() as int);
}

pub open spec fn slots_dims(m: Seq<IntView>) -> Seq<TypeView>
    decreases m.len(),
{
    if m.len() == 0 {
        Seq::empty()
    } else {
        slots_dims(m.drop_last()) + slots_int(m.last())
    }
}

pub open spec fn with_dims(m: Seq<IntView>, ts: Seq<TypeView>) -> Seq<IntView>
    decreases m.len(),
{
    if m.len() == 0 {
        Seq::empty()
    } else {
        let k = slots_int(m.last()).len();
        with_dims(m.drop_last(), front(ts, k)).push(with_int(m.last(), back(ts, k)))
    }
}

proof fn lemma_dims_lens(m: Seq<IntView>, ts: Seq<TypeView>, us: Seq<TypeView>)
    requires
        ts.len() == slots_dims(m).len(),
        us.len() == ts.len(),
    ensures
        slots_dims(with_dims(m, ts)) == ts,
        with_dims(m, slots_dims(m)) == m,
        with_dims(with_dims(m, ts), us) == with_dims(m, us),
        with_dims(m, ts).len() == m.len(),
    decreases m.len(),
{
    if m.len() == 0 {
        assert(ts =~= Seq::empty());
        assert(with_dims(m, slots_dims(m)) =~= m);
    } else {
        let (s, x) = (m.drop_last(), m.last());
        let k = slots_int(x).len();
        lemma_dims_lens(s, front(ts, k), front(us, k));
        lemma_int_lens(x, back(ts, k), back(us, k));
        lemma_split(ts, k);
        lemma_join(slots_dims(s), slots_int(x));
        let w = with_dims(m, ts);
        assert(w.drop_last() =~= with_dims(s, front(ts, k)));
        assert(w.last() == with_int(x, back(ts, k)));
        assert(s.push(x) =~= m);
    }
}

proof fn lemma_dims_slots_smaller(m: Seq<IntView>, s: Seq<IntView>, k: int)
    requires
        0 <= k <= s.len(),
        m == s.take(k),
    ensures
        forall|i: int| 0 <= i < slots_dims(m).len() ==> decreases_to!(
            s => #[trigger] slots_dims(m)[i]
        ),
    decreases k,
{
    if k > 0 {
        assert(m.drop_last() =~= s.take(k - 1));
        lemma_dims_slots_smaller(m.drop_last(), s, k - 1);
        assert(m.last() == s[k - 1]);
        assert(decreases_to!(s => s[k - 1]));
        lemma_int_smaller(s[k - 1]);
        let a = slots_dims(m.drop_last());
        let b = slots_int(m.last());
        assert forall|i: int| 0 <= i < slots_dims(m).len() implies decreases_to!(
            s => #[trigger] slots_dims(m)[i]
        ) by {
            if i < a.len() {
                assert(slots_dims(m)[i] == a[i]);
            } else {
                assert(slots_dims(m)[i] == b[i - a.len()]);
            }
        }
    }
}

proof fn lemma_dims_smaller(m: Seq<IntView>)
    ensures
        forall|i: int| 0 <= i < slots_dims(m).len() ==> decreases_to!(
            m => #[trigger] slots_dims(m)[i]
        ),
{
    assert(m.take(m.len() as int) =~= m);
    lemma_dims_slots_smaller(m, m, m.len() as int);
}

pub open spec fn slots_quantifieds(m: Seq<QuantifiedView>) -> Seq<TypeView>
    decreases m.len(),
{
    if m.len() == 0 {
        Seq::empty()
    } else {
        slots_quantifieds(m.drop_last()) + slots_quantified(m.last())
    }
}

proof fn lemma_quantifieds_slots_smaller(m: Seq<QuantifiedView>, s: Seq<QuantifiedView>, k: int)
    requires
        0 <= k <= s.len(),
        m == s.take(k),
    ensures
        forall|i: int| 0 <= i < slots_quantifieds(m).len() ==> decreases_to!(
            s => #[trigger] slots_quantifieds(m)[i]
        ),
    decreases k,
{
    if k > 0 {
        assert(m.drop_last() =~= s.take(k - 1));
        lemma_quantifieds_slots_smaller(m.drop_last(), s, k - 1);
        assert(m.last() == s[k - 1]);
        assert(decreases_to!(s => s[k - 1]));
        lemma_quantified_smaller(s[k - 1]);
        let a = slots_quantifieds(m.drop_last());
        let b = slots_quantified(m.last());
        assert forall|i: int| 0 <= i < slots_quantifieds(m).len() implies decreases_to!(
            s => #[trigger] slots_quantifieds(m)[i]
        ) by {
            if i < a.len() {
                assert(slots_quantifieds(m)[i] == a[i]);
            } else {
                assert(slots_quantifieds(m)[i] == b[i - a.len()]);
            }
        }
    }
}

proof fn lemma_quantifieds_smaller(m: Seq<QuantifiedView>)
    ensures
        forall|i: int| 0 <= i < slots_quantifieds(m).len() ==> decreases_to!(
            m => #[trigger] slots_quantifieds(m)[i]
        ),
{
    assert(m.take(m.len() as int) =~= m);
    lemma_quantifieds_slots_smaller(m, m, m.len() as int);
}

/// A visit that may write leaves type parameters alone.
#[verifier::opaque]
pub open spec fn slots_forall_function(m: ForallView<FunctionView>) -> Seq<TypeView> {
    slots_function(m.body)
}

#[verifier::opaque]
pub open spec fn with_forall_function(
    m: ForallView<FunctionView>,
    ts: Seq<TypeView>,
) -> ForallView<FunctionView> {
    ForallView { body: with_function(m.body, ts), ..m }
}

/// A visit that reads sees the types in type parameters too.
#[verifier::opaque]
pub open spec fn reached_forall_function(m: ForallView<FunctionView>) -> Seq<TypeView> {
    slots_quantifieds(m.tparams) + slots_function(m.body)
}

proof fn lemma_forall_function_lens(
    m: ForallView<FunctionView>,
    ts: Seq<TypeView>,
    us: Seq<TypeView>,
)
    requires
        ts.len() == slots_forall_function(m).len(),
        us.len() == ts.len(),
    ensures
        slots_forall_function(with_forall_function(m, ts)) == ts,
        with_forall_function(m, slots_forall_function(m)) == m,
        with_forall_function(with_forall_function(m, ts), us) == with_forall_function(m, us),
{
    reveal(slots_forall_function);
    reveal(with_forall_function);
    lemma_function_lens(m.body, ts, us);
}

proof fn lemma_forall_function_smaller(m: ForallView<FunctionView>)
    ensures
        forall|i: int| 0 <= i < reached_forall_function(m).len() ==> decreases_to!(
            m => #[trigger] reached_forall_function(m)[i]
        ),
        forall|i: int| 0 <= i < slots_forall_function(m).len() ==> decreases_to!(
            m => #[trigger] slots_forall_function(m)[i]
        ),
{
    reveal(slots_forall_function);
    reveal(reached_forall_function);
    lemma_forall_function_parts(m);
    lemma_quantifieds_smaller(m.tparams);
    lemma_function_smaller(m.body);
    let (a, b) = (slots_quantifieds(m.tparams), slots_function(m.body));
    assert forall|i: int| 0 <= i < reached_forall_function(m).len() implies decreases_to!(
        m => #[trigger] reached_forall_function(m)[i]
    ) by {
        if i < a.len() {
            assert(reached_forall_function(m)[i] == a[i]);
        } else {
            assert(reached_forall_function(m)[i] == b[i - a.len()]);
        }
    }
}

/// A visit that may write leaves type parameters alone.
#[verifier::opaque]
pub open spec fn slots_forall_forallable(m: ForallView<ForallableView>) -> Seq<TypeView> {
    slots_forallable(m.body)
}

#[verifier::opaque]
pub open spec fn with_forall_forallable(
    m: ForallView<ForallableView>,
    ts: Seq<TypeView>,
) -> ForallView<ForallableView> {
    ForallView { body: with_forallable(m.body, ts), ..m }
}

/// A visit that reads sees the types in type parameters too.
#[verifier::opaque]
pub open spec fn reached_forall_forallable(m: ForallView<ForallableView>) -> Seq<TypeView> {
    slots_quantifieds(m.tparams) + slots_forallable(m.body)
}

proof fn lemma_forall_forallable_lens(
    m: ForallView<ForallableView>,
    ts: Seq<TypeView>,
    us: Seq<TypeView>,
)
    requires
        ts.len() == slots_forall_forallable(m).len(),
        us.len() == ts.len(),
    ensures
        slots_forall_forallable(with_forall_forallable(m, ts)) == ts,
        with_forall_forallable(m, slots_forall_forallable(m)) == m,
        with_forall_forallable(with_forall_forallable(m, ts), us) == with_forall_forallable(m, us),
{
    reveal(slots_forall_forallable);
    reveal(with_forall_forallable);
    lemma_forallable_lens(m.body, ts, us);
}

proof fn lemma_forall_forallable_smaller(m: ForallView<ForallableView>)
    ensures
        forall|i: int| 0 <= i < reached_forall_forallable(m).len() ==> decreases_to!(
            m => #[trigger] reached_forall_forallable(m)[i]
        ),
        forall|i: int| 0 <= i < slots_forall_forallable(m).len() ==> decreases_to!(
            m => #[trigger] slots_forall_forallable(m)[i]
        ),
{
    reveal(slots_forall_forallable);
    reveal(reached_forall_forallable);
    lemma_forall_forallable_parts(m);
    lemma_quantifieds_smaller(m.tparams);
    lemma_forallable_smaller(m.body);
    let (a, b) = (slots_quantifieds(m.tparams), slots_forallable(m.body));
    assert forall|i: int| 0 <= i < reached_forall_forallable(m).len() implies decreases_to!(
        m => #[trigger] reached_forall_forallable(m)[i]
    ) by {
        if i < a.len() {
            assert(reached_forall_forallable(m)[i] == a[i]);
        } else {
            assert(reached_forall_forallable(m)[i] == b[i - a.len()]);
        }
    }
}

#[verifier::opaque]
pub open spec fn slots_restriction(m: RestrictionView) -> Seq<TypeView> {
    match m {
        RestrictionView::Bound(a) => slots_one(a),
        RestrictionView::Constraints(a) => slots_many(a),
        _ => Seq::empty(),
    }
}

#[verifier::opaque]
pub open spec fn with_restriction(m: RestrictionView, ts: Seq<TypeView>) -> RestrictionView {
    match m {
        RestrictionView::Bound(a) => RestrictionView::Bound(with_one(a, ts)),
        RestrictionView::Constraints(a) => RestrictionView::Constraints(with_many(a, ts)),
        _ => m,
    }
}

proof fn lemma_restriction_lens(m: RestrictionView, ts: Seq<TypeView>, us: Seq<TypeView>)
    requires
        ts.len() == slots_restriction(m).len(),
        us.len() == ts.len(),
    ensures
        slots_restriction(with_restriction(m, ts)) == ts,
        with_restriction(m, slots_restriction(m)) == m,
        with_restriction(with_restriction(m, ts), us) == with_restriction(m, us),
{
    reveal(slots_restriction);
    reveal(with_restriction);
    match m {
        RestrictionView::Bound(a) => {
            lemma_one_lens(a, ts, us);
        },
        RestrictionView::Constraints(a) => {
            lemma_many_lens(a, ts, us);
        },
        _ => {
            assert(ts =~= Seq::empty());
        },
    }
}

proof fn lemma_restriction_smaller(m: RestrictionView)
    ensures
        forall|i: int| 0 <= i < slots_restriction(m).len() ==> decreases_to!(
            m => #[trigger] slots_restriction(m)[i]
        ),
{
    reveal(slots_restriction);
    lemma_restriction_parts(m);
    match m {
        RestrictionView::Bound(a) => {
        },
        RestrictionView::Constraints(a) => {
            lemma_many_smaller(a);
        },
        _ => {},
    }
}

#[verifier::opaque]
pub open spec fn slots_quantified(m: QuantifiedView) -> Seq<TypeView> {
    slots_opt_one(m.default) + slots_restriction(m.restriction)
}

#[verifier::opaque]
pub open spec fn with_quantified(m: QuantifiedView, ts: Seq<TypeView>) -> QuantifiedView {
    let n1 = slots_restriction(m.restriction).len();
    let r1 = front(ts, n1);
    QuantifiedView {
        default: with_opt_one(m.default, r1),
        restriction: with_restriction(m.restriction, back(ts, n1)),
        ..m
    }
}

proof fn lemma_quantified_lens(m: QuantifiedView, ts: Seq<TypeView>, us: Seq<TypeView>)
    requires
        ts.len() == slots_quantified(m).len(),
        us.len() == ts.len(),
    ensures
        slots_quantified(with_quantified(m, ts)) == ts,
        with_quantified(m, slots_quantified(m)) == m,
        with_quantified(with_quantified(m, ts), us) == with_quantified(m, us),
{
    reveal(slots_quantified);
    reveal(with_quantified);
    let n1 = slots_restriction(m.restriction).len();
    lemma_restriction_lens(m.restriction, back(ts, n1), back(us, n1));
    lemma_split(ts, n1);
    lemma_join(slots_opt_one(m.default), slots_restriction(m.restriction));
    let (r1, u1) = (front(ts, n1), front(us, n1));
    lemma_opt_one_lens(m.default, r1, u1);
}

proof fn lemma_quantified_smaller(m: QuantifiedView)
    ensures
        forall|i: int| 0 <= i < slots_quantified(m).len() ==> decreases_to!(
            m => #[trigger] slots_quantified(m)[i]
        ),
{
    reveal(slots_quantified);
    lemma_quantified_parts(m);
    lemma_restriction_smaller(m.restriction);
    let p0 = slots_opt_one(m.default);
    let p1 = slots_restriction(m.restriction);
    assert forall|i: int| 0 <= i < slots_quantified(m).len() implies decreases_to!(
        m => #[trigger] slots_quantified(m)[i]
    ) by {
        if i < p0.len() {
            assert(slots_quantified(m)[i] == p0[i]);
        } else {
            assert(slots_quantified(m)[i] == p1[i - p0.len()]);
        }
    }
}

#[verifier::opaque]
pub open spec fn slots_targs(m: TArgsView) -> Seq<TypeView> {
    slots_many(m.args)
}

#[verifier::opaque]
pub open spec fn with_targs(m: TArgsView, ts: Seq<TypeView>) -> TArgsView {
    TArgsView { args: with_many(m.args, ts), ..m }
}

proof fn lemma_targs_lens(m: TArgsView, ts: Seq<TypeView>, us: Seq<TypeView>)
    requires
        ts.len() == slots_targs(m).len(),
        us.len() == ts.len(),
    ensures
        slots_targs(with_targs(m, ts)) == ts,
        with_targs(m, slots_targs(m)) == m,
        with_targs(with_targs(m, ts), us) == with_targs(m, us),
{
    reveal(slots_targs);
    reveal(with_targs);
    lemma_many_lens(m.args, ts, us);
}

proof fn lemma_targs_smaller(m: TArgsView)
    ensures
        forall|i: int| 0 <= i < slots_targs(m).len() ==> decreases_to!(
            m => #[trigger] slots_targs(m)[i]
        ),
{
    reveal(slots_targs);
    lemma_targs_parts(m);
    lemma_many_smaller(m.args);
}

#[verifier::opaque]
pub open spec fn slots_class_type(m: ClassTypeView) -> Seq<TypeView> {
    slots_targs(m.targs)
}

#[verifier::opaque]
pub open spec fn with_class_type(m: ClassTypeView, ts: Seq<TypeView>) -> ClassTypeView {
    ClassTypeView { targs: with_targs(m.targs, ts), ..m }
}

proof fn lemma_class_type_lens(m: ClassTypeView, ts: Seq<TypeView>, us: Seq<TypeView>)
    requires
        ts.len() == slots_class_type(m).len(),
        us.len() == ts.len(),
    ensures
        slots_class_type(with_class_type(m, ts)) == ts,
        with_class_type(m, slots_class_type(m)) == m,
        with_class_type(with_class_type(m, ts), us) == with_class_type(m, us),
{
    reveal(slots_class_type);
    reveal(with_class_type);
    lemma_targs_lens(m.targs, ts, us);
}

proof fn lemma_class_type_smaller(m: ClassTypeView)
    ensures
        forall|i: int| 0 <= i < slots_class_type(m).len() ==> decreases_to!(
            m => #[trigger] slots_class_type(m)[i]
        ),
{
    reveal(slots_class_type);
    lemma_class_type_parts(m);
    lemma_targs_smaller(m.targs);
}

#[verifier::opaque]
pub open spec fn slots_lit_enum(m: LitEnumView) -> Seq<TypeView> {
    slots_class_type(m.class)
}

#[verifier::opaque]
pub open spec fn with_lit_enum(m: LitEnumView, ts: Seq<TypeView>) -> LitEnumView {
    LitEnumView { class: with_class_type(m.class, ts), ..m }
}

proof fn lemma_lit_enum_lens(m: LitEnumView, ts: Seq<TypeView>, us: Seq<TypeView>)
    requires
        ts.len() == slots_lit_enum(m).len(),
        us.len() == ts.len(),
    ensures
        slots_lit_enum(with_lit_enum(m, ts)) == ts,
        with_lit_enum(m, slots_lit_enum(m)) == m,
        with_lit_enum(with_lit_enum(m, ts), us) == with_lit_enum(m, us),
{
    reveal(slots_lit_enum);
    reveal(with_lit_enum);
    lemma_class_type_lens(m.class, ts, us);
}

proof fn lemma_lit_enum_smaller(m: LitEnumView)
    ensures
        forall|i: int| 0 <= i < slots_lit_enum(m).len() ==> decreases_to!(
            m => #[trigger] slots_lit_enum(m)[i]
        ),
{
    reveal(slots_lit_enum);
    lemma_lit_enum_parts(m);
    lemma_class_type_smaller(m.class);
}

#[verifier::opaque]
pub open spec fn slots_lit(m: LitView) -> Seq<TypeView> {
    match m {
        LitView::Enum(a) => slots_lit_enum(*a),
        _ => Seq::empty(),
    }
}

#[verifier::opaque]
pub open spec fn with_lit(m: LitView, ts: Seq<TypeView>) -> LitView {
    match m {
        LitView::Enum(a) => LitView::Enum(Box::new(with_lit_enum(*a, ts))),
        _ => m,
    }
}

proof fn lemma_lit_lens(m: LitView, ts: Seq<TypeView>, us: Seq<TypeView>)
    requires
        ts.len() == slots_lit(m).len(),
        us.len() == ts.len(),
    ensures
        slots_lit(with_lit(m, ts)) == ts,
        with_lit(m, slots_lit(m)) == m,
        with_lit(with_lit(m, ts), us) == with_lit(m, us),
{
    reveal(slots_lit);
    reveal(with_lit);
    match m {
        LitView::Enum(a) => {
            lemma_lit_enum_lens(*a, ts, us);
        },
        _ => {
            assert(ts =~= Seq::empty());
        },
    }
}

proof fn lemma_lit_smaller(m: LitView)
    ensures
        forall|i: int| 0 <= i < slots_lit(m).len() ==> decreases_to!(
            m => #[trigger] slots_lit(m)[i]
        ),
{
    reveal(slots_lit);
    lemma_lit_parts(m);
    match m {
        LitView::Enum(a) => {
            lemma_lit_enum_smaller(*a);
        },
        _ => {},
    }
}

#[verifier::opaque]
pub open spec fn slots_literal(m: LiteralView) -> Seq<TypeView> {
    slots_lit(m.value)
}

#[verifier::opaque]
pub open spec fn with_literal(m: LiteralView, ts: Seq<TypeView>) -> LiteralView {
    LiteralView { value: with_lit(m.value, ts), ..m }
}

proof fn lemma_literal_lens(m: LiteralView, ts: Seq<TypeView>, us: Seq<TypeView>)
    requires
        ts.len() == slots_literal(m).len(),
        us.len() == ts.len(),
    ensures
        slots_literal(with_literal(m, ts)) == ts,
        with_literal(m, slots_literal(m)) == m,
        with_literal(with_literal(m, ts), us) == with_literal(m, us),
{
    reveal(slots_literal);
    reveal(with_literal);
    lemma_lit_lens(m.value, ts, us);
}

proof fn lemma_literal_smaller(m: LiteralView)
    ensures
        forall|i: int| 0 <= i < slots_literal(m).len() ==> decreases_to!(
            m => #[trigger] slots_literal(m)[i]
        ),
{
    reveal(slots_literal);
    lemma_literal_parts(m);
    lemma_lit_smaller(m.value);
}

#[verifier::opaque]
pub open spec fn slots_param(m: ParamView) -> Seq<TypeView> {
    slots_one(m.ty)
}

#[verifier::opaque]
pub open spec fn with_param(m: ParamView, ts: Seq<TypeView>) -> ParamView {
    ParamView { ty: with_one(m.ty, ts), ..m }
}

proof fn lemma_param_lens(m: ParamView, ts: Seq<TypeView>, us: Seq<TypeView>)
    requires
        ts.len() == slots_param(m).len(),
        us.len() == ts.len(),
    ensures
        slots_param(with_param(m, ts)) == ts,
        with_param(m, slots_param(m)) == m,
        with_param(with_param(m, ts), us) == with_param(m, us),
{
    reveal(slots_param);
    reveal(with_param);
    lemma_one_lens(m.ty, ts, us);
}

proof fn lemma_param_smaller(m: ParamView)
    ensures
        forall|i: int| 0 <= i < slots_param(m).len() ==> decreases_to!(
            m => #[trigger] slots_param(m)[i]
        ),
{
    reveal(slots_param);
    lemma_param_parts(m);
}

#[verifier::opaque]
pub open spec fn slots_params(m: ParamsView) -> Seq<TypeView> {
    match m {
        ParamsView::List(a) => slots_param_seq(a),
        ParamsView::ParamSpec(a, b) => slots_param_seq(a) + slots_one(b),
        _ => Seq::empty(),
    }
}

#[verifier::opaque]
pub open spec fn with_params(m: ParamsView, ts: Seq<TypeView>) -> ParamsView {
    match m {
        ParamsView::List(a) => ParamsView::List(with_param_seq(a, ts)),
        ParamsView::ParamSpec(a, b) => {
            let n1 = slots_one(b).len();
            let r1 = front(ts, n1);
            ParamsView::ParamSpec(with_param_seq(a, r1), with_one(b, back(ts, n1)))
        },
        _ => m,
    }
}

proof fn lemma_params_lens(m: ParamsView, ts: Seq<TypeView>, us: Seq<TypeView>)
    requires
        ts.len() == slots_params(m).len(),
        us.len() == ts.len(),
    ensures
        slots_params(with_params(m, ts)) == ts,
        with_params(m, slots_params(m)) == m,
        with_params(with_params(m, ts), us) == with_params(m, us),
{
    reveal(slots_params);
    reveal(with_params);
    match m {
        ParamsView::List(a) => {
            lemma_param_seq_lens(a, ts, us);
        },
        ParamsView::ParamSpec(a, b) => {
            let n1 = slots_one(b).len();
            lemma_one_lens(b, back(ts, n1), back(us, n1));
            lemma_split(ts, n1);
            lemma_join(slots_param_seq(a), slots_one(b));
            let (r1, u1) = (front(ts, n1), front(us, n1));
            lemma_param_seq_lens(a, r1, u1);
        },
        _ => {
            assert(ts =~= Seq::empty());
        },
    }
}

proof fn lemma_params_smaller(m: ParamsView)
    ensures
        forall|i: int| 0 <= i < slots_params(m).len() ==> decreases_to!(
            m => #[trigger] slots_params(m)[i]
        ),
{
    reveal(slots_params);
    lemma_params_parts(m);
    match m {
        ParamsView::List(a) => {
            lemma_param_seq_smaller(a);
        },
        ParamsView::ParamSpec(a, b) => {
            lemma_param_seq_smaller(a);
            let p0 = slots_param_seq(a);
            let p1 = slots_one(b);
            assert forall|i: int| 0 <= i < slots_params(m).len() implies decreases_to!(
                m => #[trigger] slots_params(m)[i]
            ) by {
                if i < p0.len() {
                    assert(slots_params(m)[i] == p0[i]);
                } else {
                    assert(slots_params(m)[i] == p1[i - p0.len()]);
                }
            }
        },
        _ => {},
    }
}

#[verifier::opaque]
pub open spec fn slots_callable(m: CallableView) -> Seq<TypeView> {
    slots_params(m.params) + slots_one(m.ret)
}

#[verifier::opaque]
pub open spec fn with_callable(m: CallableView, ts: Seq<TypeView>) -> CallableView {
    let n1 = slots_one(m.ret).len();
    let r1 = front(ts, n1);
    CallableView { params: with_params(m.params, r1), ret: with_one(m.ret, back(ts, n1)) }
}

proof fn lemma_callable_lens(m: CallableView, ts: Seq<TypeView>, us: Seq<TypeView>)
    requires
        ts.len() == slots_callable(m).len(),
        us.len() == ts.len(),
    ensures
        slots_callable(with_callable(m, ts)) == ts,
        with_callable(m, slots_callable(m)) == m,
        with_callable(with_callable(m, ts), us) == with_callable(m, us),
{
    reveal(slots_callable);
    reveal(with_callable);
    let n1 = slots_one(m.ret).len();
    lemma_one_lens(m.ret, back(ts, n1), back(us, n1));
    lemma_split(ts, n1);
    lemma_join(slots_params(m.params), slots_one(m.ret));
    let (r1, u1) = (front(ts, n1), front(us, n1));
    lemma_params_lens(m.params, r1, u1);
}

proof fn lemma_callable_smaller(m: CallableView)
    ensures
        forall|i: int| 0 <= i < slots_callable(m).len() ==> decreases_to!(
            m => #[trigger] slots_callable(m)[i]
        ),
{
    reveal(slots_callable);
    lemma_callable_parts(m);
    lemma_params_smaller(m.params);
    let p0 = slots_params(m.params);
    let p1 = slots_one(m.ret);
    assert forall|i: int| 0 <= i < slots_callable(m).len() implies decreases_to!(
        m => #[trigger] slots_callable(m)[i]
    ) by {
        if i < p0.len() {
            assert(slots_callable(m)[i] == p0[i]);
        } else {
            assert(slots_callable(m)[i] == p1[i - p0.len()]);
        }
    }
}

#[verifier::opaque]
pub open spec fn slots_property_metadata(m: PropertyMetadataView) -> Seq<TypeView> {
    slots_one(m.getter)
}

#[verifier::opaque]
pub open spec fn with_property_metadata(
    m: PropertyMetadataView,
    ts: Seq<TypeView>,
) -> PropertyMetadataView {
    PropertyMetadataView { getter: with_one(m.getter, ts), ..m }
}

proof fn lemma_property_metadata_lens(m: PropertyMetadataView, ts: Seq<TypeView>, us: Seq<TypeView>)
    requires
        ts.len() == slots_property_metadata(m).len(),
        us.len() == ts.len(),
    ensures
        slots_property_metadata(with_property_metadata(m, ts)) == ts,
        with_property_metadata(m, slots_property_metadata(m)) == m,
        with_property_metadata(with_property_metadata(m, ts), us) == with_property_metadata(m, us),
{
    reveal(slots_property_metadata);
    reveal(with_property_metadata);
    lemma_one_lens(m.getter, ts, us);
}

proof fn lemma_property_metadata_smaller(m: PropertyMetadataView)
    ensures
        forall|i: int| 0 <= i < slots_property_metadata(m).len() ==> decreases_to!(
            m => #[trigger] slots_property_metadata(m)[i]
        ),
{
    reveal(slots_property_metadata);
    lemma_property_metadata_parts(m);
}

#[verifier::opaque]
pub open spec fn slots_func_flags(m: FuncFlagsView) -> Seq<TypeView> {
    slots_opt_property_metadata(m.property_metadata)
}

#[verifier::opaque]
pub open spec fn with_func_flags(m: FuncFlagsView, ts: Seq<TypeView>) -> FuncFlagsView {
    FuncFlagsView { property_metadata: with_opt_property_metadata(m.property_metadata, ts), ..m }
}

proof fn lemma_func_flags_lens(m: FuncFlagsView, ts: Seq<TypeView>, us: Seq<TypeView>)
    requires
        ts.len() == slots_func_flags(m).len(),
        us.len() == ts.len(),
    ensures
        slots_func_flags(with_func_flags(m, ts)) == ts,
        with_func_flags(m, slots_func_flags(m)) == m,
        with_func_flags(with_func_flags(m, ts), us) == with_func_flags(m, us),
{
    reveal(slots_func_flags);
    reveal(with_func_flags);
    lemma_opt_property_metadata_lens(m.property_metadata, ts, us);
}

proof fn lemma_func_flags_smaller(m: FuncFlagsView)
    ensures
        forall|i: int| 0 <= i < slots_func_flags(m).len() ==> decreases_to!(
            m => #[trigger] slots_func_flags(m)[i]
        ),
{
    reveal(slots_func_flags);
    lemma_func_flags_parts(m);
    if let Some(x) = m.property_metadata {
        lemma_property_metadata_smaller(x);
    }
}

#[verifier::opaque]
pub open spec fn slots_func_metadata(m: FuncMetadataView) -> Seq<TypeView> {
    slots_func_flags(m.flags)
}

#[verifier::opaque]
pub open spec fn with_func_metadata(m: FuncMetadataView, ts: Seq<TypeView>) -> FuncMetadataView {
    FuncMetadataView { flags: with_func_flags(m.flags, ts), ..m }
}

proof fn lemma_func_metadata_lens(m: FuncMetadataView, ts: Seq<TypeView>, us: Seq<TypeView>)
    requires
        ts.len() == slots_func_metadata(m).len(),
        us.len() == ts.len(),
    ensures
        slots_func_metadata(with_func_metadata(m, ts)) == ts,
        with_func_metadata(m, slots_func_metadata(m)) == m,
        with_func_metadata(with_func_metadata(m, ts), us) == with_func_metadata(m, us),
{
    reveal(slots_func_metadata);
    reveal(with_func_metadata);
    lemma_func_flags_lens(m.flags, ts, us);
}

proof fn lemma_func_metadata_smaller(m: FuncMetadataView)
    ensures
        forall|i: int| 0 <= i < slots_func_metadata(m).len() ==> decreases_to!(
            m => #[trigger] slots_func_metadata(m)[i]
        ),
{
    reveal(slots_func_metadata);
    lemma_func_metadata_parts(m);
    lemma_func_flags_smaller(m.flags);
}

#[verifier::opaque]
pub open spec fn slots_function(m: FunctionView) -> Seq<TypeView> {
    slots_callable(m.signature) + slots_func_metadata(m.metadata)
}

#[verifier::opaque]
pub open spec fn with_function(m: FunctionView, ts: Seq<TypeView>) -> FunctionView {
    let n1 = slots_func_metadata(m.metadata).len();
    let r1 = front(ts, n1);
    FunctionView {
        signature: with_callable(m.signature, r1),
        metadata: with_func_metadata(m.metadata, back(ts, n1)),
    }
}

proof fn lemma_function_lens(m: FunctionView, ts: Seq<TypeView>, us: Seq<TypeView>)
    requires
        ts.len() == slots_function(m).len(),
        us.len() == ts.len(),
    ensures
        slots_function(with_function(m, ts)) == ts,
        with_function(m, slots_function(m)) == m,
        with_function(with_function(m, ts), us) == with_function(m, us),
{
    reveal(slots_function);
    reveal(with_function);
    let n1 = slots_func_metadata(m.metadata).len();
    lemma_func_metadata_lens(m.metadata, back(ts, n1), back(us, n1));
    lemma_split(ts, n1);
    lemma_join(slots_callable(m.signature), slots_func_metadata(m.metadata));
    let (r1, u1) = (front(ts, n1), front(us, n1));
    lemma_callable_lens(m.signature, r1, u1);
}

proof fn lemma_function_smaller(m: FunctionView)
    ensures
        forall|i: int| 0 <= i < slots_function(m).len() ==> decreases_to!(
            m => #[trigger] slots_function(m)[i]
        ),
{
    reveal(slots_function);
    lemma_function_parts(m);
    lemma_callable_smaller(m.signature);
    lemma_func_metadata_smaller(m.metadata);
    let p0 = slots_callable(m.signature);
    let p1 = slots_func_metadata(m.metadata);
    assert forall|i: int| 0 <= i < slots_function(m).len() implies decreases_to!(
        m => #[trigger] slots_function(m)[i]
    ) by {
        if i < p0.len() {
            assert(slots_function(m)[i] == p0[i]);
        } else {
            assert(slots_function(m)[i] == p1[i - p0.len()]);
        }
    }
}

#[verifier::opaque]
pub open spec fn slots_type_alias(m: TypeAliasView) -> Seq<TypeView> {
    slots_one(m.ty)
}

#[verifier::opaque]
pub open spec fn with_type_alias(m: TypeAliasView, ts: Seq<TypeView>) -> TypeAliasView {
    TypeAliasView { ty: with_one(m.ty, ts), ..m }
}

proof fn lemma_type_alias_lens(m: TypeAliasView, ts: Seq<TypeView>, us: Seq<TypeView>)
    requires
        ts.len() == slots_type_alias(m).len(),
        us.len() == ts.len(),
    ensures
        slots_type_alias(with_type_alias(m, ts)) == ts,
        with_type_alias(m, slots_type_alias(m)) == m,
        with_type_alias(with_type_alias(m, ts), us) == with_type_alias(m, us),
{
    reveal(slots_type_alias);
    reveal(with_type_alias);
    lemma_one_lens(m.ty, ts, us);
}

proof fn lemma_type_alias_smaller(m: TypeAliasView)
    ensures
        forall|i: int| 0 <= i < slots_type_alias(m).len() ==> decreases_to!(
            m => #[trigger] slots_type_alias(m)[i]
        ),
{
    reveal(slots_type_alias);
    lemma_type_alias_parts(m);
}

#[verifier::opaque]
pub open spec fn slots_type_alias_ref(m: TypeAliasRefView) -> Seq<TypeView> {
    slots_opt_targs(m.args)
}

#[verifier::opaque]
pub open spec fn with_type_alias_ref(m: TypeAliasRefView, ts: Seq<TypeView>) -> TypeAliasRefView {
    TypeAliasRefView { args: with_opt_targs(m.args, ts), ..m }
}

proof fn lemma_type_alias_ref_lens(m: TypeAliasRefView, ts: Seq<TypeView>, us: Seq<TypeView>)
    requires
        ts.len() == slots_type_alias_ref(m).len(),
        us.len() == ts.len(),
    ensures
        slots_type_alias_ref(with_type_alias_ref(m, ts)) == ts,
        with_type_alias_ref(m, slots_type_alias_ref(m)) == m,
        with_type_alias_ref(with_type_alias_ref(m, ts), us) == with_type_alias_ref(m, us),
{
    reveal(slots_type_alias_ref);
    reveal(with_type_alias_ref);
    lemma_opt_targs_lens(m.args, ts, us);
}

proof fn lemma_type_alias_ref_smaller(m: TypeAliasRefView)
    ensures
        forall|i: int| 0 <= i < slots_type_alias_ref(m).len() ==> decreases_to!(
            m => #[trigger] slots_type_alias_ref(m)[i]
        ),
{
    reveal(slots_type_alias_ref);
    lemma_type_alias_ref_parts(m);
    if let Some(x) = m.args {
        lemma_targs_smaller(x);
    }
}

#[verifier::opaque]
pub open spec fn slots_type_alias_data(m: TypeAliasDataView) -> Seq<TypeView> {
    match m {
        TypeAliasDataView::Value(a) => slots_type_alias(a),
        TypeAliasDataView::Ref(a) => slots_type_alias_ref(a),
    }
}

#[verifier::opaque]
pub open spec fn with_type_alias_data(
    m: TypeAliasDataView,
    ts: Seq<TypeView>,
) -> TypeAliasDataView {
    match m {
        TypeAliasDataView::Value(a) => TypeAliasDataView::Value(with_type_alias(a, ts)),
        TypeAliasDataView::Ref(a) => TypeAliasDataView::Ref(with_type_alias_ref(a, ts)),
    }
}

proof fn lemma_type_alias_data_lens(m: TypeAliasDataView, ts: Seq<TypeView>, us: Seq<TypeView>)
    requires
        ts.len() == slots_type_alias_data(m).len(),
        us.len() == ts.len(),
    ensures
        slots_type_alias_data(with_type_alias_data(m, ts)) == ts,
        with_type_alias_data(m, slots_type_alias_data(m)) == m,
        with_type_alias_data(with_type_alias_data(m, ts), us) == with_type_alias_data(m, us),
{
    reveal(slots_type_alias_data);
    reveal(with_type_alias_data);
    match m {
        TypeAliasDataView::Value(a) => {
            lemma_type_alias_lens(a, ts, us);
        },
        TypeAliasDataView::Ref(a) => {
            lemma_type_alias_ref_lens(a, ts, us);
        },
    }
}

proof fn lemma_type_alias_data_smaller(m: TypeAliasDataView)
    ensures
        forall|i: int| 0 <= i < slots_type_alias_data(m).len() ==> decreases_to!(
            m => #[trigger] slots_type_alias_data(m)[i]
        ),
{
    reveal(slots_type_alias_data);
    lemma_type_alias_data_parts(m);
    match m {
        TypeAliasDataView::Value(a) => {
            lemma_type_alias_smaller(a);
        },
        TypeAliasDataView::Ref(a) => {
            lemma_type_alias_ref_smaller(a);
        },
    }
}

#[verifier::opaque]
pub open spec fn slots_forallable(m: ForallableView) -> Seq<TypeView> {
    match m {
        ForallableView::TypeAlias(a) => slots_type_alias_data(a),
        ForallableView::Function(a) => slots_function(a),
        ForallableView::Callable(a) => slots_callable(a),
    }
}

#[verifier::opaque]
pub open spec fn with_forallable(m: ForallableView, ts: Seq<TypeView>) -> ForallableView {
    match m {
        ForallableView::TypeAlias(a) => ForallableView::TypeAlias(with_type_alias_data(a, ts)),
        ForallableView::Function(a) => ForallableView::Function(with_function(a, ts)),
        ForallableView::Callable(a) => ForallableView::Callable(with_callable(a, ts)),
    }
}

proof fn lemma_forallable_lens(m: ForallableView, ts: Seq<TypeView>, us: Seq<TypeView>)
    requires
        ts.len() == slots_forallable(m).len(),
        us.len() == ts.len(),
    ensures
        slots_forallable(with_forallable(m, ts)) == ts,
        with_forallable(m, slots_forallable(m)) == m,
        with_forallable(with_forallable(m, ts), us) == with_forallable(m, us),
{
    reveal(slots_forallable);
    reveal(with_forallable);
    match m {
        ForallableView::TypeAlias(a) => {
            lemma_type_alias_data_lens(a, ts, us);
        },
        ForallableView::Function(a) => {
            lemma_function_lens(a, ts, us);
        },
        ForallableView::Callable(a) => {
            lemma_callable_lens(a, ts, us);
        },
    }
}

proof fn lemma_forallable_smaller(m: ForallableView)
    ensures
        forall|i: int| 0 <= i < slots_forallable(m).len() ==> decreases_to!(
            m => #[trigger] slots_forallable(m)[i]
        ),
{
    reveal(slots_forallable);
    lemma_forallable_parts(m);
    match m {
        ForallableView::TypeAlias(a) => {
            lemma_type_alias_data_smaller(a);
        },
        ForallableView::Function(a) => {
            lemma_function_smaller(a);
        },
        ForallableView::Callable(a) => {
            lemma_callable_smaller(a);
        },
    }
}

#[verifier::opaque]
pub open spec fn slots_overload_type(m: OverloadTypeView) -> Seq<TypeView> {
    match m {
        OverloadTypeView::Function(a) => slots_function(a),
        OverloadTypeView::Forall(a) => slots_forall_function(a),
    }
}

#[verifier::opaque]
pub open spec fn with_overload_type(m: OverloadTypeView, ts: Seq<TypeView>) -> OverloadTypeView {
    match m {
        OverloadTypeView::Function(a) => OverloadTypeView::Function(with_function(a, ts)),
        OverloadTypeView::Forall(a) => OverloadTypeView::Forall(with_forall_function(a, ts)),
    }
}

#[verifier::opaque]
pub open spec fn reached_overload_type(m: OverloadTypeView) -> Seq<TypeView> {
    match m {
        OverloadTypeView::Function(a) => slots_function(a),
        OverloadTypeView::Forall(a) => reached_forall_function(a),
    }
}

proof fn lemma_overload_type_lens(m: OverloadTypeView, ts: Seq<TypeView>, us: Seq<TypeView>)
    requires
        ts.len() == slots_overload_type(m).len(),
        us.len() == ts.len(),
    ensures
        slots_overload_type(with_overload_type(m, ts)) == ts,
        with_overload_type(m, slots_overload_type(m)) == m,
        with_overload_type(with_overload_type(m, ts), us) == with_overload_type(m, us),
{
    reveal(slots_overload_type);
    reveal(with_overload_type);
    match m {
        OverloadTypeView::Function(a) => {
            lemma_function_lens(a, ts, us);
        },
        OverloadTypeView::Forall(a) => {
            lemma_forall_function_lens(a, ts, us);
        },
    }
}

proof fn lemma_overload_type_smaller(m: OverloadTypeView)
    ensures
        forall|i: int| 0 <= i < reached_overload_type(m).len() ==> decreases_to!(
            m => #[trigger] reached_overload_type(m)[i]
        ),
        forall|i: int| 0 <= i < slots_overload_type(m).len() ==> decreases_to!(
            m => #[trigger] slots_overload_type(m)[i]
        ),
{
    reveal(slots_overload_type);
    reveal(reached_overload_type);
    lemma_overload_type_parts(m);
    match m {
        OverloadTypeView::Function(a) => {
            lemma_function_smaller(a);
        },
        OverloadTypeView::Forall(a) => {
            lemma_forall_function_smaller(a);
        },
    }
}

#[verifier::opaque]
pub open spec fn slots_overload(m: OverloadView) -> Seq<TypeView> {
    slots_overloads(m.signatures) + slots_func_metadata(*m.metadata)
}

#[verifier::opaque]
pub open spec fn with_overload(m: OverloadView, ts: Seq<TypeView>) -> OverloadView {
    let n1 = slots_func_metadata(*m.metadata).len();
    let r1 = front(ts, n1);
    OverloadView {
        signatures: with_overloads(m.signatures, r1),
        metadata: Box::new(with_func_metadata(*m.metadata, back(ts, n1))),
    }
}

#[verifier::opaque]
pub open spec fn reached_overload(m: OverloadView) -> Seq<TypeView> {
    reached_overloads(m.signatures) + slots_func_metadata(*m.metadata)
}

proof fn lemma_overload_lens(m: OverloadView, ts: Seq<TypeView>, us: Seq<TypeView>)
    requires
        ts.len() == slots_overload(m).len(),
        us.len() == ts.len(),
    ensures
        slots_overload(with_overload(m, ts)) == ts,
        with_overload(m, slots_overload(m)) == m,
        with_overload(with_overload(m, ts), us) == with_overload(m, us),
{
    reveal(slots_overload);
    reveal(with_overload);
    let n1 = slots_func_metadata(*m.metadata).len();
    lemma_func_metadata_lens(*m.metadata, back(ts, n1), back(us, n1));
    lemma_split(ts, n1);
    lemma_join(slots_overloads(m.signatures), slots_func_metadata(*m.metadata));
    let (r1, u1) = (front(ts, n1), front(us, n1));
    lemma_overloads_lens(m.signatures, r1, u1);
}

proof fn lemma_overload_smaller(m: OverloadView)
    ensures
        forall|i: int| 0 <= i < reached_overload(m).len() ==> decreases_to!(
            m => #[trigger] reached_overload(m)[i]
        ),
        forall|i: int| 0 <= i < slots_overload(m).len() ==> decreases_to!(
            m => #[trigger] slots_overload(m)[i]
        ),
{
    reveal(slots_overload);
    reveal(reached_overload);
    lemma_overload_parts(m);
    lemma_overloads_smaller(m.signatures);
    lemma_func_metadata_smaller(*m.metadata);
    let p0 = slots_overloads(m.signatures);
    let p1 = slots_func_metadata(*m.metadata);
    assert forall|i: int| 0 <= i < slots_overload(m).len() implies decreases_to!(
        m => #[trigger] slots_overload(m)[i]
    ) by {
        if i < p0.len() {
            assert(slots_overload(m)[i] == p0[i]);
        } else {
            assert(slots_overload(m)[i] == p1[i - p0.len()]);
        }
    }
    let p0 = reached_overloads(m.signatures);
    let p1 = slots_func_metadata(*m.metadata);
    assert forall|i: int| 0 <= i < reached_overload(m).len() implies decreases_to!(
        m => #[trigger] reached_overload(m)[i]
    ) by {
        if i < p0.len() {
            assert(reached_overload(m)[i] == p0[i]);
        } else {
            assert(reached_overload(m)[i] == p1[i - p0.len()]);
        }
    }
}

#[verifier::opaque]
pub open spec fn slots_bound_method_type(m: BoundMethodTypeView) -> Seq<TypeView> {
    match m {
        BoundMethodTypeView::Function(a) => slots_function(a),
        BoundMethodTypeView::Forall(a) => slots_forall_function(a),
        BoundMethodTypeView::Overload(a) => slots_overload(a),
    }
}

#[verifier::opaque]
pub open spec fn with_bound_method_type(
    m: BoundMethodTypeView,
    ts: Seq<TypeView>,
) -> BoundMethodTypeView {
    match m {
        BoundMethodTypeView::Function(a) => BoundMethodTypeView::Function(with_function(a, ts)),
        BoundMethodTypeView::Forall(a) => BoundMethodTypeView::Forall(with_forall_function(a, ts)),
        BoundMethodTypeView::Overload(a) => BoundMethodTypeView::Overload(with_overload(a, ts)),
    }
}

#[verifier::opaque]
pub open spec fn reached_bound_method_type(m: BoundMethodTypeView) -> Seq<TypeView> {
    match m {
        BoundMethodTypeView::Function(a) => slots_function(a),
        BoundMethodTypeView::Forall(a) => reached_forall_function(a),
        BoundMethodTypeView::Overload(a) => reached_overload(a),
    }
}

proof fn lemma_bound_method_type_lens(m: BoundMethodTypeView, ts: Seq<TypeView>, us: Seq<TypeView>)
    requires
        ts.len() == slots_bound_method_type(m).len(),
        us.len() == ts.len(),
    ensures
        slots_bound_method_type(with_bound_method_type(m, ts)) == ts,
        with_bound_method_type(m, slots_bound_method_type(m)) == m,
        with_bound_method_type(with_bound_method_type(m, ts), us) == with_bound_method_type(m, us),
{
    reveal(slots_bound_method_type);
    reveal(with_bound_method_type);
    match m {
        BoundMethodTypeView::Function(a) => {
            lemma_function_lens(a, ts, us);
        },
        BoundMethodTypeView::Forall(a) => {
            lemma_forall_function_lens(a, ts, us);
        },
        BoundMethodTypeView::Overload(a) => {
            lemma_overload_lens(a, ts, us);
        },
    }
}

proof fn lemma_bound_method_type_smaller(m: BoundMethodTypeView)
    ensures
        forall|i: int| 0 <= i < reached_bound_method_type(m).len() ==> decreases_to!(
            m => #[trigger] reached_bound_method_type(m)[i]
        ),
        forall|i: int| 0 <= i < slots_bound_method_type(m).len() ==> decreases_to!(
            m => #[trigger] slots_bound_method_type(m)[i]
        ),
{
    reveal(slots_bound_method_type);
    reveal(reached_bound_method_type);
    lemma_bound_method_type_parts(m);
    match m {
        BoundMethodTypeView::Function(a) => {
            lemma_function_smaller(a);
        },
        BoundMethodTypeView::Forall(a) => {
            lemma_forall_function_smaller(a);
        },
        BoundMethodTypeView::Overload(a) => {
            lemma_overload_smaller(a);
        },
    }
}

#[verifier::opaque]
pub open spec fn slots_bound_method(m: BoundMethodView) -> Seq<TypeView> {
    slots_one(m.obj) + slots_bound_method_type(m.func)
}

#[verifier::opaque]
pub open spec fn with_bound_method(m: BoundMethodView, ts: Seq<TypeView>) -> BoundMethodView {
    let n1 = slots_bound_method_type(m.func).len();
    let r1 = front(ts, n1);
    BoundMethodView { obj: with_one(m.obj, r1), func: with_bound_method_type(m.func, back(ts, n1)) }
}

#[verifier::opaque]
pub open spec fn reached_bound_method(m: BoundMethodView) -> Seq<TypeView> {
    slots_one(m.obj) + reached_bound_method_type(m.func)
}

proof fn lemma_bound_method_lens(m: BoundMethodView, ts: Seq<TypeView>, us: Seq<TypeView>)
    requires
        ts.len() == slots_bound_method(m).len(),
        us.len() == ts.len(),
    ensures
        slots_bound_method(with_bound_method(m, ts)) == ts,
        with_bound_method(m, slots_bound_method(m)) == m,
        with_bound_method(with_bound_method(m, ts), us) == with_bound_method(m, us),
{
    reveal(slots_bound_method);
    reveal(with_bound_method);
    let n1 = slots_bound_method_type(m.func).len();
    lemma_bound_method_type_lens(m.func, back(ts, n1), back(us, n1));
    lemma_split(ts, n1);
    lemma_join(slots_one(m.obj), slots_bound_method_type(m.func));
    let (r1, u1) = (front(ts, n1), front(us, n1));
    lemma_one_lens(m.obj, r1, u1);
}

proof fn lemma_bound_method_smaller(m: BoundMethodView)
    ensures
        forall|i: int| 0 <= i < reached_bound_method(m).len() ==> decreases_to!(
            m => #[trigger] reached_bound_method(m)[i]
        ),
        forall|i: int| 0 <= i < slots_bound_method(m).len() ==> decreases_to!(
            m => #[trigger] slots_bound_method(m)[i]
        ),
{
    reveal(slots_bound_method);
    reveal(reached_bound_method);
    lemma_bound_method_parts(m);
    lemma_bound_method_type_smaller(m.func);
    let p0 = slots_one(m.obj);
    let p1 = slots_bound_method_type(m.func);
    assert forall|i: int| 0 <= i < slots_bound_method(m).len() implies decreases_to!(
        m => #[trigger] slots_bound_method(m)[i]
    ) by {
        if i < p0.len() {
            assert(slots_bound_method(m)[i] == p0[i]);
        } else {
            assert(slots_bound_method(m)[i] == p1[i - p0.len()]);
        }
    }
    let p0 = slots_one(m.obj);
    let p1 = reached_bound_method_type(m.func);
    assert forall|i: int| 0 <= i < reached_bound_method(m).len() implies decreases_to!(
        m => #[trigger] reached_bound_method(m)[i]
    ) by {
        if i < p0.len() {
            assert(reached_bound_method(m)[i] == p0[i]);
        } else {
            assert(reached_bound_method(m)[i] == p1[i - p0.len()]);
        }
    }
}

#[verifier::opaque]
pub open spec fn slots_union(m: UnionView) -> Seq<TypeView> {
    slots_many(m.members)
}

#[verifier::opaque]
pub open spec fn with_union(m: UnionView, ts: Seq<TypeView>) -> UnionView {
    UnionView { members: with_many(m.members, ts), ..m }
}

proof fn lemma_union_lens(m: UnionView, ts: Seq<TypeView>, us: Seq<TypeView>)
    requires
        ts.len() == slots_union(m).len(),
        us.len() == ts.len(),
    ensures
        slots_union(with_union(m, ts)) == ts,
        with_union(m, slots_union(m)) == m,
        with_union(with_union(m, ts), us) == with_union(m, us),
{
    reveal(slots_union);
    reveal(with_union);
    lemma_many_lens(m.members, ts, us);
}

proof fn lemma_union_smaller(m: UnionView)
    ensures
        forall|i: int| 0 <= i < slots_union(m).len() ==> decreases_to!(
            m => #[trigger] slots_union(m)[i]
        ),
{
    reveal(slots_union);
    lemma_union_parts(m);
    lemma_many_smaller(m.members);
}

#[verifier::opaque]
pub open spec fn slots_typed_dict(m: TypedDictView) -> Seq<TypeView> {
    match m {
        TypedDictView::TypedDict(a) => slots_class_type(a),
        TypedDictView::Anonymous(a) => slots_fields(a),
    }
}

#[verifier::opaque]
pub open spec fn with_typed_dict(m: TypedDictView, ts: Seq<TypeView>) -> TypedDictView {
    match m {
        TypedDictView::TypedDict(a) => TypedDictView::TypedDict(with_class_type(a, ts)),
        TypedDictView::Anonymous(a) => TypedDictView::Anonymous(with_fields(a, ts)),
    }
}

proof fn lemma_typed_dict_lens(m: TypedDictView, ts: Seq<TypeView>, us: Seq<TypeView>)
    requires
        ts.len() == slots_typed_dict(m).len(),
        us.len() == ts.len(),
    ensures
        slots_typed_dict(with_typed_dict(m, ts)) == ts,
        with_typed_dict(m, slots_typed_dict(m)) == m,
        with_typed_dict(with_typed_dict(m, ts), us) == with_typed_dict(m, us),
{
    reveal(slots_typed_dict);
    reveal(with_typed_dict);
    match m {
        TypedDictView::TypedDict(a) => {
            lemma_class_type_lens(a, ts, us);
        },
        TypedDictView::Anonymous(a) => {
            lemma_fields_lens(a, ts, us);
        },
    }
}

proof fn lemma_typed_dict_smaller(m: TypedDictView)
    ensures
        forall|i: int| 0 <= i < slots_typed_dict(m).len() ==> decreases_to!(
            m => #[trigger] slots_typed_dict(m)[i]
        ),
{
    reveal(slots_typed_dict);
    lemma_typed_dict_parts(m);
    match m {
        TypedDictView::TypedDict(a) => {
            lemma_class_type_smaller(a);
        },
        TypedDictView::Anonymous(a) => {
            lemma_fields_smaller(a);
        },
    }
}

#[verifier::opaque]
pub open spec fn slots_field(m: FieldView) -> Seq<TypeView> {
    slots_one(m.ty)
}

#[verifier::opaque]
pub open spec fn with_field(m: FieldView, ts: Seq<TypeView>) -> FieldView {
    FieldView { ty: with_one(m.ty, ts), ..m }
}

proof fn lemma_field_lens(m: FieldView, ts: Seq<TypeView>, us: Seq<TypeView>)
    requires
        ts.len() == slots_field(m).len(),
        us.len() == ts.len(),
    ensures
        slots_field(with_field(m, ts)) == ts,
        with_field(m, slots_field(m)) == m,
        with_field(with_field(m, ts), us) == with_field(m, us),
{
    reveal(slots_field);
    reveal(with_field);
    lemma_one_lens(m.ty, ts, us);
}

proof fn lemma_field_smaller(m: FieldView)
    ensures
        forall|i: int| 0 <= i < slots_field(m).len() ==> decreases_to!(
            m => #[trigger] slots_field(m)[i]
        ),
{
    reveal(slots_field);
    lemma_field_parts(m);
}

#[verifier::opaque]
pub open spec fn slots_int(m: IntView) -> Seq<TypeView> {
    match m {
        IntView::Symbolic(a) => slots_one(*a),
        _ => Seq::empty(),
    }
}

#[verifier::opaque]
pub open spec fn with_int(m: IntView, ts: Seq<TypeView>) -> IntView {
    match m {
        IntView::Symbolic(a) => IntView::Symbolic(Box::new(with_one(*a, ts))),
        _ => m,
    }
}

proof fn lemma_int_lens(m: IntView, ts: Seq<TypeView>, us: Seq<TypeView>)
    requires
        ts.len() == slots_int(m).len(),
        us.len() == ts.len(),
    ensures
        slots_int(with_int(m, ts)) == ts,
        with_int(m, slots_int(m)) == m,
        with_int(with_int(m, ts), us) == with_int(m, us),
{
    reveal(slots_int);
    reveal(with_int);
    match m {
        IntView::Symbolic(a) => {
            lemma_one_lens(*a, ts, us);
        },
        _ => {
            assert(ts =~= Seq::empty());
        },
    }
}

proof fn lemma_int_smaller(m: IntView)
    ensures
        forall|i: int| 0 <= i < slots_int(m).len() ==> decreases_to!(
            m => #[trigger] slots_int(m)[i]
        ),
{
    reveal(slots_int);
    lemma_int_parts(m);
    match m {
        IntView::Symbolic(a) => {
        },
        _ => {},
    }
}

#[verifier::opaque]
pub open spec fn slots_shaped_array_type(m: ShapedArrayTypeView) -> Seq<TypeView> {
    slots_class_type(m.base_class) + slots_dims(m.shape)
}

#[verifier::opaque]
pub open spec fn with_shaped_array_type(
    m: ShapedArrayTypeView,
    ts: Seq<TypeView>,
) -> ShapedArrayTypeView {
    let n1 = slots_dims(m.shape).len();
    let r1 = front(ts, n1);
    ShapedArrayTypeView {
        base_class: with_class_type(m.base_class, r1),
        shape: with_dims(m.shape, back(ts, n1)),
    }
}

proof fn lemma_shaped_array_type_lens(m: ShapedArrayTypeView, ts: Seq<TypeView>, us: Seq<TypeView>)
    requires
        ts.len() == slots_shaped_array_type(m).len(),
        us.len() == ts.len(),
    ensures
        slots_shaped_array_type(with_shaped_array_type(m, ts)) == ts,
        with_shaped_array_type(m, slots_shaped_array_type(m)) == m,
        with_shaped_array_type(with_shaped_array_type(m, ts), us) == with_shaped_array_type(m, us),
{
    reveal(slots_shaped_array_type);
    reveal(with_shaped_array_type);
    let n1 = slots_dims(m.shape).len();
    lemma_dims_lens(m.shape, back(ts, n1), back(us, n1));
    lemma_split(ts, n1);
    lemma_join(slots_class_type(m.base_class), slots_dims(m.shape));
    let (r1, u1) = (front(ts, n1), front(us, n1));
    lemma_class_type_lens(m.base_class, r1, u1);
}

proof fn lemma_shaped_array_type_smaller(m: ShapedArrayTypeView)
    ensures
        forall|i: int| 0 <= i < slots_shaped_array_type(m).len() ==> decreases_to!(
            m => #[trigger] slots_shaped_array_type(m)[i]
        ),
{
    reveal(slots_shaped_array_type);
    lemma_shaped_array_type_parts(m);
    lemma_class_type_smaller(m.base_class);
    lemma_dims_smaller(m.shape);
    let p0 = slots_class_type(m.base_class);
    let p1 = slots_dims(m.shape);
    assert forall|i: int| 0 <= i < slots_shaped_array_type(m).len() implies decreases_to!(
        m => #[trigger] slots_shaped_array_type(m)[i]
    ) by {
        if i < p0.len() {
            assert(slots_shaped_array_type(m)[i] == p0[i]);
        } else {
            assert(slots_shaped_array_type(m)[i] == p1[i - p0.len()]);
        }
    }
}

#[verifier::opaque]
pub open spec fn slots_nn_module_type(m: NNModuleTypeView) -> Seq<TypeView> {
    slots_class_type(m.class) + slots_fields(m.fields)
}

#[verifier::opaque]
pub open spec fn with_nn_module_type(m: NNModuleTypeView, ts: Seq<TypeView>) -> NNModuleTypeView {
    let n1 = slots_fields(m.fields).len();
    let r1 = front(ts, n1);
    NNModuleTypeView {
        class: with_class_type(m.class, r1),
        fields: with_fields(m.fields, back(ts, n1)),
    }
}

proof fn lemma_nn_module_type_lens(m: NNModuleTypeView, ts: Seq<TypeView>, us: Seq<TypeView>)
    requires
        ts.len() == slots_nn_module_type(m).len(),
        us.len() == ts.len(),
    ensures
        slots_nn_module_type(with_nn_module_type(m, ts)) == ts,
        with_nn_module_type(m, slots_nn_module_type(m)) == m,
        with_nn_module_type(with_nn_module_type(m, ts), us) == with_nn_module_type(m, us),
{
    reveal(slots_nn_module_type);
    reveal(with_nn_module_type);
    let n1 = slots_fields(m.fields).len();
    lemma_fields_lens(m.fields, back(ts, n1), back(us, n1));
    lemma_split(ts, n1);
    lemma_join(slots_class_type(m.class), slots_fields(m.fields));
    let (r1, u1) = (front(ts, n1), front(us, n1));
    lemma_class_type_lens(m.class, r1, u1);
}

proof fn lemma_nn_module_type_smaller(m: NNModuleTypeView)
    ensures
        forall|i: int| 0 <= i < slots_nn_module_type(m).len() ==> decreases_to!(
            m => #[trigger] slots_nn_module_type(m)[i]
        ),
{
    reveal(slots_nn_module_type);
    lemma_nn_module_type_parts(m);
    lemma_class_type_smaller(m.class);
    lemma_fields_smaller(m.fields);
    let p0 = slots_class_type(m.class);
    let p1 = slots_fields(m.fields);
    assert forall|i: int| 0 <= i < slots_nn_module_type(m).len() implies decreases_to!(
        m => #[trigger] slots_nn_module_type(m)[i]
    ) by {
        if i < p0.len() {
            assert(slots_nn_module_type(m)[i] == p0[i]);
        } else {
            assert(slots_nn_module_type(m)[i] == p1[i - p0.len()]);
        }
    }
}

#[verifier::opaque]
pub open spec fn slots_data_frame_schema(m: DataFrameSchemaView) -> Seq<TypeView> {
    slots_class_type(m.class) + slots_fields(m.columns)
}

#[verifier::opaque]
pub open spec fn with_data_frame_schema(
    m: DataFrameSchemaView,
    ts: Seq<TypeView>,
) -> DataFrameSchemaView {
    let n1 = slots_fields(m.columns).len();
    let r1 = front(ts, n1);
    DataFrameSchemaView {
        class: with_class_type(m.class, r1),
        columns: with_fields(m.columns, back(ts, n1)),
    }
}

proof fn lemma_data_frame_schema_lens(m: DataFrameSchemaView, ts: Seq<TypeView>, us: Seq<TypeView>)
    requires
        ts.len() == slots_data_frame_schema(m).len(),
        us.len() == ts.len(),
    ensures
        slots_data_frame_schema(with_data_frame_schema(m, ts)) == ts,
        with_data_frame_schema(m, slots_data_frame_schema(m)) == m,
        with_data_frame_schema(with_data_frame_schema(m, ts), us) == with_data_frame_schema(m, us),
{
    reveal(slots_data_frame_schema);
    reveal(with_data_frame_schema);
    let n1 = slots_fields(m.columns).len();
    lemma_fields_lens(m.columns, back(ts, n1), back(us, n1));
    lemma_split(ts, n1);
    lemma_join(slots_class_type(m.class), slots_fields(m.columns));
    let (r1, u1) = (front(ts, n1), front(us, n1));
    lemma_class_type_lens(m.class, r1, u1);
}

proof fn lemma_data_frame_schema_smaller(m: DataFrameSchemaView)
    ensures
        forall|i: int| 0 <= i < slots_data_frame_schema(m).len() ==> decreases_to!(
            m => #[trigger] slots_data_frame_schema(m)[i]
        ),
{
    reveal(slots_data_frame_schema);
    lemma_data_frame_schema_parts(m);
    lemma_class_type_smaller(m.class);
    lemma_fields_smaller(m.columns);
    let p0 = slots_class_type(m.class);
    let p1 = slots_fields(m.columns);
    assert forall|i: int| 0 <= i < slots_data_frame_schema(m).len() implies decreases_to!(
        m => #[trigger] slots_data_frame_schema(m)[i]
    ) by {
        if i < p0.len() {
            assert(slots_data_frame_schema(m)[i] == p0[i]);
        } else {
            assert(slots_data_frame_schema(m)[i] == p1[i - p0.len()]);
        }
    }
}

#[verifier::opaque]
pub open spec fn slots_series_schema(m: SeriesSchemaView) -> Seq<TypeView> {
    slots_class_type(m.class) + slots_one(m.element)
}

#[verifier::opaque]
pub open spec fn with_series_schema(m: SeriesSchemaView, ts: Seq<TypeView>) -> SeriesSchemaView {
    let n1 = slots_one(m.element).len();
    let r1 = front(ts, n1);
    SeriesSchemaView {
        class: with_class_type(m.class, r1),
        element: with_one(m.element, back(ts, n1)),
    }
}

proof fn lemma_series_schema_lens(m: SeriesSchemaView, ts: Seq<TypeView>, us: Seq<TypeView>)
    requires
        ts.len() == slots_series_schema(m).len(),
        us.len() == ts.len(),
    ensures
        slots_series_schema(with_series_schema(m, ts)) == ts,
        with_series_schema(m, slots_series_schema(m)) == m,
        with_series_schema(with_series_schema(m, ts), us) == with_series_schema(m, us),
{
    reveal(slots_series_schema);
    reveal(with_series_schema);
    let n1 = slots_one(m.element).len();
    lemma_one_lens(m.element, back(ts, n1), back(us, n1));
    lemma_split(ts, n1);
    lemma_join(slots_class_type(m.class), slots_one(m.element));
    let (r1, u1) = (front(ts, n1), front(us, n1));
    lemma_class_type_lens(m.class, r1, u1);
}

proof fn lemma_series_schema_smaller(m: SeriesSchemaView)
    ensures
        forall|i: int| 0 <= i < slots_series_schema(m).len() ==> decreases_to!(
            m => #[trigger] slots_series_schema(m)[i]
        ),
{
    reveal(slots_series_schema);
    lemma_series_schema_parts(m);
    lemma_class_type_smaller(m.class);
    let p0 = slots_class_type(m.class);
    let p1 = slots_one(m.element);
    assert forall|i: int| 0 <= i < slots_series_schema(m).len() implies decreases_to!(
        m => #[trigger] slots_series_schema(m)[i]
    ) by {
        if i < p0.len() {
            assert(slots_series_schema(m)[i] == p0[i]);
        } else {
            assert(slots_series_schema(m)[i] == p1[i - p0.len()]);
        }
    }
}

#[verifier::opaque]
pub open spec fn slots_tuple(m: TupleView) -> Seq<TypeView> {
    match m {
        TupleView::Concrete(a) => slots_many(a),
        TupleView::Unbounded(a) => slots_one(*a),
        TupleView::Unpacked(a) => slots_many_one_many(*a),
    }
}

#[verifier::opaque]
pub open spec fn with_tuple(m: TupleView, ts: Seq<TypeView>) -> TupleView {
    match m {
        TupleView::Concrete(a) => TupleView::Concrete(with_many(a, ts)),
        TupleView::Unbounded(a) => TupleView::Unbounded(Box::new(with_one(*a, ts))),
        TupleView::Unpacked(a) => TupleView::Unpacked(Box::new(with_many_one_many(*a, ts))),
    }
}

proof fn lemma_tuple_lens(m: TupleView, ts: Seq<TypeView>, us: Seq<TypeView>)
    requires
        ts.len() == slots_tuple(m).len(),
        us.len() == ts.len(),
    ensures
        slots_tuple(with_tuple(m, ts)) == ts,
        with_tuple(m, slots_tuple(m)) == m,
        with_tuple(with_tuple(m, ts), us) == with_tuple(m, us),
{
    reveal(slots_tuple);
    reveal(with_tuple);
    match m {
        TupleView::Concrete(a) => {
            lemma_many_lens(a, ts, us);
        },
        TupleView::Unbounded(a) => {
            lemma_one_lens(*a, ts, us);
        },
        TupleView::Unpacked(a) => {
            lemma_many_one_many_lens(*a, ts, us);
        },
    }
}

proof fn lemma_tuple_smaller(m: TupleView)
    ensures
        forall|i: int| 0 <= i < slots_tuple(m).len() ==> decreases_to!(
            m => #[trigger] slots_tuple(m)[i]
        ),
{
    reveal(slots_tuple);
    lemma_tuple_parts(m);
    match m {
        TupleView::Concrete(a) => {
            lemma_many_smaller(a);
        },
        TupleView::Unbounded(a) => {
        },
        TupleView::Unpacked(a) => {
            lemma_many_one_many_smaller(*a);
        },
    }
}

#[verifier::opaque]
pub open spec fn slots_kw_call(m: KwCallView) -> Seq<TypeView> {
    slots_fields(m.keywords) + slots_one(m.return_ty)
}

#[verifier::opaque]
pub open spec fn with_kw_call(m: KwCallView, ts: Seq<TypeView>) -> KwCallView {
    let n1 = slots_one(m.return_ty).len();
    let r1 = front(ts, n1);
    KwCallView {
        keywords: with_fields(m.keywords, r1),
        return_ty: with_one(m.return_ty, back(ts, n1)),
    }
}

proof fn lemma_kw_call_lens(m: KwCallView, ts: Seq<TypeView>, us: Seq<TypeView>)
    requires
        ts.len() == slots_kw_call(m).len(),
        us.len() == ts.len(),
    ensures
        slots_kw_call(with_kw_call(m, ts)) == ts,
        with_kw_call(m, slots_kw_call(m)) == m,
        with_kw_call(with_kw_call(m, ts), us) == with_kw_call(m, us),
{
    reveal(slots_kw_call);
    reveal(with_kw_call);
    let n1 = slots_one(m.return_ty).len();
    lemma_one_lens(m.return_ty, back(ts, n1), back(us, n1));
    lemma_split(ts, n1);
    lemma_join(slots_fields(m.keywords), slots_one(m.return_ty));
    let (r1, u1) = (front(ts, n1), front(us, n1));
    lemma_fields_lens(m.keywords, r1, u1);
}

proof fn lemma_kw_call_smaller(m: KwCallView)
    ensures
        forall|i: int| 0 <= i < slots_kw_call(m).len() ==> decreases_to!(
            m => #[trigger] slots_kw_call(m)[i]
        ),
{
    reveal(slots_kw_call);
    lemma_kw_call_parts(m);
    lemma_fields_smaller(m.keywords);
    let p0 = slots_fields(m.keywords);
    let p1 = slots_one(m.return_ty);
    assert forall|i: int| 0 <= i < slots_kw_call(m).len() implies decreases_to!(
        m => #[trigger] slots_kw_call(m)[i]
    ) by {
        if i < p0.len() {
            assert(slots_kw_call(m)[i] == p0[i]);
        } else {
            assert(slots_kw_call(m)[i] == p1[i - p0.len()]);
        }
    }
}

#[verifier::opaque]
pub open spec fn slots_callable_residual(m: CallableResidualView) -> Seq<TypeView> {
    slots_many(m.captured) + slots_one(m.fallback)
}

#[verifier::opaque]
pub open spec fn with_callable_residual(
    m: CallableResidualView,
    ts: Seq<TypeView>,
) -> CallableResidualView {
    let n1 = slots_one(m.fallback).len();
    let r1 = front(ts, n1);
    CallableResidualView {
        captured: with_many(m.captured, r1),
        fallback: with_one(m.fallback, back(ts, n1)),
    }
}

proof fn lemma_callable_residual_lens(m: CallableResidualView, ts: Seq<TypeView>, us: Seq<TypeView>)
    requires
        ts.len() == slots_callable_residual(m).len(),
        us.len() == ts.len(),
    ensures
        slots_callable_residual(with_callable_residual(m, ts)) == ts,
        with_callable_residual(m, slots_callable_residual(m)) == m,
        with_callable_residual(with_callable_residual(m, ts), us) == with_callable_residual(m, us),
{
    reveal(slots_callable_residual);
    reveal(with_callable_residual);
    let n1 = slots_one(m.fallback).len();
    lemma_one_lens(m.fallback, back(ts, n1), back(us, n1));
    lemma_split(ts, n1);
    lemma_join(slots_many(m.captured), slots_one(m.fallback));
    let (r1, u1) = (front(ts, n1), front(us, n1));
    lemma_many_lens(m.captured, r1, u1);
}

proof fn lemma_callable_residual_smaller(m: CallableResidualView)
    ensures
        forall|i: int| 0 <= i < slots_callable_residual(m).len() ==> decreases_to!(
            m => #[trigger] slots_callable_residual(m)[i]
        ),
{
    reveal(slots_callable_residual);
    lemma_callable_residual_parts(m);
    lemma_many_smaller(m.captured);
    let p0 = slots_many(m.captured);
    let p1 = slots_one(m.fallback);
    assert forall|i: int| 0 <= i < slots_callable_residual(m).len() implies decreases_to!(
        m => #[trigger] slots_callable_residual(m)[i]
    ) by {
        if i < p0.len() {
            assert(slots_callable_residual(m)[i] == p0[i]);
        } else {
            assert(slots_callable_residual(m)[i] == p1[i - p0.len()]);
        }
    }
}

#[verifier::opaque]
pub open spec fn slots_type_level_dsl_call(m: TypeLevelDslCallView) -> Seq<TypeView> {
    slots_many(m.args) + slots_one(m.result_schema)
}

#[verifier::opaque]
pub open spec fn with_type_level_dsl_call(
    m: TypeLevelDslCallView,
    ts: Seq<TypeView>,
) -> TypeLevelDslCallView {
    let n1 = slots_one(m.result_schema).len();
    let r1 = front(ts, n1);
    TypeLevelDslCallView {
        args: with_many(m.args, r1),
        result_schema: with_one(m.result_schema, back(ts, n1)),
        ..m
    }
}

proof fn lemma_type_level_dsl_call_lens(
    m: TypeLevelDslCallView,
    ts: Seq<TypeView>,
    us: Seq<TypeView>,
)
    requires
        ts.len() == slots_type_level_dsl_call(m).len(),
        us.len() == ts.len(),
    ensures
        slots_type_level_dsl_call(with_type_level_dsl_call(m, ts)) == ts,
        with_type_level_dsl_call(m, slots_type_level_dsl_call(m)) == m,
        with_type_level_dsl_call(with_type_level_dsl_call(m, ts), us)
            == with_type_level_dsl_call(m, us),
{
    reveal(slots_type_level_dsl_call);
    reveal(with_type_level_dsl_call);
    let n1 = slots_one(m.result_schema).len();
    lemma_one_lens(m.result_schema, back(ts, n1), back(us, n1));
    lemma_split(ts, n1);
    lemma_join(slots_many(m.args), slots_one(m.result_schema));
    let (r1, u1) = (front(ts, n1), front(us, n1));
    lemma_many_lens(m.args, r1, u1);
}

proof fn lemma_type_level_dsl_call_smaller(m: TypeLevelDslCallView)
    ensures
        forall|i: int| 0 <= i < slots_type_level_dsl_call(m).len() ==> decreases_to!(
            m => #[trigger] slots_type_level_dsl_call(m)[i]
        ),
{
    reveal(slots_type_level_dsl_call);
    lemma_type_level_dsl_call_parts(m);
    lemma_many_smaller(m.args);
    let p0 = slots_many(m.args);
    let p1 = slots_one(m.result_schema);
    assert forall|i: int| 0 <= i < slots_type_level_dsl_call(m).len() implies decreases_to!(
        m => #[trigger] slots_type_level_dsl_call(m)[i]
    ) by {
        if i < p0.len() {
            assert(slots_type_level_dsl_call(m)[i] == p0[i]);
        } else {
            assert(slots_type_level_dsl_call(m)[i] == p1[i - p0.len()]);
        }
    }
}

#[verifier::opaque]
pub open spec fn slots_super_obj(m: SuperObjView) -> Seq<TypeView> {
    match m {
        SuperObjView::Instance(a) => slots_class_type(a),
        SuperObjView::Class(a) => slots_class_type(a),
    }
}

#[verifier::opaque]
pub open spec fn with_super_obj(m: SuperObjView, ts: Seq<TypeView>) -> SuperObjView {
    match m {
        SuperObjView::Instance(a) => SuperObjView::Instance(with_class_type(a, ts)),
        SuperObjView::Class(a) => SuperObjView::Class(with_class_type(a, ts)),
    }
}

proof fn lemma_super_obj_lens(m: SuperObjView, ts: Seq<TypeView>, us: Seq<TypeView>)
    requires
        ts.len() == slots_super_obj(m).len(),
        us.len() == ts.len(),
    ensures
        slots_super_obj(with_super_obj(m, ts)) == ts,
        with_super_obj(m, slots_super_obj(m)) == m,
        with_super_obj(with_super_obj(m, ts), us) == with_super_obj(m, us),
{
    reveal(slots_super_obj);
    reveal(with_super_obj);
    match m {
        SuperObjView::Instance(a) => {
            lemma_class_type_lens(a, ts, us);
        },
        SuperObjView::Class(a) => {
            lemma_class_type_lens(a, ts, us);
        },
    }
}

proof fn lemma_super_obj_smaller(m: SuperObjView)
    ensures
        forall|i: int| 0 <= i < slots_super_obj(m).len() ==> decreases_to!(
            m => #[trigger] slots_super_obj(m)[i]
        ),
{
    reveal(slots_super_obj);
    lemma_super_obj_parts(m);
    match m {
        SuperObjView::Instance(a) => {
            lemma_class_type_smaller(a);
        },
        SuperObjView::Class(a) => {
            lemma_class_type_smaller(a);
        },
    }
}

/// The types that a type holds directly and that a visit may replace.
#[verifier::opaque]
pub open spec fn slots_type(m: TypeView) -> Seq<TypeView> {
    match m {
        TypeView::Literal(a) => slots_literal(*a),
        TypeView::Callable(a) => slots_callable(*a),
        TypeView::CallableResidual(a) => slots_callable_residual(*a),
        TypeView::TypeLevelDslCall(a) => slots_type_level_dsl_call(*a),
        TypeView::Function(a) => slots_function(*a),
        TypeView::BoundMethod(a) => slots_bound_method(*a),
        TypeView::Overload(a) => slots_overload(a),
        TypeView::Union(a) => slots_union(*a),
        TypeView::Intersect(a) => slots_many_one(*a),
        TypeView::ClassType(a) => slots_class_type(a),
        TypeView::TypedDict(a) => slots_typed_dict(a),
        TypeView::PartialTypedDict(a) => slots_typed_dict(a),
        TypeView::ShapedArray(a) => slots_shaped_array_type(*a),
        TypeView::IntTuple(a) => slots_dims(*a),
        TypeView::NNModule(a) => slots_nn_module_type(*a),
        TypeView::DataFrame(a) => slots_data_frame_schema(*a),
        TypeView::Series(a) => slots_series_schema(*a),
        TypeView::Int(a) => slots_int(a),
        TypeView::Tuple(a) => slots_tuple(a),
        TypeView::Forall(a) => slots_forall_forallable(*a),
        TypeView::Quantified(a) => slots_quantified(*a),
        TypeView::QuantifiedValue(a) => slots_quantified(*a),
        TypeView::ElementOfTypeVarTuple(a) => slots_quantified(*a),
        TypeView::TypeGuard(a) => slots_one(*a),
        TypeView::TypeIs(a) => slots_one(*a),
        TypeView::Annotated(a, _) => slots_one(*a),
        TypeView::Unpack(a) => slots_one(*a),
        TypeView::Concatenate(a, b) => slots_param_seq(a) + slots_one(*b),
        TypeView::ParamSpecValue(a) => slots_param_seq(a),
        TypeView::Args(a) => slots_quantified(*a),
        TypeView::Kwargs(a) => slots_quantified(*a),
        TypeView::ArgsValue(a) => slots_quantified(*a),
        TypeView::KwargsValue(a) => slots_quantified(*a),
        TypeView::Type(a) => slots_one(*a),
        TypeView::TypeForm(a) => slots_one(*a),
        TypeView::TypeAlias(a) => slots_type_alias_data(*a),
        TypeView::UntypedAlias(a) => slots_type_alias_data(*a),
        TypeView::SuperInstance(a) => slots_class_type_super_obj(*a),
        TypeView::SelfType(a) => slots_class_type(a),
        TypeView::KwCall(a) => slots_kw_call(*a),
        _ => Seq::empty(),
    }
}

/// The types that a type holds directly, as a visit that only reads sees them.
#[verifier::opaque]
pub open spec fn reached_type(m: TypeView) -> Seq<TypeView> {
    match m {
        TypeView::Literal(a) => slots_literal(*a),
        TypeView::Callable(a) => slots_callable(*a),
        TypeView::CallableResidual(a) => slots_callable_residual(*a),
        TypeView::TypeLevelDslCall(a) => slots_type_level_dsl_call(*a),
        TypeView::Function(a) => slots_function(*a),
        TypeView::BoundMethod(a) => reached_bound_method(*a),
        TypeView::Overload(a) => reached_overload(a),
        TypeView::Union(a) => slots_union(*a),
        TypeView::Intersect(a) => slots_many_one(*a),
        TypeView::ClassType(a) => slots_class_type(a),
        TypeView::TypedDict(a) => slots_typed_dict(a),
        TypeView::PartialTypedDict(a) => slots_typed_dict(a),
        TypeView::ShapedArray(a) => slots_shaped_array_type(*a),
        TypeView::IntTuple(a) => slots_dims(*a),
        TypeView::NNModule(a) => slots_nn_module_type(*a),
        TypeView::DataFrame(a) => slots_data_frame_schema(*a),
        TypeView::Series(a) => slots_series_schema(*a),
        TypeView::Int(a) => slots_int(a),
        TypeView::Tuple(a) => slots_tuple(a),
        TypeView::Forall(a) => reached_forall_forallable(*a),
        TypeView::Quantified(a) => slots_quantified(*a),
        TypeView::QuantifiedValue(a) => slots_quantified(*a),
        TypeView::ElementOfTypeVarTuple(a) => slots_quantified(*a),
        TypeView::TypeGuard(a) => slots_one(*a),
        TypeView::TypeIs(a) => slots_one(*a),
        TypeView::Annotated(a, _) => slots_one(*a),
        TypeView::Unpack(a) => slots_one(*a),
        TypeView::Concatenate(a, b) => slots_param_seq(a) + slots_one(*b),
        TypeView::ParamSpecValue(a) => slots_param_seq(a),
        TypeView::Args(a) => slots_quantified(*a),
        TypeView::Kwargs(a) => slots_quantified(*a),
        TypeView::ArgsValue(a) => slots_quantified(*a),
        TypeView::KwargsValue(a) => slots_quantified(*a),
        TypeView::Type(a) => slots_one(*a),
        TypeView::TypeForm(a) => slots_one(*a),
        TypeView::TypeAlias(a) => slots_type_alias_data(*a),
        TypeView::UntypedAlias(a) => slots_type_alias_data(*a),
        TypeView::SuperInstance(a) => slots_class_type_super_obj(*a),
        TypeView::SelfType(a) => slots_class_type(a),
        TypeView::KwCall(a) => slots_kw_call(*a),
        _ => Seq::empty(),
    }
}

/// The type with the types of `ts` in its slots.
#[verifier::opaque]
pub open spec fn with_type(m: TypeView, ts: Seq<TypeView>) -> TypeView {
    match m {
        TypeView::Literal(a) => TypeView::Literal(Box::new(with_literal(*a, ts))),
        TypeView::Callable(a) => TypeView::Callable(Box::new(with_callable(*a, ts))),
        TypeView::CallableResidual(a) => {
            TypeView::CallableResidual(Box::new(with_callable_residual(*a, ts)))
        },
        TypeView::TypeLevelDslCall(a) => {
            TypeView::TypeLevelDslCall(Box::new(with_type_level_dsl_call(*a, ts)))
        },
        TypeView::Function(a) => TypeView::Function(Box::new(with_function(*a, ts))),
        TypeView::BoundMethod(a) => TypeView::BoundMethod(Box::new(with_bound_method(*a, ts))),
        TypeView::Overload(a) => TypeView::Overload(with_overload(a, ts)),
        TypeView::Union(a) => TypeView::Union(Box::new(with_union(*a, ts))),
        TypeView::Intersect(a) => TypeView::Intersect(Box::new(with_many_one(*a, ts))),
        TypeView::ClassType(a) => TypeView::ClassType(with_class_type(a, ts)),
        TypeView::TypedDict(a) => TypeView::TypedDict(with_typed_dict(a, ts)),
        TypeView::PartialTypedDict(a) => TypeView::PartialTypedDict(with_typed_dict(a, ts)),
        TypeView::ShapedArray(a) => TypeView::ShapedArray(Box::new(with_shaped_array_type(*a, ts))),
        TypeView::IntTuple(a) => TypeView::IntTuple(Box::new(with_dims(*a, ts))),
        TypeView::NNModule(a) => TypeView::NNModule(Box::new(with_nn_module_type(*a, ts))),
        TypeView::DataFrame(a) => TypeView::DataFrame(Box::new(with_data_frame_schema(*a, ts))),
        TypeView::Series(a) => TypeView::Series(Box::new(with_series_schema(*a, ts))),
        TypeView::Int(a) => TypeView::Int(with_int(a, ts)),
        TypeView::Tuple(a) => TypeView::Tuple(with_tuple(a, ts)),
        TypeView::Forall(a) => TypeView::Forall(Box::new(with_forall_forallable(*a, ts))),
        TypeView::Quantified(a) => TypeView::Quantified(Box::new(with_quantified(*a, ts))),
        TypeView::QuantifiedValue(a) => {
            TypeView::QuantifiedValue(Box::new(with_quantified(*a, ts)))
        },
        TypeView::ElementOfTypeVarTuple(a) => {
            TypeView::ElementOfTypeVarTuple(Box::new(with_quantified(*a, ts)))
        },
        TypeView::TypeGuard(a) => TypeView::TypeGuard(Box::new(with_one(*a, ts))),
        TypeView::TypeIs(a) => TypeView::TypeIs(Box::new(with_one(*a, ts))),
        TypeView::Annotated(a, b) => TypeView::Annotated(Box::new(with_one(*a, ts)), b),
        TypeView::Unpack(a) => TypeView::Unpack(Box::new(with_one(*a, ts))),
        TypeView::Concatenate(a, b) => {
            let n1 = slots_one(*b).len();
            let r1 = front(ts, n1);
            TypeView::Concatenate(with_param_seq(a, r1), Box::new(with_one(*b, back(ts, n1))))
        },
        TypeView::ParamSpecValue(a) => TypeView::ParamSpecValue(with_param_seq(a, ts)),
        TypeView::Args(a) => TypeView::Args(Box::new(with_quantified(*a, ts))),
        TypeView::Kwargs(a) => TypeView::Kwargs(Box::new(with_quantified(*a, ts))),
        TypeView::ArgsValue(a) => TypeView::ArgsValue(Box::new(with_quantified(*a, ts))),
        TypeView::KwargsValue(a) => TypeView::KwargsValue(Box::new(with_quantified(*a, ts))),
        TypeView::Type(a) => TypeView::Type(Box::new(with_one(*a, ts))),
        TypeView::TypeForm(a) => TypeView::TypeForm(Box::new(with_one(*a, ts))),
        TypeView::TypeAlias(a) => TypeView::TypeAlias(Box::new(with_type_alias_data(*a, ts))),
        TypeView::UntypedAlias(a) => TypeView::UntypedAlias(Box::new(with_type_alias_data(*a, ts))),
        TypeView::SuperInstance(a) => {
            TypeView::SuperInstance(Box::new(with_class_type_super_obj(*a, ts)))
        },
        TypeView::SelfType(a) => TypeView::SelfType(with_class_type(a, ts)),
        TypeView::KwCall(a) => TypeView::KwCall(Box::new(with_kw_call(*a, ts))),
        _ => m,
    }
}

/// Reading the slots gives what was put into them; putting back what is there changes nothing;
/// and what is put in last counts.
pub proof fn lemma_type_lens(m: TypeView, ts: Seq<TypeView>, us: Seq<TypeView>)
    requires
        ts.len() == slots_type(m).len(),
        us.len() == ts.len(),
    ensures
        slots_type(with_type(m, ts)) == ts,
        with_type(m, slots_type(m)) == m,
        with_type(with_type(m, ts), us) == with_type(m, us),
{
    reveal(slots_type);
    reveal(with_type);
    match m {
        TypeView::Literal(a) => {
            lemma_literal_lens(*a, ts, us);
        },
        TypeView::Callable(a) => {
            lemma_callable_lens(*a, ts, us);
        },
        TypeView::CallableResidual(a) => {
            lemma_callable_residual_lens(*a, ts, us);
        },
        TypeView::TypeLevelDslCall(a) => {
            lemma_type_level_dsl_call_lens(*a, ts, us);
        },
        TypeView::Function(a) => {
            lemma_function_lens(*a, ts, us);
        },
        TypeView::BoundMethod(a) => {
            lemma_bound_method_lens(*a, ts, us);
        },
        TypeView::Overload(a) => {
            lemma_overload_lens(a, ts, us);
        },
        TypeView::Union(a) => {
            lemma_union_lens(*a, ts, us);
        },
        TypeView::Intersect(a) => {
            lemma_many_one_lens(*a, ts, us);
        },
        TypeView::ClassType(a) => {
            lemma_class_type_lens(a, ts, us);
        },
        TypeView::TypedDict(a) => {
            lemma_typed_dict_lens(a, ts, us);
        },
        TypeView::PartialTypedDict(a) => {
            lemma_typed_dict_lens(a, ts, us);
        },
        TypeView::ShapedArray(a) => {
            lemma_shaped_array_type_lens(*a, ts, us);
        },
        TypeView::IntTuple(a) => {
            lemma_dims_lens(*a, ts, us);
        },
        TypeView::NNModule(a) => {
            lemma_nn_module_type_lens(*a, ts, us);
        },
        TypeView::DataFrame(a) => {
            lemma_data_frame_schema_lens(*a, ts, us);
        },
        TypeView::Series(a) => {
            lemma_series_schema_lens(*a, ts, us);
        },
        TypeView::Int(a) => {
            lemma_int_lens(a, ts, us);
        },
        TypeView::Tuple(a) => {
            lemma_tuple_lens(a, ts, us);
        },
        TypeView::Forall(a) => {
            lemma_forall_forallable_lens(*a, ts, us);
        },
        TypeView::Quantified(a) => {
            lemma_quantified_lens(*a, ts, us);
        },
        TypeView::QuantifiedValue(a) => {
            lemma_quantified_lens(*a, ts, us);
        },
        TypeView::ElementOfTypeVarTuple(a) => {
            lemma_quantified_lens(*a, ts, us);
        },
        TypeView::TypeGuard(a) => {
            lemma_one_lens(*a, ts, us);
        },
        TypeView::TypeIs(a) => {
            lemma_one_lens(*a, ts, us);
        },
        TypeView::Annotated(a, _) => {
            lemma_one_lens(*a, ts, us);
        },
        TypeView::Unpack(a) => {
            lemma_one_lens(*a, ts, us);
        },
        TypeView::Concatenate(a, b) => {
            let n1 = slots_one(*b).len();
            lemma_one_lens(*b, back(ts, n1), back(us, n1));
            lemma_split(ts, n1);
            lemma_join(slots_param_seq(a), slots_one(*b));
            let (r1, u1) = (front(ts, n1), front(us, n1));
            lemma_param_seq_lens(a, r1, u1);
        },
        TypeView::ParamSpecValue(a) => {
            lemma_param_seq_lens(a, ts, us);
        },
        TypeView::Args(a) => {
            lemma_quantified_lens(*a, ts, us);
        },
        TypeView::Kwargs(a) => {
            lemma_quantified_lens(*a, ts, us);
        },
        TypeView::ArgsValue(a) => {
            lemma_quantified_lens(*a, ts, us);
        },
        TypeView::KwargsValue(a) => {
            lemma_quantified_lens(*a, ts, us);
        },
        TypeView::Type(a) => {
            lemma_one_lens(*a, ts, us);
        },
        TypeView::TypeForm(a) => {
            lemma_one_lens(*a, ts, us);
        },
        TypeView::TypeAlias(a) => {
            lemma_type_alias_data_lens(*a, ts, us);
        },
        TypeView::UntypedAlias(a) => {
            lemma_type_alias_data_lens(*a, ts, us);
        },
        TypeView::SuperInstance(a) => {
            lemma_class_type_super_obj_lens(*a, ts, us);
        },
        TypeView::SelfType(a) => {
            lemma_class_type_lens(a, ts, us);
        },
        TypeView::KwCall(a) => {
            lemma_kw_call_lens(*a, ts, us);
        },
        _ => {
            assert(ts =~= Seq::empty());
        },
    }
}

/// What a type holds is smaller than the type.
pub proof fn lemma_type_smaller(m: TypeView)
    ensures
        forall|i: int| 0 <= i < slots_type(m).len() ==> decreases_to!(
            m => #[trigger] slots_type(m)[i]
        ),
        forall|i: int| 0 <= i < reached_type(m).len() ==> decreases_to!(
            m => #[trigger] reached_type(m)[i]
        ),
{
    reveal(slots_type);
    reveal(reached_type);
    lemma_type_parts(m);
    match m {
        TypeView::Literal(a) => {
            lemma_literal_smaller(*a);
        },
        TypeView::Callable(a) => {
            lemma_callable_smaller(*a);
        },
        TypeView::CallableResidual(a) => {
            lemma_callable_residual_smaller(*a);
        },
        TypeView::TypeLevelDslCall(a) => {
            lemma_type_level_dsl_call_smaller(*a);
        },
        TypeView::Function(a) => {
            lemma_function_smaller(*a);
        },
        TypeView::BoundMethod(a) => {
            lemma_bound_method_smaller(*a);
        },
        TypeView::Overload(a) => {
            lemma_overload_smaller(a);
        },
        TypeView::Union(a) => {
            lemma_union_smaller(*a);
        },
        TypeView::Intersect(a) => {
            lemma_many_one_smaller(*a);
        },
        TypeView::ClassType(a) => {
            lemma_class_type_smaller(a);
        },
        TypeView::TypedDict(a) => {
            lemma_typed_dict_smaller(a);
        },
        TypeView::PartialTypedDict(a) => {
            lemma_typed_dict_smaller(a);
        },
        TypeView::ShapedArray(a) => {
            lemma_shaped_array_type_smaller(*a);
        },
        TypeView::IntTuple(a) => {
            lemma_dims_smaller(*a);
        },
        TypeView::NNModule(a) => {
            lemma_nn_module_type_smaller(*a);
        },
        TypeView::DataFrame(a) => {
            lemma_data_frame_schema_smaller(*a);
        },
        TypeView::Series(a) => {
            lemma_series_schema_smaller(*a);
        },
        TypeView::Int(a) => {
            lemma_int_smaller(a);
        },
        TypeView::Tuple(a) => {
            lemma_tuple_smaller(a);
        },
        TypeView::Forall(a) => {
            lemma_forall_forallable_smaller(*a);
        },
        TypeView::Quantified(a) => {
            lemma_quantified_smaller(*a);
        },
        TypeView::QuantifiedValue(a) => {
            lemma_quantified_smaller(*a);
        },
        TypeView::ElementOfTypeVarTuple(a) => {
            lemma_quantified_smaller(*a);
        },
        TypeView::TypeGuard(a) => {},
        TypeView::TypeIs(a) => {},
        TypeView::Annotated(a, _) => {},
        TypeView::Unpack(a) => {},
        TypeView::Concatenate(a, b) => {
            lemma_param_seq_smaller(a);
            let p0 = slots_param_seq(a);
            let p1 = slots_one(*b);
            assert forall|i: int| 0 <= i < slots_type(m).len() implies decreases_to!(
                m => #[trigger] slots_type(m)[i]
            ) by {
                if i < p0.len() {
                    assert(slots_type(m)[i] == p0[i]);
                } else {
                    assert(slots_type(m)[i] == p1[i - p0.len()]);
                }
            }
            assert(reached_type(m) == slots_type(m));
        },
        TypeView::ParamSpecValue(a) => {
            lemma_param_seq_smaller(a);
        },
        TypeView::Args(a) => {
            lemma_quantified_smaller(*a);
        },
        TypeView::Kwargs(a) => {
            lemma_quantified_smaller(*a);
        },
        TypeView::ArgsValue(a) => {
            lemma_quantified_smaller(*a);
        },
        TypeView::KwargsValue(a) => {
            lemma_quantified_smaller(*a);
        },
        TypeView::Type(a) => {},
        TypeView::TypeForm(a) => {},
        TypeView::TypeAlias(a) => {
            lemma_type_alias_data_smaller(*a);
        },
        TypeView::UntypedAlias(a) => {
            lemma_type_alias_data_smaller(*a);
        },
        TypeView::SuperInstance(a) => {
            lemma_class_type_super_obj_smaller(*a);
        },
        TypeView::SelfType(a) => {
            lemma_class_type_smaller(a);
        },
        TypeView::KwCall(a) => {
            lemma_kw_call_smaller(*a);
        },
        _ => {},
    }
}

} // verus!
