use arrow_array::types::{Float64Type, UInt64Type};
use arrow_array::{Array, PrimitiveArray};
use vstd::prelude::*;

verus! {

/// An Arrow `UInt64Array`, as the library holds it. Verus cannot be told of
/// Arrow's generic `PrimitiveArray` (its parameter is bounded by an Arrow
/// trait), so the array sits in this struct, whose insides Verus does not
/// see; what it holds is named by [`u64_slots`], and the wrappers below state
/// what Arrow's `len`, `null_count` and `values` return in terms of it.
#[verifier::external_body]
pub struct U64Column(pub PrimitiveArray<UInt64Type>);

/// An Arrow `Float64Array`, as the library holds it, for the same reason.
/// Only which slots hold a weight is named ([`float_validity`]): the weights
/// themselves are not modelled, and nothing here reads them.
#[verifier::external_body]
pub struct FloatColumn(pub PrimitiveArray<Float64Type>);

/// The slots of an Arrow `UInt64Array`, in order: `Some(v)` for a slot that
/// holds `v`, `None` for a null slot.
pub uninterp spec fn u64_slots(a: U64Column) -> Seq<Option<u64>>;

/// Which slots of an Arrow `Float64Array` hold a value (`true`) and which are
/// null (`false`), in order.
pub uninterp spec fn float_validity(a: FloatColumn) -> Seq<bool>;

/// The number of null slots among `s`.
pub open spec fn null_slots(s: Seq<Option<u64>>) -> nat
    decreases s.len(),
{
    if s.len() == 0 {
        0
    } else {
        null_slots(s.drop_last()) + if s.last() is None { 1nat } else { 0nat }
    }
}

/// The number of invalid (null) entries of a validity sequence.
pub open spec fn invalid_slots(s: Seq<bool>) -> nat
    decreases s.len(),
{
    if s.len() == 0 {
        0
    } else {
        invalid_slots(s.drop_last()) + if s.last() { 0nat } else { 1nat }
    }
}

/// The values of slots that all hold a value.
pub open spec fn slot_values(s: Seq<Option<u64>>) -> Seq<u64> {
    s.map_values(|x: Option<u64>| x->0)
}

/// `PrimitiveArray::len` on a `UInt64Array`: the number of slots, null ones
/// included.
#[verifier::external_body]
pub fn u64_array_len(a: &U64Column) -> (r: usize)
    ensures
        r == u64_slots(*a).len(),
{
    a.0.len()
}

/// `Array::null_count` on a `UInt64Array`: the number of null slots.
#[verifier::external_body]
pub fn u64_array_null_count(a: &U64Column) -> (r: usize)
    ensures
        r == null_slots(u64_slots(*a)),
{
    a.0.null_count()
}

/// `PrimitiveArray::values` on a `UInt64Array`, as a slice: one entry per
/// slot, equal to the slot's value wherever the slot is not null (what a null
/// slot's entry holds is left open, as Arrow leaves it).
#[verifier::external_body]
pub fn u64_array_values(a: &U64Column) -> (r: &[u64])
    ensures
        r@.len() == u64_slots(*a).len(),
        forall|i: int|
            0 <= i < r@.len() && (#[trigger] u64_slots(*a)[i]) is Some ==> r@[i]
                == u64_slots(*a)[i]->0,
{
    &a.0.values()[..]
}

/// `PrimitiveArray::len` on a `Float64Array`: the number of slots.
#[verifier::external_body]
pub fn float_array_len(a: &FloatColumn) -> (r: usize)
    ensures
        r == float_validity(*a).len(),
{
    a.0.len()
}

/// `Array::null_count` on a `Float64Array`: the number of null slots.
#[verifier::external_body]
pub fn float_array_null_count(a: &FloatColumn) -> (r: usize)
    ensures
        r == invalid_slots(float_validity(*a)),
{
    a.0.null_count()
}

/// A sequence of slots without a null slot holds a value in every slot.
pub proof fn lemma_no_nulls(s: Seq<Option<u64>>)
    requires
        null_slots(s) == 0,
    ensures
        forall|i: int| 0 <= i < s.len() ==> (#[trigger] s[i]) is Some,
    decreases s.len(),
{
    if s.len() > 0 {
        lemma_no_nulls(s.drop_last());
        assert forall|i: int| 0 <= i < s.len() implies (#[trigger] s[i]) is Some by {
            if i < s.len() - 1 {
                assert(s.drop_last()[i] == s[i]);
            }
        }
    }
}

} // verus!

verus! {

/// Every slot of `s` holds a value.
pub open spec fn all_present(s: Seq<Option<u64>>) -> bool {
    forall|i: int| 0 <= i < s.len() ==> (#[trigger] s[i]) is Some
}

/// Every entry of the validity sequence `s` is valid.
pub open spec fn all_valid(s: Seq<bool>) -> bool {
    forall|i: int| 0 <= i < s.len() ==> #[trigger] s[i]
}

/// Slots without a null slot count no null slot, and the other way round.
pub proof fn lemma_null_slots_zero_iff(s: Seq<Option<u64>>)
    ensures
        null_slots(s) == 0 <==> all_present(s),
    decreases s.len(),
{
    if s.len() > 0 {
        lemma_null_slots_zero_iff(s.drop_last());
        if all_present(s) {
            assert forall|i: int| 0 <= i < s.drop_last().len() implies (#[trigger] s.drop_last()[i]) is Some by {
                assert(s[i] is Some);
            }
            assert(s[s.len() - 1] is Some);
        }
        if null_slots(s) == 0 {
            lemma_no_nulls(s);
        }
    }
}

/// A validity sequence counts no invalid entry exactly when every entry is
/// valid.
pub proof fn lemma_invalid_slots_zero_iff(s: Seq<bool>)
    ensures
        invalid_slots(s) == 0 <==> all_valid(s),
    decreases s.len(),
{
    if s.len() > 0 {
        lemma_invalid_slots_zero_iff(s.drop_last());
        if all_valid(s) {
            assert forall|i: int| 0 <= i < s.drop_last().len() implies #[trigger] s.drop_last()[i] by {
                assert(s[i]);
            }
            assert(s[s.len() - 1]);
        }
        if invalid_slots(s) == 0 {
            assert forall|i: int| 0 <= i < s.len() implies #[trigger] s[i] by {
                if i < s.len() - 1 {
                    assert(s.drop_last()[i] == s[i]);
                }
            }
        }
    }
}

} // verus!
