//! The model shared by both cells: a slot is an `Option<T>`, absent until the
//! first write and fixed afterwards.
use vstd::prelude::*;

verus! {

/// The slot of a cell that has never been written.
pub open spec fn vacant<T>() -> Option<T> {
    None
}

/// What a reader finds in `slot`.
pub open spec fn read<T>(slot: &Option<T>) -> Option<&T> {
    match slot {
        Some(value) => Some(value),
        None => None,
    }
}

/// The slot after an attempt to write `value` into it: an occupied slot keeps
/// what it has, an empty one takes `value`.
pub open spec fn after_write<T>(slot: Option<T>, value: T) -> Option<T> {
    match slot {
        Some(_) => slot,
        None => Some(value),
    }
}

/// What an attempt to write `value` into `slot` answers: success on an empty
/// slot, and on an occupied one the rejected value, handed back.
pub open spec fn write_outcome<T>(slot: Option<T>, value: T) -> Result<(), T> {
    match slot {
        Some(_) => Err(value),
        None => Ok(()),
    }
}

/// The slot after the writes of `values` have been attempted on it, one
/// after another in the order of the sequence.
pub open spec fn after_writes<T>(slot: Option<T>, values: Seq<T>) -> Option<T>
    decreases values.len(),
{
    if values.len() == 0 {
        slot
    } else {
        after_write(after_writes(slot, values.drop_last()), values.last())
    }
}

/// What the write of `values[i]` answers when the writes of `values` are
/// attempted on `slot` one after another.
pub open spec fn outcome_at<T>(slot: Option<T>, values: Seq<T>, i: int) -> Result<(), T>
    recommends
        0 <= i < values.len(),
{
    write_outcome(after_writes(slot, values.take(i)), values[i])
}

/// A cell that has never been written reads as empty.
pub proof fn lemma_vacant_reads_none<T>()
    ensures
        read(&vacant::<T>()) is None,
{
}

/// A write into an empty slot succeeds, and the slot then reads as the
/// written value.
pub proof fn lemma_first_write_is_kept<T>(slot: Option<T>, value: T)
    requires
        slot is None,
    ensures
        write_outcome(slot, value) is Ok,
        read(&after_write(slot, value)) == Some(&value),
{
}

/// A write into an occupied slot fails with exactly the value that was
/// offered, and the slot keeps what it held.
pub proof fn lemma_later_write_is_returned<T>(slot: Option<T>, value: T)
    requires
        slot is Some,
    ensures
        write_outcome(slot, value) == Err::<(), T>(value),
        after_write(slot, value) == slot,
{
}

/// Whatever the slot held before, it is occupied after a write attempt.
pub proof fn lemma_write_settles<T>(slot: Option<T>, value: T)
    ensures
        after_write(slot, value) is Some,
{
}

/// A run of write attempts leaves an occupied slot as it was, and fills an
/// empty one with the first value offered.
pub proof fn lemma_writes_keep_the_first<T>(slot: Option<T>, values: Seq<T>)
    ensures
        slot is Some ==> after_writes(slot, values) == slot,
        slot is None && values.len() > 0 ==> after_writes(slot, values) == Some(values[0]),
        slot is None && values.len() == 0 ==> after_writes(slot, values) is None,
    decreases values.len(),
{
    if values.len() > 0 {
        lemma_writes_keep_the_first(slot, values.drop_last());
    }
}

/// Reading is repeatable. Once a write has been accepted the slot reads as
/// that value, and it goes on doing so whatever writes are attempted later.
pub proof fn lemma_reads_are_stable<T>(slot: Option<T>, value: T, later: Seq<T>)
    requires
        slot is None,
    ensures
        read(&after_writes(after_write(slot, value), later)) == Some(&value),
{
    lemma_writes_keep_the_first(after_write(slot, value), later);
}

/// Of any number of writes attempted one after another on an empty slot,
/// exactly the first succeeds. Each of the others fails with its own value,
/// and in the end the slot reads as the value of the one that succeeded.
pub proof fn lemma_one_write_is_accepted<T>(values: Seq<T>)
    requires
        values.len() > 0,
    ensures
        outcome_at(vacant(), values, 0) is Ok,
        forall|i: int|
            0 < i < values.len() ==> #[trigger] outcome_at(vacant(), values, i) == Err::<(), T>(
                values[i],
            ),
        read(&after_writes(vacant(), values)) == Some(&values[0]),
{
    assert forall|i: int| 0 < i < values.len() implies #[trigger] outcome_at(
        vacant(),
        values,
        i,
    ) == Err::<(), T>(values[i]) by {
        lemma_writes_keep_the_first(vacant::<T>(), values.take(i));
    }
    lemma_writes_keep_the_first(vacant::<T>(), values.take(0));
    lemma_writes_keep_the_first(vacant::<T>(), values);
}

} // verus!
