//! What the steps on a slot add up to, stated over `loads`, `stages` and
//! `publishes`: the relations that `Slot::load`, `Slot::stage` and
//! `Slot::publish` guarantee of every call. `Slot::publish_from`, the step
//! that a guard's release makes, guarantees `publishes` of the value that the
//! guard held.

use crate::slot::{loads, publishes, stages, Slot};
use std::sync::Arc;
use vstd::prelude::*;

verus! {

/// A writer's work is invisible until it is published, and whole from then
/// on. The writer stages its copy `staged` and turns it into `mutated`,
/// whatever that is. A reader that comes before the publish gets the version
/// that the writer started from; a reader that comes after it gets `mutated`
/// itself.
pub proof fn write_is_invisible_until_published<T: Clone>(
    slot: Slot<T>,
    staged: T,
    during: Arc<T>,
    mutated: T,
    after: Slot<T>,
    retired: Arc<T>,
    afterwards: Arc<T>,
)
    requires
        stages(slot, staged),
        loads(slot, during),
        publishes(slot, mutated, after, retired),
        loads(after, afterwards),
    ensures
        *during == slot@,
        cloned(*during, staged),
        *afterwards == mutated,
{
}

/// A handle taken before a publish keeps showing the version it was taken
/// from, and that version is the one the publish retires: nothing but the
/// handles decides how long it lives.
pub proof fn handle_survives_publish<T>(
    before: Slot<T>,
    handle: Arc<T>,
    staged: T,
    after: Slot<T>,
    retired: Arc<T>,
)
    requires
        loads(before, handle),
        publishes(before, staged, after, retired),
    ensures
        *handle == before@,
        *retired == *handle,
{
}

/// Reads follow the order of the writes. `slots[0]` is the slot at the
/// start and `slots[i + 1]` the slot after `values[i]` was published into
/// `slots[i]`. A read of `slots[k]`, for `k > 0`, gives `values[k - 1]`: the
/// last value published before it, never an older one and never a mixture.
/// The version that the next write retires is that same value.
pub proof fn reads_follow_the_write_order<T>(
    slots: Seq<Slot<T>>,
    values: Seq<T>,
    retired: Seq<Arc<T>>,
    k: int,
    handle: Arc<T>,
)
    requires
        slots.len() == values.len() + 1,
        retired.len() == values.len(),
        forall|i: int|
            0 <= i < values.len() ==> publishes(
                #[trigger] slots[i],
                values[i],
                slots[i + 1],
                retired[i],
            ),
        0 < k < slots.len(),
        loads(slots[k], handle),
    ensures
        *handle == values[k - 1],
        k < values.len() ==> *retired[k] == values[k - 1],
{
    assert(publishes(slots[k - 1], values[k - 1], slots[k - 1 + 1], retired[k - 1]));
    if k < values.len() {
        assert(publishes(slots[k], values[k], slots[k + 1], retired[k]));
    }
}

/// No update is lost between two writers that follow each other. The second
/// writer's copy is a clone of what the first published, not of what the
/// first started from, and a read after the second publish gives the second
/// writer's value.
pub proof fn sequential_writes_compose<T: Clone>(
    start: Slot<T>,
    first_value: T,
    between: Slot<T>,
    first_retired: Arc<T>,
    second_staged: T,
    second_value: T,
    end: Slot<T>,
    second_retired: Arc<T>,
    handle: Arc<T>,
)
    requires
        publishes(start, first_value, between, first_retired),
        stages(between, second_staged),
        publishes(between, second_value, end, second_retired),
        loads(end, handle),
    ensures
        cloned(first_value, second_staged),
        *second_retired == first_value,
        *handle == second_value,
{
}

} // verus!
