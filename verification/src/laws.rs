//! Laws of the store and of the update merge, stated over the views the
//! operations' contracts use.

use vstd::prelude::*;

use crate::model::TaskView;
use crate::schema::UpdateTaskSchema;
use crate::services::resolve;
use crate::store::{has_id, idx_of, lemma_found_at, task_with_id, StoreView};

verus! {

/// A task just created is found again by its identifier, and what the fetch
/// yields is the very record the creation returned — same fields, same
/// timestamps. The premises are what `insert` ensures: the store was
/// well-formed and the new record took the counter's fresh identifier.
pub proof fn lemma_create_then_fetch(v: StoreView, t: TaskView)
    requires
        v.wf(),
        t.id == v.next_id,
    ensures
        has_id(v.tasks.push(t), t.id),
        task_with_id(v.tasks.push(t), t.id) == t,
{
    let tasks = v.tasks.push(t);
    let n = v.tasks.len() as int;
    assert(tasks[n] == t);
    assert forall|i: int, j: int| 0 <= i < j < tasks.len() implies #[trigger] tasks[i].id
        != #[trigger] tasks[j].id by {
        if j < n {
            assert(tasks[i] == v.tasks[i] && tasks[j] == v.tasks[j]);
        } else {
            assert(tasks[i] == v.tasks[i]);
            assert(v.tasks[i].id < v.next_id);
        }
    }
    lemma_found_at(tasks, t.id, n);
}

/// In a well-formed store no record's updated timestamp precedes its created
/// timestamp.
pub proof fn lemma_timestamps_ordered(v: StoreView)
    requires
        v.wf(),
    ensures
        forall|i: int|
            0 <= i < v.tasks.len() ==> (#[trigger] v.tasks[i]).created_at
                <= v.tasks[i].updated_at,
{
}

/// An update can only move a record's updated timestamp forward: the fresh
/// stamp is the clock, and every stamp already in a well-formed store lies
/// below the clock. Since each update also leaves the clock higher than it
/// found it, over any sequence of updates the updated timestamp is
/// non-decreasing.
pub proof fn lemma_update_refreshes_forward(v: StoreView, id: u128, stamp: u64)
    requires
        v.wf(),
        has_id(v.tasks, id),
        stamp == v.clock,
    ensures
        stamp > task_with_id(v.tasks, id).updated_at,
        stamp >= task_with_id(v.tasks, id).created_at,
{
    let k = idx_of(v.tasks, id);
    assert(0 <= k < v.tasks.len() && v.tasks[k].id == id);
}

/// A chain of store states linked by updates of one record: at every state
/// the store is well-formed and holds the record, and each later state's
/// stamp for it was taken from the clock of the state before, as the update
/// operation ensures.
pub open spec fn update_chain(vs: Seq<StoreView>, id: u128) -> bool {
    &&& forall|k: int|
        0 <= k < vs.len() ==> (#[trigger] vs[k]).wf() && has_id(vs[k].tasks, id)
    &&& forall|k: int|
        0 <= k < vs.len() - 1 ==> task_with_id(vs[k + 1].tasks, id).updated_at
            == #[trigger] vs[k].clock
}

/// Over any sequence of updates of a record, its updated timestamp is
/// non-decreasing, and never precedes its created timestamp.
pub proof fn lemma_updates_keep_updated_at_nondecreasing(
    vs: Seq<StoreView>,
    id: u128,
    a: int,
    b: int,
)
    requires
        update_chain(vs, id),
        0 <= a <= b < vs.len(),
    ensures
        task_with_id(vs[a].tasks, id).updated_at <= task_with_id(vs[b].tasks, id).updated_at,
        task_with_id(vs[b].tasks, id).created_at <= task_with_id(vs[b].tasks, id).updated_at,
    decreases b - a,
{
    let kb = idx_of(vs[b].tasks, id);
    assert(0 <= kb < vs[b].tasks.len() && vs[b].tasks[kb].id == id);
    if a < b {
        lemma_updates_keep_updated_at_nondecreasing(vs, id, a, b - 1);
        let k = idx_of(vs[b - 1].tasks, id);
        assert(0 <= k < vs[b - 1].tasks.len() && vs[b - 1].tasks[k].id == id);
        assert(vs[b - 1].tasks[k].updated_at < vs[b - 1].clock);
        assert(task_with_id(vs[b].tasks, id).updated_at == vs[b - 1].clock);
    }
}

/// A patch with every field absent resolves each of the four mutable fields
/// to its existing value: an empty update changes nothing but the updated
/// timestamp, which is refreshed regardless.
pub proof fn lemma_empty_patch_keeps_fields(patch: UpdateTaskSchema, existing: TaskView)
    requires
        patch.title is None,
        patch.content is None,
        patch.priority is None,
        patch.status is None,
    ensures
        resolve(patch.title, existing.title) == existing.title,
        resolve(patch.content, existing.content) == existing.content,
        resolve(patch.priority, existing.priority) == existing.priority,
        resolve(patch.status, existing.status) == existing.status,
{
}

/// After a record is deleted, no record with its identifier is left: a fetch
/// by the same identifier yields NotFound.
pub proof fn lemma_delete_then_fetch(v: StoreView, id: u128)
    requires
        v.wf(),
        has_id(v.tasks, id),
    ensures
        !has_id(v.tasks.remove(idx_of(v.tasks, id)), id),
{
    let k = idx_of(v.tasks, id);
    assert(0 <= k < v.tasks.len() && v.tasks[k].id == id);
    let rest = v.tasks.remove(k);
    assert forall|j: int| 0 <= j < rest.len() implies (#[trigger] rest[j]).id != id by {
        if j < k {
            assert(rest[j] == v.tasks[j]);
            assert(v.tasks[j].id != v.tasks[k].id);
        } else {
            assert(rest[j] == v.tasks[j + 1]);
            assert(v.tasks[k].id != v.tasks[j + 1].id);
        }
    }
}

} // verus!
