//! The task store: a verified model of the tasks table and of the
//! parameterized statements the service issues against it.
//!
//! The store is the sole owner of the records. It assigns each new task a
//! fresh identifier from a counter and stamps every insertion and update
//! from a logical clock that only moves forward, so identifiers are unique
//! and `created_at <= updated_at` holds of every record at all times.

use vstd::prelude::*;
use vstd::string::StringExecFns;

use crate::model::{TaskModel, TaskView};
use crate::schema::CreateTaskSchema;

verus! {

/// The views of a sequence of records.
pub open spec fn views_of(tasks: Seq<TaskModel>) -> Seq<TaskView> {
    tasks.map_values(|t: TaskModel| t@)
}

/// No two records carry the same identifier.
pub open spec fn unique_ids(tasks: Seq<TaskView>) -> bool {
    forall|i: int, j: int|
        0 <= i < j < tasks.len() ==> #[trigger] tasks[i].id != #[trigger] tasks[j].id
}

/// Some record carries the given identifier.
pub open spec fn has_id(tasks: Seq<TaskView>, id: u128) -> bool {
    exists|i: int| 0 <= i < tasks.len() && (#[trigger] tasks[i]).id == id
}

/// The index of the record with the given identifier (meaningful only when
/// `has_id` holds; with `unique_ids` it is the one matching index).
pub open spec fn idx_of(tasks: Seq<TaskView>, id: u128) -> int {
    choose|i: int| 0 <= i < tasks.len() && (#[trigger] tasks[i]).id == id
}

/// The record with the given identifier.
pub open spec fn task_with_id(tasks: Seq<TaskView>, id: u128) -> TaskView {
    tasks[idx_of(tasks, id)]
}

/// The window of records a list request returns: up to `limit` records,
/// skipping the first `offset`; empty when `offset` exceeds the table size.
pub open spec fn page_of(tasks: Seq<TaskView>, limit: int, offset: int) -> Seq<TaskView>
    recommends
        0 <= limit,
        0 <= offset,
{
    let start = if offset > tasks.len() {
        tasks.len() as int
    } else {
        offset
    };
    let end = if offset + limit > tasks.len() {
        tasks.len() as int
    } else {
        offset + limit
    };
    tasks.subrange(start, end)
}

/// The mathematical view of the store: the records in table order, the next
/// identifier the counter will hand out, and the logical clock.
pub ghost struct StoreView {
    pub tasks: Seq<TaskView>,
    pub next_id: u128,
    pub clock: u64,
}

impl StoreView {
    /// The store's invariant: identifiers are unique and below the counter,
    /// and each record's timestamps are ordered and below the clock.
    pub open spec fn wf(self) -> bool {
        &&& unique_ids(self.tasks)
        &&& forall|i: int|
            0 <= i < self.tasks.len() ==> (#[trigger] self.tasks[i]).id < self.next_id
        &&& forall|i: int|
            0 <= i < self.tasks.len() ==> (#[trigger] self.tasks[i]).created_at
                <= self.tasks[i].updated_at
        &&& forall|i: int|
            0 <= i < self.tasks.len() ==> (#[trigger] self.tasks[i]).updated_at < self.clock
    }
}

/// How a store operation fails: no matching row, or a failure of the store
/// itself (connectivity, a violated constraint), carried as its description.
#[derive(Debug)]
pub enum StoreError {
    NotFound,
    Failure(String),
}

impl StoreError {
    /// The description of the failure.
    pub open spec fn spec_message(self) -> Seq<char> {
        match self {
            StoreError::NotFound => "Task not found"@,
            StoreError::Failure(m) => m@,
        }
    }

    pub fn message(&self) -> (m: String)
        ensures
            m@ == self.spec_message(),
    {
        match self {
            StoreError::NotFound => String::from_str("Task not found"),
            StoreError::Failure(s) => s.clone(),
        }
    }
}

/// If a record with the given identifier stands at index `i` and identifiers
/// are unique, then `i` is the index any lookup by that identifier finds.
pub proof fn lemma_found_at(tasks: Seq<TaskView>, id: u128, i: int)
    requires
        unique_ids(tasks),
        0 <= i < tasks.len(),
        tasks[i].id == id,
    ensures
        has_id(tasks, id),
        idx_of(tasks, id) == i,
        task_with_id(tasks, id) == tasks[i],
{
    assert(has_id(tasks, id));
    let k = idx_of(tasks, id);
    assert(0 <= k < tasks.len() && tasks[k].id == id);
    if k < i {
        assert(tasks[k].id != tasks[i].id);
    } else if i < k {
        assert(tasks[i].id != tasks[k].id);
    }
}

/// The tasks table.
pub struct TaskStore {
    tasks: Vec<TaskModel>,
    next_id: u128,
    clock: u64,
}

impl View for TaskStore {
    type V = StoreView;

    closed spec fn view(&self) -> StoreView {
        StoreView { tasks: views_of(self.tasks@), next_id: self.next_id, clock: self.clock }
    }
}

impl TaskStore {
    pub open spec fn wf(self) -> bool {
        self@.wf()
    }

    /// An empty table.
    pub fn new() -> (s: TaskStore)
        ensures
            s.wf(),
            s@.tasks == Seq::<TaskView>::empty(),
            s@.next_id == 1,
            s@.clock == 1,
    {
        let s = TaskStore { tasks: Vec::new(), next_id: 1, clock: 1 };
        proof {
            assert(s@.tasks =~= Seq::<TaskView>::empty());
        }
        s
    }

    /// Insert: assigns a fresh identifier and both timestamps, appends the
    /// record, and returns it.
    pub fn insert(&mut self, body: &CreateTaskSchema) -> (t: TaskModel)
        requires
            old(self).wf(),
            old(self)@.next_id < u128::MAX,
            old(self)@.clock < u64::MAX,
        ensures
            final(self).wf(),
            t@.id == old(self)@.next_id,
            t@.title == body.title@,
            t@.content == body.content@,
            t@.priority == body.priority@,
            t@.status == body.status@,
            t@.created_at == old(self)@.clock,
            t@.updated_at == t@.created_at,
            final(self)@.tasks == old(self)@.tasks.push(t@),
            final(self)@.next_id == old(self)@.next_id + 1,
            final(self)@.clock == old(self)@.clock + 1,
    {
        let t = TaskModel {
            id: self.next_id,
            title: body.title.clone(),
            status: body.status.clone(),
            priority: body.priority.clone(),
            content: body.content.clone(),
            created_at: self.clock,
            updated_at: self.clock,
        };
        let stored = t.clone();
        self.tasks.push(stored);
        self.next_id = self.next_id + 1;
        self.clock = self.clock + 1;
        proof {
            assert(self@.tasks =~= old(self)@.tasks.push(t@));
        }
        t
    }

    /// Select by id: the record with the given identifier, or NotFound.
    pub fn get_by_id(&self, id: u128) -> (r: Result<TaskModel, StoreError>)
        requires
            self.wf(),
        ensures
            match r {
                Ok(t) => has_id(self@.tasks, id) && t@ == task_with_id(self@.tasks, id),
                Err(e) => e == StoreError::NotFound && !has_id(self@.tasks, id),
            },
    {
        let n = self.tasks.len();
        let mut i: usize = 0;
        while i < n
            invariant
                self.wf(),
                n == self.tasks.len(),
                i <= n,
                forall|j: int| 0 <= j < i ==> (#[trigger] self@.tasks[j]).id != id,
            decreases n - i,
        {
            if self.tasks[i].id == id {
                let t = self.tasks[i].clone();
                proof {
                    lemma_found_at(self@.tasks, id, i as int);
                }
                return Ok(t);
            }
            i += 1;
        }
        Err(StoreError::NotFound)
    }

    /// Select a page: up to `limit` records in table order, skipping the
    /// first `offset`; an offset beyond the table yields an empty page.
    pub fn list_page(&self, limit: usize, offset: usize) -> (r: Vec<TaskModel>)
        ensures
            views_of(r@) == page_of(self@.tasks, limit as int, offset as int),
            r@.len() == page_of(self@.tasks, limit as int, offset as int).len(),
    {
        let n = self.tasks.len();
        let start = if offset > n {
            n
        } else {
            offset
        };
        let remaining = n - start;
        let count = if limit < remaining {
            limit
        } else {
            remaining
        };
        let mut out: Vec<TaskModel> = Vec::new();
        let mut i: usize = 0;
        while i < count
            invariant
                n == self.tasks.len(),
                start + count <= n,
                i <= count,
                out@.len() == i,
                forall|k: int| 0 <= k < i ==> (#[trigger] out@[k])@ == self@.tasks[start + k],
            decreases count - i,
        {
            out.push(self.tasks[start + i].clone());
            i += 1;
        }
        proof {
            assert(views_of(out@) =~= page_of(self@.tasks, limit as int, offset as int));
        }
        out
    }

    /// Update by id: overwrites the four mutable fields with the given,
    /// fully resolved values, keeps `created_at`, refreshes `updated_at`
    /// from the clock, and returns the new record; NotFound when no row
    /// matches.
    pub fn update_by_id(&mut self, id: u128, vals: &CreateTaskSchema) -> (r: Result<
        TaskModel,
        StoreError,
    >)
        requires
            old(self).wf(),
            old(self)@.clock < u64::MAX,
        ensures
            final(self).wf(),
            final(self)@.next_id == old(self)@.next_id,
            match r {
                Ok(t) => {
                    &&& has_id(old(self)@.tasks, id)
                    &&& t@.id == id
                    &&& t@.title == vals.title@
                    &&& t@.content == vals.content@
                    &&& t@.priority == vals.priority@
                    &&& t@.status == vals.status@
                    &&& t@.created_at == task_with_id(old(self)@.tasks, id).created_at
                    &&& t@.updated_at == old(self)@.clock
                    &&& t@.updated_at >= task_with_id(old(self)@.tasks, id).updated_at
                    &&& final(self)@.tasks == old(self)@.tasks.update(
                        idx_of(old(self)@.tasks, id),
                        t@,
                    )
                    &&& final(self)@.clock == old(self)@.clock + 1
                },
                Err(e) => {
                    &&& e == StoreError::NotFound
                    &&& !has_id(old(self)@.tasks, id)
                    &&& *final(self) == *old(self)
                },
            },
    {
        let n = self.tasks.len();
        let mut i: usize = 0;
        while i < n
            invariant
                self == old(self),
                self.wf(),
                self@.clock < u64::MAX,
                n == self.tasks.len(),
                i <= n,
                forall|j: int| 0 <= j < i ==> (#[trigger] self@.tasks[j]).id != id,
            decreases n - i,
        {
            if self.tasks[i].id == id {
                let updated = TaskModel {
                    id: self.tasks[i].id,
                    title: vals.title.clone(),
                    status: vals.status.clone(),
                    priority: vals.priority.clone(),
                    content: vals.content.clone(),
                    created_at: self.tasks[i].created_at,
                    updated_at: self.clock,
                };
                let t = updated.clone();
                proof {
                    lemma_found_at(old(self)@.tasks, id, i as int);
                }
                self.tasks[i] = updated;
                self.clock = self.clock + 1;
                proof {
                    assert(self@.tasks =~= old(self)@.tasks.update(i as int, t@));
                }
                return Ok(t);
            }
            i += 1;
        }
        Err(StoreError::NotFound)
    }

    /// Delete by id: removes the record with the given identifier and
    /// returns the deleted row; NotFound when no row matches.
    pub fn delete_by_id(&mut self, id: u128) -> (r: Result<TaskModel, StoreError>)
        requires
            old(self).wf(),
        ensures
            final(self).wf(),
            final(self)@.next_id == old(self)@.next_id,
            final(self)@.clock == old(self)@.clock,
            match r {
                Ok(t) => {
                    &&& has_id(old(self)@.tasks, id)
                    &&& t@ == task_with_id(old(self)@.tasks, id)
                    &&& final(self)@.tasks == old(self)@.tasks.remove(
                        idx_of(old(self)@.tasks, id),
                    )
                },
                Err(e) => {
                    &&& e == StoreError::NotFound
                    &&& !has_id(old(self)@.tasks, id)
                    &&& *final(self) == *old(self)
                },
            },
    {
        let n = self.tasks.len();
        let mut i: usize = 0;
        while i < n
            invariant
                self == old(self),
                self.wf(),
                n == self.tasks.len(),
                i <= n,
                forall|j: int| 0 <= j < i ==> (#[trigger] self@.tasks[j]).id != id,
            decreases n - i,
        {
            if self.tasks[i].id == id {
                proof {
                    lemma_found_at(old(self)@.tasks, id, i as int);
                }
                let t = self.tasks.remove(i);
                proof {
                    assert(self@.tasks =~= old(self)@.tasks.remove(i as int));
                }
                return Ok(t);
            }
            i += 1;
        }
        Err(StoreError::NotFound)
    }
}

} // verus!
