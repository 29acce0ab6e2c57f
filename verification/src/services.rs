//! The request handlers: pagination, the partial-update merge, and the
//! mapping of every store outcome to a response envelope.
//!
//! Each handler works against the task store and returns an [`ApiReply`],
//! the value behind the JSON envelope the service sends: its status code,
//! status label, message and payload are pinned by the contracts here. The
//! `*_reply` functions shape an envelope from a store outcome alone, so a
//! caller that reaches a store of its own can hand the outcome in and get
//! the very same envelope.

use vstd::prelude::*;
use vstd::string::StringExecFns;

use crate::model::TaskModel;
use crate::schema::{CreateTaskSchema, FilterOptions, UpdateTaskSchema};
use crate::store::{has_id, idx_of, page_of, task_with_id, views_of, StoreError, TaskStore};

verus! {

/// The value an update resolves a field to: the supplied value when present,
/// the existing one when absent.
pub open spec fn resolve(given: Option<String>, existing: Seq<char>) -> Seq<char> {
    match given {
        Option::Some(s) => s@,
        Option::None => existing,
    }
}

/// The limit a list request resolves to: the given one, or 10.
pub open spec fn spec_limit(opts: FilterOptions) -> int {
    match opts.limit {
        Option::Some(l) => l as int,
        Option::None => 10,
    }
}

/// The page a list request resolves to: the given one, or 1; a page of 0
/// is clamped to 1 rather than let the offset underflow.
pub open spec fn spec_page(opts: FilterOptions) -> int {
    match opts.page {
        Option::Some(p) => if p == 0 {
            1
        } else {
            p as int
        },
        Option::None => 1,
    }
}

/// The row offset of a list request: `(page - 1) * limit`, saturated at the
/// machine bound (an offset beyond the table yields an empty page anyway).
pub open spec fn spec_offset(opts: FilterOptions) -> int {
    if (spec_page(opts) - 1) * spec_limit(opts) > usize::MAX {
        usize::MAX as int
    } else {
        (spec_page(opts) - 1) * spec_limit(opts)
    }
}

/// Resolves the pagination options to the limit and offset handed to the
/// store.
pub fn page_offset(opts: &FilterOptions) -> (r: (usize, usize))
    ensures
        r.0 == spec_limit(*opts),
        r.1 == spec_offset(*opts),
{
    let limit: usize = match opts.limit {
        Some(l) => l,
        None => 10,
    };
    let page: usize = match opts.page {
        Some(p) => if p == 0 {
            1
        } else {
            p
        },
        None => 1,
    };
    let offset: usize = match (page - 1).checked_mul(limit) {
        Some(o) => o,
        None => usize::MAX,
    };
    (limit, offset)
}

/// Resolves a partial update against the existing record: each of the four
/// mutable fields independently takes the supplied value when present and
/// keeps the existing one when absent.
pub fn merge_update(existing: &TaskModel, patch: &UpdateTaskSchema) -> (r: CreateTaskSchema)
    ensures
        r.title@ == resolve(patch.title, existing@.title),
        r.content@ == resolve(patch.content, existing@.content),
        r.priority@ == resolve(patch.priority, existing@.priority),
        r.status@ == resolve(patch.status, existing@.status),
{
    CreateTaskSchema {
        title: match &patch.title {
            Some(s) => s.clone(),
            None => existing.title.clone(),
        },
        content: match &patch.content {
            Some(s) => s.clone(),
            None => existing.content.clone(),
        },
        priority: match &patch.priority {
            Some(s) => s.clone(),
            None => existing.priority.clone(),
        },
        status: match &patch.status {
            Some(s) => s.clone(),
            None => existing.status.clone(),
        },
    }
}

/// The response envelope: what the service sends back, as a value. The
/// status code, the status label and the message of each variant are given
/// by the methods below.
pub enum ApiReply {
    Health,
    Created(TaskModel),
    Listed { result: usize, tasks: Vec<TaskModel> },
    Fetched(TaskModel),
    Updated(TaskModel),
    Deleted,
    NotFound,
    ServerError(String),
}

impl ApiReply {
    /// The HTTP status code of the envelope.
    pub open spec fn spec_code(self) -> u16 {
        match self {
            ApiReply::NotFound => 404,
            ApiReply::ServerError(_) => 500,
            _ => 200,
        }
    }

    pub fn code(&self) -> (c: u16)
        ensures
            c == self.spec_code(),
    {
        match self {
            ApiReply::NotFound => 404,
            ApiReply::ServerError(_) => 500,
            _ => 200,
        }
    }

    /// The value of the envelope's `status` field.
    pub open spec fn spec_status_label(self) -> Seq<char> {
        match self {
            ApiReply::Health => "ok"@,
            ApiReply::NotFound => "error"@,
            ApiReply::ServerError(_) => "error"@,
            _ => "success"@,
        }
    }

    pub fn status_label(&self) -> (s: String)
        ensures
            s@ == self.spec_status_label(),
    {
        match self {
            ApiReply::Health => String::from_str("ok"),
            ApiReply::NotFound => String::from_str("error"),
            ApiReply::ServerError(_) => String::from_str("error"),
            _ => String::from_str("success"),
        }
    }

    /// The value of the envelope's `message` field, where it has one.
    pub open spec fn spec_message(self) -> Option<Seq<char>> {
        match self {
            ApiReply::Health => Some("Health check: API is up and running..."@),
            ApiReply::Created(_) => Some("Task created successfully"@),
            ApiReply::Updated(_) => Some("Task updated successfully"@),
            ApiReply::Deleted => Some("Task deleted successfully"@),
            ApiReply::NotFound => Some("Task not found"@),
            ApiReply::ServerError(m) => Some(m@),
            _ => None,
        }
    }

    pub fn message(&self) -> (m: Option<String>)
        ensures
            match m {
                Some(s) => self.spec_message() == Some(s@),
                None => self.spec_message() is None,
            },
    {
        match self {
            ApiReply::Health => Some(String::from_str("Health check: API is up and running...")),
            ApiReply::Created(_) => Some(String::from_str("Task created successfully")),
            ApiReply::Updated(_) => Some(String::from_str("Task updated successfully")),
            ApiReply::Deleted => Some(String::from_str("Task deleted successfully")),
            ApiReply::NotFound => Some(String::from_str("Task not found")),
            ApiReply::ServerError(m) => Some(m.clone()),
            _ => None,
        }
    }
}

/// Shapes the envelope of a create: the created record on success, a server
/// error carrying the cause otherwise.
pub fn create_reply(result: Result<TaskModel, StoreError>) -> (r: ApiReply)
    ensures
        match result {
            Ok(t) => r == ApiReply::Created(t),
            Err(e) => r matches ApiReply::ServerError(m) && m@ == e.spec_message(),
        },
{
    match result {
        Ok(t) => ApiReply::Created(t),
        Err(e) => ApiReply::ServerError(e.message()),
    }
}

/// Shapes the envelope of a list: the page and its count on success, a
/// server error otherwise.
pub fn list_reply(result: Result<Vec<TaskModel>, StoreError>) -> (r: ApiReply)
    ensures
        match result {
            Ok(ts) => r matches ApiReply::Listed { result: c, tasks } && tasks == ts && c
                == ts@.len(),
            Err(e) => r matches ApiReply::ServerError(m) && m@ == e.spec_message(),
        },
{
    match result {
        Ok(ts) => {
            let c = ts.len();
            ApiReply::Listed { result: c, tasks: ts }
        },
        Err(e) => ApiReply::ServerError(e.message()),
    }
}

/// Shapes the envelope of a fetch by id: the record on success; any failure,
/// a missing row included, becomes a generic server error carrying the
/// cause's description.
pub fn get_reply(result: Result<TaskModel, StoreError>) -> (r: ApiReply)
    ensures
        match result {
            Ok(t) => r == ApiReply::Fetched(t),
            Err(e) => r matches ApiReply::ServerError(m) && m@ == e.spec_message(),
        },
{
    match result {
        Ok(t) => ApiReply::Fetched(t),
        Err(e) => ApiReply::ServerError(e.message()),
    }
}

/// Shapes the envelope of a delete: a fixed message on success (the deleted
/// row is not echoed); any failure becomes a generic server error.
pub fn delete_reply(result: Result<TaskModel, StoreError>) -> (r: ApiReply)
    ensures
        match result {
            Ok(_) => r == ApiReply::Deleted,
            Err(e) => r matches ApiReply::ServerError(m) && m@ == e.spec_message(),
        },
{
    match result {
        Ok(_) => ApiReply::Deleted,
        Err(e) => ApiReply::ServerError(e.message()),
    }
}

/// Shapes the envelope of the update statement itself: the updated record on
/// success, a server error otherwise (absence is decided before this point).
pub fn update_reply(result: Result<TaskModel, StoreError>) -> (r: ApiReply)
    ensures
        match result {
            Ok(t) => r == ApiReply::Updated(t),
            Err(e) => r matches ApiReply::ServerError(m) && m@ == e.spec_message(),
        },
{
    match result {
        Ok(t) => ApiReply::Updated(t),
        Err(e) => ApiReply::ServerError(e.message()),
    }
}

/// Health: no inputs, always the fixed success envelope.
pub fn health() -> (r: ApiReply)
    ensures
        r == ApiReply::Health,
{
    ApiReply::Health
}

/// Create: inserts the four supplied fields and returns the created record
/// in a success envelope.
pub fn create_task(data: &mut TaskStore, body: &CreateTaskSchema) -> (r: ApiReply)
    requires
        old(data).wf(),
        old(data)@.next_id < u128::MAX,
        old(data)@.clock < u64::MAX,
    ensures
        final(data).wf(),
        final(data)@.next_id == old(data)@.next_id + 1,
        final(data)@.clock == old(data)@.clock + 1,
        r matches ApiReply::Created(t) && {
            &&& t@.id == old(data)@.next_id
            &&& t@.title == body.title@
            &&& t@.content == body.content@
            &&& t@.priority == body.priority@
            &&& t@.status == body.status@
            &&& t@.created_at == old(data)@.clock
            &&& t@.created_at == t@.updated_at
            &&& final(data)@.tasks == old(data)@.tasks.push(t@)
        },
{
    let t = data.insert(body);
    create_reply(Ok(t))
}

/// List: resolves page and limit (defaults 1 and 10, page clamped to at
/// least 1), fetches the page at `(page - 1) * limit`, and returns it with
/// its count — the count of the page, not of the table.
pub fn get_all_tasks(data: &TaskStore, opts: &FilterOptions) -> (r: ApiReply)
    ensures
        r matches ApiReply::Listed { result, tasks } && {
            &&& views_of(tasks@) == page_of(data@.tasks, spec_limit(*opts), spec_offset(*opts))
            &&& result == tasks@.len()
            &&& result == page_of(data@.tasks, spec_limit(*opts), spec_offset(*opts)).len()
        },
{
    let (limit, offset) = page_offset(opts);
    let tasks = data.list_page(limit, offset);
    list_reply(Ok(tasks))
}

/// Fetch by id: the record in a success envelope when it exists; a missing
/// row is collapsed into a generic server error.
pub fn get_task_by_id(data: &TaskStore, task_id: u128) -> (r: ApiReply)
    requires
        data.wf(),
    ensures
        match r {
            ApiReply::Fetched(t) => has_id(data@.tasks, task_id) && t@ == task_with_id(
                data@.tasks,
                task_id,
            ),
            ApiReply::ServerError(m) => !has_id(data@.tasks, task_id) && m@
                == StoreError::NotFound.spec_message(),
            _ => false,
        },
{
    get_reply(data.get_by_id(task_id))
}

/// Delete by id: removes the record and returns a fixed success message; a
/// missing row is collapsed into a generic server error and the store is
/// left unchanged.
pub fn delete_task_by_id(data: &mut TaskStore, task_id: u128) -> (r: ApiReply)
    requires
        old(data).wf(),
    ensures
        final(data).wf(),
        final(data)@.next_id == old(data)@.next_id,
        final(data)@.clock == old(data)@.clock,
        has_id(old(data)@.tasks, task_id) ==> {
            &&& r == ApiReply::Deleted
            &&& final(data)@.tasks == old(data)@.tasks.remove(idx_of(old(data)@.tasks, task_id))
        },
        !has_id(old(data)@.tasks, task_id) ==> {
            &&& *final(data) == *old(data)
            &&& r matches ApiReply::ServerError(m) && m@ == StoreError::NotFound.spec_message()
        },
{
    delete_reply(data.delete_by_id(task_id))
}

/// Update by id: a missing row yields the not-found envelope and leaves the
/// store unchanged. Otherwise each supplied field overwrites and each absent
/// field keeps its current value, `created_at` is kept, `updated_at` is
/// refreshed — never below its prior value — and the updated record comes
/// back in a success envelope.
pub fn update_task_by_id(data: &mut TaskStore, task_id: u128, body: &UpdateTaskSchema) -> (r:
    ApiReply)
    requires
        old(data).wf(),
        old(data)@.clock < u64::MAX,
    ensures
        final(data).wf(),
        final(data)@.next_id == old(data)@.next_id,
        !has_id(old(data)@.tasks, task_id) ==> {
            &&& *final(data) == *old(data)
            &&& r == ApiReply::NotFound
        },
        has_id(old(data)@.tasks, task_id) ==> (r matches ApiReply::Updated(t) && {
            let prior = task_with_id(old(data)@.tasks, task_id);
            &&& t@.id == task_id
            &&& t@.title == resolve(body.title, prior.title)
            &&& t@.content == resolve(body.content, prior.content)
            &&& t@.priority == resolve(body.priority, prior.priority)
            &&& t@.status == resolve(body.status, prior.status)
            &&& t@.created_at == prior.created_at
            &&& t@.updated_at == old(data)@.clock
            &&& t@.updated_at >= prior.updated_at
            &&& final(data)@.tasks == old(data)@.tasks.update(
                idx_of(old(data)@.tasks, task_id),
                t@,
            )
            &&& final(data)@.clock == old(data)@.clock + 1
        }),
{
    let fetched = data.get_by_id(task_id);
    match fetched {
        Err(_) => ApiReply::NotFound,
        Ok(existing) => {
            let vals = merge_update(&existing, body);
            update_reply(data.update_by_id(task_id, &vals))
        },
    }
}

} // verus!
