//! The task record and its mathematical view.

use vstd::prelude::*;

verus! {

/// One row of the tasks table, as plain values: the identifier is the
/// store-assigned 128-bit number, and the two timestamps are seconds since
/// the epoch. Every field other than the identifier and the timestamps is
/// caller-supplied.
pub struct TaskModel {
    pub id: u128,
    pub title: String,
    pub status: String,
    pub priority: String,
    pub content: String,
    pub created_at: u64,
    pub updated_at: u64,
}

/// The mathematical view of a task record: character sequences in place of
/// strings, so that contracts can speak of the values alone.
pub ghost struct TaskView {
    pub id: u128,
    pub title: Seq<char>,
    pub status: Seq<char>,
    pub priority: Seq<char>,
    pub content: Seq<char>,
    pub created_at: u64,
    pub updated_at: u64,
}

impl View for TaskModel {
    type V = TaskView;

    open spec fn view(&self) -> TaskView {
        TaskView {
            id: self.id,
            title: self.title@,
            status: self.status@,
            priority: self.priority@,
            content: self.content@,
            created_at: self.created_at,
            updated_at: self.updated_at,
        }
    }
}

impl Clone for TaskModel {
    fn clone(&self) -> (res: Self)
        ensures
            res@ == self@,
    {
        TaskModel {
            id: self.id,
            title: self.title.clone(),
            status: self.status.clone(),
            priority: self.priority.clone(),
            content: self.content.clone(),
            created_at: self.created_at,
            updated_at: self.updated_at,
        }
    }
}

} // verus!
