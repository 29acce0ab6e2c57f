//! The request payloads: what a caller supplies to create, list and update
//! tasks.

use vstd::prelude::*;

verus! {

/// Body of a create request: all four mutable fields, each required.
pub struct CreateTaskSchema {
    pub title: String,
    pub content: String,
    pub priority: String,
    pub status: String,
}

/// Query options of a list request: page and limit, each optional.
/// Absent values default to page 1 and limit 10.
pub struct FilterOptions {
    pub page: Option<usize>,
    pub limit: Option<usize>,
}

/// Body of an update request: each field optional; a present field
/// overwrites, an absent one keeps the current value.
pub struct UpdateTaskSchema {
    pub title: Option<String>,
    pub content: Option<String>,
    pub priority: Option<String>,
    pub status: Option<String>,
}

} // verus!
