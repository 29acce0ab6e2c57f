//! A small task-management library: a verified model of a CRUD service over a
//! single `tasks` table, together with the request-handling layer that maps
//! store outcomes to response envelopes.

pub mod laws;
pub mod model;
pub mod schema;
pub mod services;
pub mod store;
