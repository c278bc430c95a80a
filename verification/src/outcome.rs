//! What the database answered to a request of a handler.

use vstd::prelude::*;

verus! {

/// A stored record as the database hands it over, carried unread.
#[verifier::external_type_specification]
#[verifier::external_body]
pub struct ExDocument(mongodb::bson::Document);

/// The database reported an error for a request.
#[derive(Clone, Copy, Debug, PartialEq, Eq)]
pub struct DbError;

/// The answer to a search for one record.
#[derive(Clone, Debug, PartialEq)]
pub enum Lookup<T> {
    /// The search failed.
    Failed,
    /// No record matched.
    Missing,
    /// A record matched.
    Found(T),
}

/// The counts that an update of one record reports.
#[derive(Clone, Copy, Debug, PartialEq, Eq)]
pub struct UpdateCounts {
    /// Records that matched the filter.
    pub matched: u64,
    /// Records that were changed.
    pub modified: u64,
}

} // verus!
