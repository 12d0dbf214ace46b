//! Request and response bodies of the to-do routes.

use vstd::prelude::*;

verus! {

/// The body of a request that stores or updates a to-do item.
pub struct TodoInput {
    pub title: String,
    pub description: String,
    pub completed: Option<bool>,
}

impl TodoInput {
    /// Whether the item is to be stored as completed: an absent flag means
    /// it is not.
    pub fn completed_or_default(&self) -> (r: bool)
        ensures
            r == (self.completed == Some(true)),
    {
        match self.completed {
            Some(c) => c,
            None => false,
        }
    }
}

/// The body of the answer to a delete: how many rows it removed.
pub struct RowsAffected {
    pub rows_affected: u64,
}

} // verus!
