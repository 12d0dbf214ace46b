//! Paging, sorting and filtering parameters of the to-do index.

use vstd::prelude::*;

verus! {

/// A sort direction.
#[derive(Clone, Copy, Debug, PartialEq, Eq, Structural)]
pub enum SortOrder {
    Asc,
    Desc,
}

/// What the index is asked for: columns to sort by, column filters, and a
/// page given by a limit and an offset.
#[derive(Debug, Clone)]
pub struct IndexQueryParams {
    pub sorting: Vec<(String, SortOrder)>,
    pub filters: Vec<(String, String)>,
    pub limit: u64,
    pub offset: u64,
}

impl Default for IndexQueryParams {
    /// The first page of twenty, unsorted and unfiltered.
    fn default() -> (r: IndexQueryParams)
        ensures
            r.sorting@.len() == 0,
            r.filters@.len() == 0,
            r.limit == 20,
            r.offset == 0,
    {
        IndexQueryParams { sorting: Vec::new(), filters: Vec::new(), limit: 20, offset: 0 }
    }
}

} // verus!
