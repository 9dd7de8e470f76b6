//! Pagination of search requests.

use vstd::prelude::*;

verus! {

/// The slice of the search results to return: skip `offset` records and
/// return at most `limit` of them (no bound where it is `None`).
#[derive(Debug, Clone, Copy, PartialEq, Eq, Structural)]
pub struct PaginationParam {
    pub offset: Option<u32>,
    pub limit: Option<u32>,
}

impl Default for PaginationParam {
    fn default() -> (res: PaginationParam)
        ensures
            res.offset is None,
            res.limit is None,
    {
        PaginationParam { offset: None, limit: None }
    }
}

} // verus!
