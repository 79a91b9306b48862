//! Pages of backend listings.

use vstd::prelude::*;

verus! {

/// The most items the agent asks for in one page.
pub const MAX_PAGINATE_LIMIT: usize = 100usize;

#[derive(Debug, Clone, Copy, PartialEq, Eq, Structural)]
pub struct Pagination {
    pub limit: usize,
    pub offset: usize,
}

impl Default for Pagination {
    fn default() -> (r: Self)
        ensures
            r.limit == 10,
            r.offset == 0,
    {
        Self { limit: 10, offset: 0 }
    }
}

impl Pagination {
    /// The page after this one.
    pub fn next_page(&self) -> (r: Pagination)
        requires
            self.offset + self.limit <= usize::MAX,
        ensures
            r.limit == self.limit,
            r.offset == self.offset + self.limit,
    {
        Pagination { limit: self.limit, offset: self.offset + self.limit }
    }
}

} // verus!
