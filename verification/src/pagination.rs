//! Paging of list requests.
use vstd::prelude::*;

verus! {

/// The page shown when none is asked for (pages count from 1).
pub const DEFAULT_PAGE: u64 = 1;
/// The page size used when none is asked for.
pub const DEFAULT_PER_PAGE: u64 = 20;
/// The largest page size served.
pub const MAX_PER_PAGE: u64 = 150;

/// The page size served for a requested one: the default when none was asked
/// for, at most the largest page size.
pub open spec fn filtered_per_page_spec(per_page: Option<u64>) -> u64 {
    let v = match per_page {
        Some(v) => v,
        None => DEFAULT_PER_PAGE,
    };
    if v > MAX_PER_PAGE {
        MAX_PER_PAGE
    } else {
        v
    }
}

/// The page served for a requested one: the default when none was asked for.
pub open spec fn filtered_page_spec(page: Option<u64>) -> u64 {
    match page {
        Some(v) => v,
        None => DEFAULT_PAGE,
    }
}

/// The number of items skipped before the page served.
pub open spec fn offset_spec(page: Option<u64>, per_page: Option<u64>) -> int {
    (filtered_page_spec(page) - 1) * filtered_per_page_spec(per_page)
}

/// Whether the offset of a request can be computed: pages count from 1, and
/// the offset fits in 64 bits.
pub open spec fn offset_defined(page: Option<u64>, per_page: Option<u64>) -> bool {
    filtered_page_spec(page) >= 1 && offset_spec(page, per_page) <= u64::MAX
}

/// A request for one page of a list.
pub trait Pagination {
    spec fn spec_page(&self) -> Option<u64>;

    spec fn spec_per_page(&self) -> Option<u64>;

    fn page(&self) -> (r: Option<u64>)
        ensures
            r == self.spec_page(),
    ;

    fn per_page(&self) -> (r: Option<u64>)
        ensures
            r == self.spec_per_page(),
    ;

    fn filtered_per_page(&self) -> (r: u64)
        ensures
            r == filtered_per_page_spec(self.spec_per_page()),
    {
        let val = match self.per_page() {
            Some(v) => v,
            None => DEFAULT_PER_PAGE,
        };
        if val > MAX_PER_PAGE {
            MAX_PER_PAGE
        } else {
            val
        }
    }

    fn filtered_page(&self) -> (r: u64)
        ensures
            r == filtered_page_spec(self.spec_page()),
    {
        match self.page() {
            Some(v) => v,
            None => DEFAULT_PAGE,
        }
    }

    fn limit(&self) -> (r: u64)
        ensures
            r == filtered_per_page_spec(self.spec_per_page()),
    {
        self.filtered_per_page()
    }

    /// The offset where it can be computed: none for page 0 or an offset
    /// beyond 64 bits.
    fn checked_offset(&self) -> (r: Option<u64>)
        ensures
            match r {
                Some(o) => offset_defined(self.spec_page(), self.spec_per_page())
                    && o == offset_spec(self.spec_page(), self.spec_per_page()),
                None => !offset_defined(self.spec_page(), self.spec_per_page()),
            },
    {
        let page = self.filtered_page();
        let per_page = self.filtered_per_page();
        if page == 0 {
            return None;
        }
        (page - 1).checked_mul(per_page)
    }

    fn offset(&self) -> (r: u64)
        requires
            offset_defined(self.spec_page(), self.spec_per_page()),
        ensures
            r == offset_spec(self.spec_page(), self.spec_per_page()),
    {
        let page = self.filtered_page();
        let per_page = self.filtered_per_page();
        (page - 1) * per_page
    }
}

/// The paging parameters of a list request as they arrive.
pub struct RawPagination {
    pub page: Option<u64>,
    pub per_page: Option<u64>,
}

impl Pagination for RawPagination {
    open spec fn spec_page(&self) -> Option<u64> {
        self.page
    }

    open spec fn spec_per_page(&self) -> Option<u64> {
        self.per_page
    }

    fn page(&self) -> (r: Option<u64>) {
        self.page
    }

    fn per_page(&self) -> (r: Option<u64>) {
        self.per_page
    }
}

/// A page never holds more items than the largest page size, and never none.
pub proof fn lemma_limit_bounded(per_page: Option<u64>)
    ensures
        filtered_per_page_spec(per_page) <= MAX_PER_PAGE,
        per_page != Some(0u64) ==> filtered_per_page_spec(per_page) >= 1,
{
}

/// Consecutive pages cover consecutive, non-overlapping ranges of items.
pub proof fn lemma_pages_adjacent(page: u64, per_page: Option<u64>)
    requires
        1 <= page < u64::MAX,
    ensures
        offset_spec(Some((page + 1) as u64), per_page)
            == offset_spec(Some(page), per_page) + filtered_per_page_spec(per_page),
{
    let n = filtered_per_page_spec(per_page) as int;
    assert((page as int) * n == (page as int - 1) * n + n) by (nonlinear_arith);
}

} // verus!
