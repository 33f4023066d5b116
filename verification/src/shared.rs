//! Shapes shared by the HTTP interface.
use vstd::prelude::*;

verus! {

/// A page request with signed fields, as an older form of the interface takes it.
pub struct Pagination {
    page: Option<i64>,
    per_page: Option<i8>,
}

impl Pagination {
    pub fn new(page: Option<i64>, per_page: Option<i8>) -> (r: Pagination)
        ensures
            r.page_value() == page,
            r.per_page_value() == per_page,
    {
        Pagination { page, per_page }
    }

    pub closed spec fn page_value(&self) -> Option<i64> {
        self.page
    }

    pub closed spec fn per_page_value(&self) -> Option<i8> {
        self.per_page
    }
}

/// An entity together with its identifier.
pub struct WithId<Id, WithoutId> {
    pub id: Id,
    pub entity: WithoutId,
}

} // verus!
