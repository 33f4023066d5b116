//! Vacant seats of an event.
use vstd::prelude::*;

verus! {

/// Seat limits and confirmed reservations of one event.
pub struct VacantData {
    pub id: i32,
    pub max_adults: i32,
    pub max_children: i32,
    pub adults: i32,
    pub children: i32,
}

/// The number a 32-bit signed subtraction or addition leaves without overflow.
pub open spec fn fits_i32(v: int) -> bool {
    i32::MIN <= v <= i32::MAX
}

impl VacantData {
    /// Adult seats still free.
    pub fn get_vacant_adults(&self) -> (r: i32)
        requires
            fits_i32(self.max_adults - self.adults),
        ensures
            r == self.max_adults - self.adults,
    {
        self.max_adults - self.adults
    }

    /// Child seats still free.
    pub fn get_vacant_children(&self) -> (r: i32)
        requires
            fits_i32(self.max_children - self.children),
        ensures
            r == self.max_children - self.children,
    {
        self.max_children - self.children
    }

    /// Whether any seat, adult or child, is still free.
    pub fn is_have_vacancies(&self) -> (r: bool)
        ensures
            r == ((self.max_adults - self.adults) + (self.max_children - self.children) > 0),
    {
        let vacant_adults = self.max_adults as i64 - self.adults as i64;
        let vacant_children = self.max_children as i64 - self.children as i64;
        vacant_adults + vacant_children > 0
    }
}

/// The seat limits of an event together with its confirmed adult and child
/// seats; a sum that could not be read (no reservations) counts as 0.
pub struct SeatCounts {
    pub max_adults: u64,
    pub max_children: u64,
    pub reserved_adults: Option<u64>,
    pub reserved_children: Option<u64>,
}

/// A seat count, or 0 where there is none.
pub open spec fn count_or_zero(v: Option<u64>) -> u64 {
    match v {
        Some(n) => n,
        None => 0,
    }
}

/// Whether no more seats are confirmed than the event has.
pub open spec fn seat_counts_consistent(row: Option<SeatCounts>) -> bool {
    match row {
        Some(c) => count_or_zero(c.reserved_adults) <= c.max_adults
            && count_or_zero(c.reserved_children) <= c.max_children,
        None => true,
    }
}

/// Free adult and child seats of an event; an event that was not found has none.
pub open spec fn vacancies_spec(row: Option<SeatCounts>) -> (u64, u64) {
    match row {
        Some(c) => (
            (c.max_adults - count_or_zero(c.reserved_adults)) as u64,
            (c.max_children - count_or_zero(c.reserved_children)) as u64,
        ),
        None => (0, 0),
    }
}

/// Free adult and child seats from what the seat query returned.
pub fn get_vacancies(row: &Option<SeatCounts>) -> (r: (u64, u64))
    requires
        seat_counts_consistent(*row),
    ensures
        r == vacancies_spec(*row),
{
    match row {
        Some(c) => {
            let reserved_adults: u64 = match c.reserved_adults {
                Some(v) => v,
                None => 0,
            };
            let reserved_children: u64 = match c.reserved_children {
                Some(v) => v,
                None => 0,
            };
            (c.max_adults - reserved_adults, c.max_children - reserved_children)
        },
        None => (0, 0),
    }
}

/// Whether an event has any free seat, adult or child.
pub open spec fn have_vacancies_spec(row: Option<SeatCounts>) -> bool {
    vacancies_spec(row).0 + vacancies_spec(row).1 > 0
}

/// Whether an event has any free seat, from what the seat query returned.
pub fn have_vacancies(row: &Option<SeatCounts>) -> (r: bool)
    requires
        seat_counts_consistent(*row),
    ensures
        r == have_vacancies_spec(*row),
{
    let (vacant_adults, vacant_children) = get_vacancies(row);
    vacant_adults > 0 || vacant_children > 0
}

} // verus!
