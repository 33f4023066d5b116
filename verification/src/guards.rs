//! Tests, on values, of the conditions that the page builders and rules ask
//! of their inputs: a caller checks them and refuses where they fail.
use vstd::prelude::*;
use crate::booking::has_any_seat;
use crate::entity::EventState;
use crate::format::{MAX_TIMESTAMP, MIN_TIMESTAMP, showable, seat_sums_fit, message_times_showable};
use crate::links::url_is_valid;
use crate::lists::{counts_within_limits, listable, listable_event};
use crate::text::to_signed;
use crate::types::{EventStats, EventType, GroupMessage, Participant};
use crate::views::event_page_computable;

verus! {

/// Whether a timestamp can be shown as a date.
pub fn is_showable(ts: u64) -> (r: bool)
    ensures
        r == showable(ts),
{
    let t = to_signed(ts);
    MIN_TIMESTAMP <= t && t <= MAX_TIMESTAMP
}

/// Whether `a + b` fits in 64 bits.
fn sum_fits(a: u64, b: u64) -> (r: bool)
    ensures
        r == (a + b <= u64::MAX),
{
    a <= u64::MAX - b
}

/// Whether `a - b` of two signed numbers fits in 64 bits.
fn difference_fits(a: i64, b: i64) -> (r: bool)
    ensures
        r == (i64::MIN <= a - b <= i64::MAX),
{
    if b >= 0 {
        a >= i64::MIN + b
    } else {
        a <= i64::MAX + b
    }
}

/// Whether `a + b` of two signed numbers fits in 64 bits.
fn signed_sum_fits(a: i64, b: i64) -> (r: bool)
    ensures
        r == (i64::MIN <= a + b <= i64::MAX),
{
    if b >= 0 {
        a <= i64::MAX - b
    } else {
        a >= i64::MIN - b
    }
}

/// Whether the numbers an event page adds up fit in 64 bits.
pub fn event_page_ok(s: &EventStats, is_admin: bool) -> (r: bool)
    ensures
        r == event_page_computable(*s, is_admin),
{
    let ma = to_signed(s.event.max_adults);
    let ra = to_signed(s.adults.reserved);
    let mc = to_signed(s.event.max_children);
    let rc = to_signed(s.children.reserved);
    if !difference_fits(ma, ra) || !difference_fits(mc, rc) {
        return false;
    }
    let fa = ma - ra;
    let fc = mc - rc;
    let single_kind = s.event.max_adults == 0 || s.event.max_children == 0;
    if s.state == EventState::Open && single_kind && !signed_sum_fits(fa, fc) {
        return false;
    }
    if is_admin || has_any_seat(s) {
        if !sum_fits(s.adults.my_reservation, s.children.my_reservation)
            || !sum_fits(s.adults.my_waiting, s.children.my_waiting) {
            return false;
        }
    }
    is_showable(s.event.ts)
}

/// Whether the seats of every participant can be added up.
pub fn seat_sums_ok(ps: &Vec<Participant>) -> (r: bool)
    ensures
        r == seat_sums_fit(ps@),
{
    let mut i: usize = 0;
    while i < ps.len()
        invariant
            i <= ps@.len(),
            forall|j: int| 0 <= j < i ==> #[trigger] ps@[j].adults + ps@[j].children <= u64::MAX,
        decreases ps@.len() - i,
    {
        if !sum_fits(ps[i].adults, ps[i].children) {
            return false;
        }
        i = i + 1;
    }
    true
}

/// Whether every message carries a time that can be shown.
pub fn message_times_ok(ms: &Vec<GroupMessage>) -> (r: bool)
    ensures
        r == message_times_showable(ms@),
{
    let mut i: usize = 0;
    while i < ms.len()
        invariant
            i <= ms@.len(),
            forall|j: int| 0 <= j < i ==> showable(#[trigger] ms@[j].ts),
        decreases ms@.len() - i,
    {
        if !is_showable(ms[i].ts) {
            return false;
        }
        i = i + 1;
    }
    true
}

/// Whether the free seats the event list shows for an event can be computed.
fn counts_ok(s: &EventStats) -> (r: bool)
    ensures
        r == counts_within_limits(*s),
{
    if s.adults.reserved > s.event.max_adults {
        return false;
    }
    if s.event.max_adults == 0 || s.event.max_children == 0 {
        let free = s.event.max_adults - s.adults.reserved;
        sum_fits(free, s.event.max_children) && free + s.event.max_children >= s.children.reserved
    } else {
        s.children.reserved <= s.event.max_children
    }
}

/// Whether the row of an event in the event list can be built.
fn event_row_ok(s: &EventStats) -> (r: bool)
    ensures
        r == listable_event(*s),
{
    if s.event.get_type() == EventType::Announcement {
        !url_is_valid(s.event.link.as_str()) || is_showable(s.event.ts)
    } else {
        is_showable(s.event.ts) && (s.state != EventState::Open || counts_ok(s))
    }
}

/// Whether every event of a list can be shown.
pub fn event_list_ok(events: &Vec<EventStats>) -> (r: bool)
    ensures
        r == listable(events@),
{
    let mut i: usize = 0;
    while i < events.len()
        invariant
            i <= events@.len(),
            forall|j: int| 0 <= j < i ==> listable_event(#[trigger] events@[j]),
        decreases events@.len() - i,
    {
        if !event_row_ok(&events[i]) {
            return false;
        }
        i = i + 1;
    }
    true
}

} // verus!
