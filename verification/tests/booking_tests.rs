use event_manager::booking::{
    sign_up_check, sign_up_outcome, check_user_limits, free_event_check, sign_up_reply, amount_matches,
    too_late_to_cancel, late_cancel_bans, blacklists_on_delete, has_any_seat, needs_time_check,
    LimitDecision, SignUpCheck, SignUpError, SignUpOutcome, FreeEventCheck,
};
use event_manager::entity::EventState;
use event_manager::types::{Counter, Event, EventStats, ReservationState};

fn event(max_adults: u64, max_children: u64, per_adults: u64, per_children: u64, adult_price: u64, child_price: u64) -> Event {
    Event {
        id: 1,
        name: "test event 1".to_string(),
        link: "https://example.com/1".to_string(),
        max_adults,
        max_children,
        max_adults_per_reservation: per_adults,
        max_children_per_reservation: per_children,
        ts: 1650445814,
        remind: 1650445814 - 10,
        adult_ticket_price: adult_price,
        child_ticket_price: child_price,
        currency: "EUR".to_string(),
    }
}

fn stats(e: Event, adults: Counter, children: Counter) -> EventStats {
    EventStats::new(e, adults, children, 0)
}

fn counter(reserved: u64, mine: u64, waiting: u64) -> Counter {
    Counter { reserved, my_reservation: mine, my_waiting: waiting }
}

/// The children's sign-ups of one user as the bot's own scenario runs them:
/// two seats, then one on the waiting list, each one row.
#[test]
fn sign_up_scenario_two_children_and_one_waiting() {
    let e = event(2, 2, 1, 3, 0, 0);
    let ts = e.ts - 20;
    let mut children = counter(0, 0, 0);
    for i in 0..3u64 {
        let wait = if i == 2 { 1 } else { 0 };
        let s = stats(e.clone(), counter(0, 0, 0), children);
        let outcome = sign_up_outcome(&s, false, 0, 1, wait, ts, 0, Some(false), false);
        assert_eq!(outcome, SignUpOutcome::Insert(ReservationState::Free));
        assert_eq!(sign_up_reply(outcome, 1), Ok((1, false)));
        if wait == 0 {
            children = counter(children.reserved + 1, children.my_reservation + 1, children.my_waiting);
        } else {
            children = counter(children.reserved, children.my_reservation, children.my_waiting + 1);
        }
    }
    assert_eq!(children.my_reservation, 2);
    assert_eq!(children.my_waiting, 1);
    // A second user can still join the waiting list for a child.
    let s = stats(e.clone(), counter(0, 0, 0), counter(2, 0, 0));
    assert_eq!(sign_up_outcome(&s, false, 0, 1, 1, ts, 0, Some(false), false), SignUpOutcome::Insert(ReservationState::Free));
    // But not take a seat.
    assert_eq!(sign_up_outcome(&s, false, 0, 1, 0, ts, 0, Some(false), false), SignUpOutcome::Rejected(SignUpError::NoSeatsLeft));
}

#[test]
fn sign_up_after_start_or_when_closed() {
    let e = event(2, 2, 1, 1, 0, 0);
    let s = stats(e.clone(), counter(0, 0, 0), counter(0, 0, 0));
    assert_eq!(sign_up_check(&s, false, 1, 0, 0, e.ts + 1, 0), SignUpCheck::Rejected(SignUpError::RegistrationStopped));
    let closed = EventStats::new(e.clone(), counter(0, 0, 0), counter(0, 0, 0), 1);
    assert_eq!(closed.state, EventState::Close);
    assert_eq!(sign_up_check(&closed, false, 1, 0, 0, e.ts, 0), SignUpCheck::Rejected(SignUpError::RegistrationStopped));
    assert_eq!(sign_up_check(&closed, true, 1, 0, 0, e.ts, 0), SignUpCheck::CheckBlackListAndTime);
}

#[test]
fn sign_up_error_variants() {
    let paid = event(2, 2, 2, 2, 1000, 500);
    let s = stats(paid.clone(), counter(1, 0, 0), counter(0, 0, 0));
    assert_eq!(sign_up_check(&s, false, 1, 1, 0, 0, 1499), SignUpCheck::Rejected(SignUpError::WrongAmount));
    assert_eq!(sign_up_check(&s, false, 1, 1, 0, 0, 1500), SignUpCheck::Accepted(ReservationState::PaymentPending));
    assert_eq!(sign_up_check(&s, false, 2, 0, 1, 0, 2000), SignUpCheck::Rejected(SignUpError::NoSeatsLeft));
    let announcement = event(0, 0, 0, 0, 0, 0);
    let s = stats(announcement, counter(0, 0, 0), counter(0, 0, 0));
    assert_eq!(sign_up_check(&s, false, 0, 0, 1, 0, 0), SignUpCheck::Rejected(SignUpError::WrongEventType));
    assert_eq!(free_event_check(None, true), FreeEventCheck::Rejected(SignUpError::TimeConflict));
}

#[test]
fn free_event_checks() {
    assert_eq!(free_event_check(Some(true), false), FreeEventCheck::BlackListed);
    assert_eq!(free_event_check(Some(false), false), FreeEventCheck::Accepted(ReservationState::Free));
    assert!(!needs_time_check(Some(true)));
    assert!(needs_time_check(None));
    let e = event(5, 5, 5, 5, 0, 0);
    let s = stats(e.clone(), counter(0, 0, 0), counter(0, 0, 0));
    assert_eq!(sign_up_outcome(&s, false, 1, 0, 0, 0, 0, Some(true), false), SignUpOutcome::BlackListed);
    assert_eq!(sign_up_outcome(&s, false, 1, 0, 0, 0, 0, Some(false), true), SignUpOutcome::Rejected(SignUpError::TimeConflict));
}

#[test]
fn user_limits() {
    let e = event(10, 10, 2, 1, 0, 0);
    // Confirmed and waiting seats fill the limit; one waiting seat is confirmed instead.
    let s = stats(e.clone(), counter(3, 1, 1), counter(0, 0, 0));
    assert_eq!(check_user_limits(&s, 1, 0), LimitDecision::MoveFromWaitingList { adults: 1, children: 0 });
    assert_eq!(sign_up_reply(SignUpOutcome::MoveFromWaitingList { adults: 1, children: 0 }, 0), Ok((1, false)));
    // Confirmed seats alone fill the limit: nothing changes.
    let s = stats(e.clone(), counter(3, 2, 0), counter(0, 0, 0));
    assert_eq!(check_user_limits(&s, 1, 0), LimitDecision::Refuse);
    assert_eq!(sign_up_outcome(&s, false, 1, 0, 0, 0, 0, Some(false), false), SignUpOutcome::Refused);
    let s = stats(e.clone(), counter(0, 0, 0), counter(1, 0, 1));
    assert_eq!(check_user_limits(&s, 0, 1), LimitDecision::MoveFromWaitingList { adults: 0, children: 1 });
    let s = stats(e, counter(0, 0, 0), counter(0, 0, 0));
    assert_eq!(check_user_limits(&s, 1, 1), LimitDecision::Insert);
    assert_eq!(sign_up_reply(SignUpOutcome::Insert(ReservationState::Free), 1), Ok((1, false)));
    assert_eq!(sign_up_reply(SignUpOutcome::Refused, 1), Ok((0, false)));
    assert_eq!(sign_up_reply(SignUpOutcome::BlackListed, 1), Ok((0, true)));
    assert_eq!(
        sign_up_reply(SignUpOutcome::Rejected(SignUpError::NoSeatsLeft), 1),
        Err(SignUpError::NoSeatsLeft)
    );
}

#[test]
fn inserted_seats_stay_within_capacity() {
    let e = event(3, 0, 3, 0, 0, 0);
    for reserved in 0..=3u64 {
        for adults in 0..=4u64 {
            let s = stats(e.clone(), counter(reserved, 0, 0), counter(0, 0, 0));
            let o = sign_up_outcome(&s, false, adults, 0, 0, 0, 0, Some(false), false);
            if let SignUpOutcome::Insert(_) = o {
                assert!(adults <= 3 - reserved);
            }
            if adults > 3 - reserved {
                assert_eq!(o, SignUpOutcome::Rejected(SignUpError::NoSeatsLeft));
            }
        }
    }
}

#[test]
fn payments_and_cancellations() {
    let paid = event(2, 2, 2, 2, 1000, 500);
    let s = stats(paid.clone(), counter(0, 0, 0), counter(0, 0, 0));
    assert!(amount_matches(&s, 1, 2, 2000));
    assert!(!amount_matches(&s, 1, 2, 1999));
    assert!(too_late_to_cancel(100_000, 100_000 - 3599, 1));
    assert!(!too_late_to_cancel(100_000, 100_000 - 3600, 1));
    // After the start it is always too late; the hours may be as large as they come.
    assert!(too_late_to_cancel(100_000, 100_001, 0));
    assert!(too_late_to_cancel(u64::MAX, 0, u64::MAX));
    let free = event(2, 2, 2, 2, 0, 0);
    let s = stats(free.clone(), counter(0, 0, 0), counter(0, 0, 1));
    assert!(late_cancel_bans(&s));
    assert!(has_any_seat(&s));
    let s = stats(free.clone(), counter(1, 1, 0), counter(0, 0, 0));
    assert!(!late_cancel_bans(&s));
    let s = stats(paid, counter(0, 0, 0), counter(0, 0, 0));
    assert!(!late_cancel_bans(&s));
    assert!(!has_any_seat(&s));
    assert!(!blacklists_on_delete(&s, true));
    let s = stats(free, counter(0, 0, 0), counter(0, 0, 0));
    assert!(blacklists_on_delete(&s, true));
    assert!(!blacklists_on_delete(&s, false));
}

/// Large numbers are compared as numbers: a request far beyond the seats is
/// refused, a price that does not fit 64 bits is a wrong amount, and limits
/// counted past 64 bits still refuse.
#[test]
fn sign_up_with_large_numbers() {
    // The limit read as a signed number is far below what is reserved: the
    // difference does not fit 64 bits, and no seat is free.
    let e = event(u64::MAX / 2 + 2, 2, 2, 2, 0, 0);
    let s = stats(e, counter(u64::MAX / 2, 0, 0), counter(0, 0, 0));
    let ts = s.event.ts - 1;
    assert_eq!(
        sign_up_outcome(&s, false, 1, 0, 0, ts, 0, Some(false), false),
        SignUpOutcome::Rejected(SignUpError::NoSeatsLeft)
    );
    let s = stats(event(5, 2, 2, 2, 0, 0), counter(0, 0, 0), counter(0, 0, 0));
    assert_eq!(
        sign_up_outcome(&s, false, u64::MAX / 4, 0, 0, ts, 0, Some(false), false),
        SignUpOutcome::Rejected(SignUpError::NoSeatsLeft)
    );
    let paid = stats(event(5, 5, 2, 2, u64::MAX, u64::MAX), counter(0, 0, 0), counter(0, 0, 0));
    assert!(!amount_matches(&paid, 2, 2, 4));
    assert_eq!(
        sign_up_check(&paid, false, 2, 0, 0, ts, 0),
        SignUpCheck::Rejected(SignUpError::WrongAmount)
    );
    let full = stats(event(5, 5, 2, 2, 0, 0), counter(0, u64::MAX, u64::MAX), counter(0, 0, 0));
    assert_eq!(check_user_limits(&full, 1, 0), LimitDecision::Refuse);
}

/// A free event, past the checks: black list, then a conflict at the same
/// time, then the limits decide.
#[test]
fn free_event_outcomes() {
    let s = stats(event(5, 5, 2, 2, 0, 0), counter(0, 0, 0), counter(0, 0, 0));
    let ts = s.event.ts - 1;
    assert_eq!(sign_up_outcome(&s, false, 1, 0, 0, ts, 0, Some(true), true), SignUpOutcome::BlackListed);
    assert_eq!(
        sign_up_outcome(&s, false, 1, 0, 0, ts, 0, None, true),
        SignUpOutcome::Rejected(SignUpError::TimeConflict)
    );
    assert_eq!(sign_up_outcome(&s, false, 3, 0, 0, ts, 0, None, false), SignUpOutcome::Refused);
    assert_eq!(
        sign_up_outcome(&s, false, 1, 1, 0, ts, 0, Some(false), false),
        SignUpOutcome::Insert(ReservationState::Free)
    );
    let late = s.event.ts + 1;
    assert_eq!(
        sign_up_outcome(&s, true, 1, 0, 0, late, 0, None, false),
        SignUpOutcome::Rejected(SignUpError::RegistrationStopped)
    );
}
