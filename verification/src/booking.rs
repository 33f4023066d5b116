//! The rules for signing up for an event, cancelling and paying.
use vstd::prelude::*;
use crate::entity::EventState;
use crate::text::{as_signed, to_signed};
use crate::types::{EventStats, EventType, ReservationState, event_type_spec, lemma_event_type};

verus! {

/// Why a sign-up is refused.
#[derive(Clone, Copy, Debug, PartialEq, Eq, Structural)]
pub enum SignUpError {
    /// The event has started, or reservations are stopped for non-administrators.
    RegistrationStopped,
    /// Not enough free seats.
    NoSeatsLeft,
    /// The user holds a reservation for another event at the same time.
    TimeConflict,
    /// The amount paid is not the price of the tickets.
    WrongAmount,
    /// The event takes no reservations (an announcement).
    WrongEventType,
}

/// The answer a refused sign-up gets.
pub open spec fn sign_up_error_message_spec(e: SignUpError) -> Seq<char> {
    match e {
        SignUpError::RegistrationStopped => "Запись остановлена."@,
        SignUpError::NoSeatsLeft => "К сожалению, свободные места закончились."@,
        SignUpError::TimeConflict => "Вы уже записаны на другое мероприятие в это время."@,
        SignUpError::WrongAmount => "Wrong tranaction amount"@,
        SignUpError::WrongEventType => "Wrong event type"@,
    }
}

impl SignUpError {
    /// The answer the user gets.
    pub fn message(&self) -> (r: &'static str)
        ensures
            r@ == sign_up_error_message_spec(*self),
    {
        match self {
            SignUpError::RegistrationStopped => "Запись остановлена.",
            SignUpError::NoSeatsLeft => "К сожалению, свободные места закончились.",
            SignUpError::TimeConflict => "Вы уже записаны на другое мероприятие в это время.",
            SignUpError::WrongAmount => "Wrong tranaction amount",
            SignUpError::WrongEventType => "Wrong event type",
        }
    }
}

/// The first part of a sign-up decision, taken on the event and the request.
#[derive(Clone, Copy, Debug, PartialEq, Eq, Structural)]
pub enum SignUpCheck {
    Rejected(SignUpError),
    /// A free event: the black list and the user's other reservations decide.
    CheckBlackListAndTime,
    /// The reservation may be made with this state, within the user's limits.
    Accepted(ReservationState),
}

/// Whether a requested number of seats exceeds the free ones, comparing as the
/// reservation logic does: all numbers read as signed 64-bit values.
pub open spec fn exceeds_free(requested: u64, max: u64, reserved: u64) -> bool {
    as_signed(requested) > as_signed(max) - as_signed(reserved)
}

/// The price of a number of adult and child tickets.
pub open spec fn ticket_total(s: EventStats, adults: u64, children: u64) -> int {
    s.event.adult_ticket_price * adults + s.event.child_ticket_price * children
}

/// Whether `requested` seats exceed the free ones, computed without overflow.
fn exceeds(requested: u64, max: u64, reserved: u64) -> (r: bool)
    ensures
        r == exceeds_free(requested, max, reserved),
{
    let free: i128 = to_signed(max) as i128 - to_signed(reserved) as i128;
    (to_signed(requested) as i128) > free
}

/// Whether the tickets cost exactly `amount`, computed without overflow.
fn costs_exactly(s: &EventStats, adults: u64, children: u64, amount: u64) -> (r: bool)
    ensures
        r == (ticket_total(*s, adults, children) == amount),
{
    let a = s.event.adult_ticket_price;
    let c = s.event.child_ticket_price;
    proof {
        assert(a * adults <= u64::MAX * u64::MAX) by (nonlinear_arith)
            requires a <= u64::MAX, adults <= u64::MAX;
        assert(c * children <= u64::MAX * u64::MAX) by (nonlinear_arith)
            requires c <= u64::MAX, children <= u64::MAX;
        assert(a * adults >= 0) by (nonlinear_arith);
        assert(c * children >= 0) by (nonlinear_arith);
    }
    let pa: u128 = (a as u128) * (adults as u128);
    let pc: u128 = (c as u128) * (children as u128);
    let total = amount as u128;
    pa <= total && pc == total - pa
}

/// The first part of a sign-up decision.
pub open spec fn sign_up_check_spec(
    s: EventStats,
    is_admin: bool,
    adults: u64,
    children: u64,
    wait: u64,
    ts: u64,
    amount: u64,
) -> SignUpCheck {
    let event_type = event_type_spec(s.event);
    if ts > s.event.ts || (s.state != EventState::Open && !is_admin) {
        SignUpCheck::Rejected(SignUpError::RegistrationStopped)
    } else if (wait == 0 || event_type == EventType::Paid) && (
        exceeds_free(adults, s.event.max_adults, s.adults.reserved)
        || exceeds_free(children, s.event.max_children, s.children.reserved)) {
        SignUpCheck::Rejected(SignUpError::NoSeatsLeft)
    } else {
        match event_type {
            EventType::Free => SignUpCheck::CheckBlackListAndTime,
            EventType::Paid => if ticket_total(s, adults, children) != amount {
                SignUpCheck::Rejected(SignUpError::WrongAmount)
            } else {
                SignUpCheck::Accepted(ReservationState::PaymentPending)
            },
            EventType::Announcement => SignUpCheck::Rejected(SignUpError::WrongEventType),
        }
    }
}

/// Decides on a request for `adults` and `children` seats (`wait` != 0 for the
/// waiting list) made at time `ts` with `amount` paid, before the black list
/// and the user's other reservations are looked at.
pub fn sign_up_check(
    s: &EventStats,
    is_admin: bool,
    adults: u64,
    children: u64,
    wait: u64,
    ts: u64,
    amount: u64,
) -> (r: SignUpCheck)
    ensures
        r == sign_up_check_spec(*s, is_admin, adults, children, wait, ts, amount),
{
    let event_type = s.event.get_type();
    if ts > s.event.ts || (s.state != EventState::Open && is_admin == false) {
        return SignUpCheck::Rejected(SignUpError::RegistrationStopped);
    }
    if (wait == 0 || event_type == EventType::Paid)
        && (exceeds(adults, s.event.max_adults, s.adults.reserved)
        || exceeds(children, s.event.max_children, s.children.reserved)) {
        return SignUpCheck::Rejected(SignUpError::NoSeatsLeft);
    }
    match event_type {
        EventType::Free => SignUpCheck::CheckBlackListAndTime,
        EventType::Paid => {
            if !costs_exactly(s, adults, children, amount) {
                SignUpCheck::Rejected(SignUpError::WrongAmount)
            } else {
                SignUpCheck::Accepted(ReservationState::PaymentPending)
            }
        },
        EventType::Announcement => SignUpCheck::Rejected(SignUpError::WrongEventType),
    }
}

/// The outcome of the checks a free event adds.
#[derive(Clone, Copy, Debug, PartialEq, Eq, Structural)]
pub enum FreeEventCheck {
    /// The user is on the black list: nothing is reserved.
    BlackListed,
    Rejected(SignUpError),
    Accepted(ReservationState),
}

/// Whether the user's other reservations still matter, given what the black
/// list said (`None` where it could not be read).
pub fn needs_time_check(black_listed: Option<bool>) -> (r: bool)
    ensures
        r == (black_listed != Some(true)),
{
    match black_listed {
        Some(b) => !b,
        None => true,
    }
}

/// The checks of a free event: a black-listed user gets nothing; otherwise a
/// reservation for another event at the same time is refused.
pub fn free_event_check(black_listed: Option<bool>, time_conflict: bool) -> (r: FreeEventCheck)
    ensures
        black_listed == Some(true) ==> r == FreeEventCheck::BlackListed,
        black_listed != Some(true) && time_conflict ==> r == FreeEventCheck::Rejected(SignUpError::TimeConflict),
        black_listed != Some(true) && !time_conflict ==> r == FreeEventCheck::Accepted(ReservationState::Free),
{
    if !needs_time_check(black_listed) {
        FreeEventCheck::BlackListed
    } else if time_conflict {
        FreeEventCheck::Rejected(SignUpError::TimeConflict)
    } else {
        FreeEventCheck::Accepted(ReservationState::Free)
    }
}

/// What the user's own seat limits make of a request.
#[derive(Clone, Copy, Debug, PartialEq, Eq, Structural)]
pub enum LimitDecision {
    /// Over the limit even without the waiting list: nothing changes.
    Refuse,
    /// Over the limit only with the waiting list: one waiting reservation of
    /// this many adults and children is confirmed instead.
    MoveFromWaitingList { adults: u64, children: u64 },
    /// Within the limits: the reservation is added.
    Insert,
}

/// What the user's own seat limits make of a request.
pub open spec fn limit_decision_spec(s: EventStats, adults: u64, children: u64) -> LimitDecision {
    if s.adults.my_reservation + s.adults.my_waiting + adults > s.event.max_adults_per_reservation {
        if s.adults.my_reservation + adults > s.event.max_adults_per_reservation {
            LimitDecision::Refuse
        } else {
            LimitDecision::MoveFromWaitingList { adults: 1, children: 0 }
        }
    } else if s.children.my_reservation + s.children.my_waiting + children
        > s.event.max_children_per_reservation {
        if s.children.my_reservation + children > s.event.max_children_per_reservation {
            LimitDecision::Refuse
        } else {
            LimitDecision::MoveFromWaitingList { adults: 0, children: 1 }
        }
    } else {
        LimitDecision::Insert
    }
}

/// Applies the user's own seat limits to a request.
pub fn check_user_limits(s: &EventStats, adults: u64, children: u64) -> (r: LimitDecision)
    ensures
        r == limit_decision_spec(*s, adults, children),
{
    let a = &s.adults;
    let c = &s.children;
    let max_a = s.event.max_adults_per_reservation as u128;
    let max_c = s.event.max_children_per_reservation as u128;
    if a.my_reservation as u128 + a.my_waiting as u128 + adults as u128 > max_a {
        if a.my_reservation as u128 + adults as u128 > max_a {
            return LimitDecision::Refuse;
        } else {
            return LimitDecision::MoveFromWaitingList { adults: 1, children: 0 };
        }
    }
    if c.my_reservation as u128 + c.my_waiting as u128 + children as u128 > max_c {
        if c.my_reservation as u128 + children as u128 > max_c {
            return LimitDecision::Refuse;
        } else {
            return LimitDecision::MoveFromWaitingList { adults: 0, children: 1 };
        }
    }
    LimitDecision::Insert
}

/// The answer to a sign-up request once its outcome was carried out: the
/// refusal, or the number of reservations made or confirmed and whether the
/// user is black-listed. `inserted` is the number of rows the insertion added.
pub open spec fn sign_up_reply_spec(o: SignUpOutcome, inserted: u64) -> Result<(u64, bool), SignUpError> {
    match o {
        SignUpOutcome::Rejected(e) => Err(e),
        SignUpOutcome::BlackListed => Ok((0, true)),
        SignUpOutcome::Refused => Ok((0, false)),
        SignUpOutcome::MoveFromWaitingList { .. } => Ok((1, false)),
        SignUpOutcome::Insert(_) => Ok((inserted, false)),
    }
}

pub fn sign_up_reply(o: SignUpOutcome, inserted: u64) -> (r: Result<(u64, bool), SignUpError>)
    ensures
        r == sign_up_reply_spec(o, inserted),
{
    match o {
        SignUpOutcome::Rejected(e) => Err(e),
        SignUpOutcome::BlackListed => Ok((0, true)),
        SignUpOutcome::Refused => Ok((0, false)),
        SignUpOutcome::MoveFromWaitingList { .. } => Ok((1, false)),
        SignUpOutcome::Insert(_) => Ok((inserted, false)),
    }
}

/// Whether a payment covers exactly the tickets of a pending reservation.
pub fn amount_matches(s: &EventStats, adults: u64, children: u64, amount: u64) -> (r: bool)
    ensures
        r == (ticket_total(*s, adults, children) == amount),
{
    costs_exactly(s, adults, children, amount)
}

/// Whether the user holds any seat of the event, confirmed or waiting.
pub open spec fn holds_any_seat(s: EventStats) -> bool {
    s.adults.my_reservation > 0 || s.adults.my_waiting > 0
        || s.children.my_reservation > 0 || s.children.my_waiting > 0
}

pub fn has_any_seat(s: &EventStats) -> (r: bool)
    ensures
        r == holds_any_seat(*s),
{
    s.adults.my_reservation > 0 || s.adults.my_waiting > 0
        || s.children.my_reservation > 0 || s.children.my_waiting > 0
}

/// Whether an event starting at `event_ts` is too close, at time `now`, to
/// cancel without consequences.
pub open spec fn too_late_to_cancel_spec(event_ts: u64, now: u64, hours: u64) -> bool {
    event_ts - now < hours * 3600
}

pub fn too_late_to_cancel(event_ts: u64, now: u64, hours: u64) -> (r: bool)
    ensures
        r == too_late_to_cancel_spec(event_ts, now, hours),
{
    if now > event_ts {
        true
    } else {
        ((event_ts - now) as u128) < (hours as u128) * 3600
    }
}

/// Whether a late cancellation costs the user the right to book free events:
/// the user holds no confirmed seat any more and the event is free.
pub open spec fn late_cancel_bans_spec(s: EventStats) -> bool {
    s.adults.my_reservation + s.children.my_reservation == 0
        && s.event.adult_ticket_price == 0 && s.event.child_ticket_price == 0
}

pub fn late_cancel_bans(s: &EventStats) -> (r: bool)
    ensures
        r == late_cancel_bans_spec(*s),
{
    s.adults.my_reservation == 0 && s.children.my_reservation == 0
        && s.event.adult_ticket_price == 0 && s.event.child_ticket_price == 0
}

/// Whether absent participants are black-listed when a finished event is
/// removed: only for free events, and only when the setting asks for it.
pub fn blacklists_on_delete(s: &EventStats, automatic_blacklisting: bool) -> (r: bool)
    ensures
        r == (automatic_blacklisting && s.event.adult_ticket_price == 0
            && s.event.child_ticket_price == 0),
{
    automatic_blacklisting && s.event.adult_ticket_price == 0 && s.event.child_ticket_price == 0
}

/// How a sign-up ends.
#[derive(Clone, Copy, Debug, PartialEq, Eq, Structural)]
pub enum SignUpOutcome {
    Rejected(SignUpError),
    /// The user is on the black list: nothing is reserved.
    BlackListed,
    /// Over the user's own limit: nothing changes.
    Refused,
    /// One waiting reservation of this many adults and children is confirmed.
    MoveFromWaitingList { adults: u64, children: u64 },
    /// A reservation in this state is added.
    Insert(ReservationState),
}

/// How a sign-up ends, from the event, the request, and for a free event what
/// the black list (`None` where it could not be read) and the user's other
/// reservations at the same time say.
pub open spec fn sign_up_outcome_spec(
    s: EventStats,
    is_admin: bool,
    adults: u64,
    children: u64,
    wait: u64,
    ts: u64,
    amount: u64,
    black_listed: Option<bool>,
    time_conflict: bool,
) -> SignUpOutcome {
    let state = match sign_up_check_spec(s, is_admin, adults, children, wait, ts, amount) {
        SignUpCheck::Rejected(e) => Err(SignUpOutcome::Rejected(e)),
        SignUpCheck::CheckBlackListAndTime => if black_listed == Some(true) {
            Err(SignUpOutcome::BlackListed)
        } else if time_conflict {
            Err(SignUpOutcome::Rejected(SignUpError::TimeConflict))
        } else {
            Ok(ReservationState::Free)
        },
        SignUpCheck::Accepted(st) => Ok(st),
    };
    match state {
        Err(o) => o,
        Ok(st) => match limit_decision_spec(s, adults, children) {
            LimitDecision::Refuse => SignUpOutcome::Refused,
            LimitDecision::MoveFromWaitingList { adults, children } => SignUpOutcome::MoveFromWaitingList { adults, children },
            LimitDecision::Insert => SignUpOutcome::Insert(st),
        },
    }
}

/// Decides a sign-up from start to end.
pub fn sign_up_outcome(
    s: &EventStats,
    is_admin: bool,
    adults: u64,
    children: u64,
    wait: u64,
    ts: u64,
    amount: u64,
    black_listed: Option<bool>,
    time_conflict: bool,
) -> (r: SignUpOutcome)
    ensures
        r == sign_up_outcome_spec(*s, is_admin, adults, children, wait, ts, amount, black_listed, time_conflict),
{
    let state = match sign_up_check(s, is_admin, adults, children, wait, ts, amount) {
        SignUpCheck::Rejected(e) => return SignUpOutcome::Rejected(e),
        SignUpCheck::CheckBlackListAndTime => match free_event_check(black_listed, time_conflict) {
            FreeEventCheck::BlackListed => return SignUpOutcome::BlackListed,
            FreeEventCheck::Rejected(e) => return SignUpOutcome::Rejected(e),
            FreeEventCheck::Accepted(st) => st,
        },
        SignUpCheck::Accepted(st) => st,
    };
    match check_user_limits(s, adults, children) {
        LimitDecision::Refuse => SignUpOutcome::Refused,
        LimitDecision::MoveFromWaitingList { adults, children } => SignUpOutcome::MoveFromWaitingList { adults, children },
        LimitDecision::Insert => SignUpOutcome::Insert(state),
    }
}

/// A reservation is added only within the seats left: where the request is not
/// for the waiting list (or the event is paid), each requested number is at
/// most the limit less what is reserved (all read as signed 64-bit numbers).
pub proof fn lemma_sign_up_respects_capacity(
    s: EventStats,
    is_admin: bool,
    adults: u64,
    children: u64,
    wait: u64,
    ts: u64,
    amount: u64,
    black_listed: Option<bool>,
    time_conflict: bool,
)
    requires
        sign_up_outcome_spec(s, is_admin, adults, children, wait, ts, amount, black_listed, time_conflict) is Insert,
        wait == 0 || event_type_spec(s.event) == EventType::Paid,
    ensures
        as_signed(adults) <= as_signed(s.event.max_adults) - as_signed(s.adults.reserved),
        as_signed(children) <= as_signed(s.event.max_children) - as_signed(s.children.reserved),
{
}

/// A reservation is added only within the user's own limits: confirmed and
/// waiting seats together with the new ones stay within the per-user limit.
pub proof fn lemma_sign_up_respects_user_limits(
    s: EventStats,
    is_admin: bool,
    adults: u64,
    children: u64,
    wait: u64,
    ts: u64,
    amount: u64,
    black_listed: Option<bool>,
    time_conflict: bool,
)
    requires
        sign_up_outcome_spec(s, is_admin, adults, children, wait, ts, amount, black_listed, time_conflict) is Insert,
    ensures
        s.adults.my_reservation + s.adults.my_waiting + adults <= s.event.max_adults_per_reservation,
        s.children.my_reservation + s.children.my_waiting + children <= s.event.max_children_per_reservation,
{
}

/// A waiting seat is confirmed only where the confirmed seats with the new
/// ones stay within the user's limit, and only one seat at a time.
pub proof fn lemma_move_from_waiting_list_within_limit(
    s: EventStats,
    is_admin: bool,
    adults: u64,
    children: u64,
    wait: u64,
    ts: u64,
    amount: u64,
    black_listed: Option<bool>,
    time_conflict: bool,
)
    requires
        sign_up_outcome_spec(s, is_admin, adults, children, wait, ts, amount, black_listed, time_conflict) is MoveFromWaitingList,
    ensures
        match sign_up_outcome_spec(s, is_admin, adults, children, wait, ts, amount, black_listed, time_conflict) {
            SignUpOutcome::MoveFromWaitingList { adults: a, children: c } =>
                a + c == 1
                && (a == 1 ==> s.adults.my_reservation + adults <= s.event.max_adults_per_reservation)
                && (c == 1 ==> s.children.my_reservation + children <= s.event.max_children_per_reservation),
            _ => false,
        },
{
}

/// Nobody signs up after an event has started, and only administrators while
/// reservations are stopped.
pub proof fn lemma_sign_up_closed(
    s: EventStats,
    is_admin: bool,
    adults: u64,
    children: u64,
    wait: u64,
    ts: u64,
    amount: u64,
    black_listed: Option<bool>,
    time_conflict: bool,
)
    requires
        ts > s.event.ts || (s.state != EventState::Open && !is_admin),
    ensures
        sign_up_outcome_spec(s, is_admin, adults, children, wait, ts, amount, black_listed, time_conflict)
            == SignUpOutcome::Rejected(SignUpError::RegistrationStopped),
{
}

/// Whether a sign-up made at `ts` comes after the start or while reservations
/// are stopped for a user who is not an administrator.
pub open spec fn sign_up_stopped(s: EventStats, is_admin: bool, ts: u64) -> bool {
    ts > s.event.ts || (s.state != EventState::Open && !is_admin)
}

/// Whether the request is compared with the free seats and one of its numbers
/// exceeds them.
pub open spec fn no_seats_left(s: EventStats, adults: u64, children: u64, wait: u64) -> bool {
    &&& wait == 0 || event_type_spec(s.event) == EventType::Paid
    &&& exceeds_free(adults, s.event.max_adults, s.adults.reserved)
        || exceeds_free(children, s.event.max_children, s.children.reserved)
}

/// Past the start-time and state check, a request that exceeds the free seats
/// (outside the waiting list of a free event) is refused for want of seats,
/// and a paid request within the seats whose amount is not the price of the
/// tickets is refused as a wrong amount; neither reserves anything.
pub proof fn lemma_sign_up_refusals(
    s: EventStats,
    is_admin: bool,
    adults: u64,
    children: u64,
    wait: u64,
    ts: u64,
    amount: u64,
    black_listed: Option<bool>,
    time_conflict: bool,
)
    requires
        !sign_up_stopped(s, is_admin, ts),
    ensures
        no_seats_left(s, adults, children, wait) ==> sign_up_outcome_spec(s, is_admin, adults, children, wait,
            ts, amount, black_listed, time_conflict) == SignUpOutcome::Rejected(SignUpError::NoSeatsLeft),
        !no_seats_left(s, adults, children, wait) && event_type_spec(s.event) == EventType::Paid
            && ticket_total(s, adults, children) != amount ==> sign_up_outcome_spec(s, is_admin, adults,
            children, wait, ts, amount, black_listed, time_conflict)
            == SignUpOutcome::Rejected(SignUpError::WrongAmount),
{
}

/// For a free event past the start-time, state and seat checks: a black-listed
/// user gets nothing; otherwise a reservation at the same time refuses the
/// request; otherwise the user's limits decide: over the limit even without
/// waiting seats nothing changes, over it only with them one waiting seat is
/// confirmed, and within both limits a free reservation is added.
pub proof fn lemma_free_event_outcome(
    s: EventStats,
    is_admin: bool,
    adults: u64,
    children: u64,
    wait: u64,
    ts: u64,
    amount: u64,
    black_listed: Option<bool>,
    time_conflict: bool,
)
    requires
        event_type_spec(s.event) == EventType::Free,
        !sign_up_stopped(s, is_admin, ts),
        !no_seats_left(s, adults, children, wait),
    ensures
        ({
            let o = sign_up_outcome_spec(s, is_admin, adults, children, wait, ts, amount, black_listed,
                time_conflict);
            let a_total = s.adults.my_reservation + s.adults.my_waiting + adults;
            let c_total = s.children.my_reservation + s.children.my_waiting + children;
            &&& black_listed == Some(true) ==> o == SignUpOutcome::BlackListed
            &&& black_listed != Some(true) && time_conflict ==> o == SignUpOutcome::Rejected(SignUpError::TimeConflict)
            &&& black_listed != Some(true) && !time_conflict ==> {
                &&& a_total > s.event.max_adults_per_reservation
                    && s.adults.my_reservation + adults > s.event.max_adults_per_reservation
                    ==> o == SignUpOutcome::Refused
                &&& a_total <= s.event.max_adults_per_reservation && c_total <= s.event.max_children_per_reservation
                    ==> o == SignUpOutcome::Insert(ReservationState::Free)
            }
        }),
{
}

/// Once a request gets as far as the user's own limits, they decide: over the
/// adults' limit counting waiting seats, it is refused if it is over even
/// without them, else one waiting adult seat is confirmed; within that but over
/// the children's limit likewise for a child seat; within both, the
/// reservation is added.
pub proof fn lemma_user_limits_decide(
    s: EventStats,
    is_admin: bool,
    adults: u64,
    children: u64,
    wait: u64,
    ts: u64,
    amount: u64,
    black_listed: Option<bool>,
    time_conflict: bool,
)
    requires
        ({
            let o = sign_up_outcome_spec(s, is_admin, adults, children, wait, ts, amount, black_listed,
                time_conflict);
            o is Refused || o is MoveFromWaitingList || o is Insert
        }),
    ensures
        ({
            let o = sign_up_outcome_spec(s, is_admin, adults, children, wait, ts, amount, black_listed,
                time_conflict);
            let max_a = s.event.max_adults_per_reservation;
            let max_c = s.event.max_children_per_reservation;
            let a_total = s.adults.my_reservation + s.adults.my_waiting + adults;
            let c_total = s.children.my_reservation + s.children.my_waiting + children;
            &&& (o is Refused) <==> ((a_total > max_a && s.adults.my_reservation + adults > max_a)
                || (a_total <= max_a && c_total > max_c && s.children.my_reservation + children > max_c))
            &&& (o == SignUpOutcome::MoveFromWaitingList { adults: 1, children: 0 })
                <==> (a_total > max_a && s.adults.my_reservation + adults <= max_a)
            &&& (o == SignUpOutcome::MoveFromWaitingList { adults: 0, children: 1 })
                <==> (a_total <= max_a && c_total > max_c && s.children.my_reservation + children <= max_c)
            &&& (o is Insert) <==> (a_total <= max_a && c_total <= max_c)
        }),
{
}

/// A request before the start, while reservations are open, within the free
/// seats: for an event whose tickets cost something the exact price reserves
/// the seats pending payment and any other amount is refused; for an event
/// with seats and no price the black list and the user's other reservations
/// decide next.
pub proof fn lemma_price_decides(
    s: EventStats,
    is_admin: bool,
    adults: u64,
    children: u64,
    wait: u64,
    ts: u64,
    amount: u64,
)
    requires
        ts <= s.event.ts,
        s.state == EventState::Open,
        s.event.max_adults != 0 || s.event.max_children != 0,
        !exceeds_free(adults, s.event.max_adults, s.adults.reserved),
        !exceeds_free(children, s.event.max_children, s.children.reserved),
    ensures
        (s.event.adult_ticket_price != 0 || s.event.child_ticket_price != 0) ==> sign_up_check_spec(s, is_admin,
            adults, children, wait, ts, amount) == if s.event.adult_ticket_price * adults
            + s.event.child_ticket_price * children == amount {
            SignUpCheck::Accepted(ReservationState::PaymentPending)
        } else {
            SignUpCheck::Rejected(SignUpError::WrongAmount)
        },
        (s.event.adult_ticket_price == 0 && s.event.child_ticket_price == 0) ==> sign_up_check_spec(s, is_admin,
            adults, children, wait, ts, amount) == SignUpCheck::CheckBlackListAndTime,
{
    lemma_event_type(s.event);
}

/// Past the start-time and state check, a request is refused for want of
/// seats exactly when it is compared with the free seats (it is not for the
/// waiting list, or the event has seats with a price) and asks for more adult
/// seats than the adults' limit less their confirmed seats, or more child seats
/// than the children's, all read as signed 64-bit numbers.
pub proof fn lemma_no_seats_left_exactly(
    s: EventStats,
    is_admin: bool,
    adults: u64,
    children: u64,
    wait: u64,
    ts: u64,
    amount: u64,
    black_listed: Option<bool>,
    time_conflict: bool,
)
    requires
        ts <= s.event.ts,
        s.state == EventState::Open || is_admin,
    ensures
        ({
            let compared = wait == 0 || ((s.event.max_adults != 0 || s.event.max_children != 0)
                && (s.event.adult_ticket_price != 0 || s.event.child_ticket_price != 0));
            let too_many = as_signed(adults) > as_signed(s.event.max_adults) - as_signed(s.adults.reserved)
                || as_signed(children) > as_signed(s.event.max_children) - as_signed(s.children.reserved);
            (sign_up_outcome_spec(s, is_admin, adults, children, wait, ts, amount, black_listed, time_conflict)
                == SignUpOutcome::Rejected(SignUpError::NoSeatsLeft)) <==> (compared && too_many)
        }),
{
    lemma_event_type(s.event);
}

/// A user on the black list gets no seat of a free event.
pub proof fn lemma_black_listed_gets_no_free_seat(
    s: EventStats,
    is_admin: bool,
    adults: u64,
    children: u64,
    wait: u64,
    ts: u64,
    amount: u64,
    time_conflict: bool,
)
    requires
        event_type_spec(s.event) == EventType::Free,
    ensures
        !(sign_up_outcome_spec(s, is_admin, adults, children, wait, ts, amount, Some(true), time_conflict) is Insert),
        !(sign_up_outcome_spec(s, is_admin, adults, children, wait, ts, amount, Some(true), time_conflict) is MoveFromWaitingList),
{
}

/// A paid seat is reserved only for the exact price, and then waits for the
/// payment.
pub proof fn lemma_paid_seat_needs_exact_amount(
    s: EventStats,
    is_admin: bool,
    adults: u64,
    children: u64,
    wait: u64,
    ts: u64,
    amount: u64,
    black_listed: Option<bool>,
    time_conflict: bool,
)
    requires
        event_type_spec(s.event) == EventType::Paid,
        sign_up_outcome_spec(s, is_admin, adults, children, wait, ts, amount, black_listed, time_conflict) is Insert,
    ensures
        ticket_total(s, adults, children) == amount,
        sign_up_outcome_spec(s, is_admin, adults, children, wait, ts, amount, black_listed, time_conflict)
            == SignUpOutcome::Insert(ReservationState::PaymentPending),
{
}

} // verus!
