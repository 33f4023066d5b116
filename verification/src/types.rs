//! The data the bot works on.
use vstd::prelude::*;
use crate::entity::EventState;

verus! {

/// An event that can be reserved.
#[derive(Clone, Debug)]
pub struct Event {
    pub id: u64,
    pub name: String,
    pub link: String,
    pub max_adults: u64,
    pub max_children: u64,
    pub max_adults_per_reservation: u64,
    pub max_children_per_reservation: u64,
    pub ts: u64,
    pub remind: u64,
    pub adult_ticket_price: u64,
    pub child_ticket_price: u64,
    pub currency: String,
}

/// How an event is offered.
#[derive(Clone, Copy, Debug, PartialEq, Eq, Structural)]
pub enum EventType {
    /// No seats: the event is only announced, with a link.
    Announcement,
    /// Seats without a price.
    Free,
    /// Seats with a price.
    Paid,
}

/// How an event is offered, by its seat limits and prices.
pub open spec fn event_type_spec(e: Event) -> EventType {
    if e.max_adults == 0 && e.max_children == 0 {
        EventType::Announcement
    } else if e.adult_ticket_price == 0 && e.child_ticket_price == 0 {
        EventType::Free
    } else {
        EventType::Paid
    }
}

/// An event without seats is an announcement; an event with seats is free
/// exactly when neither adults nor children pay, and paid as soon as either
/// price is not 0.
pub proof fn lemma_event_type(e: Event)
    ensures
        (event_type_spec(e) == EventType::Announcement) <==> (e.max_adults == 0 && e.max_children == 0),
        (event_type_spec(e) == EventType::Free) <==> ((e.max_adults != 0 || e.max_children != 0)
            && e.adult_ticket_price == 0 && e.child_ticket_price == 0),
        (event_type_spec(e) == EventType::Paid) <==> ((e.max_adults != 0 || e.max_children != 0)
            && (e.adult_ticket_price != 0 || e.child_ticket_price != 0)),
{
}

impl Event {
    pub fn get_type(&self) -> (r: EventType)
        ensures
            r == event_type_spec(*self),
    {
        if self.max_adults == 0 && self.max_children == 0 {
            EventType::Announcement
        } else if self.adult_ticket_price == 0 && self.child_ticket_price == 0 {
            EventType::Free
        } else {
            EventType::Paid
        }
    }
}

/// What a reservation stands for.
#[derive(Clone, Copy, Debug, PartialEq, Eq, Structural)]
pub enum ReservationState {
    Free,
    PaymentPending,
    PaymentCompleted,
}

/// The integer under which a reservation state is stored.
pub open spec fn reservation_state_code(s: ReservationState) -> int {
    match s {
        ReservationState::Free => 0,
        ReservationState::PaymentPending => 1,
        ReservationState::PaymentCompleted => 2,
    }
}

impl ReservationState {
    pub fn to_u64(&self) -> (r: u64)
        ensures
            r as int == reservation_state_code(*self),
    {
        match self {
            ReservationState::Free => 0,
            ReservationState::PaymentPending => 1,
            ReservationState::PaymentCompleted => 2,
        }
    }
}

/// Seat counts of one age group of an event: all reserved seats, and those
/// of the asking user, confirmed and on the waiting list.
#[derive(Clone, Copy, Debug, PartialEq, Eq, Structural)]
pub struct Counter {
    pub reserved: u64,
    pub my_reservation: u64,
    pub my_waiting: u64,
}

/// A column value, or 0 where it could not be read (no matching rows).
pub open spec fn value_or_zero<E>(r: Result<u64, E>) -> u64 {
    match r {
        Ok(v) => v,
        Err(_) => 0,
    }
}

impl Counter {
    /// Builds the counts from three column reads; a failed read counts as 0.
    pub fn new<E>(
        reserved: Result<u64, E>,
        my_reservation: Result<u64, E>,
        my_waiting: Result<u64, E>,
    ) -> (r: Result<Counter, E>)
        ensures
            r matches Ok(c) && c == (Counter {
                reserved: value_or_zero(reserved),
                my_reservation: value_or_zero(my_reservation),
                my_waiting: value_or_zero(my_waiting),
            }),
    {
        Ok(Counter {
            reserved: match reserved {
                Ok(v) => v,
                Err(_) => 0,
            },
            my_reservation: match my_reservation {
                Ok(v) => v,
                Err(_) => 0,
            },
            my_waiting: match my_waiting {
                Ok(v) => v,
                Err(_) => 0,
            },
        })
    }
}

/// An event with its seat counts, as seen by one user.
#[derive(Clone, Debug)]
pub struct EventStats {
    pub event: Event,
    pub adults: Counter,
    pub children: Counter,
    pub state: EventState,
}

/// The state of an event by its stored column: 0 is open, anything else closed.
pub open spec fn event_state_of_column(state: u64) -> EventState {
    if state == 0 {
        EventState::Open
    } else {
        EventState::Close
    }
}

impl EventStats {
    /// Puts together an event and its counts; the stored state column is read
    /// as open for 0 and closed otherwise.
    pub fn new(event: Event, adults: Counter, children: Counter, state: u64) -> (r: EventStats)
        ensures
            r.event == event,
            r.adults == adults,
            r.children == children,
            r.state == event_state_of_column(state),
    {
        EventStats {
            event,
            adults,
            children,
            state: if state == 0 { EventState::Open } else { EventState::Close },
        }
    }
}

/// A message posted to the participants of an event.
#[derive(Debug)]
pub struct GroupMessage {
    pub sender: String,
    pub text: String,
    pub ts: u64,
    pub waiting_list: u64,
}

impl Clone for GroupMessage {
    fn clone(&self) -> (r: GroupMessage)
        ensures
            r == *self,
    {
        GroupMessage {
            sender: self.sender.clone(),
            text: self.text.clone(),
            ts: self.ts,
            waiting_list: self.waiting_list,
        }
    }
}

/// One user's reservations for an event.
#[derive(Clone, Debug)]
pub struct Participant {
    pub adults: u64,
    pub children: u64,
    pub user_id: u64,
    pub user_name1: String,
    pub user_name2: String,
    pub attachment: Option<String>,
}

/// A user whose presence at an event has not been confirmed yet.
#[derive(Clone, Debug)]
pub struct Presence {
    pub user_id: u64,
    pub user_name1: String,
    pub user_name2: String,
    pub reserved: u64,
    pub attachment: Option<String>,
}

/// A user of the bot.
#[derive(Clone, Debug)]
pub struct User {
    pub id: u64,
    pub user_name1: String,
    pub user_name2: String,
    pub is_admin: bool,
}

} // verus!
