//! The stored kinds of the data: event states and message types.
use vstd::prelude::*;
use crate::text::{signed_decimal, i64_to_string};

verus! {

/// Whether an event accepts reservations; stored as an integer column.
#[derive(Clone, Copy, Debug, PartialEq, Eq, Structural)]
pub enum EventState {
    Open,
    Close,
}

/// The integer under which each state is stored.
pub open spec fn event_state_code(s: EventState) -> int {
    match s {
        EventState::Open => 0,
        EventState::Close => 1,
    }
}

/// The state stored under an integer, if any.
pub open spec fn event_state_of_code(v: int) -> Option<EventState> {
    if v == 0 {
        Some(EventState::Open)
    } else if v == 1 {
        Some(EventState::Close)
    } else {
        None
    }
}

impl EventState {
    /// The state a new event starts in.
    pub fn default_state() -> (r: EventState)
        ensures
            r == EventState::Open,
    {
        EventState::Open
    }

    pub fn to_i32(&self) -> (r: i32)
        ensures
            r as int == event_state_code(*self),
    {
        match self {
            EventState::Open => 0,
            EventState::Close => 1,
        }
    }

    pub fn from_i32(v: i32) -> (r: Option<EventState>)
        ensures
            r == event_state_of_code(v as int),
    {
        if v == 0 {
            Some(EventState::Open)
        } else if v == 1 {
            Some(EventState::Close)
        } else {
            None
        }
    }
}


/// The refusal of a stored integer that names no value of a kind.
pub open spec fn conversion_error_spec(v: i32, kind: Seq<char>) -> Seq<char> {
    "error to convert from "@ + signed_decimal(v as int) + " to "@ + kind
}

fn conversion_error(v: i32, kind: &str) -> (r: String)
    ensures
        r@ == conversion_error_spec(v, kind@),
{
    let mut t = String::from_str("error to convert from ");
    let n = i64_to_string(v as i64);
    t.append(n.as_str());
    t.append(" to ");
    t.append(kind);
    t
}

impl EventState {
    /// The name of the kind, as stored-value errors give it.
    pub fn kind_name() -> (r: &'static str)
        ensures
            r@ == "EventState"@,
    {
        "EventState"
    }

    /// Why a stored integer is no event state.
    pub fn conversion_error(v: i32) -> (r: String)
        ensures
            r@ == conversion_error_spec(v, "EventState"@),
    {
        conversion_error(v, "EventState")
    }
}

/// The kind of a queued message; stored as an integer column.
#[derive(Clone, Copy, Debug, PartialEq, Eq, Structural)]
pub enum MessageType {
    Direct,
    Reminder,
    WaitingListPrompt,
}

/// The integer under which each message kind is stored.
pub open spec fn message_type_code(t: MessageType) -> int {
    match t {
        MessageType::Direct => 0,
        MessageType::Reminder => 1,
        MessageType::WaitingListPrompt => 2,
    }
}

/// The message kind stored under an integer, if any.
pub open spec fn message_type_of_code(v: int) -> Option<MessageType> {
    if v == 0 {
        Some(MessageType::Direct)
    } else if v == 1 {
        Some(MessageType::Reminder)
    } else if v == 2 {
        Some(MessageType::WaitingListPrompt)
    } else {
        None
    }
}

impl MessageType {
    pub fn to_i32(&self) -> (r: i32)
        ensures
            r as int == message_type_code(*self),
    {
        match self {
            MessageType::Direct => 0,
            MessageType::Reminder => 1,
            MessageType::WaitingListPrompt => 2,
        }
    }

    pub fn from_i32(v: i32) -> (r: Option<MessageType>)
        ensures
            r == message_type_of_code(v as int),
    {
        if v == 0 {
            Some(MessageType::Direct)
        } else if v == 1 {
            Some(MessageType::Reminder)
        } else if v == 2 {
            Some(MessageType::WaitingListPrompt)
        } else {
            None
        }
    }

    /// The name of the kind, as stored-value errors give it.
    pub fn kind_name() -> (r: &'static str)
        ensures
            r@ == "MessageType"@,
    {
        "MessageType"
    }

    /// Why a stored integer is no message type.
    pub fn conversion_error(v: i32) -> (r: String)
        ensures
            r@ == conversion_error_spec(v, "MessageType"@),
    {
        conversion_error(v, "MessageType")
    }

    pub fn from_u64(v: u64) -> (r: Option<MessageType>)
        ensures
            r == message_type_of_code(v as int),
    {
        if v == 0 {
            Some(MessageType::Direct)
        } else if v == 1 {
            Some(MessageType::Reminder)
        } else if v == 2 {
            Some(MessageType::WaitingListPrompt)
        } else {
            None
        }
    }
}

/// Storing a state and reading it back gives the same state.
pub proof fn lemma_event_state_code_round_trip(s: EventState)
    ensures
        event_state_of_code(event_state_code(s)) == Some(s),
{
}

/// A code that reads back as a state is that state's code.
pub proof fn lemma_event_state_code_unique(v: int)
    ensures
        event_state_of_code(v) matches Some(s) ==> event_state_code(s) == v,
{
}

/// Storing a message kind and reading it back gives the same kind.
pub proof fn lemma_message_type_code_round_trip(t: MessageType)
    ensures
        message_type_of_code(message_type_code(t)) == Some(t),
{
}

/// A code that reads back as a message kind is that kind's code.
pub proof fn lemma_message_type_code_unique(v: int)
    ensures
        message_type_of_code(v) matches Some(t) ==> message_type_code(t) == v,
{
}

} // verus!
