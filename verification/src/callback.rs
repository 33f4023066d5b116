//! What a button of the bot asks for when pressed.
use vstd::prelude::*;

verus! {

/// The request carried by an inline button.
#[derive(Clone, Copy, Debug, PartialEq, Eq, Structural)]
pub enum CallbackQuery {
    EventList { offset: u64 },
    Event { event_id: u64, offset: u64 },
    SignUp { event_id: u64, is_adult: bool, wait: bool },
    Cancel { event_id: u64, is_adult: bool },
    WontGo { event_id: u64 },
    ShowWaitingList { event_id: u64, offset: u64 },
    ShowPresenceList { event_id: u64, offset: u64 },
    ConfirmPresence { event_id: u64, user_id: u64, offset: u64 },
    PaidEvent { event_id: u64, adults: u64, children: u64, offset: u64 },
    SendInvoice { event_id: u64, adults: u64, children: u64 },
    // admin callbacks
    ChangeEventState { event_id: u64, state: u64 },
    ShowBlackList { offset: u64 },
    RemoveFromBlackList { user_id: u64 },
    ConfirmRemoveFromBlackList { user_id: u64 },
}

/// Whether a request is reserved for administrators.
pub open spec fn is_admin_callback(q: CallbackQuery) -> bool {
    match q {
        CallbackQuery::ChangeEventState { .. } => true,
        CallbackQuery::ShowBlackList { .. } => true,
        CallbackQuery::RemoveFromBlackList { .. } => true,
        CallbackQuery::ConfirmRemoveFromBlackList { .. } => true,
        _ => false,
    }
}

impl CallbackQuery {
    /// Whether the request is reserved for administrators.
    pub fn is_admin_only(&self) -> (r: bool)
        ensures
            r == is_admin_callback(*self),
    {
        match self {
            CallbackQuery::ChangeEventState { .. } => true,
            CallbackQuery::ShowBlackList { .. } => true,
            CallbackQuery::RemoveFromBlackList { .. } => true,
            CallbackQuery::ConfirmRemoveFromBlackList { .. } => true,
            _ => false,
        }
    }
}

} // verus!
