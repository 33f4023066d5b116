//! The event list of the bot's "/start" command, as the web service's data
//! shows it: one button per event.
use vstd::prelude::*;
use crate::entity::EventState;
use crate::reply::{ReplyMessage, ReplyView, reply_view};
use crate::keyboard::{Button, ButtonAction, ButtonView, ActionView, button_view, row_view, keyboard_view};
use crate::links::{url_parses, url_is_valid};
use crate::lists::event_list_heading_spec;
use crate::text::{signed_decimal, i64_to_string};
use crate::types::EventType;

verus! {

/// An event as the list shows it, with the user's own seats.
#[derive(Debug)]
pub struct ListedEvent {
    pub name: String,
    pub link: String,
    /// The start, as shown.
    pub event_start_time: String,
    pub state: EventState,
    pub max_adults: i64,
    pub max_children: i64,
    pub adult_ticket_price: i64,
    pub child_ticket_price: i64,
    pub my_adults: i64,
    pub my_children: i64,
    pub my_wait_adults: i64,
    pub my_wait_children: i64,
}

/// How a listed event is offered: no seats, free seats, or paid seats.
pub open spec fn listed_event_type(e: ListedEvent) -> EventType {
    if e.max_adults == 0 && e.max_children == 0 {
        EventType::Announcement
    } else if e.adult_ticket_price == 0 && e.child_ticket_price == 0 {
        EventType::Free
    } else {
        EventType::Paid
    }
}

impl ListedEvent {
    pub fn event_type(&self) -> (r: EventType)
        ensures
            r == listed_event_type(*self),
    {
        if self.max_adults == 0 && self.max_children == 0 {
            EventType::Announcement
        } else if self.adult_ticket_price == 0 && self.child_ticket_price == 0 {
            EventType::Free
        } else {
            EventType::Paid
        }
    }
}

/// The seat status of a listed event: the limits less the user's waiting
/// seats, one number where there is one kind of seat, "-" while closed.
pub open spec fn tickets_status_spec(e: ListedEvent) -> Seq<char> {
    if e.state == EventState::Open {
        if e.max_adults == 0 || e.max_children == 0 {
            signed_decimal(e.max_adults - e.my_wait_adults + e.max_children - e.my_wait_children)
        } else {
            signed_decimal(e.max_adults - e.my_wait_adults) + "("@
                + signed_decimal(e.max_children - e.my_wait_children) + ")"@
        }
    } else {
        "-"@
    }
}

/// Whether the status of a listed event can be computed in `i64`: while
/// reservations are open, with one kind of seat each step of the total, with
/// both kinds each difference.
pub open spec fn status_computable(e: ListedEvent) -> bool {
    e.state == EventState::Open ==> if e.max_adults == 0 || e.max_children == 0 {
        &&& i64::MIN <= e.max_adults - e.my_wait_adults <= i64::MAX
        &&& i64::MIN <= e.max_adults - e.my_wait_adults + e.max_children <= i64::MAX
        &&& i64::MIN <= e.max_adults - e.my_wait_adults + e.max_children - e.my_wait_children <= i64::MAX
    } else {
        &&& i64::MIN <= e.max_adults - e.my_wait_adults <= i64::MAX
        &&& i64::MIN <= e.max_children - e.my_wait_children <= i64::MAX
    }
}

pub fn tickets_status(e: &ListedEvent) -> (r: String)
    requires
        status_computable(*e),
    ensures
        r@ == tickets_status_spec(*e),
{
    if e.state == EventState::Open {
        if e.max_adults == 0 || e.max_children == 0 {
            i64_to_string(e.max_adults - e.my_wait_adults + e.max_children - e.my_wait_children)
        } else {
            let mut t = i64_to_string(e.max_adults - e.my_wait_adults);
            t.append("(");
            let c = i64_to_string(e.max_children - e.my_wait_children);
            t.append(c.as_str());
            t.append(")");
            t
        }
    } else {
        String::from_str("-")
    }
}

/// The mark of a listed event: reserved, waiting, not paid, or none.
pub open spec fn emoji_spec(e: ListedEvent) -> Seq<char> {
    if e.my_adults != 0 || e.my_children != 0 {
        "✅"@
    } else if e.my_wait_adults != 0 || e.my_wait_children != 0 {
        "⏳"@
    } else if listed_event_type(e) != EventType::Paid {
        "✨"@
    } else {
        ""@
    }
}

pub fn emoji_for_event(e: &ListedEvent) -> (r: &'static str)
    ensures
        r@ == emoji_spec(*e),
{
    if e.my_adults != 0 || e.my_children != 0 {
        "✅"
    } else if e.my_wait_adults != 0 || e.my_wait_children != 0 {
        "⏳"
    } else if e.event_type() != EventType::Paid {
        "✨"
    } else {
        ""
    }
}

/// The label of a listed event's button: mark, start, seats, name.
pub open spec fn button_text_spec(e: ListedEvent) -> Seq<char> {
    emoji_spec(e) + " "@ + e.event_start_time@ + " / "@ + tickets_status_spec(e) + " / "@ + e.name@
}

pub fn callback_button_text(e: &ListedEvent) -> (r: String)
    requires
        status_computable(*e),
    ensures
        r@ == button_text_spec(*e),
{
    let mut t = String::from_str(emoji_for_event(e));
    t.append(" ");
    t.append(e.event_start_time.as_str());
    t.append(" / ");
    let status = tickets_status(e);
    t.append(status.as_str());
    t.append(" / ");
    t.append(e.name.as_str());
    t
}

/// The button of an announcement: its start and name, linking to its page.
pub open spec fn announcement_button_spec(e: ListedEvent) -> ButtonView {
    ButtonView { text: "ℹ️ "@ + e.event_start_time@ + " "@ + e.name@, action: ActionView::Url(e.link@) }
}

/// The announcement's button; its link must be an address.
pub fn announcement_button(e: &ListedEvent) -> (b: Button)
    requires
        url_parses(e.link@),
    ensures
        button_view(b) == announcement_button_spec(*e),
{
    let mut t = String::from_str("ℹ️ ");
    t.append(e.event_start_time.as_str());
    t.append(" ");
    t.append(e.name.as_str());
    Button { text: t, action: ButtonAction::Url(e.link.clone()) }
}

/// The row of a listed event: the announcement's link, or a button whose
/// data is empty.
pub open spec fn listed_row_spec(e: ListedEvent) -> Seq<ButtonView> {
    if listed_event_type(e) == EventType::Announcement {
        seq![announcement_button_spec(e)]
    } else {
        seq![ButtonView { text: button_text_spec(e), action: ActionView::Data(Seq::empty()) }]
    }
}

/// Whether every event of a list can be shown: announcements link to valid
/// addresses and the seat status of the others is computable.
pub open spec fn listable_events(es: Seq<ListedEvent>) -> bool {
    forall|i: int| 0 <= i < es.len() ==> (if listed_event_type(#[trigger] es[i]) == EventType::Announcement {
        url_parses(es[i].link@)
    } else {
        status_computable(es[i])
    })
}

pub fn build_events_keyboard(es: &Vec<ListedEvent>) -> (k: Vec<Vec<Button>>)
    requires
        listable_events(es@),
    ensures
        keyboard_view(k@) == es@.map_values(|e: ListedEvent| listed_row_spec(e)),
{
    let mut k: Vec<Vec<Button>> = Vec::new();
    let mut i: usize = 0;
    while i < es.len()
        invariant
            i <= es@.len(),
            listable_events(es@),
            keyboard_view(k@) == es@.take(i as int).map_values(|e: ListedEvent| listed_row_spec(e)),
        decreases es@.len() - i,
    {
        let e = &es[i];
        let mut row: Vec<Button> = Vec::new();
        if e.event_type() == EventType::Announcement {
            row.push(announcement_button(e));
        } else {
            let text = callback_button_text(e);
            row.push(Button { text, action: ButtonAction::Data(String::new()) });
        }
        proof {
            assert(row_view(row@) =~= listed_row_spec(es@[i as int]));
            assert(es@.take(i + 1).map_values(|e: ListedEvent| listed_row_spec(e))
                =~= es@.take(i as int).map_values(|e: ListedEvent| listed_row_spec(e)).push(listed_row_spec(es@[i as int])));
            assert(keyboard_view(k@.push(row)) =~= keyboard_view(k@).push(row_view(row@)));
        }
        k.push(row);
        i = i + 1;
    }
    assert(es@.take(es@.len() as int) =~= es@);
    k
}

/// The keyboard of a list, or none where an announcement's link is not an
/// address or a seat status cannot be computed.
pub fn checked_events_keyboard(es: &Vec<ListedEvent>) -> (r: Option<Vec<Vec<Button>>>)
    ensures
        r is Some <==> listable_events(es@),
        r matches Some(k) ==> keyboard_view(k@) == es@.map_values(|e: ListedEvent| listed_row_spec(e)),
{
    let mut i: usize = 0;
    while i < es.len()
        invariant
            i <= es@.len(),
            listable_events(es@.take(i as int)),
        decreases es@.len() - i,
    {
        let e = &es[i];
        let ok = if e.event_type() == EventType::Announcement {
            url_is_valid(e.link.as_str())
        } else {
            events_status_computable(e)
        };
        if !ok {
            assert(!listable_events(es@)) by {
                assert(es@[i as int] == e);
            }
            return None;
        }
        proof {
            assert forall|j: int| 0 <= j < i + 1 implies (if listed_event_type(#[trigger] es@.take(i + 1)[j]) == EventType::Announcement {
                url_parses(es@.take(i + 1)[j].link@)
            } else {
                status_computable(es@.take(i + 1)[j])
            }) by {
                if j < i {
                    assert(es@.take(i + 1)[j] == es@.take(i as int)[j]);
                }
            };
        }
        i = i + 1;
    }
    assert(es@.take(es@.len() as int) =~= es@);
    Some(build_events_keyboard(es))
}

/// Whether the seat status of an event can be computed.
fn events_status_computable(e: &ListedEvent) -> (r: bool)
    ensures
        r == status_computable(*e),
{
    if e.state != EventState::Open {
        return true;
    }
    match e.max_adults.checked_sub(e.my_wait_adults) {
        Some(a) => if e.max_adults == 0 || e.max_children == 0 {
            match a.checked_add(e.max_children) {
                Some(b) => b.checked_sub(e.my_wait_children).is_some(),
                None => false,
            }
        } else {
            e.max_children.checked_sub(e.my_wait_children).is_some()
        },
        None => false,
    }
}

/// The reply to "/start": the heading of the event list, with the address of
/// the instructions, and a row per event.
pub fn event_list_message(es: &Vec<ListedEvent>, help: &str) -> (r: ReplyMessage)
    requires
        listable_events(es@),
    ensures
        reply_view(r) == (ReplyView {
            text: event_list_heading_spec(es@.len() != 0, help@),
            keyboard: es@.map_values(|e: ListedEvent| listed_row_spec(e)),
            paging: None,
        }),
{
    let text = if es.len() != 0 {
        let mut t = String::from_str("Программа\nвремя / взросл.(детск.) места  / мероприятие\n<a href=\"");
        t.append(help);
        t.append("\">инструкция</a> /donate");
        t
    } else {
        String::from_str("Нет мероприятий.")
    };
    let keyboard = build_events_keyboard(es);
    ReplyMessage { text, keyboard, paging: None }
}

} // verus!
