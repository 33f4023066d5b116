//! List pages: the events, the waiting list, the presence list, the black list.
use vstd::prelude::*;
use crate::callback::CallbackQuery;
use crate::entity::EventState;
use crate::guards::event_list_ok;
use crate::format::{ts, ts_spec, showable, participant_entries, participant_entries_spec, seat_sums_fit};
use crate::keyboard::{Button, ButtonAction, ButtonView, ActionView, button_view, row_view, keyboard_view,
    callback_button, new_callback_button};
use crate::links::{url_parses, url_is_valid};
use crate::reply::{ReplyMessage, ReplyView, Paging, reply_view, prev_offset, prev_page};
use crate::text::{decimal, u64_to_string};
use crate::types::{EventStats, EventType, Participant, Presence, User, event_type_spec, lemma_event_type};

verus! {

/// The mark in front of an event in the list: reserved, waiting, free event.
pub open spec fn event_mark_spec(s: EventStats) -> Seq<char> {
    if s.adults.my_reservation != 0 || s.children.my_reservation != 0 {
        "✅"@
    } else if s.adults.my_waiting != 0 || s.children.my_waiting != 0 {
        "⏳"@
    } else if event_type_spec(s.event) != EventType::Paid {
        "✨"@
    } else {
        Seq::empty()
    }
}

/// The free seats shown in the event list: one number where there is one kind
/// of seat, adults and children otherwise, "-" while reservations are stopped.
pub open spec fn seats_status_spec(s: EventStats) -> Seq<char> {
    if s.state == EventState::Open {
        if s.event.max_adults == 0 || s.event.max_children == 0 {
            decimal((s.event.max_adults - s.adults.reserved + s.event.max_children - s.children.reserved) as nat)
        } else {
            decimal((s.event.max_adults - s.adults.reserved) as nat) + "("@
                + decimal((s.event.max_children - s.children.reserved) as nat) + ")"@
        }
    } else {
        "-"@
    }
}

/// Whether the free seats that the event list shows for an event with open
/// reservations can be computed: with one kind of seat, the adults' free seats,
/// plus the children's limit, minus the children's seats, stay within 0 and
/// `u64::MAX` at each step; with both kinds, neither count exceeds its limit.
pub open spec fn counts_within_limits(s: EventStats) -> bool {
    if s.event.max_adults == 0 || s.event.max_children == 0 {
        &&& s.adults.reserved <= s.event.max_adults
        &&& s.event.max_adults - s.adults.reserved + s.event.max_children <= u64::MAX
        &&& s.event.max_adults - s.adults.reserved + s.event.max_children >= s.children.reserved
    } else {
        &&& s.adults.reserved <= s.event.max_adults
        &&& s.children.reserved <= s.event.max_children
    }
}

/// Whether the row of an event in the event list can be built: an announcement
/// with a valid address shows its start; any other event shows its start and,
/// while reservations are open, its free seats.
pub open spec fn listable_event(s: EventStats) -> bool {
    if event_type_spec(s.event) == EventType::Announcement {
        url_parses(s.event.link@) ==> showable(s.event.ts)
    } else {
        &&& showable(s.event.ts)
        &&& s.state == EventState::Open ==> counts_within_limits(s)
    }
}

/// The row of an event in the event list: an announcement links to its page
/// (no button where its address is not valid); any other event opens its page
/// in the bot, through the payment page for a paid one.
pub open spec fn event_list_row_spec(s: EventStats) -> Seq<ButtonView> {
    let t = event_type_spec(s.event);
    if t == EventType::Announcement {
        if url_parses(s.event.link@) {
            seq![ButtonView {
                text: "ℹ️ "@ + ts_spec(s.event.ts) + " "@ + s.event.name@,
                action: ActionView::Url(s.event.link@),
            }]
        } else {
            seq![]
        }
    } else {
        seq![callback_button(
            event_mark_spec(s) + " "@ + ts_spec(s.event.ts) + " / "@ + seats_status_spec(s) + " / "@
                + s.event.name@,
            if t == EventType::Paid {
                CallbackQuery::PaidEvent { event_id: s.event.id, adults: 0, children: 0, offset: 0 }
            } else {
                CallbackQuery::Event { event_id: s.event.id, offset: 0 }
            },
        )]
    }
}

/// The mark of an event in the list: a tick while the user holds a confirmed
/// seat, adult or child; else an hourglass while the user waits for one; else a
/// sparkle where the event costs nothing; nothing for a paid event.
pub proof fn lemma_event_mark(s: EventStats)
    requires
        s.event.max_adults != 0 || s.event.max_children != 0,
    ensures
        (s.adults.my_reservation != 0 || s.children.my_reservation != 0) ==> event_mark_spec(s) == "✅"@,
        s.adults.my_reservation == 0 && s.children.my_reservation == 0
            && (s.adults.my_waiting != 0 || s.children.my_waiting != 0) ==> event_mark_spec(s) == "⏳"@,
        s.adults.my_reservation == 0 && s.children.my_reservation == 0 && s.adults.my_waiting == 0
            && s.children.my_waiting == 0 ==> event_mark_spec(s) == (if s.event.adult_ticket_price == 0
            && s.event.child_ticket_price == 0 { "✨"@ } else { Seq::<char>::empty() }),
{
    lemma_event_type(s.event);
}

/// The row of an event that takes reservations is one button whose label
/// shows, after the mark and the start, the free seats and then the name: while
/// reservations are open, with adult and child seats, the adults' limit less
/// their confirmed seats and, in brackets, the children's; with one kind of
/// seat both together; "-" while they are stopped.
pub proof fn lemma_event_list_row_seats(s: EventStats)
    requires
        event_type_spec(s.event) != EventType::Announcement,
        listable_event(s),
    ensures
        ({
            let row = event_list_row_spec(s);
            let seats = if s.state != EventState::Open {
                "-"@
            } else if s.event.max_adults != 0 && s.event.max_children != 0 {
                decimal((s.event.max_adults - s.adults.reserved) as nat) + "("@
                    + decimal((s.event.max_children - s.children.reserved) as nat) + ")"@
            } else {
                decimal((s.event.max_adults + s.event.max_children - s.adults.reserved - s.children.reserved) as nat)
            };
            &&& row.len() == 1
            &&& row[0].text == event_mark_spec(s) + " "@ + ts_spec(s.event.ts) + " / "@ + seats + " / "@
                + s.event.name@
            &&& s.state == EventState::Open ==> s.adults.reserved <= s.event.max_adults
                && s.event.max_adults + s.event.max_children - s.adults.reserved - s.children.reserved >= 0
        }),
{
    if s.state == EventState::Open && s.event.max_adults != 0 && s.event.max_children != 0 {
        assert(s.children.reserved <= s.event.max_children);
    }
}

pub open spec fn event_list_rows_spec(events: Seq<EventStats>) -> Seq<Seq<ButtonView>>
    decreases events.len(),
{
    if events.len() == 0 {
        seq![]
    } else {
        event_list_rows_spec(events.drop_last()).push(event_list_row_spec(events.last()))
    }
}

/// The event list has one row per event, in order, and the row of an event
/// that takes reservations is one button that opens that event's page (through
/// the payment page for a paid one).
pub proof fn lemma_event_list_rows(events: Seq<EventStats>)
    ensures
        event_list_rows_spec(events).len() == events.len(),
        forall|i: int| 0 <= i < events.len() ==> #[trigger] event_list_rows_spec(events)[i] == event_list_row_spec(events[i]),
        forall|i: int| 0 <= i < events.len() && event_type_spec(events[i].event) != EventType::Announcement ==>
            (#[trigger] event_list_row_spec(events[i])).len() == 1 && match event_list_row_spec(events[i])[0].action {
                ActionView::Callback(CallbackQuery::Event { event_id, offset }) => event_id == events[i].event.id && offset == 0,
                ActionView::Callback(CallbackQuery::PaidEvent { event_id, .. }) => event_id == events[i].event.id,
                _ => false,
            },
    decreases events.len(),
{
    if events.len() > 0 {
        lemma_event_list_rows(events.drop_last());
        assert forall|i: int| 0 <= i < events.len() implies #[trigger] event_list_rows_spec(events)[i] == event_list_row_spec(events[i]) by {
            if i < events.len() - 1 {
                assert(events.drop_last()[i] == events[i]);
            }
        };
    }
}

/// The heading of the event list.
pub open spec fn event_list_heading_spec(nonempty: bool, help: Seq<char>) -> Seq<char> {
    if nonempty {
        "Программа\nвремя / взросл.(детск.) места  / мероприятие\n<a href=\""@ + help
            + "\">инструкция</a> /donate"@
    } else {
        "Нет мероприятий."@
    }
}

/// The event list shown at `offset`.
pub open spec fn event_list_spec(events: Seq<EventStats>, offset: u64, page_size: u64, help: Seq<char>) -> ReplyView {
    ReplyView {
        text: event_list_heading_spec(offset != 0 || events.len() != 0, help),
        keyboard: event_list_rows_spec(events),
        paging: Some(Paging {
            prev: CallbackQuery::EventList { offset: prev_offset(offset) },
            next: CallbackQuery::EventList { offset: (offset + 1) as u64 },
            len: events.len() as u64,
            page_size,
            offset,
        }),
    }
}

/// The event list says that there are no events only on its first page and
/// only when that page is empty; otherwise it heads the list with the
/// programme and the address of the instructions. Its rows follow the events
/// one for one, and its links go back one page (not below the first) and
/// forward one.
pub proof fn lemma_event_list_page(events: Seq<EventStats>, offset: u64, page_size: u64, help: Seq<char>)
    requires
        offset < u64::MAX,
    ensures
        ({
            let r = event_list_spec(events, offset, page_size, help);
            &&& (offset == 0 && events.len() == 0) ==> r.text == "Нет мероприятий."@
            &&& (offset != 0 || events.len() != 0) ==> r.text
                == "Программа\nвремя / взросл.(детск.) места  / мероприятие\n<a href=\""@ + help
                + "\">инструкция</a> /donate"@
            &&& r.keyboard.len() == events.len()
            &&& r.paging matches Some(p) && p.len == events.len() as u64 && p.offset == offset
                && p.prev == CallbackQuery::EventList { offset: if offset == 0 { 0 } else { (offset - 1) as u64 } }
                && p.next == CallbackQuery::EventList { offset: (offset + 1) as u64 }
        }),
{
    lemma_event_list_rows(events);
}

fn event_mark(s: &EventStats) -> (r: &'static str)
    ensures
        r@ == event_mark_spec(*s),
{
    if s.adults.my_reservation != 0 || s.children.my_reservation != 0 {
        "✅"
    } else if s.adults.my_waiting != 0 || s.children.my_waiting != 0 {
        "⏳"
    } else if s.event.get_type() != EventType::Paid {
        "✨"
    } else {
        proof { reveal_strlit(""); }
        ""
    }
}

fn seats_status(s: &EventStats) -> (r: String)
    requires
        s.state == EventState::Open ==> counts_within_limits(*s),
    ensures
        r@ == seats_status_spec(*s),
{
    if s.state == EventState::Open {
        if s.event.max_adults == 0 || s.event.max_children == 0 {
            u64_to_string(s.event.max_adults - s.adults.reserved + s.event.max_children - s.children.reserved)
        } else {
            let mut r = u64_to_string(s.event.max_adults - s.adults.reserved);
            r.append("(");
            r.append(u64_to_string(s.event.max_children - s.children.reserved).as_str());
            r.append(")");
            r
        }
    } else {
        String::from_str("-")
    }
}

fn event_list_row(s: &EventStats) -> (r: Vec<Button>)
    requires
        listable_event(*s),
    ensures
        row_view(r@) == event_list_row_spec(*s),
{
    let t = s.event.get_type();
    let mut row: Vec<Button> = Vec::new();
    if t == EventType::Announcement {
        if url_is_valid(s.event.link.as_str()) {
            let mut text = String::from_str("ℹ️ ");
            text.append(ts(s.event.ts).as_str());
            text.append(" ");
            text.append(s.event.name.as_str());
            let b = Button { text, action: ButtonAction::Url(s.event.link.clone()) };
            row.push(b);
        }
    } else {
        let mut text = String::from_str(event_mark(s));
        text.append(" ");
        text.append(ts(s.event.ts).as_str());
        text.append(" / ");
        text.append(seats_status(s).as_str());
        text.append(" / ");
        text.append(s.event.name.as_str());
        let q = if t == EventType::Paid {
            CallbackQuery::PaidEvent { event_id: s.event.id, adults: 0, children: 0, offset: 0 }
        } else {
            CallbackQuery::Event { event_id: s.event.id, offset: 0 }
        };
        row.push(Button { text, action: ButtonAction::Callback(q) });
    }
    assert(row_view(row@) =~= event_list_row_spec(*s));
    row
}

/// Whether every event of a list can be shown.
pub open spec fn listable(events: Seq<EventStats>) -> bool {
    forall|i: int| 0 <= i < events.len() ==> listable_event(#[trigger] events[i])
}

/// The event list: a heading, one row per event, links to the neighbouring pages.
pub fn show_event_list(events: &Vec<EventStats>, offset: u64, page_size: u64, help: &str) -> (r: ReplyMessage)
    requires
        listable(events@),
        offset < u64::MAX,
    ensures
        reply_view(r) == event_list_spec(events@, offset, page_size, help@),
{
    let text = if offset != 0 || events.len() != 0 {
        let mut t = String::from_str("Программа\nвремя / взросл.(детск.) места  / мероприятие\n<a href=\"");
        t.append(help);
        t.append("\">инструкция</a> /donate");
        t
    } else {
        String::from_str("Нет мероприятий.")
    };
    let mut keyboard: Vec<Vec<Button>> = Vec::new();
    let mut i: usize = 0;
    while i < events.len()
        invariant
            i <= events@.len(),
            listable(events@),
            keyboard_view(keyboard@) == event_list_rows_spec(events@.take(i as int)),
        decreases events@.len() - i,
    {
        assert(listable_event(events@[i as int]));
        let row = event_list_row(&events[i]);
        let ghost before = keyboard@;
        keyboard.push(row);
        proof {
            assert(events@.take(i + 1).drop_last() =~= events@.take(i as int));
            assert(keyboard_view(before.push(row)) =~= keyboard_view(before).push(row_view(row@)));
        }
        i = i + 1;
    }
    assert(events@.take(events@.len() as int) =~= events@);
    let paging = Paging {
        prev: CallbackQuery::EventList { offset: prev_page(offset) },
        next: CallbackQuery::EventList { offset: offset + 1 },
        len: events.len() as u64,
        page_size,
        offset,
    };
    let r = ReplyMessage { text, keyboard, paging: Some(paging) };
    assert(reply_view(r).text =~= event_list_spec(events@, offset, page_size, help@).text);
    r
}

/// The event list where every row can be built and a following page can be
/// named; nothing otherwise.
pub fn checked_event_list(events: &Vec<EventStats>, offset: u64, page_size: u64, help: &str)
    -> (r: Option<ReplyMessage>)
    ensures
        r is Some <==> (listable(events@) && offset < u64::MAX),
        r matches Some(m) ==> reply_view(m) == event_list_spec(events@, offset, page_size, help@),
{
    if offset < u64::MAX && event_list_ok(events) {
        Some(show_event_list(events, offset, page_size, help))
    } else {
        None
    }
}

/// The waiting list of an event shown at `offset`.
pub open spec fn waiting_list_spec(
    event_id: u64,
    ps: Seq<Participant>,
    is_admin: bool,
    no_age_distinction: bool,
    offset: u64,
    page_size: u64,
) -> ReplyView {
    ReplyView {
        text: if ps.len() == 0 {
            "Пустой список ожидания."@
        } else {
            "Список ожидания:\n"@ + participant_entries_spec(ps, is_admin, no_age_distinction, true)
        },
        keyboard: seq![seq![callback_button("Назад"@, CallbackQuery::Event { event_id, offset: 0 })]],
        paging: Some(Paging {
            prev: CallbackQuery::ShowWaitingList { event_id, offset: prev_offset(offset) },
            next: CallbackQuery::ShowWaitingList { event_id, offset: (offset + 1) as u64 },
            len: ps.len() as u64,
            page_size,
            offset,
        }),
    }
}

fn back_to_event(event_id: u64) -> (r: Vec<Vec<Button>>)
    ensures
        keyboard_view(r@) == seq![seq![callback_button("Назад"@, CallbackQuery::Event { event_id, offset: 0 })]],
{
    let mut row: Vec<Button> = Vec::new();
    row.push(new_callback_button("Назад", CallbackQuery::Event { event_id, offset: 0 }));
    let mut k: Vec<Vec<Button>> = Vec::new();
    k.push(row);
    assert(row_view(row@) =~= seq![callback_button("Назад"@, CallbackQuery::Event { event_id, offset: 0 })]);
    assert(keyboard_view(k@) =~= seq![seq![callback_button("Назад"@, CallbackQuery::Event { event_id, offset: 0 })]]);
    k
}

/// The waiting list of an event. `no_age_distinction` holds where the event
/// has one kind of seat; `is_admin` shows user ids.
pub fn show_waiting_list(
    event_id: u64,
    ps: &Vec<Participant>,
    is_admin: bool,
    no_age_distinction: bool,
    offset: u64,
    page_size: u64,
) -> (r: ReplyMessage)
    requires
        no_age_distinction ==> seat_sums_fit(ps@),
        offset < u64::MAX,
    ensures
        reply_view(r) == waiting_list_spec(event_id, ps@, is_admin, no_age_distinction, offset, page_size),
{
    let text = if ps.len() == 0 {
        String::from_str("Пустой список ожидания.")
    } else {
        let mut t = String::from_str("Список ожидания:\n");
        t.append(participant_entries(ps, is_admin, no_age_distinction, true).as_str());
        t
    };
    let keyboard = back_to_event(event_id);
    let paging = Paging {
        prev: CallbackQuery::ShowWaitingList { event_id, offset: prev_page(offset) },
        next: CallbackQuery::ShowWaitingList { event_id, offset: offset + 1 },
        len: ps.len() as u64,
        page_size,
        offset,
    };
    ReplyMessage { text, keyboard, paging: Some(paging) }
}

/// The label of a user in the presence list: names, seats reserved, note.
pub open spec fn presence_label_spec(p: Presence) -> Seq<char> {
    (if p.user_name2@.len() > 0 {
        p.user_name1@ + " ("@ + p.user_name2@ + ") "@ + decimal(p.reserved as nat)
    } else {
        p.user_name1@ + " "@ + decimal(p.reserved as nat)
    }) + (match p.attachment {
        Some(a) => " - "@ + a@,
        None => Seq::empty(),
    })
}

pub open spec fn presence_rows_spec(event_id: u64, ps: Seq<Presence>, offset: u64) -> Seq<Seq<ButtonView>>
    decreases ps.len(),
{
    if ps.len() == 0 {
        seq![]
    } else {
        presence_rows_spec(event_id, ps.drop_last(), offset).push(seq![callback_button(
            presence_label_spec(ps.last()),
            CallbackQuery::ConfirmPresence { event_id, user_id: ps.last().user_id, offset },
        )])
    }
}

/// The presence list of an event shown at `offset`: one button per user whose
/// presence is not yet confirmed, then a way back.
pub open spec fn presence_list_spec(event_id: u64, ps: Seq<Presence>, offset: u64, page_size: u64) -> ReplyView {
    ReplyView {
        text: if ps.len() == 0 {
            "Пустой список ожидания."@
        } else {
            "Пожалуйста, выберите присутствующих:\n"@
        },
        keyboard: presence_rows_spec(event_id, ps, offset).push(
            seq![callback_button("Назад"@, CallbackQuery::Event { event_id, offset: 0 })]),
        paging: Some(Paging {
            prev: CallbackQuery::ShowPresenceList { event_id, offset: prev_offset(offset) },
            next: CallbackQuery::ShowPresenceList { event_id, offset: (offset + 1) as u64 },
            len: ps.len() as u64,
            page_size,
            offset,
        }),
    }
}

fn presence_label(p: &Presence) -> (r: String)
    ensures
        r@ == presence_label_spec(*p),
{
    let mut text = p.user_name1.clone();
    if p.user_name2.unicode_len() > 0 {
        text.append(" (");
        text.append(p.user_name2.as_str());
        text.append(") ");
    } else {
        text.append(" ");
    }
    text.append(u64_to_string(p.reserved).as_str());
    match &p.attachment {
        Some(a) => {
            text.append(" - ");
            text.append(a.as_str());
        },
        None => {},
    }
    assert(text@ =~= presence_label_spec(*p));
    text
}

pub fn show_presence_list(event_id: u64, ps: &Vec<Presence>, offset: u64, page_size: u64) -> (r: ReplyMessage)
    requires
        offset < u64::MAX,
    ensures
        reply_view(r) == presence_list_spec(event_id, ps@, offset, page_size),
{
    let text = if ps.len() == 0 {
        String::from_str("Пустой список ожидания.")
    } else {
        String::from_str("Пожалуйста, выберите присутствующих:\n")
    };
    let mut keyboard: Vec<Vec<Button>> = Vec::new();
    let mut i: usize = 0;
    while i < ps.len()
        invariant
            i <= ps@.len(),
            keyboard_view(keyboard@) == presence_rows_spec(event_id, ps@.take(i as int), offset),
        decreases ps@.len() - i,
    {
        let p = &ps[i];
        let b = Button {
            text: presence_label(p),
            action: ButtonAction::Callback(CallbackQuery::ConfirmPresence { event_id, user_id: p.user_id, offset }),
        };
        let mut row: Vec<Button> = Vec::new();
        row.push(b);
        let ghost before = keyboard@;
        keyboard.push(row);
        proof {
            assert(ps@.take(i + 1).drop_last() =~= ps@.take(i as int));
            assert(row_view(row@) =~= seq![button_view(b)]);
            assert(keyboard_view(before.push(row)) =~= keyboard_view(before).push(row_view(row@)));
        }
        i = i + 1;
    }
    assert(ps@.take(ps@.len() as int) =~= ps@);
    let ghost rows = keyboard@;
    let mut last: Vec<Button> = Vec::new();
    last.push(new_callback_button("Назад", CallbackQuery::Event { event_id, offset: 0 }));
    keyboard.push(last);
    proof {
        assert(row_view(last@) =~= seq![callback_button("Назад"@, CallbackQuery::Event { event_id, offset: 0 })]);
        assert(keyboard_view(rows.push(last)) =~= keyboard_view(rows).push(row_view(last@)));
    }
    let paging = Paging {
        prev: CallbackQuery::ShowPresenceList { event_id, offset: prev_page(offset) },
        next: CallbackQuery::ShowPresenceList { event_id, offset: offset + 1 },
        len: ps.len() as u64,
        page_size,
        offset,
    };
    ReplyMessage { text, keyboard, paging: Some(paging) }
}

/// The label of a black-listed user: names and id.
pub open spec fn black_list_label_spec(u: User) -> Seq<char> {
    if u.user_name2@.len() > 0 {
        u.user_name1@ + " ("@ + u.user_name2@ + ") "@ + decimal(u.id as nat)
    } else {
        u.user_name1@ + " "@ + decimal(u.id as nat)
    }
}

pub open spec fn black_list_rows_spec(us: Seq<User>) -> Seq<Seq<ButtonView>>
    decreases us.len(),
{
    if us.len() == 0 {
        seq![]
    } else {
        black_list_rows_spec(us.drop_last()).push(seq![callback_button(
            black_list_label_spec(us.last()),
            CallbackQuery::ConfirmRemoveFromBlackList { user_id: us.last().id },
        )])
    }
}

/// The black list shown at `offset`: one button per user, which asks whether
/// to remove the user.
pub open spec fn black_list_spec(us: Seq<User>, offset: u64, page_size: u64) -> ReplyView {
    ReplyView {
        text: if us.len() != 0 || offset > 0 {
            "Чёрный список. Нажмите кнопку чтобы удалить из списка."@
        } else {
            "Чёрный список пуст."@
        },
        keyboard: black_list_rows_spec(us),
        paging: Some(Paging {
            prev: CallbackQuery::ShowBlackList { offset: prev_offset(offset) },
            next: CallbackQuery::ShowBlackList { offset: (offset + 1) as u64 },
            len: us.len() as u64,
            page_size,
            offset,
        }),
    }
}

fn black_list_label(u: &User) -> (r: String)
    ensures
        r@ == black_list_label_spec(*u),
{
    let mut text = u.user_name1.clone();
    if u.user_name2.unicode_len() > 0 {
        text.append(" (");
        text.append(u.user_name2.as_str());
        text.append(") ");
    } else {
        text.append(" ");
    }
    text.append(u64_to_string(u.id).as_str());
    assert(text@ =~= black_list_label_spec(*u));
    text
}

pub fn show_black_list(us: &Vec<User>, offset: u64, page_size: u64) -> (r: ReplyMessage)
    requires
        offset < u64::MAX,
    ensures
        reply_view(r) == black_list_spec(us@, offset, page_size),
{
    let text = if us.len() != 0 || offset > 0 {
        String::from_str("Чёрный список. Нажмите кнопку чтобы удалить из списка.")
    } else {
        String::from_str("Чёрный список пуст.")
    };
    let mut keyboard: Vec<Vec<Button>> = Vec::new();
    let mut i: usize = 0;
    while i < us.len()
        invariant
            i <= us@.len(),
            keyboard_view(keyboard@) == black_list_rows_spec(us@.take(i as int)),
        decreases us@.len() - i,
    {
        let u = &us[i];
        let b = Button {
            text: black_list_label(u),
            action: ButtonAction::Callback(CallbackQuery::ConfirmRemoveFromBlackList { user_id: u.id }),
        };
        let mut row: Vec<Button> = Vec::new();
        row.push(b);
        let ghost before = keyboard@;
        keyboard.push(row);
        proof {
            assert(us@.take(i + 1).drop_last() =~= us@.take(i as int));
            assert(row_view(row@) =~= seq![button_view(b)]);
            assert(keyboard_view(before.push(row)) =~= keyboard_view(before).push(row_view(row@)));
        }
        i = i + 1;
    }
    assert(us@.take(us@.len() as int) =~= us@);
    let paging = Paging {
        prev: CallbackQuery::ShowBlackList { offset: prev_page(offset) },
        next: CallbackQuery::ShowBlackList { offset: offset + 1 },
        len: us.len() as u64,
        page_size,
        offset,
    };
    ReplyMessage { text, keyboard, paging: Some(paging) }
}

/// The question whether to take a user off the black list, with the ban reason.
pub open spec fn confirm_unban_spec(user_id: u64, reason: Seq<char>) -> ReplyView {
    ReplyView {
        text: "Причина бана: "@ + reason + "\nУдалить пользавателя <a href=\"tg://user?id="@
            + decimal(user_id as nat) + "\">"@ + decimal(user_id as nat) + "</a> из чёрного списка?"@,
        keyboard: seq![seq![
            callback_button("да"@, CallbackQuery::RemoveFromBlackList { user_id }),
            callback_button("нет"@, CallbackQuery::ShowBlackList { offset: 0 }),
        ]],
        paging: None,
    }
}

pub fn confirm_unban(user_id: u64, reason: &str) -> (r: ReplyMessage)
    ensures
        reply_view(r) == confirm_unban_spec(user_id, reason@),
{
    let mut text = String::from_str("Причина бана: ");
    text.append(reason);
    text.append("\nУдалить пользавателя <a href=\"tg://user?id=");
    let id = u64_to_string(user_id);
    text.append(id.as_str());
    text.append("\">");
    text.append(id.as_str());
    text.append("</a> из чёрного списка?");
    let mut row: Vec<Button> = Vec::new();
    row.push(new_callback_button("да", CallbackQuery::RemoveFromBlackList { user_id }));
    row.push(new_callback_button("нет", CallbackQuery::ShowBlackList { offset: 0 }));
    let mut keyboard: Vec<Vec<Button>> = Vec::new();
    keyboard.push(row);
    let r = ReplyMessage { text, keyboard, paging: None };
    assert(row_view(row@) =~= seq![
        callback_button("да"@, CallbackQuery::RemoveFromBlackList { user_id }),
        callback_button("нет"@, CallbackQuery::ShowBlackList { offset: 0 }),
    ]);
    assert(reply_view(r).keyboard =~= confirm_unban_spec(user_id, reason@).keyboard);
    assert(reply_view(r).text =~= confirm_unban_spec(user_id, reason@).text);
    r
}

} // verus!
