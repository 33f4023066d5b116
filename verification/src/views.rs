//! The pages the bot shows: an event, the event list, the waiting list, the
//! presence list and the black list.
use vstd::prelude::*;
use crate::callback::CallbackQuery;
use crate::format::{event_title_spec, ts_spec, header, header_spec, header_head_spec, header_admin_spec, header_seats_spec, participant_id_spec, participants, participants_spec, messages, messages_spec,
    message_times_showable, seat_sums_fit, showable, opt_view};
use crate::keyboard::{get_signup_controls, signup_controls_spec, ButtonView, is_state_switch, lemma_navigation_row};
use crate::reply::{ReplyMessage, ReplyView, Paging, reply_view, prev_offset, prev_page};
use crate::text::{as_signed, to_signed, decimal, signed_decimal, u64_to_string};
use crate::entity::EventState;
use crate::types::{EventStats, GroupMessage, Participant};
use crate::booking::{holds_any_seat, has_any_seat};

verus! {

/// Whether the participant list is shown: to everybody where lists are public,
/// else to administrators.
pub open spec fn lists_participants(is_admin: bool, public_lists: bool) -> bool {
    public_lists || is_admin
}

pub fn shows_participants(is_admin: bool, public_lists: bool) -> (r: bool)
    ensures
        r == lists_participants(is_admin, public_lists),
{
    public_lists || is_admin
}

/// Whether the user's note is shown (and so needs to be read).
pub open spec fn shows_note_spec(s: EventStats, is_admin: bool, public_lists: bool) -> bool {
    (is_admin || holds_any_seat(s)) && !public_lists
}

pub fn shows_note(s: &EventStats, is_admin: bool, public_lists: bool) -> (r: bool)
    ensures
        r == shows_note_spec(*s, is_admin, public_lists),
{
    (is_admin || has_any_seat(s)) && !public_lists
}

/// Free seats of an age group, counted as signed numbers.
pub open spec fn free_seats(max: u64, reserved: u64) -> int {
    as_signed(max) - as_signed(reserved)
}

/// Whether the numbers an event page adds up fit in 64 bits: the free seats of
/// each age group always; their sum where the page shows it (open reservations,
/// one kind of seat); the user's own seats where the page shows them
/// (administrators, holders of a seat); and the start can be shown as a date.
pub open spec fn event_page_computable(s: EventStats, is_admin: bool) -> bool {
    &&& i64::MIN <= free_seats(s.event.max_adults, s.adults.reserved) <= i64::MAX
    &&& i64::MIN <= free_seats(s.event.max_children, s.children.reserved) <= i64::MAX
    &&& (s.state == EventState::Open && no_age_distinction_spec(s)) ==> i64::MIN <= free_seats(
        s.event.max_adults, s.adults.reserved) + free_seats(s.event.max_children, s.children.reserved)
        <= i64::MAX
    &&& (is_admin || holds_any_seat(s)) ==> s.adults.my_reservation + s.children.my_reservation <= u64::MAX
    &&& (is_admin || holds_any_seat(s)) ==> s.adults.my_waiting + s.children.my_waiting <= u64::MAX
    &&& showable(s.event.ts)
}

/// Whether an event has a single kind of seat (no adult/child distinction).
pub open spec fn no_age_distinction_spec(s: EventStats) -> bool {
    s.event.max_adults == 0 || s.event.max_children == 0
}

/// The part of an event page about the user's own reservation: the note
/// (where lists are not public), a hint for non-administrators, and the
/// seats held and waiting.
pub open spec fn note_section_spec(s: EventStats, is_admin: bool, public_lists: bool, attachment: Option<Seq<char>>) -> Seq<char> {
    let note = if !public_lists {
        match attachment {
            Some(a) => "\nПримечание: "@ + a + "."@,
            None => Seq::empty(),
        }
    } else {
        Seq::empty()
    };
    let hint = if !is_admin {
        "\nКоличество мест можно менять кнопками \"Записаться/Отписаться\". Примечание к брони можно добавить, послав сообщение боту.\n"@
    } else {
        Seq::empty()
    };
    let reserved = s.adults.my_reservation + s.children.my_reservation;
    let waiting = s.adults.my_waiting + s.children.my_waiting;
    let mine = if reserved > 0 {
        "\n<b>У вас забронировано: "@ + decimal(reserved as nat) + "</b>"@
    } else {
        Seq::empty()
    };
    let waits = if waiting > 0 {
        "\n<b>У вас в списке ожидания: "@ + decimal(waiting as nat) + "</b>"@
    } else {
        Seq::empty()
    };
    note + hint + mine + waits
}

fn note_section(s: &EventStats, is_admin: bool, public_lists: bool, attachment: &Option<String>) -> (r: String)
    requires
        s.adults.my_reservation + s.children.my_reservation <= u64::MAX,
        s.adults.my_waiting + s.children.my_waiting <= u64::MAX,
    ensures
        r@ == note_section_spec(*s, is_admin, public_lists, opt_view(*attachment)),
{
    let mut text = String::new();
    if !public_lists {
        match attachment {
            Some(a) => {
                text.append("\nПримечание: ");
                text.append(a.as_str());
                text.append(".");
            },
            None => {},
        }
    }
    if !is_admin {
        text.append("\nКоличество мест можно менять кнопками \"Записаться/Отписаться\". Примечание к брони можно добавить, послав сообщение боту.\n");
    }
    let reserved = s.adults.my_reservation + s.children.my_reservation;
    if reserved > 0 {
        text.append("\n<b>У вас забронировано: ");
        text.append(u64_to_string(reserved).as_str());
        text.append("</b>");
    }
    let waiting = s.adults.my_waiting + s.children.my_waiting;
    if waiting > 0 {
        text.append("\n<b>У вас в списке ожидания: ");
        text.append(u64_to_string(waiting).as_str());
        text.append("</b>");
    }
    assert(text@ =~= note_section_spec(*s, is_admin, public_lists, opt_view(*attachment)));
    text
}

/// An optional text, or nothing.
pub open spec fn or_empty(t: Option<Seq<char>>) -> Seq<char> {
    match t {
        Some(x) => x,
        None => Seq::empty(),
    }
}

/// The participants shown on an event page, if the list is shown.
pub open spec fn participants_view(ps: Option<Vec<Participant>>) -> Option<Seq<Participant>> {
    match ps {
        Some(v) => Some(v@),
        None => None,
    }
}

/// The text of an event page.
pub open spec fn event_page_text_spec(
    s: EventStats,
    is_admin: bool,
    public_lists: bool,
    ps: Option<Seq<Participant>>,
    ms: Seq<GroupMessage>,
    audience: Option<u64>,
    attachment: Option<Seq<char>>,
    postscript: Option<Seq<char>>,
) -> Seq<char> {
    let fa = free_seats(s.event.max_adults, s.adults.reserved);
    let fc = free_seats(s.event.max_children, s.children.reserved);
    let nad = no_age_distinction_spec(s);
    header_spec(s, fa as i64, fc as i64, is_admin, nad)
        + (match ps {
            Some(p) => participants_spec(s, p, is_admin, nad),
            None => Seq::empty(),
        })
        + or_empty(messages_spec(ms, audience))
        + (if is_admin || holds_any_seat(s) {
            note_section_spec(s, is_admin, public_lists, attachment)
        } else {
            Seq::empty()
        })
        + or_empty(postscript)
}

/// An event page: header, participants (where shown), messages, the user's
/// reservation, a postscript; the sign-up controls; links to the neighbouring
/// pages of the participant list.
pub open spec fn event_page_spec(
    s: EventStats,
    event_id: u64,
    is_admin: bool,
    public_lists: bool,
    ps: Option<Seq<Participant>>,
    ms: Seq<GroupMessage>,
    audience: Option<u64>,
    attachment: Option<Seq<char>>,
    is_group_leader: Option<bool>,
    postscript: Option<Seq<char>>,
    offset: u64,
    page_size: u64,
) -> ReplyView {
    let fa = free_seats(s.event.max_adults, s.adults.reserved);
    let fc = free_seats(s.event.max_children, s.children.reserved);
    ReplyView {
        text: event_page_text_spec(s, is_admin, public_lists, ps, ms, audience, attachment, postscript),
        keyboard: signup_controls_spec(s, fa as i64, fc as i64, no_age_distinction_spec(s), is_admin,
            is_group_leader),
        paging: Some(Paging {
            prev: CallbackQuery::Event { event_id, offset: prev_offset(offset) },
            next: CallbackQuery::Event { event_id, offset: (offset + 1) as u64 },
            len: match ps {
                Some(p) => p.len() as u64,
                None => 0,
            },
            page_size,
            offset,
        }),
    }
}

/// Whether any button of a keyboard switches an event's state.
pub open spec fn offers_state_switch(k: Seq<Seq<ButtonView>>) -> bool {
    exists|r: int, i: int| 0 <= r < k.len() && 0 <= i < k[r].len() && is_state_switch(#[trigger] k[r][i])
}

/// The parts of a text put together: each can be read back at its place.
proof fn lemma_parts(a: Seq<char>, b: Seq<char>, c: Seq<char>)
    ensures
        (a + b + c).take(a.len() as int) == a,
        (a + b + c).subrange(a.len() as int, (a.len() + b.len()) as int) == b,
        (a + b + c).skip((a.len() + b.len()) as int) == c,
{
    assert((a + b + c).take(a.len() as int) =~= a);
    assert((a + b + c).subrange(a.len() as int, (a.len() + b.len()) as int) =~= b);
    assert((a + b + c).skip((a.len() + b.len()) as int) =~= c);
}

/// The text of an event page, part by part: the head, the part for
/// administrators or the free seats, the participant list where shown, the
/// rest, and the postscript last.
pub open spec fn event_page_parts(
    s: EventStats,
    is_admin: bool,
    public_lists: bool,
    ps: Option<Seq<Participant>>,
    ms: Seq<GroupMessage>,
    audience: Option<u64>,
    attachment: Option<Seq<char>>,
) -> (Seq<char>, Seq<char>, Seq<char>) {
    let fa = free_seats(s.event.max_adults, s.adults.reserved);
    let fc = free_seats(s.event.max_children, s.children.reserved);
    let nad = no_age_distinction_spec(s);
    let listed = match ps {
        Some(p) => participants_spec(s, p, is_admin, nad),
        None => Seq::empty(),
    };
    let rest = or_empty(messages_spec(ms, audience))
        + (if is_admin || holds_any_seat(s) { note_section_spec(s, is_admin, public_lists, attachment) } else { Seq::empty() });
    (header_spec(s, fa as i64, fc as i64, is_admin, nad), listed, rest)
}

/// An event page lists the confirmed participants exactly where lists are
/// public or the user is an administrator; its head shows the event id and
/// seat limits, its participant lines the user ids, and its keyboard the switch
/// of the event's state, each exactly for administrators; a postscript, where
/// there is one, ends the text.
pub proof fn lemma_event_page(
    s: EventStats,
    event_id: u64,
    is_admin: bool,
    public_lists: bool,
    ps: Option<Seq<Participant>>,
    ms: Seq<GroupMessage>,
    audience: Option<u64>,
    attachment: Option<Seq<char>>,
    is_group_leader: Option<bool>,
    postscript: Option<Seq<char>>,
    offset: u64,
    page_size: u64,
)
    requires
        (ps is Some) == lists_participants(is_admin, public_lists),
    ensures
        ({
            let page = event_page_spec(s, event_id, is_admin, public_lists, ps, ms, audience, attachment,
                is_group_leader, postscript, offset, page_size);
            let parts = event_page_parts(s, is_admin, public_lists, ps, ms, audience, attachment);
            let fa = free_seats(s.event.max_adults, s.adults.reserved);
            let fc = free_seats(s.event.max_children, s.children.reserved);
            let nad = no_age_distinction_spec(s);
            let head = header_head_spec(s);
            &&& page.text == parts.0 + parts.1 + parts.2 + or_empty(postscript)
            &&& parts.0 == head + (if is_admin { header_admin_spec(s) } else { Seq::empty() })
                + header_seats_spec(s, fa as i64, fc as i64, nad)
            &&& lists_participants(is_admin, public_lists) ==> parts.1 == participants_spec(s, ps->0, is_admin, nad)
            &&& !lists_participants(is_admin, public_lists) ==> parts.1.len() == 0 && page.paging->0.len == 0
            &&& page.text.take(head.len() as int) == head
            &&& postscript matches Some(t) ==> page.text.len() >= t.len()
                && page.text.skip(page.text.len() - t.len()) == t
            &&& forall|p: Participant| participant_id_spec(p, is_admin, false)
                == if is_admin { decimal(p.user_id as nat) + " "@ } else { Seq::<char>::empty() }
            &&& offers_state_switch(page.keyboard) <==> is_admin
        }),
{
    lemma_event_page_text(s, event_id, is_admin, public_lists, ps, ms, audience, attachment, is_group_leader,
        postscript, offset, page_size);
    lemma_event_page_switch(s, event_id, is_admin, public_lists, ps, ms, audience, attachment,
        is_group_leader, postscript, offset, page_size);
}

proof fn lemma_event_page_switch(
    s: EventStats,
    event_id: u64,
    is_admin: bool,
    public_lists: bool,
    ps: Option<Seq<Participant>>,
    ms: Seq<GroupMessage>,
    audience: Option<u64>,
    attachment: Option<Seq<char>>,
    is_group_leader: Option<bool>,
    postscript: Option<Seq<char>>,
    offset: u64,
    page_size: u64,
)
    ensures
        offers_state_switch(event_page_spec(s, event_id, is_admin, public_lists, ps, ms, audience, attachment,
            is_group_leader, postscript, offset, page_size).keyboard) <==> is_admin,
{
    let fa = free_seats(s.event.max_adults, s.adults.reserved);
    let fc = free_seats(s.event.max_children, s.children.reserved);
    let nad = no_age_distinction_spec(s);
    lemma_navigation_row(s, fa as i64, fc as i64, nad, is_admin, is_group_leader);
    let k = signup_controls_spec(s, fa as i64, fc as i64, nad, is_admin, is_group_leader);
    assert(event_page_spec(s, event_id, is_admin, public_lists, ps, ms, audience, attachment,
        is_group_leader, postscript, offset, page_size).keyboard == k);
    if is_admin {
        assert(is_state_switch(k[2][k[2].len() - 1]));
    }
}

#[verifier::rlimit(40)]
proof fn lemma_event_page_text(
    s: EventStats,
    event_id: u64,
    is_admin: bool,
    public_lists: bool,
    ps: Option<Seq<Participant>>,
    ms: Seq<GroupMessage>,
    audience: Option<u64>,
    attachment: Option<Seq<char>>,
    is_group_leader: Option<bool>,
    postscript: Option<Seq<char>>,
    offset: u64,
    page_size: u64,
)
    requires
        (ps is Some) == lists_participants(is_admin, public_lists),
    ensures
        ({
            let page = event_page_spec(s, event_id, is_admin, public_lists, ps, ms, audience, attachment,
                is_group_leader, postscript, offset, page_size);
            let parts = event_page_parts(s, is_admin, public_lists, ps, ms, audience, attachment);
            let fa = free_seats(s.event.max_adults, s.adults.reserved);
            let fc = free_seats(s.event.max_children, s.children.reserved);
            let nad = no_age_distinction_spec(s);
            let head = header_head_spec(s);
            &&& page.text == parts.0 + parts.1 + parts.2 + or_empty(postscript)
            &&& parts.0 == head + (if is_admin { header_admin_spec(s) } else { Seq::empty() })
                + header_seats_spec(s, fa as i64, fc as i64, nad)
            &&& lists_participants(is_admin, public_lists) ==> parts.1 == participants_spec(s, ps->0, is_admin, nad)
            &&& !lists_participants(is_admin, public_lists) ==> parts.1.len() == 0 && page.paging->0.len == 0
            &&& page.text.take(head.len() as int) == head
            &&& postscript matches Some(t) ==> page.text.len() >= t.len()
                && page.text.skip(page.text.len() - t.len()) == t
        }),
{
    let page = event_page_spec(s, event_id, is_admin, public_lists, ps, ms, audience, attachment,
        is_group_leader, postscript, offset, page_size);
    let parts = event_page_parts(s, is_admin, public_lists, ps, ms, audience, attachment);
    let fa = free_seats(s.event.max_adults, s.adults.reserved);
    let fc = free_seats(s.event.max_children, s.children.reserved);
    let nad = no_age_distinction_spec(s);
    let head = header_head_spec(s);
    let x: Seq<char> = if is_admin { header_admin_spec(s) } else { Seq::empty() };
    let seats = header_seats_spec(s, fa as i64, fc as i64, nad);
    let post = or_empty(postscript);
    assert(page.text =~= parts.0 + parts.1 + parts.2 + post);
    assert(parts.0 == head + x + seats);
    let middle = x + seats + parts.1 + parts.2;
    assert(page.text =~= head + middle + post);
    lemma_parts(head, middle, post);
    lemma_parts(parts.0 + parts.1, parts.2, post);
}

/// Regrouping the parts of a text.
proof fn lemma_regroup(a: Seq<char>, b: Seq<char>, c: Seq<char>, d: Seq<char>, e: Seq<char>, f: Seq<char>)
    ensures
        (a + b + c) + d + e + f == (a + b) + c + (d + e + f),
{
    assert((a + b + c) + d + e + f =~= (a + b) + c + (d + e + f));
}

/// The free seats as the page shows them, from the event's own numbers.
proof fn lemma_free_seats_text(s: EventStats, is_admin: bool)
    requires
        event_page_computable(s, is_admin),
    ensures
        ({
            let adults_free = as_signed(s.event.max_adults) - as_signed(s.adults.reserved);
            let children_free = as_signed(s.event.max_children) - as_signed(s.children.reserved);
            header_seats_spec(s, free_seats(s.event.max_adults, s.adults.reserved) as i64,
                free_seats(s.event.max_children, s.children.reserved) as i64, no_age_distinction_spec(s))
                == if s.state != EventState::Open {
                " Запись остановлена."@
            } else if s.event.max_adults != 0 && s.event.max_children != 0 {
                "\nВзрослые свободные места: "@ + signed_decimal(adults_free)
                    + "\nДетские свободные места: "@ + signed_decimal(children_free)
            } else {
                " Свободные места: "@ + signed_decimal(adults_free + children_free)
            }
        }),
{
}

/// The free seats on an event page, right after its head (and the event id and
/// limits for administrators): while reservations are open, for an event with
/// adult and child seats the adults' limit less their confirmed seats, then the
/// children's; for an event with one kind of seat the two together; while they
/// are stopped, that they are stopped.
pub proof fn lemma_event_page_free_seats(
    s: EventStats,
    event_id: u64,
    is_admin: bool,
    public_lists: bool,
    ps: Option<Seq<Participant>>,
    ms: Seq<GroupMessage>,
    audience: Option<u64>,
    attachment: Option<Seq<char>>,
    is_group_leader: Option<bool>,
    postscript: Option<Seq<char>>,
    offset: u64,
    page_size: u64,
)
    requires
        event_page_computable(s, is_admin),
        (ps is Some) == lists_participants(is_admin, public_lists),
    ensures
        ({
            let text = event_page_spec(s, event_id, is_admin, public_lists, ps, ms, audience, attachment,
                is_group_leader, postscript, offset, page_size).text;
            let before = header_head_spec(s) + (if is_admin { header_admin_spec(s) } else { Seq::empty() });
            let adults_free = as_signed(s.event.max_adults) - as_signed(s.adults.reserved);
            let children_free = as_signed(s.event.max_children) - as_signed(s.children.reserved);
            let shown = if s.state != EventState::Open {
                " Запись остановлена."@
            } else if s.event.max_adults != 0 && s.event.max_children != 0 {
                "\nВзрослые свободные места: "@ + signed_decimal(adults_free)
                    + "\nДетские свободные места: "@ + signed_decimal(children_free)
            } else {
                " Свободные места: "@ + signed_decimal(adults_free + children_free)
            };
            text.subrange(before.len() as int, (before.len() + shown.len()) as int) == shown
        }),
{
    lemma_event_page_text(s, event_id, is_admin, public_lists, ps, ms, audience, attachment, is_group_leader,
        postscript, offset, page_size);
    lemma_free_seats_text(s, is_admin);
    let parts = event_page_parts(s, is_admin, public_lists, ps, ms, audience, attachment);
    let fa = free_seats(s.event.max_adults, s.adults.reserved);
    let fc = free_seats(s.event.max_children, s.children.reserved);
    let nad = no_age_distinction_spec(s);
    let head = header_head_spec(s);
    let x: Seq<char> = if is_admin { header_admin_spec(s) } else { Seq::empty() };
    let seats = header_seats_spec(s, fa as i64, fc as i64, nad);
    lemma_regroup(head, x, seats, parts.1, parts.2, or_empty(postscript));
    lemma_parts(head + x, seats, parts.1 + parts.2 + or_empty(postscript));
}

/// The page links of an event page: back one page (not below the first) and
/// forward one, with as many items as participants are listed.
pub proof fn lemma_event_page_links(
    s: EventStats,
    event_id: u64,
    is_admin: bool,
    public_lists: bool,
    ps: Option<Seq<Participant>>,
    ms: Seq<GroupMessage>,
    audience: Option<u64>,
    attachment: Option<Seq<char>>,
    is_group_leader: Option<bool>,
    postscript: Option<Seq<char>>,
    offset: u64,
    page_size: u64,
)
    requires
        offset < u64::MAX,
    ensures
        ({
            let p = event_page_spec(s, event_id, is_admin, public_lists, ps, ms, audience, attachment,
                is_group_leader, postscript, offset, page_size).paging;
            &&& p is Some
            &&& p->0.prev == CallbackQuery::Event { event_id, offset: if offset == 0 { 0 } else { (offset - 1) as u64 } }
            &&& p->0.next == CallbackQuery::Event { event_id, offset: (offset + 1) as u64 }
            &&& p->0.len == (match ps { Some(l) => l.len() as u64, None => 0 })
            &&& p->0.page_size == page_size && p->0.offset == offset
        }),
{
}

/// Regrouping the parts of a text, the first two kept apart.
proof fn lemma_regroup_front(a: Seq<char>, b: Seq<char>, c: Seq<char>, d: Seq<char>)
    ensures
        (a + b) + c + d == a + b + (c + d),
{
    assert((a + b) + c + d =~= a + b + (c + d));
}

/// An event page starts with the event's title (linked to its page where it has
/// one) and its start; for an administrator the event id and the adults' and
/// children's limits follow right after.
pub proof fn lemma_event_page_head(
    s: EventStats,
    event_id: u64,
    is_admin: bool,
    public_lists: bool,
    ps: Option<Seq<Participant>>,
    ms: Seq<GroupMessage>,
    audience: Option<u64>,
    attachment: Option<Seq<char>>,
    is_group_leader: Option<bool>,
    postscript: Option<Seq<char>>,
    offset: u64,
    page_size: u64,
)
    requires
        (ps is Some) == lists_participants(is_admin, public_lists),
    ensures
        ({
            let text = event_page_spec(s, event_id, is_admin, public_lists, ps, ms, audience, attachment,
                is_group_leader, postscript, offset, page_size).text;
            let head = "\n \n"@ + event_title_spec(s.event) + "\nНачало: "@ + ts_spec(s.event.ts) + "."@;
            let ids = " Мероприятие "@ + decimal(s.event.id as nat) + " / "@ + decimal(s.event.max_adults as nat)
                + "("@ + decimal(s.event.max_children as nat) + ")"@;
            &&& text.take(head.len() as int) == head
            &&& is_admin ==> text.subrange(head.len() as int, (head.len() + ids.len()) as int) == ids
        }),
{
    lemma_event_page_text(s, event_id, is_admin, public_lists, ps, ms, audience, attachment, is_group_leader,
        postscript, offset, page_size);
    let parts = event_page_parts(s, is_admin, public_lists, ps, ms, audience, attachment);
    let fa = free_seats(s.event.max_adults, s.adults.reserved);
    let fc = free_seats(s.event.max_children, s.children.reserved);
    let nad = no_age_distinction_spec(s);
    let head = header_head_spec(s);
    let x: Seq<char> = if is_admin { header_admin_spec(s) } else { Seq::empty() };
    let seats = header_seats_spec(s, fa as i64, fc as i64, nad);
    let rest = parts.1 + parts.2 + or_empty(postscript);
    lemma_regroup(head, x, seats, parts.1, parts.2, or_empty(postscript));
    lemma_regroup_front(head, x, seats, rest);
    lemma_parts(head, x, seats + rest);
}

/// The user's own part of an event page counts the confirmed seats, adult and
/// child together, and the waiting seats together, each shown only where there
/// are any.
pub proof fn lemma_note_section_counts(s: EventStats, is_admin: bool, public_lists: bool, attachment: Option<Seq<char>>)
    ensures
        ({
            let t = note_section_spec(s, is_admin, public_lists, attachment);
            let reserved = s.adults.my_reservation + s.children.my_reservation;
            let waiting = s.adults.my_waiting + s.children.my_waiting;
            let mine = if reserved > 0 {
                "\n<b>У вас забронировано: "@ + decimal(reserved as nat) + "</b>"@
            } else {
                Seq::empty()
            };
            let waits = if waiting > 0 {
                "\n<b>У вас в списке ожидания: "@ + decimal(waiting as nat) + "</b>"@
            } else {
                Seq::empty()
            };
            t.skip(t.len() - mine.len() - waits.len()) == mine + waits
        }),
{
    let t = note_section_spec(s, is_admin, public_lists, attachment);
    let reserved = s.adults.my_reservation + s.children.my_reservation;
    let waiting = s.adults.my_waiting + s.children.my_waiting;
    let mine = if reserved > 0 {
        "\n<b>У вас забронировано: "@ + decimal(reserved as nat) + "</b>"@
    } else {
        Seq::empty()
    };
    let waits = if waiting > 0 {
        "\n<b>У вас в списке ожидания: "@ + decimal(waiting as nat) + "</b>"@
    } else {
        Seq::empty()
    };
    assert(t.skip(t.len() - mine.len() - waits.len()) =~= mine + waits);
}

/// Shows an event. `ps` are the participants where `shows_participants` says
/// they are listed; `ms` the group messages of the audience `message_audience`
/// chose; `attachment` the user's note where `shows_note` says it is shown;
/// `is_group_leader` where `needs_group_leader_check` asks for it.
pub fn show_event(
    s: &EventStats,
    event_id: u64,
    is_admin: bool,
    public_lists: bool,
    ps: &Option<Vec<Participant>>,
    ms: &Vec<GroupMessage>,
    audience: Option<u64>,
    attachment: &Option<String>,
    is_group_leader: Option<bool>,
    postscript: &Option<String>,
    offset: u64,
    page_size: u64,
) -> (r: ReplyMessage)
    requires
        event_page_computable(*s, is_admin),
        (ps is Some) == lists_participants(is_admin, public_lists),
        no_age_distinction_spec(*s) ==> (ps matches Some(p) ==> seat_sums_fit(p@)),
        message_times_showable(ms@),
        offset < u64::MAX,
    ensures
        reply_view(r) == event_page_spec(*s, event_id, is_admin, public_lists, participants_view(*ps),
            ms@, audience, opt_view(*attachment), is_group_leader, opt_view(*postscript), offset, page_size),
{
    let free_adults = to_signed(s.event.max_adults) - to_signed(s.adults.reserved);
    let free_children = to_signed(s.event.max_children) - to_signed(s.children.reserved);
    let no_age_distinction = s.event.max_adults == 0 || s.event.max_children == 0;
    let mut text = header(s, free_adults, free_children, is_admin, no_age_distinction);
    let mut len: u64 = 0;
    match ps {
        Some(p) => {
            let list = participants(s, p, is_admin, no_age_distinction);
            text.append(list.as_str());
            len = p.len() as u64;
        },
        None => {},
    }
    match messages(ms, audience) {
        Some(m) => text.append(m.as_str()),
        None => {},
    }
    if is_admin || has_any_seat(s) {
        let note = note_section(s, is_admin, public_lists, attachment);
        text.append(note.as_str());
    }
    match postscript {
        Some(p) => text.append(p.as_str()),
        None => {},
    }
    let keyboard = get_signup_controls(s, free_adults, free_children, no_age_distinction, is_admin,
        is_group_leader);
    let paging = Paging {
        prev: CallbackQuery::Event { event_id, offset: prev_page(offset) },
        next: CallbackQuery::Event { event_id, offset: offset + 1 },
        len,
        page_size,
        offset,
    };
    let r = ReplyMessage { text, keyboard, paging: Some(paging) };
    assert(reply_view(r).text =~= event_page_text_spec(*s, is_admin, public_lists, participants_view(*ps),
        ms@, audience, opt_view(*attachment), opt_view(*postscript)));
    r
}

} // verus!
