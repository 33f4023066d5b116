//! What the bot does with a pressed button or a message: the decisions of the
//! dialog, taken on plain values, and the texts it answers with.
use vstd::prelude::*;
use crate::callback::{CallbackQuery, is_admin_callback};
use crate::markup::{html_escape, html_escaped};
use crate::text::{decimal, u64_to_string};
use crate::booking::{late_cancel_bans, late_cancel_bans_spec};
use crate::format::showable;
use crate::messages::{late_cancel_reason, late_cancel_reason_spec};
use crate::types::EventStats;

verus! {

/// What a user's button asks the bot to do.
#[derive(Clone, Copy, Debug, PartialEq, Eq, Structural)]
pub enum UserAction {
    ShowEventList { offset: u64 },
    ShowEvent { event_id: u64, offset: u64 },
    /// Reserve one seat (`adults` or `children` is 1), on the waiting list
    /// when `wait` is 1.
    SignUp { event_id: u64, adults: u64, children: u64, wait: u64 },
    /// Give back one seat, an adult's when `adults` is 1.
    Cancel { event_id: u64, adults: u64 },
    WontGo { event_id: u64 },
    ShowWaitingList { event_id: u64, offset: u64 },
    ShowPresenceList { event_id: u64, offset: u64 },
    /// Mark a participant present, where the user may.
    ConfirmPresence { event_id: u64, user_id: u64, offset: u64 },
    ShowPaidEvent { event_id: u64, adults: u64, children: u64, offset: u64 },
    SendInvoice { event_id: u64, adults: u64, children: u64 },
    /// The waiting list is not public and the user is no administrator.
    ListNotAllowed,
    /// A request reserved for administrators.
    NotAllowed,
}

/// The action for a user's button: lists of waiting users only where lists are
/// public or for administrators, requests of administrators refused.
pub open spec fn user_action_spec(q: CallbackQuery, public_lists: bool, is_admin: bool) -> UserAction {
    match q {
        CallbackQuery::EventList { offset } => UserAction::ShowEventList { offset },
        CallbackQuery::Event { event_id, offset } => UserAction::ShowEvent { event_id, offset },
        CallbackQuery::SignUp { event_id, is_adult, wait } => UserAction::SignUp {
            event_id,
            adults: if is_adult { 1 } else { 0 },
            children: if is_adult { 0 } else { 1 },
            wait: if wait { 1 } else { 0 },
        },
        CallbackQuery::Cancel { event_id, is_adult } => UserAction::Cancel {
            event_id,
            adults: if is_adult { 1 } else { 0 },
        },
        CallbackQuery::WontGo { event_id } => UserAction::WontGo { event_id },
        CallbackQuery::ShowWaitingList { event_id, offset } => if public_lists || is_admin {
            UserAction::ShowWaitingList { event_id, offset }
        } else {
            UserAction::ListNotAllowed
        },
        CallbackQuery::ShowPresenceList { event_id, offset } => UserAction::ShowPresenceList { event_id, offset },
        CallbackQuery::ConfirmPresence { event_id, user_id, offset } => UserAction::ConfirmPresence { event_id, user_id, offset },
        CallbackQuery::PaidEvent { event_id, adults, children, offset } => UserAction::ShowPaidEvent { event_id, adults, children, offset },
        CallbackQuery::SendInvoice { event_id, adults, children } => UserAction::SendInvoice { event_id, adults, children },
        _ => UserAction::NotAllowed,
    }
}

/// A sign-up button reserves exactly one seat of its age group at its event,
/// on the waiting list exactly when the button says so; the matching cancel
/// button gives back one seat of that same age group at that event; and the
/// requests reserved for administrators are refused to a user.
pub proof fn lemma_user_buttons(event_id: u64, is_adult: bool, wait: bool, public_lists: bool, is_admin: bool)
    ensures
        ({
            let q = CallbackQuery::SignUp { event_id, is_adult, wait };
            user_action_spec(q, public_lists, is_admin) matches UserAction::SignUp { event_id: e, adults, children, wait: w }
                && e == event_id && adults + children == 1 && (adults == 1 <==> is_adult)
                && w <= 1 && (w == 1 <==> wait)
        }),
        ({
            let q = CallbackQuery::Cancel { event_id, is_adult };
            user_action_spec(q, public_lists, is_admin) matches UserAction::Cancel { event_id: e, adults }
                && e == event_id && adults <= 1 && (adults == 1 <==> is_adult)
        }),
        ({
            let up = user_action_spec(CallbackQuery::SignUp { event_id, is_adult, wait }, public_lists, is_admin);
            let down = user_action_spec(CallbackQuery::Cancel { event_id, is_adult }, public_lists, is_admin);
            up->SignUp_adults == down->Cancel_adults
        }),
        ({
            user_action_spec(CallbackQuery::WontGo { event_id }, public_lists, is_admin)
                == UserAction::WontGo { event_id }
        }),
        ({
            user_action_spec(CallbackQuery::ChangeEventState { event_id, state: 0 }, public_lists, is_admin)
                == UserAction::NotAllowed
        }),
        ({
            user_action_spec(CallbackQuery::ShowWaitingList { event_id, offset: 0 }, public_lists, is_admin)
                == (if public_lists || is_admin { UserAction::ShowWaitingList { event_id, offset: 0 } } else {
                    UserAction::ListNotAllowed })
        }),
{
}

/// The buttons that only move between pages, or carry their numbers on, lead to
/// the action with the same event, user, numbers and page; the requests of
/// administrators are refused to a user's dialog.
pub proof fn lemma_user_buttons_carry_numbers(
    event_id: u64,
    user_id: u64,
    adults: u64,
    children: u64,
    offset: u64,
    state: u64,
    public_lists: bool,
    is_admin: bool,
)
    ensures
        ({
            user_action_spec(CallbackQuery::EventList { offset }, public_lists, is_admin)
                == UserAction::ShowEventList { offset }
        }),
        ({
            user_action_spec(CallbackQuery::Event { event_id, offset }, public_lists, is_admin)
                == UserAction::ShowEvent { event_id, offset }
        }),
        ({
            user_action_spec(CallbackQuery::ShowPresenceList { event_id, offset }, public_lists, is_admin)
                == UserAction::ShowPresenceList { event_id, offset }
        }),
        ({
            user_action_spec(CallbackQuery::ConfirmPresence { event_id, user_id, offset }, public_lists, is_admin)
                == UserAction::ConfirmPresence { event_id, user_id, offset }
        }),
        ({
            user_action_spec(CallbackQuery::PaidEvent { event_id, adults, children, offset }, public_lists, is_admin)
                == UserAction::ShowPaidEvent { event_id, adults, children, offset }
        }),
        ({
            user_action_spec(CallbackQuery::SendInvoice { event_id, adults, children }, public_lists, is_admin)
                == UserAction::SendInvoice { event_id, adults, children }
        }),
        ({
            user_action_spec(CallbackQuery::ShowWaitingList { event_id, offset }, public_lists, is_admin)
                == (if public_lists || is_admin { UserAction::ShowWaitingList { event_id, offset } } else {
                    UserAction::ListNotAllowed })
        }),
        ({
            &&& user_action_spec(CallbackQuery::ChangeEventState { event_id, state }, public_lists, is_admin)
                == UserAction::NotAllowed
            &&& user_action_spec(CallbackQuery::ShowBlackList { offset }, public_lists, is_admin)
                == UserAction::NotAllowed
            &&& user_action_spec(CallbackQuery::RemoveFromBlackList { user_id }, public_lists, is_admin)
                == UserAction::NotAllowed
            &&& user_action_spec(CallbackQuery::ConfirmRemoveFromBlackList { user_id }, public_lists, is_admin)
                == UserAction::NotAllowed
        }),
{
}

pub fn user_action(q: CallbackQuery, public_lists: bool, is_admin: bool) -> (r: UserAction)
    ensures
        r == user_action_spec(q, public_lists, is_admin),
{
    match q {
        CallbackQuery::EventList { offset } => UserAction::ShowEventList { offset },
        CallbackQuery::Event { event_id, offset } => UserAction::ShowEvent { event_id, offset },
        CallbackQuery::SignUp { event_id, is_adult, wait } => UserAction::SignUp {
            event_id,
            adults: if is_adult { 1 } else { 0 },
            children: if is_adult { 0 } else { 1 },
            wait: if wait { 1 } else { 0 },
        },
        CallbackQuery::Cancel { event_id, is_adult } => UserAction::Cancel {
            event_id,
            adults: if is_adult { 1 } else { 0 },
        },
        CallbackQuery::WontGo { event_id } => UserAction::WontGo { event_id },
        CallbackQuery::ShowWaitingList { event_id, offset } => if public_lists || is_admin {
            UserAction::ShowWaitingList { event_id, offset }
        } else {
            UserAction::ListNotAllowed
        },
        CallbackQuery::ShowPresenceList { event_id, offset } => UserAction::ShowPresenceList { event_id, offset },
        CallbackQuery::ConfirmPresence { event_id, user_id, offset } => UserAction::ConfirmPresence { event_id, user_id, offset },
        CallbackQuery::PaidEvent { event_id, adults, children, offset } => UserAction::ShowPaidEvent { event_id, adults, children, offset },
        CallbackQuery::SendInvoice { event_id, adults, children } => UserAction::SendInvoice { event_id, adults, children },
        _ => UserAction::NotAllowed,
    }
}

/// Whether the user may mark participants present: administrators may, other
/// users where the look-up says they lead a group of the event (a failed
/// look-up, `None`, says no).
pub fn may_confirm_presence(is_admin: bool, group_leader: Option<bool>) -> (r: bool)
    ensures
        r == (is_admin || group_leader == Some(true)),
{
    if is_admin {
        true
    } else {
        match group_leader {
            Some(b) => b,
            None => false,
        }
    }
}

/// A request reserved for administrators is refused when it comes through a
/// user's handling, whoever sent it.
pub proof fn lemma_admin_requests_refused_to_users(q: CallbackQuery, public_lists: bool, is_admin: bool)
    requires
        is_admin_callback(q),
    ensures
        user_action_spec(q, public_lists, is_admin) == UserAction::NotAllowed,
{
}

/// The waiting list is shown exactly where lists are public or the user is an
/// administrator.
pub proof fn lemma_waiting_list_visibility(event_id: u64, offset: u64, public_lists: bool, is_admin: bool)
    ensures
        (user_action_spec(CallbackQuery::ShowWaitingList { event_id, offset }, public_lists, is_admin)
            == (UserAction::ShowWaitingList { event_id, offset })) <==> (public_lists || is_admin),
        !(public_lists || is_admin) ==> user_action_spec(CallbackQuery::ShowWaitingList { event_id, offset }, public_lists, is_admin)
            == UserAction::ListNotAllowed,
{
}

/// A button sends at most one seat's request: signing up reserves exactly one
/// seat, an adult's or a child's.
pub proof fn lemma_sign_up_button_one_seat(event_id: u64, is_adult: bool, wait: bool, public_lists: bool, is_admin: bool)
    ensures
        match user_action_spec(CallbackQuery::SignUp { event_id, is_adult, wait }, public_lists, is_admin) {
            UserAction::SignUp { event_id: e, adults, children, wait: w } =>
                e == event_id && adults + children == 1 && (adults == 1 <==> is_adult) && (w == 1 <==> wait) && w <= 1,
            _ => false,
        },
{
}

/// What an administrator's button asks the bot to do.
#[derive(Clone, Copy, Debug, PartialEq, Eq, Structural)]
pub enum AdminAction {
    ChangeEventState { event_id: u64, state: u64 },
    ShowBlackList { offset: u64 },
    RemoveFromBlackList { user_id: u64 },
    ConfirmRemoveFromBlackList { user_id: u64 },
    /// Anything else is handled as a user's button.
    AsUser,
}

pub open spec fn admin_action_spec(q: CallbackQuery) -> AdminAction {
    match q {
        CallbackQuery::ChangeEventState { event_id, state } => AdminAction::ChangeEventState { event_id, state },
        CallbackQuery::ShowBlackList { offset } => AdminAction::ShowBlackList { offset },
        CallbackQuery::RemoveFromBlackList { user_id } => AdminAction::RemoveFromBlackList { user_id },
        CallbackQuery::ConfirmRemoveFromBlackList { user_id } => AdminAction::ConfirmRemoveFromBlackList { user_id },
        _ => AdminAction::AsUser,
    }
}

pub fn admin_action(q: CallbackQuery) -> (r: AdminAction)
    ensures
        r == admin_action_spec(q),
{
    match q {
        CallbackQuery::ChangeEventState { event_id, state } => AdminAction::ChangeEventState { event_id, state },
        CallbackQuery::ShowBlackList { offset } => AdminAction::ShowBlackList { offset },
        CallbackQuery::RemoveFromBlackList { user_id } => AdminAction::RemoveFromBlackList { user_id },
        CallbackQuery::ConfirmRemoveFromBlackList { user_id } => AdminAction::ConfirmRemoveFromBlackList { user_id },
        _ => AdminAction::AsUser,
    }
}

/// The line added under an event page when a reservation was refused because
/// the user is on the black list.
pub open spec fn black_listed_postscript_spec(support: Seq<char>, user_id: u64, help: Seq<char>) -> Seq<char> {
    "\n\nИзвините, но бронирование невозможно, поскольку ранее Вы не использовали и не отменили бронь. Если это ошибка, пожалуйста, свяжитесь с <a href=\"tg://user?id="@
        + support + "\">поддержкой</a> и сообщите код "@ + decimal(user_id as nat)
        + ". <a href=\""@ + help + "\">Инструкция</a>."@
}

/// The postscript after a sign-up: the black-list notice where the user is on it.
pub fn sign_up_postscript(black_listed: bool, support: &str, user_id: u64, help: &str) -> (r: Option<String>)
    ensures
        black_listed ==> (r matches Some(t) && t@ == black_listed_postscript_spec(support@, user_id, help@)),
        !black_listed ==> r is None,
{
    if black_listed {
        let mut t = String::from_str(
            "\n\nИзвините, но бронирование невозможно, поскольку ранее Вы не использовали и не отменили бронь. Если это ошибка, пожалуйста, свяжитесь с <a href=\"tg://user?id=",
        );
        t.append(support);
        t.append("\">поддержкой</a> и сообщите код ");
        let id = u64_to_string(user_id);
        t.append(id.as_str());
        t.append(". <a href=\"");
        t.append(help);
        t.append("\">Инструкция</a>.");
        Some(t)
    } else {
        None
    }
}

/// The black-list entry a cancellation leads to: where it came too late and
/// the event, read again, is free and the user holds no confirmed seat any
/// more, the reason to record (the event's start and name); none otherwise,
/// and none where the event could not be read.
pub open spec fn cancel_ban_spec(too_late: bool, event: Option<EventStats>) -> Option<Seq<char>> {
    match event {
        Some(s) => if too_late && late_cancel_bans_spec(s) {
            Some(late_cancel_reason_spec(s))
        } else {
            None
        },
        None => None,
    }
}

/// Decides whether a cancellation puts the user on the black list, and why.
pub fn cancel_ban(too_late: bool, event: &Option<EventStats>) -> (r: Option<String>)
    requires
        too_late && event is Some && late_cancel_bans_spec(event.unwrap()) ==> showable(event.unwrap().event.ts),
    ensures
        match (r, cancel_ban_spec(too_late, *event)) {
            (Some(t), Some(u)) => t@ == u,
            (None, None) => true,
            _ => false,
        },
{
    if !too_late {
        return None;
    }
    match event {
        Some(s) => {
            if late_cancel_bans(s) {
                Some(late_cancel_reason(s))
            } else {
                None
            }
        },
        None => None,
    }
}

/// The postscript after a cancellation that came too late and put the user on
/// the black list.
pub fn late_cancel_postscript(banned: bool) -> (r: Option<String>)
    ensures
        banned ==> (r matches Some(t) && t@ == "\n\nВНИМАНИЕ!\nК сожалению, вы отказались от билетов слишком поздно и не сможете больше бронировать бесплатные билеты."@),
        !banned ==> r is None,
{
    if banned {
        Some(String::from_str("\n\nВНИМАНИЕ!\nК сожалению, вы отказались от билетов слишком поздно и не сможете больше бронировать бесплатные билеты."))
    } else {
        None
    }
}

/// The answer when a user gives up all seats of an event.
pub fn wont_go_reply(too_late: bool) -> (r: String)
    ensures
        too_late ==> r@ == "К сожалению, вы отказываетесь от билетов слишком поздно и не сможете больше бронировать бесплатные билеты."@,
        !too_late ==> r@ == "Мы сожалеем, что вы не сможете пойти. Увидимся в другой раз. Спасибо!"@,
{
    if too_late {
        String::from_str("К сожалению, вы отказываетесь от билетов слишком поздно и не сможете больше бронировать бесплатные билеты.")
    } else {
        String::from_str("Мы сожалеем, что вы не сможете пойти. Увидимся в другой раз. Спасибо!")
    }
}

/// The help shown to users, with the link to the detailed instructions.
pub open spec fn user_help_spec(help: Seq<char>) -> Seq<char> {
    "Здесь вы можете бронировать места на мероприятия.\n \n /start - показать список мероприятий \n /help - эта подсказка \n <a href=\""@
        + help + "\">Подробная инструкция</a> \n /donate - поддержать канал. \n /crt - TON Testnet Transaction Test"@
}

pub fn user_help(help: &str) -> (r: String)
    ensures
        r@ == user_help_spec(help@),
{
    let mut t = String::from_str(
        "Здесь вы можете бронировать места на мероприятия.\n \n /start - показать список мероприятий \n /help - эта подсказка \n <a href=\"",
    );
    t.append(help);
    t.append("\">Подробная инструкция</a> \n /donate - поддержать канал. \n /crt - TON Testnet Transaction Test");
    t
}

/// Whether a character counts as numeric for `char::is_numeric` (the Unicode
/// general categories of numbers).
pub uninterp spec fn numeric_char(c: char) -> bool;

/// Calls `char::is_numeric`. Claimed: the result depends on the character
/// alone, and the ASCII digits are numeric, as the documentation shows.
#[verifier::external_body]
fn char_is_numeric(c: char) -> (r: bool)
    ensures
        r == numeric_char(c),
        '0' <= c <= '9' ==> r,
{
    c.is_numeric()
}

/// Whether a text holds a numeric character.
pub open spec fn has_numeric(s: Seq<char>) -> bool {
    exists|i: int| 0 <= i < s.len() && numeric_char(#[trigger] s[i])
}

pub fn contains_numeric(s: &str) -> (r: bool)
    ensures
        r == has_numeric(s@),
{
    let n = s.unicode_len();
    let mut i: usize = 0;
    while i < n
        invariant
            n == s@.len(),
            i <= n,
            forall|j: int| 0 <= j < i ==> !numeric_char(#[trigger] s@[j]),
        decreases n - i,
    {
        if char_is_numeric(s.get_char(i)) {
            return true;
        }
        i = i + 1;
    }
    false
}

/// The warning added under an event page when a note holds digits: the
/// digits do not change the number of seats.
pub fn digits_postscript(note: &str) -> (r: Option<String>)
    ensures
        has_numeric(note@) ==> (r matches Some(t) && t@ == "\n\nВНИМАНИЕ!\nВаше примечание содержит цифры. Они никак не влияют на количество забронированных мест. Количество мест можно менять только кнопками \"Записать/Отписать\"."@),
        !has_numeric(note@) ==> r is None,
{
    if contains_numeric(note) {
        Some(String::from_str("\n\nВНИМАНИЕ!\nВаше примечание содержит цифры. Они никак не влияют на количество забронированных мест. Количество мест можно менять только кнопками \"Записать/Отписать\"."))
    } else {
        None
    }
}

/// The number of bytes a character takes in UTF-8.
pub open spec fn utf8_width(c: char) -> nat {
    if (c as u32) < 0x80 {
        1
    } else if (c as u32) < 0x800 {
        2
    } else if (c as u32) < 0x10000 {
        3
    } else {
        4
    }
}

/// The number of bytes a text takes in UTF-8, as `str::len` counts them.
pub open spec fn utf8_len(s: Seq<char>) -> nat
    decreases s.len(),
{
    if s.len() == 0 {
        0
    } else {
        utf8_len(s.drop_last()) + utf8_width(s.last())
    }
}

fn char_width(c: char) -> (r: u64)
    ensures
        r == utf8_width(c),
{
    let v = c as u32;
    if v < 0x80 {
        1
    } else if v < 0x800 {
        2
    } else if v < 0x10000 {
        3
    } else {
        4
    }
}

/// Whether a text takes fewer than `limit` bytes in UTF-8.
pub fn utf8_len_below(s: &str, limit: u64) -> (r: bool)
    ensures
        r == (utf8_len(s@) < limit),
{
    if limit == 0 {
        return false;
    }
    let n = s.unicode_len();
    let mut total: u64 = 0;
    let mut i: usize = 0;
    assert(s@.take(0) =~= Seq::<char>::empty());
    while i < n
        invariant
            n == s@.len(),
            i <= n,
            total == utf8_len(s@.take(i as int)),
            total < limit,
        decreases n - i,
    {
        proof {
            assert(s@.take(i + 1).drop_last() =~= s@.take(i as int));
        }
        let w = char_width(s.get_char(i));
        if w >= limit - total {
            proof { lemma_utf8_len_prefix(s@, i + 1); }
            return false;
        }
        total = total + w;
        i = i + 1;
    }
    assert(s@.take(n as int) =~= s@);
    true
}

/// A prefix never takes more bytes than the whole text.
proof fn lemma_utf8_len_prefix(s: Seq<char>, k: int)
    requires
        0 <= k <= s.len(),
    ensures
        utf8_len(s.take(k)) <= utf8_len(s),
    decreases s.len() - k,
{
    if k < s.len() {
        lemma_utf8_len_prefix(s, k + 1);
        assert(s.take(k + 1).drop_last() =~= s.take(k));
    } else {
        assert(s.take(k) =~= s);
    }
}

/// The note stored with a reservation: a note shorter than 256 bytes gets
/// "..." appended (its first 256 characters are all of it), a longer one is
/// kept as it is.
pub open spec fn stored_note_spec(note: Seq<char>) -> Seq<char> {
    if utf8_len(note) < 256 {
        note.take(if note.len() < 256 { note.len() as int } else { 256 }) + "..."@
    } else {
        note
    }
}

pub fn stored_note(note: &str) -> (r: String)
    ensures
        r@ == stored_note_spec(note@),
{
    if utf8_len_below(note, 256) {
        let n = note.unicode_len();
        let k: usize = if n < 256 { n } else { 256 };
        let mut t = String::from_str(note.substring_char(0, k));
        t.append("...");
        proof { reveal_strlit("..."); }
        assert(note@.subrange(0, k as int) =~= note@.take(k as int));
        t
    } else {
        String::from_str(note)
    }
}

/// The note as a user's message gives it: escaped for HTML, then stored.
pub fn note_of_message(data: &str) -> (r: String)
    ensures
        r@ == stored_note_spec(html_escaped(data@)),
{
    let escaped = html_escape(data);
    stored_note(escaped.as_str())
}

} // verus!
