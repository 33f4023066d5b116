//! The administrators' side: adding events, the black list, and the answers
//! to their commands.
use vstd::prelude::*;
use std::collections::HashSet;
use crate::config::{parse_offset_timestamp, parsed_offset_timestamp};
use crate::links::{url_is_valid, url_parses};
use crate::markup::{markdown_escape, markdown_escaped};
use crate::text::{as_unsigned, to_unsigned, decimal, u64_to_string};
use crate::types::{Event, EventType, event_type_spec};
use crate::commands::{UserCommand, user_command_spec, lemma_direct_link_opens_event};

verus! {

broadcast use vstd::std_specs::hash::group_hash_axioms;

/// An event as an administrator describes it; prices are in cents.
#[derive(Debug)]
pub struct NewEvent {
    pub id: Option<u64>,
    pub name: String,
    pub link: String,
    /// Start, "YYYY-MM-DD HH:MM  +ZZ:ZZ".
    pub start: String,
    /// When to remind, in the same form.
    pub remind: String,
    pub max_adults: u64,
    pub max_children: u64,
    pub max_adults_per_reservation: u64,
    pub max_children_per_reservation: u64,
    pub adult_ticket_price: u64,
    pub child_ticket_price: u64,
    pub currency: String,
}

/// Why an event description was refused.
#[derive(Clone, Copy, Debug, PartialEq, Eq, Structural)]
pub enum AddEventError {
    /// The start or the reminder could not be read.
    DateNotParsed,
    /// A price is set for seats the event does not have.
    WrongFormat,
}

/// The answer to a refused event description.
pub open spec fn add_event_error_message_spec(e: AddEventError) -> Seq<char> {
    match e {
        AddEventError::DateNotParsed => "Failed to parse date"@,
        AddEventError::WrongFormat => "Wrong event format"@,
    }
}

impl AddEventError {
    pub fn message(&self) -> (r: &'static str)
        ensures
            r@ == add_event_error_message_spec(*self),
    {
        match self {
            AddEventError::DateNotParsed => "Failed to parse date",
            AddEventError::WrongFormat => "Wrong event format",
        }
    }
}

/// The format of the start and reminder times of a new event.
pub open spec fn event_time_format() -> Seq<char> {
    "%Y-%m-%d %H:%M  %z"@
}

/// Whether prices and seats fit together: no price for seats that do not exist.
pub open spec fn prices_fit_seats(v: NewEvent) -> bool {
    !((v.adult_ticket_price != 0 && v.max_adults == 0) || (v.child_ticket_price != 0 && v.max_children == 0))
}

/// Whether an event carries the description's fields, with the two times as
/// given (their bits read as unsigned) and id 0 where none was given.
pub open spec fn event_of_description(e: Event, v: NewEvent, start: i64, remind: i64) -> bool {
    &&& e.id == (match v.id { Some(i) => i, None => 0 })
    &&& e.name@ == v.name@
    &&& e.link@ == v.link@
    &&& e.max_adults == v.max_adults
    &&& e.max_children == v.max_children
    &&& e.max_adults_per_reservation == v.max_adults_per_reservation
    &&& e.max_children_per_reservation == v.max_children_per_reservation
    &&& e.ts == as_unsigned(start)
    &&& e.remind == as_unsigned(remind)
    &&& e.adult_ticket_price == v.adult_ticket_price
    &&& e.child_ticket_price == v.child_ticket_price
    &&& e.currency@ == v.currency@
}

/// Whether `r` is what a description gives with the two times read as
/// `start` and `remind`.
pub open spec fn event_from_times_spec(r: Result<Event, AddEventError>, v: NewEvent, start: Option<i64>, remind: Option<i64>) -> bool {
    match (start, remind) {
        (Some(s), Some(m)) => if prices_fit_seats(v) {
            r matches Ok(e) && event_of_description(e, v, s, m)
        } else {
            r == Err::<Event, AddEventError>(AddEventError::WrongFormat)
        },
        _ => r == Err::<Event, AddEventError>(AddEventError::DateNotParsed),
    }
}

/// Builds the event of a description once its two times have been read.
pub fn event_from_times(v: NewEvent, start: Option<i64>, remind: Option<i64>) -> (r: Result<Event, AddEventError>)
    ensures
        event_from_times_spec(r, v, start, remind),
{
    match (start, remind) {
        (Some(s), Some(m)) => {
            if (v.adult_ticket_price != 0 && v.max_adults == 0) || (v.child_ticket_price != 0 && v.max_children == 0) {
                return Err(AddEventError::WrongFormat);
            }
            let id = match v.id {
                Some(i) => i,
                None => 0,
            };
            Ok(Event {
                id,
                name: v.name,
                link: v.link,
                max_adults: v.max_adults,
                max_children: v.max_children,
                max_adults_per_reservation: v.max_adults_per_reservation,
                max_children_per_reservation: v.max_children_per_reservation,
                ts: to_unsigned(s),
                remind: to_unsigned(m),
                adult_ticket_price: v.adult_ticket_price,
                child_ticket_price: v.child_ticket_price,
                currency: v.currency,
            })
        },
        _ => Err(AddEventError::DateNotParsed),
    }
}

/// Reads an administrator's event description: both times, then the event.
pub fn new_event(v: NewEvent) -> (r: Result<Event, AddEventError>)
    ensures
        event_from_times_spec(
            r,
            v,
            parsed_offset_timestamp(v.start@, event_time_format()),
            parsed_offset_timestamp(v.remind@, event_time_format()),
        ),
{
    proof { reveal_strlit("%Y-%m-%d %H:%M  %z"); }
    let start = parse_offset_timestamp(v.start.as_str(), "%Y-%m-%d %H:%M  %z");
    let remind = parse_offset_timestamp(v.remind.as_str(), "%Y-%m-%d %H:%M  %z");
    event_from_times(v, start, remind)
}

/// Whether an event may be stored: an announcement needs a link that parses
/// as an address.
pub open spec fn event_link_ok(e: Event) -> bool {
    event_type_spec(e) != EventType::Announcement || url_parses(e.link@)
}

pub fn check_event_link(e: &Event) -> (r: bool)
    ensures
        r == event_link_ok(*e),
{
    if e.get_type() == EventType::Announcement {
        url_is_valid(e.link.as_str())
    } else {
        true
    }
}

/// Whether a reminder is queued for a stored event: it got an id and has seats.
pub fn wants_reminder(event_id: u64, e: &Event) -> (r: bool)
    ensures
        r == (event_id != 0 && event_type_spec(*e) != EventType::Announcement),
{
    event_id != 0 && e.get_type() != EventType::Announcement
}

/// The answer to an added event: its direct link, where it got an id.
pub open spec fn event_added_reply_spec(bot_name: Seq<char>, id: u64) -> Seq<char> {
    if id > 0 {
        "Direct event link: https://t.me/"@ + bot_name + "?start="@ + decimal(id as nat)
    } else {
        "Failed to add event."@
    }
}

pub fn event_added_reply(bot_name: &str, id: u64) -> (r: String)
    ensures
        r@ == event_added_reply_spec(bot_name@, id),
{
    if id > 0 {
        let mut t = String::from_str("Direct event link: https://t.me/");
        t.append(bot_name);
        t.append("?start=");
        let n = u64_to_string(id);
        t.append(n.as_str());
        t
    } else {
        String::from_str("Failed to add event.")
    }
}

/// The link an administrator gets for a new event ends in a start parameter
/// that, delivered as "/start <parameter>", opens that event.
pub proof fn lemma_added_event_link_opens_event(bot_name: Seq<char>, id: u64)
    requires
        id > 0,
    ensures
        exists|param: Seq<char>|
            event_added_reply_spec(bot_name, id) == "Direct event link: https://t.me/"@ + bot_name + "?start="@ + param
            && #[trigger] user_command_spec("/start "@ + param) == (UserCommand::ShowEvent { event_id: id }),
{
    lemma_direct_link_opens_event(id);
    let param = decimal(id as nat);
    assert(user_command_spec("/start "@ + param) == (UserCommand::ShowEvent { event_id: id }));
}

/// The administrators' help, before escaping.
pub open spec fn admin_help_source() -> Seq<char> {
    "Добавить мероприятие: \
                        \n { \"name\":\"тест\", \"link\":\"https://t.me/storiesvienna/21\", \"start\":\"2022-05-29 15:00 +02:00\", \"remind\":\"2022-05-28 15:00 +02:00\", \"max_adults\":15, \"max_children\":15, \"max_adults_per_reservation\":15, \"max_children_per_reservation\":15, \"currency\":\"EUR\" }\
                        \n\n Отредактировать: добавьте \"id\":<event> в команду выше \
                        \n\n Цены билетов: добавьте \"adult_ticket_price\":200, \"child_ticket_price\":100 в выбранной валюте в команду выше \
                        \n \nПослать сообщение: \
                        \n /send confirmed <event> текст \
                        \n /send waiting <event> текст \
                        \n \nЧёрный список: \
                        \n /ban <user> \
                        \n /show_black_list \
                        \n \
                        \n /delete_event <event> \
                        \n /delete_link <url> \
                        \n /delete_reservation <event> <user> \
                        \n /set_group_leader <event> <user> \
                        \n /set_event_limits <event> <max_adults> <max_children> \
                        "@
}

/// The administrators' help, escaped for MarkdownV2.
pub fn admin_help() -> (r: String)
    ensures
        r@ == markdown_escaped(admin_help_source()),
{
    markdown_escape("Добавить мероприятие: \
                        \n { \"name\":\"тест\", \"link\":\"https://t.me/storiesvienna/21\", \"start\":\"2022-05-29 15:00 +02:00\", \"remind\":\"2022-05-28 15:00 +02:00\", \"max_adults\":15, \"max_children\":15, \"max_adults_per_reservation\":15, \"max_children_per_reservation\":15, \"currency\":\"EUR\" }\
                        \n\n Отредактировать: добавьте \"id\":<event> в команду выше \
                        \n\n Цены билетов: добавьте \"adult_ticket_price\":200, \"child_ticket_price\":100 в выбранной валюте в команду выше \
                        \n \nПослать сообщение: \
                        \n /send confirmed <event> текст \
                        \n /send waiting <event> текст \
                        \n \nЧёрный список: \
                        \n /ban <user> \
                        \n /show_black_list \
                        \n \
                        \n /delete_event <event> \
                        \n /delete_link <url> \
                        \n /delete_reservation <event> <user> \
                        \n /set_group_leader <event> <user> \
                        \n /set_event_limits <event> <max_adults> <max_children> \
                        ")
}

/// The reason a user is on the black list, "unknown user" where the list
/// has no entry for the user.
pub fn ban_reason(found: Option<String>) -> (r: String)
    ensures
        match found {
            Some(reason) => r@ == reason@,
            None => r@ == "unknown user"@,
        },
{
    match found {
        Some(reason) => reason,
        None => String::from_str("unknown user"),
    }
}

/// An entry of the black list.
#[derive(Debug)]
pub struct BanEntry {
    pub user_id: u64,
    pub user_name1: String,
    pub user_name2: String,
    pub reason: String,
}

/// The entry an administrator's "/ban" writes: the names of one of the user's
/// reservations where there is one, else the id as the first name and an
/// empty second name.
pub fn admin_ban(user_id: u64, names: Option<(String, String)>) -> (r: BanEntry)
    ensures
        r.user_id == user_id,
        r.reason@ == "banned by admin"@,
        match names {
            Some((a, b)) => r.user_name1@ == a@ && r.user_name2@ == b@,
            None => r.user_name1@ == decimal(user_id as nat) && r.user_name2@ == Seq::<char>::empty(),
        },
{
    let (user_name1, user_name2) = match names {
        Some((a, b)) => (a, b),
        None => (u64_to_string(user_id), String::new()),
    };
    BanEntry { user_id, user_name1, user_name2, reason: String::from_str("banned by admin") }
}

/// A participant of an event with confirmed seats, and whether they came.
#[derive(Debug)]
pub struct AttendanceRow {
    pub user_id: u64,
    pub user_name1: String,
    pub user_name2: String,
    pub reserved: u64,
    pub present: bool,
}

/// The positions of the rows up to `n` whose user did not come and is no
/// administrator.
pub open spec fn absent_non_admins(rows: Seq<AttendanceRow>, admins: Set<u64>, n: nat) -> Seq<int>
    decreases n,
{
    if n == 0 {
        seq![]
    } else {
        let prev = absent_non_admins(rows, admins, (n - 1) as nat);
        let r = rows[n - 1];
        if !r.present && !admins.contains(r.user_id) {
            prev.push(n - 1)
        } else {
            prev
        }
    }
}

/// Whether presence was taken at the event: somebody was marked present.
pub open spec fn presence_taken(rows: Seq<AttendanceRow>) -> bool {
    exists|i: int| 0 <= i < rows.len() && #[trigger] rows[i].present
}

/// Whether somebody did not come.
pub open spec fn somebody_absent(rows: Seq<AttendanceRow>) -> bool {
    exists|i: int| 0 <= i < rows.len() && !#[trigger] rows[i].present
}

/// Who goes on the black list after a free event: where presence was taken
/// and somebody did not come, every absent participant but administrators;
/// nobody otherwise.
pub open spec fn to_black_list_spec(rows: Seq<AttendanceRow>, admins: Set<u64>) -> Seq<int> {
    if presence_taken(rows) && somebody_absent(rows) {
        absent_non_admins(rows, admins, rows.len())
    } else {
        seq![]
    }
}

/// The positions picked up to `n` are exactly those below `n` of participants
/// who did not come and are no administrators.
proof fn lemma_absent_non_admins(rows: Seq<AttendanceRow>, admins: Set<u64>, n: nat)
    requires
        n <= rows.len(),
    ensures
        forall|k: int| absent_non_admins(rows, admins, n).contains(k) <==> (0 <= k < n
            && !rows[k].present && !admins.contains(rows[k].user_id)),
    decreases n,
{
    if n == 0 {
        assert forall|k: int| !absent_non_admins(rows, admins, n).contains(k) by {
            assert(absent_non_admins(rows, admins, n).len() == 0);
        }
    } else {
        let prev = absent_non_admins(rows, admins, (n - 1) as nat);
        lemma_absent_non_admins(rows, admins, (n - 1) as nat);
        let r = rows[n - 1];
        let cur = absent_non_admins(rows, admins, n);
        if !r.present && !admins.contains(r.user_id) {
            assert(cur == prev.push(n - 1));
            assert forall|k: int| cur.contains(k) <==> (0 <= k < n && !rows[k].present
                && !admins.contains(rows[k].user_id)) by {
                if cur.contains(k) {
                    let j = choose|j: int| 0 <= j < cur.len() && #[trigger] cur[j] == k;
                    if j < prev.len() {
                        assert(prev[j] == k);
                        assert(prev.contains(k));
                    }
                }
                if 0 <= k < n - 1 && !rows[k].present && !admins.contains(rows[k].user_id) {
                    assert(prev.contains(k));
                    let j = choose|j: int| 0 <= j < prev.len() && #[trigger] prev[j] == k;
                    assert(cur[j] == k);
                }
                if k == n - 1 {
                    assert(cur[prev.len() as int] == k);
                }
            }
        } else {
            assert(cur == prev);
        }
    }
}

/// After a free event, where presence was taken, every participant who did not
/// come and is no administrator goes on the black list; nobody else does, and
/// nobody at all where presence was not taken.
pub proof fn lemma_black_list_choice(rows: Seq<AttendanceRow>, admins: Set<u64>)
    ensures
        forall|k: int| #[trigger] to_black_list_spec(rows, admins).contains(k) ==> 0 <= k < rows.len()
            && !rows[k].present && !admins.contains(rows[k].user_id),
        presence_taken(rows) ==> forall|k: int| 0 <= k < rows.len() && !rows[k].present
            && !admins.contains(rows[k].user_id) ==> #[trigger] to_black_list_spec(rows, admins).contains(k),
        !presence_taken(rows) ==> to_black_list_spec(rows, admins).len() == 0,
{
    lemma_absent_non_admins(rows, admins, rows.len());
    assert forall|k: int| 0 <= k < rows.len() && !rows[k].present implies somebody_absent(rows) by {
        assert(!rows[k].present);
    }
}

/// The positions, in `rows`, of the participants to put on the black list.
pub fn absent_participants_to_ban(rows: &Vec<AttendanceRow>, admins: &HashSet<u64>) -> (r: Vec<usize>)
    ensures
        r@.map_values(|i: usize| i as int) == to_black_list_spec(rows@, admins@),
{
    let mut checked = false;
    let mut absent = false;
    let mut picked: Vec<usize> = Vec::new();
    let mut i: usize = 0;
    while i < rows.len()
        invariant
            i <= rows@.len(),
            checked == (exists|j: int| 0 <= j < i && #[trigger] rows@[j].present),
            absent == (exists|j: int| 0 <= j < i && !#[trigger] rows@[j].present),
            picked@.map_values(|k: usize| k as int) == absent_non_admins(rows@, admins@, i as nat),
        decreases rows@.len() - i,
    {
        let row = &rows[i];
        if row.present {
            checked = true;
        } else {
            absent = true;
            if !admins.contains(&row.user_id) {
                proof {
                    assert(picked@.push(i).map_values(|k: usize| k as int)
                        =~= picked@.map_values(|k: usize| k as int).push(i as int));
                }
                picked.push(i);
            }
        }
        i = i + 1;
    }
    if checked && absent {
        picked
    } else {
        let none: Vec<usize> = Vec::new();
        assert(none@.map_values(|k: usize| k as int) =~= Seq::<int>::empty());
        none
    }
}

} // verus!
