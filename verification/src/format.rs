//! Texts shown to users.
use vstd::prelude::*;
use chrono::DateTime;
use crate::text::{as_signed, to_signed, decimal, signed_decimal, u64_to_string, i64_to_string};
use crate::entity::EventState;
use crate::types::{Event, EventStats, GroupMessage, Participant};
use vstd::arithmetic::div_mod::{lemma_fundamental_div_mod, lemma_fundamental_div_mod_converse, lemma_mod_bound};

verus! {

/// The latest second that the calendar used for dates can show
/// (31 December of year 262142, 23:59:59 UTC).
pub const MAX_TIMESTAMP: i64 = 8_210_266_876_799;
/// The earliest second that the calendar used for dates can show
/// (1 January of year -262143, 00:00:00 UTC).
pub const MIN_TIMESTAMP: i64 = -8_334_601_228_800;

/// A chrono field specifier that formats a two-digit number of the date and
/// time: day, month, hour, minute, second.
pub open spec fn date_field_specifier(c: char) -> bool {
    c == 'd' || c == 'm' || c == 'H' || c == 'M' || c == 'S'
}

/// A strftime pattern of literal characters and the specifiers above, each
/// behind a '%'.
pub open spec fn simple_date_pattern(fmt: Seq<char>) -> bool
    decreases fmt.len(),
{
    if fmt.len() == 0 {
        true
    } else if fmt[0] == '%' {
        fmt.len() >= 2 && date_field_specifier(fmt[1]) && simple_date_pattern(fmt.skip(2))
    } else {
        simple_date_pattern(fmt.skip(1))
    }
}

/// The decimal digit of `n`, for `0 <= n <= 9`.
pub open spec fn digit_char(n: int) -> char {
    (48 + n) as char
}

/// A number below 100 in two digits, zero first where it has one.
pub open spec fn two_digits(n: int) -> Seq<char> {
    seq![digit_char(n / 10), digit_char(n % 10)]
}

/// The month and the day of the month of the date `days` days after 1 January
/// 1970 in the proleptic Gregorian calendar: days are counted in eras of 400
/// years from 1 March of year 0, years within an era from 1 March, and months
/// within a year from March.
#[verifier::opaque]
pub open spec fn calendar_month_day(days: int) -> (int, int) {
    let z = days + 719468;
    let era = z / 146097;
    let doe = z - era * 146097;
    let yoe = (doe - doe / 1460 + doe / 36524 - doe / 146096) / 365;
    let doy = doe - (365 * yoe + yoe / 4 - yoe / 100);
    let mp = (5 * doy + 2) / 153;
    let day = doy - (153 * mp + 2) / 5 + 1;
    let month = if mp < 10 { mp + 3 } else { mp - 9 };
    (month, day)
}

/// The day of the month of the UTC time `secs` seconds after the Unix epoch.
pub open spec fn utc_day(secs: int) -> int {
    calendar_month_day(secs / 86400).1
}

/// The month of the UTC time `secs`.
pub open spec fn utc_month(secs: int) -> int {
    calendar_month_day(secs / 86400).0
}

/// The text of a field of the UTC time `secs`: day of the month, month, hour,
/// minute and second, each in two digits.
pub open spec fn date_field_text(c: char, secs: int, t: Seq<char>) -> bool {
    if c == 'H' {
        t == two_digits((secs % 86400) / 3600)
    } else if c == 'M' {
        t == two_digits((secs % 3600) / 60)
    } else if c == 'S' {
        t == two_digits(secs % 60)
    } else if c == 'd' {
        t == two_digits(utc_day(secs))
    } else {
        c == 'm' && t == two_digits(utc_month(secs))
    }
}

/// Whether `s` has the shape of the pattern `fmt` filled in for the UTC time
/// `secs`: literals copied, each field two digits as above.
pub open spec fn formatted_as(secs: int, fmt: Seq<char>, s: Seq<char>) -> bool
    decreases fmt.len(),
{
    if fmt.len() == 0 {
        s.len() == 0
    } else if fmt[0] == '%' && fmt.len() >= 2 {
        &&& s.len() >= 2
        &&& date_field_text(fmt[1], secs, s.take(2))
        &&& formatted_as(secs, fmt.skip(2), s.skip(2))
    } else {
        &&& s.len() >= 1
        &&& s[0] == fmt[0]
        &&& formatted_as(secs, fmt.skip(1), s.skip(1))
    }
}

/// Formats a Unix timestamp with chrono (`DateTime::from_timestamp`, then
/// `format(fmt)` and `to_string`). Claimed: for a pattern of literals and
/// two-digit date fields (which chrono formats without error), the result
/// exists exactly for the seconds that chrono's calendar covers, and is then
/// the pattern with literals copied and each field filled in: the day of the
/// month and the month of the proleptic Gregorian date in UTC, and the hour,
/// minute and second of the time of day, each zero-padded to two digits.
#[verifier::external_body]
fn format_utc(secs: i64, fmt: &str) -> (r: Option<String>)
    requires
        simple_date_pattern(fmt@),
    ensures
        r is Some <==> MIN_TIMESTAMP <= secs <= MAX_TIMESTAMP,
        r matches Some(s) ==> formatted_as(secs as int, fmt@, s@),
{
    DateTime::from_timestamp(secs, 0).map(|d| d.format(fmt).to_string())
}

/// The pattern dates are shown in: day, month, hour and minute.
pub open spec fn day_month_time_pattern() -> Seq<char> {
    "%d.%m %H:%M"@
}

/// "DD.MM HH:MM": the day of the month, the month, the hour and the minute of
/// the UTC time `secs`.
pub open spec fn day_month_time_text(secs: int) -> Seq<char> {
    two_digits(utc_day(secs)) + "."@ + two_digits(utc_month(secs)) + " "@
        + two_digits((secs % 86400) / 3600) + ":"@ + two_digits((secs % 3600) / 60)
}

/// The pattern of `ts` filled in for a time is exactly "DD.MM HH:MM" of it.
proof fn lemma_day_month_time_text(secs: int, s: Seq<char>)
    requires
        formatted_as(secs, day_month_time_pattern(), s),
    ensures
        s == day_month_time_text(secs),
{
    reveal_strlit("%d.%m %H:%M");
    reveal_strlit(".%m %H:%M");
    reveal_strlit("%m %H:%M");
    reveal_strlit(" %H:%M");
    reveal_strlit("%H:%M");
    reveal_strlit(":%M");
    reveal_strlit("%M");
    let f = day_month_time_pattern();
    let s1 = s.skip(2);
    let s2 = s1.skip(1);
    let s3 = s2.skip(2);
    let s4 = s3.skip(1);
    let s5 = s4.skip(2);
    let s6 = s5.skip(1);
    let s7 = s6.skip(2);
    assert(f.skip(2) =~= ".%m %H:%M"@);
    assert(f.skip(2).skip(1) =~= "%m %H:%M"@);
    assert(f.skip(2).skip(1).skip(2) =~= " %H:%M"@);
    assert(f.skip(2).skip(1).skip(2).skip(1) =~= "%H:%M"@);
    assert(f.skip(2).skip(1).skip(2).skip(1).skip(2) =~= ":%M"@);
    assert(f.skip(2).skip(1).skip(2).skip(1).skip(2).skip(1) =~= "%M"@);
    assert(f.skip(2).skip(1).skip(2).skip(1).skip(2).skip(1).skip(2) =~= Seq::<char>::empty());
    assert(formatted_as(secs, ".%m %H:%M"@, s1));
    assert(formatted_as(secs, "%m %H:%M"@, s2));
    assert(formatted_as(secs, " %H:%M"@, s3));
    assert(formatted_as(secs, "%H:%M"@, s4));
    assert(formatted_as(secs, ":%M"@, s5));
    assert(formatted_as(secs, "%M"@, s6));
    assert(formatted_as(secs, Seq::<char>::empty(), s7));
    reveal_strlit(".");
    reveal_strlit(" ");
    reveal_strlit(":");
    assert(s.take(2) == two_digits(utc_day(secs)));
    assert(s2.take(2) == two_digits(utc_month(secs)));
    assert(s4.take(2) == two_digits((secs % 86400) / 3600));
    assert(s6.take(2) == two_digits((secs % 3600) / 60));
    assert(s =~= day_month_time_text(secs));
}

/// Dropping the seconds of a minute keeps the day, the hour and the minute.
proof fn lemma_same_minute(a: int)
    ensures
        (a - a % 60) / 86400 == a / 86400,
        ((a - a % 60) % 86400) / 3600 == (a % 86400) / 3600,
        ((a - a % 60) % 3600) / 60 == (a % 3600) / 60,
{
    let q = a / 60;
    let r = a % 60;
    lemma_fundamental_div_mod(a, 60);
    lemma_mod_bound(a, 60);
    let b = a - r;
    // The day.
    let d = a / 86400;
    let big = a % 86400;
    lemma_fundamental_div_mod(a, 86400);
    lemma_mod_bound(a, 86400);
    let k = q - 1440 * d;
    assert(big == 60 * k + r);
    assert(0 <= k < 1440);
    lemma_fundamental_div_mod_converse(b, 86400, d, 60 * k);
    // The hour.
    let h = k / 60;
    let kr = k % 60;
    lemma_fundamental_div_mod(k, 60);
    lemma_mod_bound(k, 60);
    lemma_fundamental_div_mod_converse(60 * k, 3600, h, 60 * kr);
    lemma_fundamental_div_mod_converse(big, 3600, h, 60 * kr + r);
    // The minute.
    let e = a / 3600;
    let small = a % 3600;
    lemma_fundamental_div_mod(a, 3600);
    lemma_mod_bound(a, 3600);
    let j = q - 60 * e;
    assert(small == 60 * j + r);
    assert(0 <= j < 60);
    lemma_fundamental_div_mod_converse(b, 3600, e, 60 * j);
    lemma_fundamental_div_mod_converse(60 * j, 60, j, 0);
    lemma_fundamental_div_mod_converse(small, 60, j, r);
}

/// The seconds of a minute never change the text of a time.
pub proof fn lemma_day_month_time_ignores_seconds(secs: int)
    ensures
        day_month_time_text(secs) == day_month_time_text(secs - secs % 60),
{
    lemma_same_minute(secs);
    let m = secs - secs % 60;
    assert(utc_day(m) == utc_day(secs));
    assert(utc_month(m) == utc_month(secs));
}

/// Whether a timestamp can be shown as a date.
pub open spec fn showable(ts: u64) -> bool {
    MIN_TIMESTAMP <= as_signed(ts) <= MAX_TIMESTAMP
}

/// The text of a timestamp: day, month, hour and minute in UTC.
pub open spec fn ts_spec(ts: u64) -> Seq<char> {
    day_month_time_text(as_signed(ts))
}

/// Shows a timestamp as "DD.MM HH:MM" (UTC).
pub fn ts(timestamp: u64) -> (r: String)
    requires
        showable(timestamp),
    ensures
        r@ == ts_spec(timestamp),
{
    let secs: i64 = to_signed(timestamp);
    proof {
        reveal_strlit("%d.%m %H:%M");
        reveal_with_fuel(simple_date_pattern, 9);
    }
    match format_utc(secs, "%d.%m %H:%M") {
        Some(s) => {
            proof {
                lemma_day_month_time_text(secs as int, s@);
            }
            s
        },
        None => {
            assert(false);
            String::new()
        },
    }
}


/// The title of an event: its name, linked to its page where it has one.
pub open spec fn event_title_spec(e: Event) -> Seq<char> {
    if e.link@.len() > 0 {
        "<a href=\""@ + e.link@ + "\">"@ + e.name@ + "</a>"@
    } else {
        e.name@
    }
}

pub fn event_title(event: &Event) -> (r: String)
    ensures
        r@ == event_title_spec(*event),
{
    if event.link.unicode_len() > 0 {
        let mut r = String::from_str("<a href=\"");
        r.append(event.link.as_str());
        r.append("\">");
        r.append(event.name.as_str());
        r.append("</a>");
        r
    } else {
        event.name.clone()
    }
}

/// The title and start of an event page.
pub open spec fn header_head_spec(s: EventStats) -> Seq<char> {
    "\n \n"@ + event_title_spec(s.event) + "\nНачало: "@ + ts_spec(s.event.ts) + "."@
}

/// The event id and seat limits, shown to administrators.
pub open spec fn header_admin_spec(s: EventStats) -> Seq<char> {
    " Мероприятие "@ + decimal(s.event.id as nat) + " / "@ + decimal(s.event.max_adults as nat)
        + "("@ + decimal(s.event.max_children as nat) + ")"@
}

/// The free seats while reservations are open, or that they are stopped.
pub open spec fn header_seats_spec(s: EventStats, free_adults: i64, free_children: i64, no_age_distinction: bool) -> Seq<char> {
    if s.state == EventState::Open {
        if no_age_distinction {
            " Свободные места: "@ + signed_decimal(free_adults + free_children)
        } else {
            "\nВзрослые свободные места: "@ + signed_decimal(free_adults as int)
                + "\nДетские свободные места: "@ + signed_decimal(free_children as int)
        }
    } else {
        " Запись остановлена."@
    }
}

/// The head of an event page: title and start, for administrators the event id
/// and seat limits, then the free seats while reservations are open.
pub open spec fn header_spec(
    s: EventStats,
    free_adults: i64,
    free_children: i64,
    is_admin: bool,
    no_age_distinction: bool,
) -> Seq<char> {
    header_head_spec(s) + (if is_admin { header_admin_spec(s) } else { Seq::empty() })
        + header_seats_spec(s, free_adults, free_children, no_age_distinction)
}

pub fn header(
    s: &EventStats,
    free_adults: i64,
    free_children: i64,
    is_admin: bool,
    no_age_distinction: bool,
) -> (r: String)
    requires
        showable(s.event.ts),
        s.state == EventState::Open && no_age_distinction ==> i64::MIN <= free_adults + free_children <= i64::MAX,
    ensures
        r@ == header_spec(*s, free_adults, free_children, is_admin, no_age_distinction),
{
    let mut header = String::from_str("\n \n");
    let title = event_title(&s.event);
    header.append(title.as_str());
    header.append("\nНачало: ");
    let t = ts(s.event.ts);
    header.append(t.as_str());
    header.append(".");
    let ghost head = header@;
    if is_admin {
        header.append(" Мероприятие ");
        header.append(u64_to_string(s.event.id).as_str());
        header.append(" / ");
        header.append(u64_to_string(s.event.max_adults).as_str());
        header.append("(");
        header.append(u64_to_string(s.event.max_children).as_str());
        header.append(")");
    }
    let ghost with_admin = header@;
    if s.state == EventState::Open {
        if no_age_distinction {
            header.append(" Свободные места: ");
            header.append(i64_to_string(free_adults + free_children).as_str());
        } else {
            header.append("\nВзрослые свободные места: ");
            header.append(i64_to_string(free_adults).as_str());
            header.append("\nДетские свободные места: ");
            header.append(i64_to_string(free_children).as_str());
        }
    } else {
        header.append(" Запись остановлена.");
    }
    assert(header@ =~= header_spec(*s, free_adults, free_children, is_admin, no_age_distinction));
    header
}

/// The user id that starts a line of a participant list for administrators:
/// followed by a space in the participant list; in the waiting list a space
/// follows in any case.
pub open spec fn participant_id_spec(p: Participant, is_admin: bool, waiting_style: bool) -> Seq<char> {
    if waiting_style {
        (if is_admin { decimal(p.user_id as nat) } else { Seq::empty() }) + " "@
    } else if is_admin {
        decimal(p.user_id as nat) + " "@
    } else {
        Seq::empty()
    }
}

/// One line of a participant list: a link to the user (with the user id first
/// for administrators), the seats held and the user's note.
pub open spec fn participant_entry_spec(p: Participant, is_admin: bool, no_age_distinction: bool, waiting_style: bool) -> Seq<char> {
    participant_link_spec(p, participant_id_spec(p, is_admin, waiting_style))
        + participant_seats_spec(p, no_age_distinction) + participant_note_spec(p)
}

/// A link to the participant: by user name where there is one, else by id.
pub open spec fn participant_link_spec(p: Participant, id: Seq<char>) -> Seq<char> {
    if p.user_name2@.len() > 0 {
        "\n"@ + id + "<a href=\"https://t.me/"@ + p.user_name2@ + "\">"@ + p.user_name1@ + " ("@
            + p.user_name2@ + ")</a>"@
    } else {
        "\n"@ + id + "<a href=\"tg://user?id="@ + decimal(p.user_id as nat) + "\">"@ + p.user_name1@
            + "</a>"@
    }
}

/// The seats a participant holds: in total, or adults and children.
pub open spec fn participant_seats_spec(p: Participant, no_age_distinction: bool) -> Seq<char> {
    if no_age_distinction {
        " "@ + decimal((p.adults + p.children) as nat)
    } else {
        " "@ + decimal(p.adults as nat) + "("@ + decimal(p.children as nat) + ")"@
    }
}

/// The participant's note, if any.
pub open spec fn participant_note_spec(p: Participant) -> Seq<char> {
    match p.attachment {
        Some(a) => " "@ + a@,
        None => Seq::empty(),
    }
}

/// The lines of a participant list, one per participant in order.
pub open spec fn participant_entries_spec(ps: Seq<Participant>, is_admin: bool, no_age_distinction: bool, waiting_style: bool) -> Seq<char>
    decreases ps.len(),
{
    if ps.len() == 0 {
        Seq::empty()
    } else {
        participant_entries_spec(ps.drop_last(), is_admin, no_age_distinction, waiting_style)
            + participant_entry_spec(ps.last(), is_admin, no_age_distinction, waiting_style)
    }
}

/// Whether the seats of every participant can be added up in 64 bits.
pub open spec fn seat_sums_fit(ps: Seq<Participant>) -> bool {
    forall|i: int| 0 <= i < ps.len() ==> #[trigger] ps[i].adults + ps[i].children <= u64::MAX
}

fn participant_id(p: &Participant, is_admin: bool, waiting_style: bool) -> (r: String)
    ensures
        r@ == participant_id_spec(*p, is_admin, waiting_style),
{
    let mut id = String::new();
    if is_admin {
        id = u64_to_string(p.user_id);
    }
    if waiting_style || is_admin {
        id.append(" ");
    }
    assert(id@ =~= participant_id_spec(*p, is_admin, waiting_style));
    id
}

fn participant_link(p: &Participant, id: &str) -> (r: String)
    ensures
        r@ == participant_link_spec(*p, id@),
{
    let mut entry = String::from_str("\n");
    entry.append(id);
    if p.user_name2.unicode_len() > 0 {
        entry.append("<a href=\"https://t.me/");
        entry.append(p.user_name2.as_str());
        entry.append("\">");
        entry.append(p.user_name1.as_str());
        entry.append(" (");
        entry.append(p.user_name2.as_str());
        entry.append(")</a>");
    } else {
        entry.append("<a href=\"tg://user?id=");
        entry.append(u64_to_string(p.user_id).as_str());
        entry.append("\">");
        entry.append(p.user_name1.as_str());
        entry.append("</a>");
    }
    assert(entry@ =~= participant_link_spec(*p, id@));
    entry
}

fn participant_seats(p: &Participant, no_age_distinction: bool) -> (r: String)
    requires
        no_age_distinction ==> p.adults + p.children <= u64::MAX,
    ensures
        r@ == participant_seats_spec(*p, no_age_distinction),
{
    let mut entry = String::from_str(" ");
    if no_age_distinction {
        entry.append(u64_to_string(p.adults + p.children).as_str());
    } else {
        entry.append(u64_to_string(p.adults).as_str());
        entry.append("(");
        entry.append(u64_to_string(p.children).as_str());
        entry.append(")");
    }
    assert(entry@ =~= participant_seats_spec(*p, no_age_distinction));
    entry
}

pub fn participant_entry(p: &Participant, is_admin: bool, no_age_distinction: bool, waiting_style: bool) -> (r: String)
    requires
        no_age_distinction ==> p.adults + p.children <= u64::MAX,
    ensures
        r@ == participant_entry_spec(*p, is_admin, no_age_distinction, waiting_style),
{
    let id = participant_id(p, is_admin, waiting_style);
    let mut entry = participant_link(p, id.as_str());
    entry.append(participant_seats(p, no_age_distinction).as_str());
    match &p.attachment {
        Some(a) => {
            entry.append(" ");
            entry.append(a.as_str());
        },
        None => {},
    }
    assert(entry@ =~= participant_entry_spec(*p, is_admin, no_age_distinction, waiting_style));
    entry
}

pub fn participant_entries(ps: &Vec<Participant>, is_admin: bool, no_age_distinction: bool, waiting_style: bool) -> (r: String)
    requires
        no_age_distinction ==> seat_sums_fit(ps@),
    ensures
        r@ == participant_entries_spec(ps@, is_admin, no_age_distinction, waiting_style),
{
    let mut list = String::new();
    let mut i: usize = 0;
    while i < ps.len()
        invariant
            i <= ps@.len(),
            no_age_distinction ==> seat_sums_fit(ps@),
            list@ == participant_entries_spec(ps@.take(i as int), is_admin, no_age_distinction, waiting_style),
        decreases ps@.len() - i,
    {
        assert(no_age_distinction ==> ps@[i as int].adults + ps@[i as int].children <= u64::MAX);
        let e = participant_entry(&ps[i], is_admin, no_age_distinction, waiting_style);
        list.append(e.as_str());
        assert(ps@.take(i + 1).drop_last() =~= ps@.take(i as int));
        i = i + 1;
    }
    assert(ps@.take(ps@.len() as int) =~= ps@);
    list
}

/// The participant list of an event page: a count line when anybody reserved,
/// then one line per participant.
pub open spec fn participants_spec(s: EventStats, ps: Seq<Participant>, is_admin: bool, no_age_distinction: bool) -> Seq<char> {
    let head = if ps.len() != 0 {
        "\n\nЗаписались "@ + decimal(s.adults.reserved as nat) + "("@ + decimal(s.children.reserved as nat) + "):"@
    } else {
        Seq::empty()
    };
    head + participant_entries_spec(ps, is_admin, no_age_distinction, false)
}

/// A participant list that is not empty starts with the confirmed adult and
/// child seats of the event; an empty one is empty.
pub proof fn lemma_participants_head(s: EventStats, ps: Seq<Participant>, is_admin: bool, no_age_distinction: bool)
    ensures
        ({
            let t = participants_spec(s, ps, is_admin, no_age_distinction);
            let head = "\n\nЗаписались "@ + decimal(s.adults.reserved as nat) + "("@
                + decimal(s.children.reserved as nat) + "):"@;
            &&& ps.len() > 0 ==> t.len() >= head.len() && t.take(head.len() as int) == head
            &&& ps.len() == 0 ==> t.len() == 0
        }),
{
    let t = participants_spec(s, ps, is_admin, no_age_distinction);
    let head = "\n\nЗаписались "@ + decimal(s.adults.reserved as nat) + "("@
        + decimal(s.children.reserved as nat) + "):"@;
    if ps.len() > 0 {
        assert(t.take(head.len() as int) =~= head);
    } else {
        assert(participant_entries_spec(ps, is_admin, no_age_distinction, false).len() == 0);
    }
}

pub fn participants(s: &EventStats, ps: &Vec<Participant>, is_admin: bool, no_age_distinction: bool) -> (r: String)
    requires
        no_age_distinction ==> seat_sums_fit(ps@),
    ensures
        r@ == participants_spec(*s, ps@, is_admin, no_age_distinction),
{
    let mut list = String::new();
    if ps.len() != 0 {
        list.append("\n\nЗаписались ");
        list.append(u64_to_string(s.adults.reserved).as_str());
        list.append("(");
        list.append(u64_to_string(s.children.reserved).as_str());
        list.append("):");
    }
    let entries = participant_entries(ps, is_admin, no_age_distinction, false);
    list.append(entries.as_str());
    assert(list@ =~= participants_spec(*s, ps@, is_admin, no_age_distinction));
    list
}

/// Which group messages a user sees: administrators all of them; others those
/// sent to the waiting list (1) while holding no confirmed seat, else those
/// sent to the confirmed participants (0).
pub open spec fn message_audience_spec(s: EventStats, is_admin: bool) -> Option<u64> {
    if is_admin {
        None
    } else if s.adults.my_reservation == 0 && s.children.my_reservation == 0 {
        Some(1)
    } else {
        Some(0)
    }
}

pub fn message_audience(s: &EventStats, is_admin: bool) -> (r: Option<u64>)
    ensures
        r == message_audience_spec(*s, is_admin),
{
    if is_admin {
        None
    } else if s.adults.my_reservation == 0 && s.children.my_reservation == 0 {
        Some(1)
    } else {
        Some(0)
    }
}

/// Administrators see every group message; any other user who holds a
/// confirmed seat, adult or child, sees those sent to the confirmed
/// participants (0), and a user holding none sees those sent to the waiting
/// list (1).
pub proof fn lemma_message_audience(s: EventStats, is_admin: bool)
    ensures
        is_admin ==> message_audience_spec(s, is_admin) is None,
        !is_admin && (s.adults.my_reservation > 0 || s.children.my_reservation > 0)
            ==> message_audience_spec(s, is_admin) == Some(0u64),
        !is_admin && s.adults.my_reservation == 0 && s.children.my_reservation == 0
            ==> message_audience_spec(s, is_admin) == Some(1u64),
{
}

/// One group message: sender and time, for administrators also the audience,
/// then the text.
pub open spec fn group_message_spec(m: GroupMessage, for_audience: bool) -> Seq<char> {
    if for_audience {
        "\n"@ + m.sender@ + ", "@ + ts_spec(m.ts) + ":\n"@ + m.text@ + "\n"@
    } else {
        "\n"@ + m.sender@ + ", "@ + ts_spec(m.ts) + " ("@ + (if m.waiting_list == 0 {
            "для забронировавших"@
        } else {
            "для списка ожидания"@
        }) + "):\n"@ + m.text@ + "\n"@
    }
}

pub open spec fn group_messages_spec(ms: Seq<GroupMessage>, for_audience: bool) -> Seq<char>
    decreases ms.len(),
{
    if ms.len() == 0 {
        Seq::empty()
    } else {
        group_messages_spec(ms.drop_last(), for_audience) + group_message_spec(ms.last(), for_audience)
    }
}

/// Whether every message carries a time that can be shown.
pub open spec fn message_times_showable(ms: Seq<GroupMessage>) -> bool {
    forall|i: int| 0 <= i < ms.len() ==> showable(#[trigger] ms[i].ts)
}

/// The messages section of an event page, given the messages the user may see
/// (`audience` as `message_audience` chose it); none when there are none.
pub open spec fn messages_spec(ms: Seq<GroupMessage>, audience: Option<u64>) -> Option<Seq<char>> {
    if ms.len() > 0 {
        Some("\n\n<b>Cообщения по мероприятию</b>"@ + group_messages_spec(ms, audience is Some))
    } else {
        None
    }
}

pub fn group_message(m: &GroupMessage, for_audience: bool) -> (r: String)
    requires
        showable(m.ts),
    ensures
        r@ == group_message_spec(*m, for_audience),
{
    let mut e = String::from_str("\n");
    e.append(m.sender.as_str());
    e.append(", ");
    e.append(ts(m.ts).as_str());
    if for_audience {
        e.append(":\n");
    } else {
        e.append(" (");
        if m.waiting_list == 0 {
            e.append("для забронировавших");
        } else {
            e.append("для списка ожидания");
        }
        e.append("):\n");
    }
    e.append(m.text.as_str());
    e.append("\n");
    assert(e@ =~= group_message_spec(*m, for_audience));
    e
}

/// The text of an optional string.
pub open spec fn opt_view(o: Option<String>) -> Option<Seq<char>> {
    match o {
        Some(x) => Some(x@),
        None => None,
    }
}

pub fn messages(ms: &Vec<GroupMessage>, audience: Option<u64>) -> (r: Option<String>)
    requires
        message_times_showable(ms@),
    ensures
        opt_view(r) == messages_spec(ms@, audience),
{
    if ms.len() == 0 {
        return None;
    }
    let for_audience = audience.is_some();
    let mut list = String::from_str("\n\n<b>Cообщения по мероприятию</b>");
    let ghost start = list@;
    let mut i: usize = 0;
    while i < ms.len()
        invariant
            i <= ms@.len(),
            message_times_showable(ms@),
            for_audience == audience is Some,
            list@ == start + group_messages_spec(ms@.take(i as int), for_audience),
        decreases ms@.len() - i,
    {
        assert(showable(ms@[i as int].ts));
        let entry = group_message(&ms[i], for_audience);
        list.append(entry.as_str());
        assert(ms@.take(i + 1).drop_last() =~= ms@.take(i as int));
        i = i + 1;
        assert(list@ =~= start + group_messages_spec(ms@.take(i as int), for_audience));
    }
    assert(ms@.take(ms@.len() as int) =~= ms@);
    Some(list)
}

/// The group messages shown, from the newest first as they are read: those
/// without a sender are left out and the rest put oldest first.
pub open spec fn arrange_group_messages_spec(rows: Seq<GroupMessage>) -> Seq<GroupMessage> {
    with_sender(rows).reverse()
}

/// The messages that name their sender, in order.
pub open spec fn with_sender(rows: Seq<GroupMessage>) -> Seq<GroupMessage>
    decreases rows.len(),
{
    if rows.len() == 0 {
        rows
    } else if has_sender(rows.last()) {
        with_sender(rows.drop_last()).push(rows.last())
    } else {
        with_sender(rows.drop_last())
    }
}

/// Whether a message names its sender.
pub open spec fn has_sender(m: GroupMessage) -> bool {
    m.sender@.len() > 0
}

pub fn arrange_group_messages(rows: Vec<GroupMessage>) -> (r: Vec<GroupMessage>)
    ensures
        r@ == arrange_group_messages_spec(rows@),
{
    let mut kept: Vec<GroupMessage> = Vec::new();
    let mut i: usize = 0;
    while i < rows.len()
        invariant
            i <= rows@.len(),
            kept@ == with_sender(rows@.take(i as int)),
        decreases rows@.len() - i,
    {
        let m = rows[i].clone();
        assert(m == rows@[i as int]);
        proof {
            let t = rows@.take(i + 1);
            assert(t.drop_last() =~= rows@.take(i as int));
            assert(t.last() == rows@[i as int]);
        }
        if m.sender.unicode_len() > 0 {
            assert(has_sender(m));
            kept.push(m);
        } else {
            assert(!has_sender(m));
        }
        i = i + 1;
    }
    assert(rows@.take(rows@.len() as int) =~= rows@);
    let mut out: Vec<GroupMessage> = Vec::new();
    let mut j: usize = kept.len();
    while j > 0
        invariant
            j <= kept@.len(),
            out@ == kept@.skip(j as int).reverse(),
        decreases j,
    {
        j = j - 1;
        assert(kept@.skip(j as int).reverse() =~= kept@.skip(j + 1).reverse().push(kept@[j as int]));
        out.push(kept[j].clone());
    }
    assert(kept@.skip(0) =~= kept@);
    out
}

} // verus!
