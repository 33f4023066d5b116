//! Configuration as read from the configuration file.
use vstd::prelude::*;
use std::collections::HashSet;
use chrono::DateTime;
use crate::text::{split_all, parse_u64_spec, split_char, parse_u64, views, decimal, u64_to_string,
    lemma_decimal_digits, lemma_parse_decimal, is_digit, find_char, lemma_find_char, lemma_find_char_at};
use crate::whitespace::{lemma_collapse_idempotent, collapse_ws, collapse_whitespace, split_mark, split_at_mark, trim_ws, trim};

verus! {

broadcast use vstd::std_specs::hash::group_hash_axioms;

/// The settings of the bot, field by field as the configuration file holds them.
#[derive(Clone, Debug)]
pub struct RawConfiguration {
    pub telegram_bot_token: String,
    pub payment_provider_token: String,
    pub admin_ids: String,
    pub public_lists: bool,
    pub automatic_blacklisting: bool,
    pub drop_events_after_hours: u64,
    pub delete_from_black_list_after_days: u64,
    pub too_late_to_cancel_hours: u64,
    pub cleanup_old_events: bool,
    pub event_list_page_size: u64,
    pub event_page_size: u64,
    pub presence_page_size: u64,
    pub cancel_future_reservations_on_ban: bool,
    pub support: String,
    pub help: String,
    pub limit_bulk_notifications_per_second: u64,
    pub mailing_hours: String,
    pub listen_address: String,
    pub listen_port: u16,
    pub database_connection: String,
    pub db_protocol: String,
    pub db_host: String,
    pub db_port: String,
    pub db_name: String,
    pub db_user: String,
    pub db_password: String,
}

/// The administrators named by a comma-separated list of user ids; entries
/// that are not numbers are skipped.
pub open spec fn admin_ids_spec(list: Seq<char>) -> Set<u64> {
    Set::new(|v: u64| exists|i: int| 0 <= i < split_all(list, ',').len()
        && parse_u64_spec(#[trigger] split_all(list, ',')[i]) == Some(v))
}

impl RawConfiguration {
    /// The administrators' user ids.
    pub fn parse_admins(&self) -> (r: HashSet<u64>)
        ensures
            r@ == admin_ids_spec(self.admin_ids@),
    {
        let pieces = split_char(self.admin_ids.as_str(), ',');
        let ghost all = split_all(self.admin_ids@, ',');
        let mut res: HashSet<u64> = HashSet::new();
        let mut i: usize = 0;
        while i < pieces.len()
            invariant
                views(pieces@) == all,
                i <= pieces@.len(),
                res@ == Set::new(|v: u64| exists|j: int| 0 <= j < i
                    && parse_u64_spec(#[trigger] all[j]) == Some(v)),
            decreases pieces@.len() - i,
        {
            assert(all[i as int] == pieces@[i as int]@);
            match parse_u64(pieces[i].as_str()) {
                Some(v) => {
                    res.insert(v);
                    assert(res@ =~= Set::new(|w: u64| exists|j: int| 0 <= j < i + 1
                        && parse_u64_spec(#[trigger] all[j]) == Some(w))) by {
                        assert forall|w: u64| res@.contains(w) implies exists|j: int| 0 <= j < i + 1
                            && parse_u64_spec(#[trigger] all[j]) == Some(w) by {
                            if w == v {
                                assert(parse_u64_spec(all[i as int]) == Some(w));
                            }
                        };
                    };
                },
                None => {
                    assert(res@ =~= Set::new(|w: u64| exists|j: int| 0 <= j < i + 1
                        && parse_u64_spec(#[trigger] all[j]) == Some(w)));
                },
            }
            i = i + 1;
        }
        assert(res@ =~= admin_ids_spec(self.admin_ids@));
        res
    }
}

/// Runs of whitespace in the mailing-hours setting do not matter: the setting
/// with every run collapsed to one space gives the same hours.
pub proof fn lemma_mailing_hours_whitespace(text: Seq<char>)
    ensures
        mailing_hours_spec(collapse_ws(text)) == mailing_hours_spec(text),
{
    lemma_collapse_idempotent(text);
    assert(mailing_hour_parts(collapse_ws(text)) == mailing_hour_parts(text));
}

/// A user id written in the administrators' list, alone or between commas,
/// makes that user an administrator.
pub proof fn lemma_listed_admin(before: Seq<char>, id: u64, after: Seq<char>)
    ensures
        admin_ids_spec(before + seq![','] + decimal(id as nat) + seq![','] + after).contains(id),
        admin_ids_spec(decimal(id as nat)).contains(id),
{
    let d = decimal(id as nat);
    lemma_decimal_digits(id as nat);
    lemma_parse_decimal(id);
    assert forall|i: int| 0 <= i < d.len() implies d[i] != ',' by {
        assert(is_digit(d[i]));
    };
    lemma_find_char(d, ',');
    assert(split_all(d, ',') == seq![d]);
    assert(parse_u64_spec(split_all(d, ',')[0]) == Some(id));
    lemma_split_all_piece(before, d, after);
}

/// Splitting at commas a text in which a comma-free piece stands between two
/// commas yields that piece.
proof fn lemma_split_all_piece(before: Seq<char>, d: Seq<char>, after: Seq<char>)
    requires
        forall|i: int| 0 <= i < d.len() ==> d[i] != ',',
    ensures
        exists|k: int| 0 <= k < split_all(before + seq![','] + d + seq![','] + after, ',').len()
            && #[trigger] split_all(before + seq![','] + d + seq![','] + after, ',')[k] == d,
    decreases before.len(),
{
    let s = before + seq![','] + d + seq![','] + after;
    lemma_find_char(s, ',');
    lemma_find_char(before, ',');
    match find_char(before, ',') {
        Some(j) => {
            assert(s[j as int] == before[j as int]);
            assert(find_char(s, ',') == Some(j)) by {
                assert forall|m: int| 0 <= m < j implies s[m] != ',' by {
                    assert(s[m] == before[m]);
                };
                lemma_find_char_at(s, ',', j as int);
            };
            let rest = before.skip(j as int + 1);
            assert(s.skip(j as int + 1) =~= rest + seq![','] + d + seq![','] + after);
            lemma_split_all_piece(rest, d, after);
            let k = choose|k: int| 0 <= k < split_all(rest + seq![','] + d + seq![','] + after, ',').len()
                && #[trigger] split_all(rest + seq![','] + d + seq![','] + after, ',')[k] == d;
            assert(split_all(s, ',') == seq![s.take(j as int)] + split_all(s.skip(j as int + 1), ','));
            assert(split_all(s, ',')[k + 1] == d);
        },
        None => {
            let n = before.len() as int;
            assert(s[n] == ',');
            assert(find_char(s, ',') == Some(n as nat)) by {
                assert forall|m: int| 0 <= m < n implies s[m] != ',' by {
                    assert(s[m] == before[m]);
                };
                lemma_find_char_at(s, ',', n);
            };
            let t = s.skip(n + 1);
            assert(t =~= d + seq![','] + after);
            let m = d.len() as int;
            assert(t[m] == ',');
            assert(find_char(t, ',') == Some(m as nat)) by {
                assert forall|x: int| 0 <= x < m implies t[x] != ',' by {
                    assert(t[x] == d[x]);
                };
                lemma_find_char_at(t, ',', m);
            };
            assert(t.take(m) =~= d);
            assert(split_all(t, ',') == seq![t.take(m)] + split_all(t.skip(m + 1), ','));
            assert(split_all(t, ',')[0] == d);
            assert(split_all(s, ',') == seq![s.take(n)] + split_all(t, ','));
            assert(split_all(s, ',')[1] == d);
        },
    }
}

/// The Unix timestamp of the moment that chrono reads from `text` in the
/// format `fmt` (`DateTime::parse_from_str`, offset included), or none where
/// chrono refuses the text.
pub uninterp spec fn parsed_offset_timestamp(text: Seq<char>, fmt: Seq<char>) -> Option<i64>;

/// Parses a date, time and offset with chrono (`DateTime::parse_from_str`,
/// then `timestamp`). Claimed: the result depends on the two texts alone and
/// is what `parsed_offset_timestamp` names.
#[verifier::external_body]
pub(crate) fn parse_offset_timestamp(text: &str, fmt: &str) -> (r: Option<i64>)
    ensures
        r == parsed_offset_timestamp(text@, fmt@),
{
    match DateTime::parse_from_str(text, fmt) {
        Ok(d) => Some(d.timestamp()),
        Err(_) => None,
    }
}

/// The day on which mailing hours are read, with the separating space.
pub open spec fn mailing_day_prefix() -> Seq<char> {
    "2022-07-06 "@
}

/// The format in which a mailing hour is read, after the day.
pub open spec fn mailing_hour_format() -> Seq<char> {
    "%Y-%m-%d %H:%M %z"@
}

/// The remainder of `t` divided by `d` as Rust's `%` gives it: its sign is
/// that of `t`.
pub open spec fn truncated_rem(t: int, d: int) -> int {
    if t >= 0 { t % d } else { -((-t) % d) }
}

/// Seconds since midnight of a timestamp, as `(t % 86400) as u64` gives them:
/// a negative remainder wraps around.
pub open spec fn day_seconds(t: i64) -> u64 {
    let r = truncated_rem(t as int, 86400);
    if r >= 0 { r as u64 } else { (r + 0x1_0000_0000_0000_0000) as u64 }
}

pub fn seconds_of_day(t: i64) -> (r: u64)
    ensures
        r == day_seconds(t),
{
    if t >= 0 {
        (t as u64) % 86400
    } else {
        let n: u64 = ((-(t + 1)) as u64) + 1;
        let m: u64 = n % 86400;
        if m == 0 {
            0
        } else {
            u64::MAX - m + 1
        }
    }
}

/// The mailing hours for two parsed moments: the seconds of the day of each,
/// or the refusal where either was not understood.
pub open spec fn hours_from_moments_spec(from: Option<i64>, to: Option<i64>) -> Result<(u64, u64), Seq<char>> {
    match (from, to) {
        (Some(a), Some(b)) => Ok((day_seconds(a), day_seconds(b))),
        _ => Err("Failed to parse mailing hours."@),
    }
}

/// Turns the two parsed ends of the mailing hours into seconds of the day.
pub fn hours_from_moments(from: Option<i64>, to: Option<i64>) -> (r: Result<(u64, u64), String>)
    ensures
        match (r, hours_from_moments_spec(from, to)) {
            (Ok(x), Ok(y)) => x == y,
            (Err(e), Err(f)) => e@ == f,
            _ => false,
        },
{
    match (from, to) {
        (Some(a), Some(b)) => Ok((seconds_of_day(a), seconds_of_day(b))),
        _ => Err(String::from_str("Failed to parse mailing hours.")),
    }
}

/// The two ends of a mailing-hours setting "HH:MM +ZZZZ .. HH:MM +ZZZZ":
/// whitespace runs collapsed to one space, split at "..", each end trimmed.
pub open spec fn mailing_hour_parts(text: Seq<char>) -> Seq<Seq<char>> {
    split_mark(collapse_ws(text), ('.', '.')).map_values(|p: Seq<char>| trim_ws(p))
}

/// What the mailing-hours setting gives: both ends in seconds of the day,
/// or why it was refused.
pub open spec fn mailing_hours_spec(text: Seq<char>) -> Result<(u64, u64), Seq<char>> {
    let parts = mailing_hour_parts(text);
    if parts.len() != 2 {
        Err("Wrong mailing hours format."@)
    } else {
        hours_from_moments_spec(
            parsed_offset_timestamp(mailing_day_prefix() + parts[0], mailing_hour_format()),
            parsed_offset_timestamp(mailing_day_prefix() + parts[1], mailing_hour_format()),
        )
    }
}

/// Reads one end of the mailing hours on the fixed day.
fn parse_mailing_hour(part: &str) -> (r: Option<i64>)
    ensures
        r == parsed_offset_timestamp(mailing_day_prefix() + part@, mailing_hour_format()),
{
    let mut text = String::from_str("2022-07-06 ");
    text.append(part);
    proof {
        reveal_strlit("2022-07-06 ");
        reveal_strlit("%Y-%m-%d %H:%M %z");
    }
    parse_offset_timestamp(text.as_str(), "%Y-%m-%d %H:%M %z")
}

impl RawConfiguration {
    /// The hours in which bulk messages may go out, as seconds of the day.
    pub fn parse_mailing_hours(&self) -> (r: Result<(u64, u64), String>)
        ensures
            match (r, mailing_hours_spec(self.mailing_hours@)) {
                (Ok(x), Ok(y)) => x == y,
                (Err(e), Err(f)) => e@ == f,
                _ => false,
            },
    {
        let clean = collapse_whitespace(self.mailing_hours.as_str());
        let pieces = split_at_mark(clean.as_str(), '.', '.');
        let ghost parts = mailing_hour_parts(self.mailing_hours@);
        assert(parts.len() == pieces@.len());
        if pieces.len() != 2 {
            return Err(String::from_str("Wrong mailing hours format."));
        }
        assert(pieces@[0]@ == split_mark(collapse_ws(self.mailing_hours@), ('.', '.'))[0]);
        assert(pieces@[1]@ == split_mark(collapse_ws(self.mailing_hours@), ('.', '.'))[1]);
        let first = trim(pieces[0].as_str());
        let second = trim(pieces[1].as_str());
        let from = parse_mailing_hour(first.as_str());
        let to = parse_mailing_hour(second.as_str());
        hours_from_moments(from, to)
    }

    /// The address the web interface listens on, "host:port", before it is
    /// resolved.
    pub fn socket_address(&self) -> (r: String)
        ensures
            r@ == self.listen_address@ + ":"@ + decimal(self.listen_port as nat),
    {
        let mut r = self.listen_address.clone();
        r.append(":");
        let port = u64_to_string(self.listen_port as u64);
        r.append(port.as_str());
        r
    }
}

/// The settings the bot runs with, derived from a `RawConfiguration`.
pub struct Config {
    pub telegram_bot_token: String,
    pub payment_provider_token: String,
    pub admins: HashSet<u64>,
    pub public_lists: bool,
    pub automatic_blacklisting: bool,
    pub drop_events_after_hours: u64,
    pub delete_from_black_list_after_days: u64,
    pub too_late_to_cancel_hours: u64,
    pub cleanup_old_events: bool,
    pub event_list_page_size: u64,
    pub event_page_size: u64,
    pub presence_page_size: u64,
    pub cancel_future_reservations_on_ban: bool,
    pub support: String,
    pub help: String,
    pub limit_bulk_notifications_per_second: u64,
    pub mailing_hours_from: u64,
    pub mailing_hours_to: u64,
    /// "host:port" of the web interface, to be resolved into a socket address.
    pub api_socket_address: String,
    pub db_connection_string: String,
    pub db_user: String,
    pub db_host: String,
    pub db_port: String,
    pub db_name: String,
    pub db_password: String,
}

/// The connection string of the database.
pub open spec fn connection_string_spec(r: RawConfiguration) -> Seq<char> {
    "host="@ + r.db_host@ + " port="@ + r.db_port@ + " user="@ + r.db_user@
        + " password="@ + r.db_password@ + " dbname="@ + r.db_name@
}

fn connection_string(r: &RawConfiguration) -> (s: String)
    ensures
        s@ == connection_string_spec(*r),
{
    let mut s = String::from_str("host=");
    s.append(r.db_host.as_str());
    s.append(" port=");
    s.append(r.db_port.as_str());
    s.append(" user=");
    s.append(r.db_user.as_str());
    s.append(" password=");
    s.append(r.db_password.as_str());
    s.append(" dbname=");
    s.append(r.db_name.as_str());
    s
}

/// Whether a configuration carries every setting of a raw one as it was
/// given, the administrators and the mailing hours parsed, the addresses built.
pub open spec fn config_from_raw(c: Config, r: RawConfiguration) -> bool {
    &&& c.telegram_bot_token@ == r.telegram_bot_token@
    &&& c.payment_provider_token@ == r.payment_provider_token@
    &&& c.admins@ == admin_ids_spec(r.admin_ids@)
    &&& c.public_lists == r.public_lists
    &&& c.automatic_blacklisting == r.automatic_blacklisting
    &&& c.drop_events_after_hours == r.drop_events_after_hours
    &&& c.delete_from_black_list_after_days == r.delete_from_black_list_after_days
    &&& c.too_late_to_cancel_hours == r.too_late_to_cancel_hours
    &&& c.cleanup_old_events == r.cleanup_old_events
    &&& c.event_list_page_size == r.event_list_page_size
    &&& c.event_page_size == r.event_page_size
    &&& c.presence_page_size == r.presence_page_size
    &&& c.cancel_future_reservations_on_ban == r.cancel_future_reservations_on_ban
    &&& c.support@ == r.support@
    &&& c.help@ == r.help@
    &&& c.limit_bulk_notifications_per_second == r.limit_bulk_notifications_per_second
    &&& mailing_hours_spec(r.mailing_hours@) == Ok::<(u64, u64), Seq<char>>((c.mailing_hours_from, c.mailing_hours_to))
    &&& c.api_socket_address@ == r.listen_address@ + ":"@ + decimal(r.listen_port as nat)
    &&& c.db_connection_string@ == connection_string_spec(r)
    &&& c.db_user@ == r.db_user@
    &&& c.db_host@ == r.db_host@
    &&& c.db_port@ == r.db_port@
    &&& c.db_name@ == r.db_name@
    &&& c.db_password@ == r.db_password@
}

impl Config {
    /// Builds the settings from a raw configuration whose mailing hours parse.
    pub fn from_raw(value: RawConfiguration) -> (c: Config)
        requires
            mailing_hours_spec(value.mailing_hours@) is Ok,
        ensures
            config_from_raw(c, value),
    {
        let hours = value.parse_mailing_hours();
        let (from, to) = match hours {
            Ok(h) => h,
            Err(_) => {
                assert(false);
                (0, 0)
            },
        };
        let db_connection_string = connection_string(&value);
        let api_socket_address = value.socket_address();
        let admins = value.parse_admins();
        Config {
            api_socket_address,
            telegram_bot_token: value.telegram_bot_token,
            payment_provider_token: value.payment_provider_token,
            admins,
            public_lists: value.public_lists,
            automatic_blacklisting: value.automatic_blacklisting,
            drop_events_after_hours: value.drop_events_after_hours,
            delete_from_black_list_after_days: value.delete_from_black_list_after_days,
            too_late_to_cancel_hours: value.too_late_to_cancel_hours,
            cleanup_old_events: value.cleanup_old_events,
            event_list_page_size: value.event_list_page_size,
            event_page_size: value.event_page_size,
            presence_page_size: value.presence_page_size,
            cancel_future_reservations_on_ban: value.cancel_future_reservations_on_ban,
            support: value.support,
            help: value.help,
            limit_bulk_notifications_per_second: value.limit_bulk_notifications_per_second,
            mailing_hours_from: from,
            mailing_hours_to: to,
            db_user: value.db_user,
            db_host: value.db_host,
            db_port: value.db_port,
            db_name: value.db_name,
            db_connection_string,
            db_password: value.db_password,
        }
    }

    /// Builds the settings from a raw configuration, or says why its mailing
    /// hours were refused.
    pub fn try_from_raw(value: RawConfiguration) -> (r: Result<Config, String>)
        ensures
            match (r, mailing_hours_spec(value.mailing_hours@)) {
                (Ok(c), Ok(_)) => config_from_raw(c, value),
                (Err(e), Err(f)) => e@ == f,
                _ => false,
            },
    {
        match value.parse_mailing_hours() {
            Ok(_) => Ok(Config::from_raw(value)),
            Err(e) => Err(e),
        }
    }
}

} // verus!
