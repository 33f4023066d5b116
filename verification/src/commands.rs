//! Reading the text commands users and administrators send to the bot.
use vstd::prelude::*;
use vstd::string::*;
use crate::text::{split_n, split_char_n, views, starts_with_spec, starts_with, parse_u64_spec, parse_u64, str_eq, skip_chars,
    decimal, find_char, lemma_find_char, lemma_decimal_digits, lemma_parse_decimal, is_digit};

verus! {

/// What a user's message asks for.
#[derive(Clone, Copy, Debug, PartialEq, Eq, Structural)]
pub enum UserCommand {
    /// "/start": the list of events.
    ShowEventList,
    /// "/start <event>": a direct link to an event.
    ShowEvent { event_id: u64 },
    /// "/start donate_<amount>" or "/donate": a donation.
    Donate { amount: u64 },
    /// "/help".
    Help,
    /// Any other text: a note to the user's current reservation.
    AddAttachment,
    /// A command that could not be read.
    Unknown,
}

/// What a user's message asks for. Words are separated by single spaces; the
/// third word and what follows it are one piece.
pub open spec fn user_command_spec(data: Seq<char>) -> UserCommand {
    let pars = split_n(data, ' ', 3);
    let cmd = pars[0];
    if cmd == "/start"@ {
        if pars.len() == 2 {
            if starts_with_spec(pars[1], "donate_"@) {
                match parse_u64_spec(pars[1].skip(7)) {
                    Some(amount) => UserCommand::Donate { amount },
                    None => UserCommand::Unknown,
                }
            } else {
                match parse_u64_spec(pars[1]) {
                    Some(event_id) => UserCommand::ShowEvent { event_id },
                    None => UserCommand::Unknown,
                }
            }
        } else {
            UserCommand::ShowEventList
        }
    } else if cmd == "/donate"@ {
        UserCommand::Donate { amount: 500 }
    } else if cmd == "/crt"@ {
        UserCommand::Unknown
    } else if cmd == "/help"@ {
        UserCommand::Help
    } else {
        UserCommand::AddAttachment
    }
}

proof fn lemma_split_n_nonempty(s: Seq<char>, c: char, n: nat)
    requires
        n >= 1,
    ensures
        split_n(s, c, n).len() >= 1,
{
}

/// Reads a user's message.
pub fn parse_user_command(data: &str) -> (r: UserCommand)
    ensures
        r == user_command_spec(data@),
{
    let pars = split_char_n(data, ' ', 3);
    proof {
        lemma_split_n_nonempty(data@, ' ', 3);
        assert(views(pars@).len() == pars@.len());
        assert(views(pars@)[0] == pars@[0]@);
    }
    let cmd = pars[0].as_str();
    if str_eq(cmd, "/start") {
        if pars.len() == 2 {
            let arg = pars[1].as_str();
            assert(views(pars@)[1] == pars@[1]@);
            if starts_with(arg, "donate_") {
                proof { reveal_strlit("donate_"); }
                let amount = skip_chars(arg, 7);
                match parse_u64(amount.as_str()) {
                    Some(amount) => UserCommand::Donate { amount },
                    None => UserCommand::Unknown,
                }
            } else {
                match parse_u64(arg) {
                    Some(event_id) => UserCommand::ShowEvent { event_id },
                    None => UserCommand::Unknown,
                }
            }
        } else {
            UserCommand::ShowEventList
        }
    } else if str_eq(cmd, "/donate") {
        UserCommand::Donate { amount: 500 }
    } else if str_eq(cmd, "/crt") {
        UserCommand::Unknown
    } else if str_eq(cmd, "/help") {
        UserCommand::Help
    } else {
        UserCommand::AddAttachment
    }
}

/// Splitting "<word> <rest>" where the word has no space and the rest none
/// either gives the two.
proof fn lemma_split_two_words(w: Seq<char>, rest: Seq<char>)
    requires
        forall|i: int| 0 <= i < w.len() ==> w[i] != ' ',
        forall|i: int| 0 <= i < rest.len() ==> rest[i] != ' ',
    ensures
        split_n(w + seq![' '] + rest, ' ', 3) == seq![w, rest],
{
    lemma_split_word(w, rest, 2);
    lemma_find_char(rest, ' ');
    assert(find_char(rest, ' ') is None);
    assert(split_n(rest, ' ', 2) == seq![rest]);
    assert(seq![w] + seq![rest] =~= seq![w, rest]);
}

/// Splitting "<word> <rest>" into at most `n + 1` pieces, where the word has
/// no space, gives the word and then the pieces of the rest.
proof fn lemma_split_word(w: Seq<char>, rest: Seq<char>, n: nat)
    requires
        n >= 1,
        forall|i: int| 0 <= i < w.len() ==> w[i] != ' ',
    ensures
        split_n(w + seq![' '] + rest, ' ', n + 1) == seq![w] + split_n(rest, ' ', n),
{
    let s = w + seq![' '] + rest;
    lemma_find_char(s, ' ');
    match find_char(s, ' ') {
        Some(i) => {
            if i < w.len() {
                assert(s[i as int] == w[i as int]);
            }
            if i > w.len() {
                assert(s[w.len() as int] == ' ');
            }
            assert(s.take(i as int) =~= w);
            assert(s.skip(i as int + 1) =~= rest);
        },
        None => {
            assert(s[w.len() as int] == ' ');
        },
    }
}

/// An administrator's "/send confirmed <event> <text>" or "/send waiting
/// <event> <text>" asks to send exactly that text, spaces and all, to the
/// confirmed participants (0) or the waiting list (1) of that event.
pub proof fn lemma_send_command(event_id: u64, text: Seq<char>, waiting: bool)
    ensures
        admin_command_spec(
            (if waiting { "/send waiting "@ } else { "/send confirmed "@ }) + decimal(event_id as nat) + seq![' '] + text,
        ) == (AdminCommandView::Send { waiting_list: if waiting { 1 } else { 0 }, event_id, text }),
{
    reveal_strlit("/send waiting ");
    reveal_strlit("/send confirmed ");
    reveal_strlit("/send");
    reveal_strlit("waiting");
    reveal_strlit("confirmed");
    let d = decimal(event_id as nat);
    lemma_decimal_digits(event_id as nat);
    lemma_parse_decimal(event_id);
    assert forall|i: int| 0 <= i < d.len() implies d[i] != ' ' by {
        assert(is_digit(d[i]));
    };
    let word: Seq<char> = if waiting { "waiting"@ } else { "confirmed"@ };
    let data = (if waiting { "/send waiting "@ } else { "/send confirmed "@ }) + d + seq![' '] + text;
    let tail = d + seq![' '] + text;
    let middle = word + seq![' '] + tail;
    assert(data =~= "/send"@ + seq![' '] + middle);
    lemma_split_word(d, text, 1);
    lemma_split_word(word, tail, 2);
    lemma_split_word("/send"@, middle, 3);
    assert(split_n(text, ' ', 1) == seq![text]);
    let pars = split_n(data, ' ', 4);
    assert(pars =~= seq!["/send"@, word, d, text]);
    assert(audience_code(word) == if waiting { 1u64 } else { 0u64 });
}

/// A direct link to an event, which Telegram delivers as "/start <event>",
/// opens that event.
pub proof fn lemma_direct_link_opens_event(event_id: u64)
    ensures
        user_command_spec("/start "@ + decimal(event_id as nat)) == (UserCommand::ShowEvent { event_id }),
{
    reveal_strlit("/start ");
    reveal_strlit("/start");
    reveal_strlit("donate_");
    let d = decimal(event_id as nat);
    lemma_decimal_digits(event_id as nat);
    lemma_parse_decimal(event_id);
    assert forall|i: int| 0 <= i < d.len() implies d[i] != ' ' by {
        assert(is_digit(d[i]));
    };
    assert("/start "@ =~= "/start"@ + seq![' ']);
    lemma_split_two_words("/start"@, d);
    assert(is_digit(d[0]));
    if starts_with_spec(d, "donate_"@) {
        assert(d.take(7)[0] == 'd');
    }
}

/// A donation link, "/start donate_<amount>", asks to donate that amount.
pub proof fn lemma_donation_link(amount: u64)
    ensures
        user_command_spec("/start donate_"@ + decimal(amount as nat)) == (UserCommand::Donate { amount }),
{
    reveal_strlit("/start donate_");
    reveal_strlit("/start");
    reveal_strlit("donate_");
    let d = decimal(amount as nat);
    lemma_decimal_digits(amount as nat);
    lemma_parse_decimal(amount);
    let arg = "donate_"@ + d;
    assert forall|i: int| 0 <= i < arg.len() implies arg[i] != ' ' by {
        if i >= 7 {
            assert(arg[i] == d[i - 7]);
            assert(is_digit(d[i - 7]));
        }
    };
    assert("/start donate_"@ + d =~= "/start"@ + seq![' '] + arg);
    lemma_split_two_words("/start"@, arg);
    assert(arg.take(7) =~= "donate_"@);
    assert(arg.skip(7) =~= d);
}

/// What an administrator's message asks for.
#[derive(Clone, Debug)]
pub enum AdminCommand {
    /// "/send confirmed|waiting <event> <text>": a message to the confirmed
    /// participants (0) or to the waiting list (1).
    Send { waiting_list: u64, event_id: u64, text: String },
    /// "/ban <user>".
    Ban { user_id: u64 },
    /// "/remove_from_black_list <user>".
    RemoveFromBlackList { user_id: u64 },
    /// "/delete_event <event>".
    DeleteEvent { event_id: u64 },
    /// "/delete_link <url>".
    DeleteLink { link: String },
    /// "/delete_reservation <event> <user>".
    DeleteReservation { event_id: u64, user_id: u64 },
    /// "/set_group_leader <event> <user>".
    SetGroupLeader { event_id: u64, user_id: u64 },
    /// "/show_black_list".
    ShowBlackList,
    /// "/set_event_limits <event> <max_adults> <max_children>".
    SetEventLimits { event_id: u64, max_adults: u64, max_children: u64 },
    /// "/help".
    Help,
    /// A message starting with '{': an event description to add or change.
    AddEvent,
    /// Anything else is read as a user's message.
    User(UserCommand),
    /// A command whose arguments could not be read.
    Invalid,
}

/// What an administrator's message asks for, with texts as character sequences.
pub enum AdminCommandView {
    Send { waiting_list: u64, event_id: u64, text: Seq<char> },
    Ban { user_id: u64 },
    RemoveFromBlackList { user_id: u64 },
    DeleteEvent { event_id: u64 },
    DeleteLink { link: Seq<char> },
    DeleteReservation { event_id: u64, user_id: u64 },
    SetGroupLeader { event_id: u64, user_id: u64 },
    ShowBlackList,
    SetEventLimits { event_id: u64, max_adults: u64, max_children: u64 },
    Help,
    AddEvent,
    User(UserCommand),
    Invalid,
}

pub open spec fn admin_command_view(c: AdminCommand) -> AdminCommandView {
    match c {
        AdminCommand::Send { waiting_list, event_id, text } =>
            AdminCommandView::Send { waiting_list, event_id, text: text@ },
        AdminCommand::Ban { user_id } => AdminCommandView::Ban { user_id },
        AdminCommand::RemoveFromBlackList { user_id } => AdminCommandView::RemoveFromBlackList { user_id },
        AdminCommand::DeleteEvent { event_id } => AdminCommandView::DeleteEvent { event_id },
        AdminCommand::DeleteLink { link } => AdminCommandView::DeleteLink { link: link@ },
        AdminCommand::DeleteReservation { event_id, user_id } =>
            AdminCommandView::DeleteReservation { event_id, user_id },
        AdminCommand::SetGroupLeader { event_id, user_id } =>
            AdminCommandView::SetGroupLeader { event_id, user_id },
        AdminCommand::ShowBlackList => AdminCommandView::ShowBlackList,
        AdminCommand::SetEventLimits { event_id, max_adults, max_children } =>
            AdminCommandView::SetEventLimits { event_id, max_adults, max_children },
        AdminCommand::Help => AdminCommandView::Help,
        AdminCommand::AddEvent => AdminCommandView::AddEvent,
        AdminCommand::User(u) => AdminCommandView::User(u),
        AdminCommand::Invalid => AdminCommandView::Invalid,
    }
}

/// The audience a "/send" names: 0 for "confirmed", 1 for "waiting", 2 otherwise.
pub open spec fn audience_code(word: Seq<char>) -> u64 {
    if word == "confirmed"@ {
        0
    } else if word == "waiting"@ {
        1
    } else {
        2
    }
}

/// What an administrator's message asks for. Words are separated by single
/// spaces; the fourth word and what follows it are one piece. A command with
/// the wrong number of words is read as other text.
pub open spec fn admin_command_spec(data: Seq<char>) -> AdminCommandView {
    let pars = split_n(data, ' ', 4);
    let cmd = pars[0];
    let n = pars.len();
    if cmd == "/send"@ && n == 4 {
        let wl = audience_code(pars[1]);
        if wl < 2 {
            match parse_u64_spec(pars[2]) {
                Some(event_id) => AdminCommandView::Send { waiting_list: wl, event_id, text: pars[3] },
                None => AdminCommandView::Invalid,
            }
        } else {
            AdminCommandView::Invalid
        }
    } else if cmd == "/ban"@ && n == 2 {
        match parse_u64_spec(pars[1]) {
            Some(user_id) => AdminCommandView::Ban { user_id },
            None => AdminCommandView::Invalid,
        }
    } else if cmd == "/remove_from_black_list"@ && n == 2 {
        match parse_u64_spec(pars[1]) {
            Some(user_id) => AdminCommandView::RemoveFromBlackList { user_id },
            None => AdminCommandView::Invalid,
        }
    } else if cmd == "/delete_event"@ && n == 2 {
        match parse_u64_spec(pars[1]) {
            Some(event_id) => AdminCommandView::DeleteEvent { event_id },
            None => AdminCommandView::Invalid,
        }
    } else if cmd == "/delete_link"@ && n == 2 {
        AdminCommandView::DeleteLink { link: pars[1] }
    } else if cmd == "/delete_reservation"@ && n == 3 {
        match (parse_u64_spec(pars[1]), parse_u64_spec(pars[2])) {
            (Some(event_id), Some(user_id)) => AdminCommandView::DeleteReservation { event_id, user_id },
            _ => AdminCommandView::Invalid,
        }
    } else if cmd == "/set_group_leader"@ && n == 3 {
        match (parse_u64_spec(pars[1]), parse_u64_spec(pars[2])) {
            (Some(event_id), Some(user_id)) => AdminCommandView::SetGroupLeader { event_id, user_id },
            _ => AdminCommandView::Invalid,
        }
    } else if cmd == "/show_black_list"@ {
        AdminCommandView::ShowBlackList
    } else if cmd == "/set_event_limits"@ && n == 4 {
        match (parse_u64_spec(pars[1]), parse_u64_spec(pars[2]), parse_u64_spec(pars[3])) {
            (Some(event_id), Some(max_adults), Some(max_children)) =>
                AdminCommandView::SetEventLimits { event_id, max_adults, max_children },
            _ => AdminCommandView::Invalid,
        }
    } else if cmd == "/help"@ {
        AdminCommandView::Help
    } else if data.len() > 0 && data[0] == '{' {
        AdminCommandView::AddEvent
    } else {
        AdminCommandView::User(user_command_spec(data))
    }
}

fn audience(word: &str) -> (r: u64)
    ensures
        r == audience_code(word@),
{
    if str_eq(word, "confirmed") {
        0
    } else if str_eq(word, "waiting") {
        1
    } else {
        2
    }
}

/// Reads an administrator's message.
pub fn parse_admin_command(data: &str) -> (r: AdminCommand)
    ensures
        admin_command_view(r) == admin_command_spec(data@),
{
    let pars = split_char_n(data, ' ', 4);
    let ghost p = views(pars@);
    proof {
        lemma_split_n_nonempty(data@, ' ', 4);
        assert(p.len() == pars@.len());
        assert forall|i: int| 0 <= i < pars@.len() implies p[i] == #[trigger] pars@[i]@ by {};
    }
    let n = pars.len();
    let cmd = pars[0].as_str();
    if str_eq(cmd, "/send") && n == 4 {
        let wl = audience(pars[1].as_str());
        if wl < 2 {
            match parse_u64(pars[2].as_str()) {
                Some(event_id) => AdminCommand::Send { waiting_list: wl, event_id, text: pars[3].clone() },
                None => AdminCommand::Invalid,
            }
        } else {
            AdminCommand::Invalid
        }
    } else if str_eq(cmd, "/ban") && n == 2 {
        match parse_u64(pars[1].as_str()) {
            Some(user_id) => AdminCommand::Ban { user_id },
            None => AdminCommand::Invalid,
        }
    } else if str_eq(cmd, "/remove_from_black_list") && n == 2 {
        match parse_u64(pars[1].as_str()) {
            Some(user_id) => AdminCommand::RemoveFromBlackList { user_id },
            None => AdminCommand::Invalid,
        }
    } else if str_eq(cmd, "/delete_event") && n == 2 {
        match parse_u64(pars[1].as_str()) {
            Some(event_id) => AdminCommand::DeleteEvent { event_id },
            None => AdminCommand::Invalid,
        }
    } else if str_eq(cmd, "/delete_link") && n == 2 {
        AdminCommand::DeleteLink { link: pars[1].clone() }
    } else if str_eq(cmd, "/delete_reservation") && n == 3 {
        match (parse_u64(pars[1].as_str()), parse_u64(pars[2].as_str())) {
            (Some(event_id), Some(user_id)) => AdminCommand::DeleteReservation { event_id, user_id },
            _ => AdminCommand::Invalid,
        }
    } else if str_eq(cmd, "/set_group_leader") && n == 3 {
        match (parse_u64(pars[1].as_str()), parse_u64(pars[2].as_str())) {
            (Some(event_id), Some(user_id)) => AdminCommand::SetGroupLeader { event_id, user_id },
            _ => AdminCommand::Invalid,
        }
    } else if str_eq(cmd, "/show_black_list") {
        AdminCommand::ShowBlackList
    } else if str_eq(cmd, "/set_event_limits") && n == 4 {
        match (parse_u64(pars[1].as_str()), parse_u64(pars[2].as_str()), parse_u64(pars[3].as_str())) {
            (Some(event_id), Some(max_adults), Some(max_children)) =>
                AdminCommand::SetEventLimits { event_id, max_adults, max_children },
            _ => AdminCommand::Invalid,
        }
    } else if str_eq(cmd, "/help") {
        AdminCommand::Help
    } else if data.unicode_len() > 0 && data.get_char(0) == '{' {
        AdminCommand::AddEvent
    } else {
        AdminCommand::User(parse_user_command(data))
    }
}

} // verus!
