//! Queued messages: what they say, and who receives them in each round.
use vstd::prelude::*;
use crate::entity::MessageType;
use crate::format::{event_title, event_title_spec, showable, ts, ts_spec};
use crate::text::{decimal, u64_to_string};
use crate::types::{Event, EventStats, User};

verus! {

/// A queued message with the recipients chosen for this round.
#[derive(Debug)]
pub struct MessageBatch {
    pub message_id: u64,
    pub event_id: u64,
    pub sender: String,
    pub message_type: MessageType,
    pub waiting_list: u64,
    pub text: String,
    pub is_paid: bool,
    pub recipients: Vec<u64>,
}

/// Whether recipients are looked for: a prompt to the waiting list is sent only
/// while the event has free seats; any other message always.
pub open spec fn collects_recipients_spec(t: MessageType, has_vacancies: bool) -> bool {
    !(t == MessageType::WaitingListPrompt && !has_vacancies)
}

pub fn collects_recipients(t: MessageType, has_vacancies: bool) -> (r: bool)
    ensures
        r == collects_recipients_spec(t, has_vacancies),
{
    !(t == MessageType::WaitingListPrompt && !has_vacancies)
}

/// The same choice as the HTTP service's message queue makes it: recipients are
/// looked for only for a prompt to the waiting list, and only while seats are free.
pub fn collects_recipients_service(t: MessageType, has_vacancies: bool) -> (r: bool)
    ensures
        r == (t == MessageType::WaitingListPrompt && has_vacancies),
{
    t == MessageType::WaitingListPrompt && has_vacancies
}

/// The recipients taken from the candidates (users not yet served, oldest
/// reservation first, at most the remaining allowance): one at a time for a
/// prompt to the waiting list, all of them otherwise.
pub open spec fn taken_recipients_spec(t: MessageType, candidates: Seq<u64>) -> Seq<u64> {
    if t == MessageType::WaitingListPrompt && candidates.len() > 1 {
        candidates.take(1)
    } else {
        candidates
    }
}

/// A prompt to the waiting list goes to one user at a time; any message goes
/// to the first candidates (oldest reservations first), none twice as often as
/// the candidates list them.
pub proof fn lemma_recipients_prefix(t: MessageType, candidates: Seq<u64>)
    ensures
        t == MessageType::WaitingListPrompt ==> taken_recipients_spec(t, candidates).len() <= 1,
        taken_recipients_spec(t, candidates) == candidates.take(taken_recipients_spec(t, candidates).len() as int),
        candidates.len() > 0 ==> taken_recipients_spec(t, candidates).len() > 0,
{
    assert(candidates.take(candidates.len() as int) =~= candidates);
}

/// The recipients of one message in one round.
pub struct RecipientChoice {
    pub recipients: Vec<u64>,
    /// What is left of the round's allowance.
    pub remaining: u64,
    /// The allowance is used up: the round ends here.
    pub stop: bool,
    /// Nobody is left to receive the message: it leaves the queue.
    pub finished: bool,
}

/// Chooses the recipients of one message from the candidates, within what is
/// left of the round's allowance.
pub fn choose_recipients(t: MessageType, candidates: &Vec<u64>, max_messages: u64) -> (r: RecipientChoice)
    requires
        candidates@.len() <= max_messages,
    ensures
        r.recipients@ == taken_recipients_spec(t, candidates@),
        r.remaining == max_messages - r.recipients@.len(),
        r.stop == (r.recipients@.len() > 0 && r.remaining == 0),
        r.finished == (r.recipients@.len() == 0),
{
    let take: usize = if t == MessageType::WaitingListPrompt && candidates.len() > 1 {
        1
    } else {
        candidates.len()
    };
    let mut recipients: Vec<u64> = Vec::new();
    let mut i: usize = 0;
    while i < take
        invariant
            take <= candidates@.len(),
            i <= take,
            recipients@ == candidates@.take(i as int),
        decreases take - i,
    {
        recipients.push(candidates[i]);
        i = i + 1;
        assert(recipients@ =~= candidates@.take(i as int));
    }
    assert(candidates@.take(candidates@.len() as int) =~= candidates@);
    let remaining = max_messages - take as u64;
    RecipientChoice { recipients, remaining, stop: take > 0 && remaining == 0, finished: take == 0 }
}

/// A queued message as a round of sending sees it: its kind, whether its event
/// has free seats, and the users who hold a matching reservation and have not
/// received it yet, oldest reservation first.
pub struct QueuedMessage {
    pub message_type: MessageType,
    pub has_vacancies: bool,
    pub candidates: Vec<u64>,
}

/// The first `n` of the candidates, or all of them where there are fewer.
pub open spec fn at_most(c: Seq<u64>, n: int) -> Seq<u64> {
    if c.len() <= n {
        c
    } else {
        c.take(n)
    }
}

/// The recipients of one queued message with `remaining` messages left in the
/// round: none unless the queue's rule looks for them; else taken from at most
/// `remaining` of the candidates.
pub open spec fn round_recipients_spec(q: QueuedMessage, remaining: int) -> Seq<u64> {
    if q.message_type == MessageType::WaitingListPrompt && q.has_vacancies {
        taken_recipients_spec(q.message_type, at_most(q.candidates@, remaining))
    } else {
        seq![]
    }
}

/// The recipients of each queued message in one round, in queue order. The
/// round ends after the message that uses up the allowance.
pub open spec fn round_plan_spec(qs: Seq<QueuedMessage>, remaining: int) -> Seq<Seq<u64>>
    decreases qs.len(),
{
    if qs.len() == 0 {
        seq![]
    } else {
        let r = round_recipients_spec(qs[0], remaining);
        let left = remaining - r.len();
        if r.len() > 0 && left == 0 {
            seq![r]
        } else {
            seq![r] + round_plan_spec(qs.drop_first(), left)
        }
    }
}

/// The number of recipients over all messages of a round.
pub open spec fn total_recipients(p: Seq<Seq<u64>>) -> int
    decreases p.len(),
{
    if p.len() == 0 {
        0
    } else {
        p[0].len() + total_recipients(p.drop_first())
    }
}

/// One round of sending: it covers at most one entry per queued message and
/// ends early only once the allowance is used up; it never sends more messages
/// than allowed; only a prompt to the waiting list of an event with free seats
/// reaches anybody, and one user at a time; each message goes to its first
/// candidates, oldest reservation first.
pub proof fn lemma_round_plan(qs: Seq<QueuedMessage>, remaining: int)
    requires
        remaining >= 0,
    ensures
        round_plan_spec(qs, remaining).len() <= qs.len(),
        round_plan_spec(qs, remaining).len() < qs.len() ==> total_recipients(round_plan_spec(qs, remaining)) == remaining,
        0 <= total_recipients(round_plan_spec(qs, remaining)) <= remaining,
        forall|i: int| 0 <= i < round_plan_spec(qs, remaining).len() ==> {
            let r = #[trigger] round_plan_spec(qs, remaining)[i];
            &&& r.len() <= 1
            &&& r.len() > 0 ==> qs[i].message_type == MessageType::WaitingListPrompt && qs[i].has_vacancies
            &&& r == qs[i].candidates@.take(r.len() as int)
        },
    decreases qs.len(),
{
    if qs.len() > 0 {
        let r = round_recipients_spec(qs[0], remaining);
        let left = remaining - r.len();
        let c = qs[0].candidates@;
        assert(c.take(c.len() as int) =~= c);
        if at_most(c, remaining).len() >= 1 {
            assert(at_most(c, remaining).take(1) =~= c.take(1));
        }
        assert(r.len() <= remaining);
        let p = round_plan_spec(qs, remaining);
        if r.len() > 0 && left == 0 {
            assert(p.drop_first() =~= Seq::<Seq<u64>>::empty());
            assert(total_recipients(p.drop_first()) == 0);
        } else {
            let rest = round_plan_spec(qs.drop_first(), left);
            lemma_round_plan(qs.drop_first(), left);
            assert(p == seq![r] + rest);
            assert(p.drop_first() =~= rest);
            assert forall|i: int| 0 < i < p.len() implies {
                let x = #[trigger] p[i];
                &&& x.len() <= 1
                &&& x.len() > 0 ==> qs[i].message_type == MessageType::WaitingListPrompt && qs[i].has_vacancies
                &&& x == qs[i].candidates@.take(x.len() as int)
            } by {
                assert(p[i] == rest[i - 1]);
                assert(qs[i] == qs.drop_first()[i - 1]);
            }
        }
    }
}

/// The recipients of one queued message with `remaining` messages left.
fn round_recipients(q: &QueuedMessage, remaining: u64) -> (r: Vec<u64>)
    ensures
        r@ == round_recipients_spec(*q, remaining as int),
{
    if !collects_recipients_service(q.message_type, q.has_vacancies) {
        return Vec::new();
    }
    let mut limited: Vec<u64> = Vec::new();
    let mut i: usize = 0;
    while i < q.candidates.len() && (i as u64) < remaining
        invariant
            i <= q.candidates@.len(),
            i <= remaining,
            limited@ == q.candidates@.take(i as int),
        decreases q.candidates@.len() - i,
    {
        limited.push(q.candidates[i]);
        i = i + 1;
        assert(limited@ =~= q.candidates@.take(i as int));
    }
    assert(limited@ =~= at_most(q.candidates@, remaining as int));
    let choice = choose_recipients(q.message_type, &limited, remaining);
    choice.recipients
}

/// Plans one round of sending over the queue with an allowance of
/// `max_messages`: the recipients of each message covered, in queue order.
pub fn plan_round(qs: &Vec<QueuedMessage>, max_messages: u64) -> (r: Vec<Vec<u64>>)
    ensures
        r@.map_values(|v: Vec<u64>| v@) == round_plan_spec(qs@, max_messages as int),
{
    let mut out: Vec<Vec<u64>> = Vec::new();
    let mut remaining = max_messages;
    let mut i: usize = 0;
    let mut done = false;
    assert(qs@.skip(0) =~= qs@);
    assert(out@.map_values(|v: Vec<u64>| v@) + round_plan_spec(qs@, max_messages as int)
        =~= round_plan_spec(qs@, max_messages as int));
    while i < qs.len() && !done
        invariant
            i <= qs@.len(),
            !done ==> round_plan_spec(qs@, max_messages as int)
                == out@.map_values(|v: Vec<u64>| v@) + round_plan_spec(qs@.skip(i as int), remaining as int),
            done ==> round_plan_spec(qs@, max_messages as int) == out@.map_values(|v: Vec<u64>| v@),
        decreases qs@.len() - i + (if done { 0int } else { 1int }),
    {
        let recipients = round_recipients(&qs[i], remaining);
        proof {
            lemma_round_plan(seq![qs@[i as int]], remaining as int);
            assert(round_plan_spec(seq![qs@[i as int]], remaining as int)[0] == recipients@);
        }
        let n = recipients.len() as u64;
        let stop = n > 0 && n == remaining;
        let ghost before = out@;
        let ghost tail = qs@.skip(i as int);
        assert(tail[0] == qs@[i as int]);
        assert(tail.drop_first() =~= qs@.skip(i + 1));
        remaining = remaining - n;
        out.push(recipients);
        assert(out@.map_values(|v: Vec<u64>| v@) =~= before.map_values(|v: Vec<u64>| v@).push(recipients@));
        if stop {
            done = true;
            assert(round_plan_spec(tail, (remaining + n) as int) == seq![recipients@]);
        } else {
            assert(round_plan_spec(tail, (remaining + n) as int)
                == seq![recipients@] + round_plan_spec(qs@.skip(i + 1), remaining as int));
            i = i + 1;
        }
    }
    if !done {
        assert(qs@.skip(i as int) =~= Seq::<QueuedMessage>::empty());
    }
    out
}

/// The reminder sent before an event to everybody who reserved.
pub open spec fn reminder_text_spec(e: Event) -> Seq<char> {
    "\nЗдравствуйте!\nНе забудьте, пожалуйста, что вы записались на\n<a href=\""@ + e.link@ + "\">"@
        + e.name@ + "</a>\nНачало: "@ + ts_spec(e.ts)
        + "\nПожалуйста, вовремя откажитесь от мест, если ваши планы изменились.\n"@
}

pub fn reminder_text(e: &Event) -> (r: String)
    requires
        showable(e.ts),
    ensures
        r@ == reminder_text_spec(*e),
{
    let mut text = String::from_str("\nЗдравствуйте!\nНе забудьте, пожалуйста, что вы записались на\n<a href=\"");
    text.append(e.link.as_str());
    text.append("\">");
    text.append(e.name.as_str());
    text.append("</a>\nНачало: ");
    text.append(ts(e.ts).as_str());
    text.append("\nПожалуйста, вовремя откажитесь от мест, если ваши планы изменились.\n");
    assert(text@ =~= reminder_text_spec(*e));
    text
}

/// The name of an event in messages: its start, then its name.
pub open spec fn event_name_spec(name: Seq<char>, ts: u64) -> Seq<char> {
    ts_spec(ts) + " "@ + name
}

pub fn event_name(name: &str, t: u64) -> (r: String)
    requires
        showable(t),
    ensures
        r@ == event_name_spec(name@, t),
{
    let mut r = ts(t);
    r.append(" ");
    r.append(name);
    r
}

/// The prompt sent to the waiting list when seats become free.
pub open spec fn waiting_list_prompt_spec(event_name: Seq<char>) -> Seq<char> {
    "Кто-то отменил бронирование на мероприятие: \""@ + event_name
        + "\".\nВы можете попробовать записаться."@
}

pub fn waiting_list_prompt(event_name: &str) -> (r: String)
    ensures
        r@ == waiting_list_prompt_spec(event_name@),
{
    let mut r = String::from_str("Кто-то отменил бронирование на мероприятие: \"");
    r.append(event_name);
    r.append("\".\nВы можете попробовать записаться.");
    r
}

/// When a prompt to the waiting list is sent: a few seconds later, so that
/// several cancellations in a row make one prompt.
pub fn prompt_send_time(now: u64) -> (r: u64)
    requires
        now + 10 <= u64::MAX,
    ensures
        r == now + 10,
{
    now + 10
}

/// A message of an administrator to the participants of an event.
pub open spec fn group_message_text_spec(user: User, s: EventStats, text: Seq<char>) -> Seq<char> {
    "<a href=\"tg://user?id="@ + decimal(user.id as nat) + "\">"@ + user.user_name1@
        + "</a>:\nСообщение по мероприятию "@ + event_title_spec(s.event) + " (Начало: "@
        + ts_spec(s.event.ts) + ")\n"@ + text
}

pub fn group_message_text(user: &User, s: &EventStats, text: &str) -> (r: String)
    requires
        showable(s.event.ts),
    ensures
        r@ == group_message_text_spec(*user, *s, text@),
{
    let mut r = String::from_str("<a href=\"tg://user?id=");
    r.append(u64_to_string(user.id).as_str());
    r.append("\">");
    r.append(user.user_name1.as_str());
    r.append("</a>:\nСообщение по мероприятию ");
    r.append(event_title(&s.event).as_str());
    r.append(" (Начало: ");
    r.append(ts(s.event.ts).as_str());
    r.append(")\n");
    r.append(text);
    assert(r@ =~= group_message_text_spec(*user, *s, text@));
    r
}

/// The reason recorded when a late cancellation puts a user on the black list.
pub open spec fn late_cancel_reason_spec(s: EventStats) -> Seq<char> {
    "late cancel "@ + ts_spec(s.event.ts) + " "@ + s.event.name@
}

pub fn late_cancel_reason(s: &EventStats) -> (r: String)
    requires
        showable(s.event.ts),
    ensures
        r@ == late_cancel_reason_spec(*s),
{
    let mut r = String::from_str("late cancel ");
    r.append(ts(s.event.ts).as_str());
    r.append(" ");
    r.append(s.event.name.as_str());
    r
}

} // verus!
