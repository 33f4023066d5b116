//! The background round that sends queued messages: when it may run, what it
//! reports, and when the next round comes.
use vstd::prelude::*;
use crate::callback::CallbackQuery;
use crate::config::{Config, truncated_rem};
use crate::entity::MessageType;
use crate::keyboard::{Button, button_view, callback_button, new_callback_button};
use crate::messages::MessageBatch;
use crate::text::{as_signed, to_signed};

verus! {

/// Whether bulk messages may go out at Unix time `now`: the seconds since
/// midnight (Rust's remainder) lie in the configured window, its ends read
/// as signed numbers.
pub open spec fn mailing_time_spec(from: u64, to: u64, now: i64) -> bool {
    let secs = truncated_rem(now as int, 86400);
    secs >= as_signed(from) && secs < as_signed(to)
}

pub fn is_mailing_time(cfg: &Config, now: i64) -> (r: bool)
    ensures
        r == mailing_time_spec(cfg.mailing_hours_from, cfg.mailing_hours_to, now),
{
    let secs: i64 = if now >= 0 {
        now % 86400
    } else {
        let n: i64 = -(now + 1);
        -(n % 86400 + 1) + if (n % 86400) == 86399 { 86400 } else { 0 }
    };
    proof {
        if now < 0 {
            let n = -(now + 1);
            assert((-now) % 86400 == if n % 86400 == 86399 { 0 } else { n % 86400 + 1 });
        }
    }
    secs >= to_signed(cfg.mailing_hours_from) && secs < to_signed(cfg.mailing_hours_to)
}

/// The number of messages a round sends: one per recipient of each batch.
pub open spec fn notification_count(ms: Seq<MessageBatch>) -> int
    decreases ms.len(),
{
    if ms.len() == 0 {
        0
    } else {
        notification_count(ms.drop_last()) + ms.last().recipients@.len()
    }
}

/// Whether a round sent a prompt to the waiting list to somebody.
pub open spec fn sent_waiting_list_prompt(ms: Seq<MessageBatch>) -> bool {
    exists|i: int| 0 <= i < ms.len() && #[trigger] ms[i].message_type == MessageType::WaitingListPrompt
        && ms[i].recipients@.len() > 0
}

/// What a round reports: how many messages went out, and whether one of them
/// was a prompt to the waiting list.
pub fn round_summary(ms: &Vec<MessageBatch>) -> (r: (u64, bool))
    requires
        notification_count(ms@) <= u64::MAX,
    ensures
        r.0 == notification_count(ms@),
        r.1 == sent_waiting_list_prompt(ms@),
{
    let mut count: u64 = 0;
    let mut prompt = false;
    let mut i: usize = 0;
    while i < ms.len()
        invariant
            i <= ms@.len(),
            notification_count(ms@) <= u64::MAX,
            count == notification_count(ms@.take(i as int)),
            prompt == sent_waiting_list_prompt(ms@.take(i as int)),
        decreases ms@.len() - i,
    {
        proof {
            lemma_count_prefix(ms@, i as int + 1);
            assert(ms@.take(i + 1).drop_last() =~= ms@.take(i as int));
        }
        count = count + ms[i].recipients.len() as u64;
        if ms[i].message_type == MessageType::WaitingListPrompt && ms[i].recipients.len() > 0 {
            prompt = true;
        }
        proof {
            let t = ms@.take(i + 1);
            assert(t[i as int] == ms@[i as int]);
            if !prompt {
                assert forall|j: int| 0 <= j < t.len() implies !(#[trigger] t[j].message_type == MessageType::WaitingListPrompt
                    && t[j].recipients@.len() > 0) by {
                    if j < i {
                        assert(t[j] == ms@.take(i as int)[j]);
                    }
                };
            } else if !(ms@[i as int].message_type == MessageType::WaitingListPrompt && ms@[i as int].recipients@.len() > 0) {
                let k = choose|k: int| 0 <= k < i && #[trigger] ms@.take(i as int)[k].message_type == MessageType::WaitingListPrompt
                    && ms@.take(i as int)[k].recipients@.len() > 0;
                assert(t[k] == ms@.take(i as int)[k]);
            }
        }
        i = i + 1;
    }
    assert(ms@.take(ms@.len() as int) =~= ms@);
    (count, prompt)
}

/// A prefix of the batches never sends more than all of them.
proof fn lemma_count_prefix(ms: Seq<MessageBatch>, k: int)
    requires
        0 <= k <= ms.len(),
    ensures
        notification_count(ms.take(k)) <= notification_count(ms),
    decreases ms.len() - k,
{
    if k < ms.len() {
        lemma_count_prefix(ms, k + 1);
        assert(ms.take(k + 1).drop_last() =~= ms.take(k));
    } else {
        assert(ms.take(k) =~= ms);
    }
}

/// The pause before the next round, in milliseconds: short while messages
/// flow, long when nothing went out or a prompt to the waiting list did (to
/// leave time for an answer).
pub open spec fn next_round_delay_spec(notifications: u64, prompt_sent: bool) -> u64 {
    if notifications > 0 && !prompt_sent { 1000 } else { 30_000 }
}

pub fn next_round_delay_ms(notifications: u64, prompt_sent: bool) -> (r: u64)
    ensures
        r == next_round_delay_spec(notifications, prompt_sent),
{
    if notifications > 0 && !prompt_sent { 1000 } else { 30_000 }
}

/// The request behind the button under a queued message.
pub open spec fn event_link_query(message: MessageBatch) -> CallbackQuery {
    if message.is_paid {
        CallbackQuery::PaidEvent { event_id: message.event_id, adults: 0, children: 0, offset: 0 }
    } else {
        CallbackQuery::Event { event_id: message.event_id, offset: 0 }
    }
}

/// The button under a queued message that leads to its event.
pub fn link_to_event_button(message: &MessageBatch) -> (b: Button)
    ensures
        button_view(b) == callback_button("К мероприятию"@, event_link_query(*message)),
{
    let q = if message.is_paid {
        CallbackQuery::PaidEvent { event_id: message.event_id, adults: 0, children: 0, offset: 0 }
    } else {
        CallbackQuery::Event { event_id: message.event_id, offset: 0 }
    };
    new_callback_button("К мероприятию", q)
}

} // verus!
