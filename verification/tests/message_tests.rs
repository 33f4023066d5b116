use event_manager::messages::{
    choose_recipients, collects_recipients, plan_round, QueuedMessage, collects_recipients_service, event_name, group_message_text,
    late_cancel_reason, prompt_send_time, reminder_text, waiting_list_prompt,
};
use event_manager::entity::MessageType;
use event_manager::format::{arrange_group_messages, message_audience, messages, group_message, event_title};
use event_manager::dialog::note_of_message;
use event_manager::pagination::{Pagination, RawPagination};
use event_manager::types::{Counter, Event, EventStats, GroupMessage, User};

fn sample_event() -> Event {
    Event {
        id: 3,
        name: "Tour".to_string(),
        link: "https://x.org/t".to_string(),
        max_adults: 4,
        max_children: 4,
        max_adults_per_reservation: 2,
        max_children_per_reservation: 2,
        ts: 1650445814,
        remind: 0,
        adult_ticket_price: 0,
        child_ticket_price: 0,
        currency: "EUR".to_string(),
    }
}

#[test]
fn recipients_of_a_round() {
    let c = vec![11u64, 12, 13];
    let r = choose_recipients(MessageType::WaitingListPrompt, &c, 5);
    assert_eq!(r.recipients, vec![11]);
    assert_eq!(r.remaining, 4);
    assert!(!r.stop);
    assert!(!r.finished);
    let r = choose_recipients(MessageType::Direct, &c, 3);
    assert_eq!(r.recipients, vec![11, 12, 13]);
    assert_eq!(r.remaining, 0);
    assert!(r.stop);
    let r = choose_recipients(MessageType::Reminder, &vec![], 3);
    assert!(r.finished);
    assert!(!r.stop);
    assert!(!collects_recipients(MessageType::WaitingListPrompt, false));
    assert!(collects_recipients(MessageType::Direct, false));
    assert!(!collects_recipients_service(MessageType::Direct, true));
    assert!(collects_recipients_service(MessageType::WaitingListPrompt, true));
}

#[test]
fn message_texts() {
    let e = sample_event();
    let r = reminder_text(&e);
    assert!(r.starts_with("\nЗдравствуйте!\nНе забудьте, пожалуйста, что вы записались на\n<a href=\"https://x.org/t\">Tour</a>\nНачало: 20.04 09:10\n"));
    assert_eq!(event_name("Tour", 1650445814), "20.04 09:10 Tour");
    assert_eq!(
        waiting_list_prompt("20.04 09:10 Tour"),
        "Кто-то отменил бронирование на мероприятие: \"20.04 09:10 Tour\".\nВы можете попробовать записаться."
    );
    assert_eq!(prompt_send_time(100), 110);
    let s = EventStats::new(e, Counter { reserved: 0, my_reservation: 0, my_waiting: 0 }, Counter { reserved: 0, my_reservation: 0, my_waiting: 0 }, 0);
    assert_eq!(late_cancel_reason(&s), "late cancel 20.04 09:10 Tour");
    let u = User { id: 77, user_name1: "Admin".into(), user_name2: "".into(), is_admin: true };
    assert_eq!(
        group_message_text(&u, &s, "Hello"),
        "<a href=\"tg://user?id=77\">Admin</a>:\nСообщение по мероприятию <a href=\"https://x.org/t\">Tour</a> (Начало: 20.04 09:10)\nHello"
    );
    assert_eq!(event_title(&s.event), "<a href=\"https://x.org/t\">Tour</a>");
}

#[test]
fn group_messages() {
    let rows = vec![
        GroupMessage { sender: "B".into(), text: "second".into(), ts: 1650445814, waiting_list: 1 },
        GroupMessage { sender: "".into(), text: "old".into(), ts: 1650445814, waiting_list: 0 },
        GroupMessage { sender: "A".into(), text: "first".into(), ts: 1650445814, waiting_list: 0 },
    ];
    let ms = arrange_group_messages(rows);
    assert_eq!(ms.len(), 2);
    assert_eq!(ms[0].text, "first");
    assert_eq!(group_message(&ms[0], true), "\nA, 20.04 09:10:\nfirst\n");
    assert_eq!(group_message(&ms[1], false), "\nB, 20.04 09:10 (для списка ожидания):\nsecond\n");
    let m = messages(&ms, None).unwrap();
    assert!(m.starts_with("\n\n<b>Cообщения по мероприятию</b>\nA, 20.04 09:10 (для забронировавших):\nfirst\n"));
    assert_eq!(messages(&vec![], Some(0)), None);
    let s = EventStats::new(sample_event(), Counter { reserved: 1, my_reservation: 1, my_waiting: 0 }, Counter { reserved: 0, my_reservation: 0, my_waiting: 0 }, 0);
    assert_eq!(message_audience(&s, false), Some(0));
    assert_eq!(message_audience(&s, true), None);
}

#[test]
fn escaped_notes_open_no_tags() {
    let n = note_of_message("<script>alert(1)</script> & <b>");
    assert!(!n.contains('<'));
    assert!(!n.contains('>'));
    assert_eq!(n, "&lt;script&gt;alert(1)&lt;/script&gt; &amp; &lt;b&gt;...");
}

#[test]
fn adjacent_pages() {
    for page in 1..5u64 {
        let a = RawPagination { page: Some(page), per_page: Some(30) };
        let b = RawPagination { page: Some(page + 1), per_page: Some(30) };
        assert_eq!(b.offset(), a.offset() + a.limit());
    }
    assert!(RawPagination { page: None, per_page: Some(10_000) }.limit() <= 150);
}

/// A round: only prompts to the waiting list of events with free seats reach
/// anybody, one user each, the oldest reservation first; the round ends once
/// the allowance is used up.
#[test]
fn round_plan_on_values() {
    let q = |t: MessageType, v: bool, c: Vec<u64>| QueuedMessage { message_type: t, has_vacancies: v, candidates: c };
    let qs = vec![
        q(MessageType::Direct, true, vec![1, 2]),
        q(MessageType::WaitingListPrompt, false, vec![3]),
        q(MessageType::WaitingListPrompt, true, vec![4, 5]),
        q(MessageType::WaitingListPrompt, true, vec![6]),
        q(MessageType::WaitingListPrompt, true, vec![7]),
    ];
    let plan = plan_round(&qs, 2);
    assert_eq!(plan, vec![vec![], vec![], vec![4], vec![6]]);
    let plan = plan_round(&qs, 10);
    assert_eq!(plan, vec![vec![], vec![], vec![4], vec![6], vec![7]]);
    assert_eq!(plan_round(&qs, 0), vec![Vec::<u64>::new(); 5]);
}
