use event_manager::admin::{
    absent_participants_to_ban, admin_ban, admin_help, ban_reason, check_event_link, event_from_times, new_event,
    wants_reminder, AddEventError, AttendanceRow, NewEvent,
};
use event_manager::callback::CallbackQuery;
use event_manager::dialog::{
    admin_action, cancel_ban, digits_postscript, late_cancel_postscript, may_confirm_presence, note_of_message,
    sign_up_postscript, stored_note, user_action, user_help, utf8_len_below, wont_go_reply, AdminAction, UserAction,
};
use event_manager::keyboard::ButtonAction;
use event_manager::listing::{
    callback_button_text, checked_events_keyboard, emoji_for_event, event_list_message, tickets_status, ListedEvent,
};
use event_manager::entity::EventState;
use event_manager::types::EventType;
use event_manager::types::{Counter, Event, EventStats};
use std::collections::HashSet;

fn free_event(adult_price: u64) -> EventStats {
    EventStats::new(
        Event {
            id: 2,
            name: "Picnic".to_string(),
            link: "".to_string(),
            max_adults: 5,
            max_children: 5,
            max_adults_per_reservation: 2,
            max_children_per_reservation: 2,
            ts: 1650445814,
            remind: 0,
            adult_ticket_price: adult_price,
            child_ticket_price: 0,
            currency: "EUR".to_string(),
        },
        Counter { reserved: 0, my_reservation: 0, my_waiting: 0 },
        Counter { reserved: 0, my_reservation: 0, my_waiting: 0 },
        0,
    )
}

#[test]
fn late_cancellations() {
    assert_eq!(cancel_ban(true, &Some(free_event(0))), Some("late cancel 20.04 09:10 Picnic".to_string()));
    assert_eq!(cancel_ban(false, &Some(free_event(0))), None);
    assert_eq!(cancel_ban(true, &Some(free_event(100))), None);
    assert_eq!(cancel_ban(true, &None), None);
}

#[test]
fn user_buttons() {
    assert_eq!(
        user_action(CallbackQuery::SignUp { event_id: 3, is_adult: false, wait: true }, false, false),
        UserAction::SignUp { event_id: 3, adults: 0, children: 1, wait: 1 }
    );
    assert_eq!(
        user_action(CallbackQuery::Cancel { event_id: 3, is_adult: true }, false, false),
        UserAction::Cancel { event_id: 3, adults: 1 }
    );
    assert_eq!(
        user_action(CallbackQuery::ShowWaitingList { event_id: 3, offset: 1 }, false, false),
        UserAction::ListNotAllowed
    );
    assert_eq!(
        user_action(CallbackQuery::ShowWaitingList { event_id: 3, offset: 1 }, true, false),
        UserAction::ShowWaitingList { event_id: 3, offset: 1 }
    );
    assert_eq!(
        user_action(CallbackQuery::ShowWaitingList { event_id: 3, offset: 1 }, false, true),
        UserAction::ShowWaitingList { event_id: 3, offset: 1 }
    );
    assert_eq!(
        user_action(CallbackQuery::ChangeEventState { event_id: 3, state: 1 }, true, true),
        UserAction::NotAllowed
    );
    assert_eq!(user_action(CallbackQuery::ShowBlackList { offset: 0 }, true, true), UserAction::NotAllowed);
    assert_eq!(user_action(CallbackQuery::EventList { offset: 2 }, false, false), UserAction::ShowEventList { offset: 2 });
}

#[test]
fn admin_buttons() {
    assert_eq!(
        admin_action(CallbackQuery::ChangeEventState { event_id: 3, state: 1 }),
        AdminAction::ChangeEventState { event_id: 3, state: 1 }
    );
    assert_eq!(
        admin_action(CallbackQuery::ConfirmRemoveFromBlackList { user_id: 8 }),
        AdminAction::ConfirmRemoveFromBlackList { user_id: 8 }
    );
    assert_eq!(admin_action(CallbackQuery::Event { event_id: 3, offset: 0 }), AdminAction::AsUser);
}

#[test]
fn presence_permission() {
    assert!(may_confirm_presence(true, None));
    assert!(may_confirm_presence(false, Some(true)));
    assert!(!may_confirm_presence(false, Some(false)));
    assert!(!may_confirm_presence(false, None));
}

#[test]
fn postscripts_and_replies() {
    assert_eq!(sign_up_postscript(false, "s", 1, "h"), None);
    let t = sign_up_postscript(true, "42", 1000, "https://help").unwrap();
    assert!(t.starts_with("\n\nИзвините, но бронирование невозможно"));
    assert!(t.contains("<a href=\"tg://user?id=42\">поддержкой</a> и сообщите код 1000. <a href=\"https://help\">Инструкция</a>."));
    assert_eq!(late_cancel_postscript(false), None);
    assert!(late_cancel_postscript(true).unwrap().starts_with("\n\nВНИМАНИЕ!\n"));
    assert_eq!(wont_go_reply(false), "Мы сожалеем, что вы не сможете пойти. Увидимся в другой раз. Спасибо!");
    assert!(wont_go_reply(true).starts_with("К сожалению"));
    let h = user_help("https://help");
    assert!(h.starts_with("Здесь вы можете бронировать места на мероприятия.\n \n /start"));
    assert!(h.contains("<a href=\"https://help\">Подробная инструкция</a>"));
}

#[test]
fn notes() {
    assert_eq!(note_of_message("a <b> & c"), "a &lt;b&gt; &amp; c...");
    assert_eq!(stored_note("short"), "short...");
    let long = "x".repeat(256);
    assert_eq!(stored_note(&long), long);
    let cyr = "ж".repeat(128);
    assert_eq!(stored_note(&cyr), cyr);
    let cyr = "ж".repeat(127);
    assert_eq!(stored_note(&cyr), format!("{}...", cyr));
    assert!(utf8_len_below("abc", 4));
    assert!(!utf8_len_below("abcd", 4));
    assert!(!utf8_len_below("", 0));
    assert!(digits_postscript("two adults").is_none());
    assert!(digits_postscript("2 adults").unwrap().contains("Ваше примечание содержит цифры"));
    assert!(digits_postscript("½ portion").is_some());
}

#[test]
fn admin_help_is_escaped() {
    let h = admin_help();
    assert!(h.starts_with("Добавить мероприятие: \n \\{ \"name\":\"тест\""));
    assert!(h.contains("/set\\_event\\_limits <event\\> <max\\_adults\\> <max\\_children\\> "));
    assert!(h.contains("https://t\\.me/storiesvienna/21"));
}

fn description(start: &str, remind: &str) -> NewEvent {
    NewEvent {
        id: None,
        name: "тест".to_string(),
        link: "https://t.me/storiesvienna/21".to_string(),
        start: start.to_string(),
        remind: remind.to_string(),
        max_adults: 15,
        max_children: 15,
        max_adults_per_reservation: 15,
        max_children_per_reservation: 15,
        adult_ticket_price: 0,
        child_ticket_price: 0,
        currency: "EUR".to_string(),
    }
}

#[test]
fn new_events() {
    let e = new_event(description("2022-05-29 15:00  +02:00", "2022-05-28 15:00  +02:00")).unwrap();
    assert_eq!(e.id, 0);
    assert_eq!(e.ts, 1653829200);
    assert_eq!(e.remind, 1653742800);
    assert_eq!(e.get_type(), EventType::Free);
    assert!(new_event(description("2022-05-29 15:00 +02:00", "2022-05-28 15:00 +02:00")).is_ok());
    assert!(wants_reminder(5, &e));
    assert!(!wants_reminder(0, &e));
    assert_eq!(
        new_event(description("2022-05-29 15:00", "2022-05-28 15:00  +02:00")).unwrap_err(),
        AddEventError::DateNotParsed
    );
    let mut d = description("", "");
    d.max_adults = 0;
    d.adult_ticket_price = 100;
    assert_eq!(event_from_times(d, Some(1), Some(2)).unwrap_err(), AddEventError::WrongFormat);
    assert_eq!(AddEventError::WrongFormat.message(), "Wrong event format");
    let mut d = description("", "");
    d.id = Some(44);
    let e = event_from_times(d, Some(-1), Some(2)).unwrap();
    assert_eq!(e.id, 44);
    assert_eq!(e.ts, u64::MAX);
}

#[test]
fn announcement_links() {
    let mut d = description("", "");
    d.max_adults = 0;
    d.max_children = 0;
    let e = event_from_times(d, Some(1), Some(1)).unwrap();
    assert!(check_event_link(&e));
    assert!(!wants_reminder(5, &e));
    let mut d = description("", "");
    d.max_adults = 0;
    d.max_children = 0;
    d.link = "not a link".to_string();
    let e = event_from_times(d, Some(1), Some(1)).unwrap();
    assert!(!check_event_link(&e));
    let mut d = description("", "");
    d.link = "not a link".to_string();
    let e = event_from_times(d, Some(1), Some(1)).unwrap();
    assert!(check_event_link(&e));
}

#[test]
fn black_list_entries() {
    assert_eq!(ban_reason(None), "unknown user");
    assert_eq!(ban_reason(Some("late cancel".to_string())), "late cancel");
    let b = admin_ban(77, None);
    assert_eq!(b.user_name1, "77");
    assert_eq!(b.user_name2, "");
    assert_eq!(b.reason, "banned by admin");
    let b = admin_ban(77, Some(("Ann".to_string(), "ann".to_string())));
    assert_eq!(b.user_name1, "Ann");
    assert_eq!(b.user_name2, "ann");
}

fn row(user_id: u64, present: bool) -> AttendanceRow {
    AttendanceRow { user_id, user_name1: format!("u{}", user_id), user_name2: String::new(), reserved: 1, present }
}

#[test]
fn absent_participants() {
    let admins: HashSet<u64> = [3u64].into_iter().collect();
    let rows = vec![row(1, true), row(2, false), row(3, false), row(4, false)];
    assert_eq!(absent_participants_to_ban(&rows, &admins), vec![1, 3]);
    let rows = vec![row(2, false), row(4, false)];
    assert_eq!(absent_participants_to_ban(&rows, &admins), Vec::<usize>::new());
    let rows = vec![row(1, true), row(2, true)];
    assert_eq!(absent_participants_to_ban(&rows, &admins), Vec::<usize>::new());
}

fn listed(max_adults: i64, max_children: i64, price: i64) -> ListedEvent {
    ListedEvent {
        name: "Show".to_string(),
        link: "https://example.com/show".to_string(),
        event_start_time: "2023-05-26 14:22:00".to_string(),
        state: EventState::Open,
        max_adults,
        max_children,
        adult_ticket_price: price,
        child_ticket_price: 0,
        my_adults: 0,
        my_children: 0,
        my_wait_adults: 1,
        my_wait_children: 0,
    }
}

#[test]
fn listed_events() {
    let e = listed(10, 5, 0);
    assert_eq!(tickets_status(&e), "9(5)");
    assert_eq!(emoji_for_event(&e), "⏳");
    assert_eq!(callback_button_text(&e), "⏳ 2023-05-26 14:22:00 / 9(5) / Show");
    let mut e = listed(10, 0, 100);
    e.my_wait_adults = 0;
    assert_eq!(tickets_status(&e), "10");
    assert_eq!(emoji_for_event(&e), "");
    e.state = EventState::Close;
    assert_eq!(tickets_status(&e), "-");
    let mut e = listed(0, 0, 0);
    e.my_wait_adults = 0;
    assert_eq!(emoji_for_event(&e), "✨");
    let k = checked_events_keyboard(&vec![listed(0, 0, 0), listed(3, 3, 0)]).unwrap();
    assert!(matches!(&k[0][0].action, ButtonAction::Url(u) if u == "https://example.com/show"));
    assert_eq!(k[0][0].text, "ℹ️ 2023-05-26 14:22:00 Show");
    assert!(matches!(&k[1][0].action, ButtonAction::Data(d) if d.is_empty()));
    let mut bad = listed(0, 0, 0);
    bad.link = "nope".to_string();
    assert!(checked_events_keyboard(&vec![bad]).is_none());
    let m = event_list_message(&vec![], "https://help.example");
    assert_eq!(m.text, "Нет мероприятий.");
    let m = event_list_message(&vec![listed(3, 3, 0)], "https://help.example");
    assert_eq!(
        m.text,
        "Программа\nвремя / взросл.(детск.) места  / мероприятие\n<a href=\"https://help.example\">инструкция</a> /donate"
    );
    assert_eq!(m.keyboard.len(), 1);
}
