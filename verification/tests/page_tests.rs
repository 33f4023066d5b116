use event_manager::callback::CallbackQuery;
use event_manager::entity::EventState;
use event_manager::guards::{event_list_ok, event_page_ok, is_showable, message_times_ok, seat_sums_ok};
use event_manager::keyboard::{get_signup_controls, ButtonAction, Button};
use event_manager::lists::{checked_event_list, show_black_list, show_event_list, show_presence_list, show_waiting_list, confirm_unban};
use event_manager::reply::{paging_row, Paging};
use event_manager::types::{Counter, Event, EventStats, GroupMessage, Participant, Presence, User};
use event_manager::views::show_event;
use event_manager::booking::SignUpError;

fn event(max_adults: u64, max_children: u64) -> Event {
    Event {
        id: 5,
        name: "Walk".to_string(),
        link: "".to_string(),
        max_adults,
        max_children,
        max_adults_per_reservation: 2,
        max_children_per_reservation: 2,
        ts: 1650445814,
        remind: 0,
        adult_ticket_price: 0,
        child_ticket_price: 0,
        currency: "EUR".to_string(),
    }
}

fn stats(e: Event, a: Counter, c: Counter) -> EventStats {
    EventStats::new(e, a, c, 0)
}

fn counter(reserved: u64, mine: u64, waiting: u64) -> Counter {
    Counter { reserved, my_reservation: mine, my_waiting: waiting }
}

fn labels(row: &Vec<Button>) -> Vec<String> {
    row.iter().map(|b| b.text.clone()).collect()
}

#[test]
fn paging_links() {
    let p = Paging {
        prev: CallbackQuery::EventList { offset: 0 },
        next: CallbackQuery::EventList { offset: 2 },
        len: 20,
        page_size: 20,
        offset: 1,
    };
    let row = paging_row(&p);
    assert_eq!(labels(&row), vec!["⬅️", "➡️"]);
    assert!(matches!(row[1].action, ButtonAction::Callback(CallbackQuery::EventList { offset: 2 })));
    let p = Paging { len: 3, offset: 0, ..p };
    assert!(paging_row(&p).is_empty());
}

#[test]
fn guards() {
    assert!(is_showable(1650445814));
    assert!(!is_showable(9_000_000_000_000));
    let s = stats(event(2, 2), counter(1, 1, 0), counter(0, 0, 0));
    assert!(event_page_ok(&s, false));
    let s = stats(event(2, 2), counter(1, u64::MAX, 0), counter(0, 1, 0));
    assert!(!event_page_ok(&s, false));
    let nobody = stats(event(2, 2), counter(1, 0, 0), counter(0, 0, 0));
    let far = stats(event(2, 2), counter(1, 0, u64::MAX), counter(0, 0, 1));
    assert!(event_page_ok(&nobody, false));
    assert!(!event_page_ok(&far, true));
    let p = Participant { adults: u64::MAX, children: 1, user_id: 1, user_name1: "a".into(), user_name2: "".into(), attachment: None };
    assert!(!seat_sums_ok(&vec![p]));
    let m = GroupMessage { sender: "a".into(), text: "b".into(), ts: u64::MAX / 2, waiting_list: 0 };
    assert!(!message_times_ok(&vec![m]));
    let over = stats(event(2, 2), counter(3, 0, 0), counter(0, 0, 0));
    assert!(!event_list_ok(&vec![over]));
    assert_eq!(SignUpError::NoSeatsLeft.message(), "К сожалению, свободные места закончились.");
}

#[test]
fn signup_controls() {
    let s = stats(event(2, 2), counter(0, 0, 0), counter(2, 0, 0));
    let k = get_signup_controls(&s, 2, 0, false, false, None);
    assert_eq!(labels(&k[0]), vec!["Записать взрослого +1"]);
    assert_eq!(labels(&k[1]), vec!["В лист ожидания ребёнка +1"]);
    assert_eq!(labels(&k[2]), vec!["Список мероприятий", "Список ожидания"]);
    let k = get_signup_controls(&s, 2, 0, false, false, Some(true));
    assert_eq!(labels(&k[2]), vec!["Список мероприятий", "Список ожидания", "Присутствие"]);
    let k = get_signup_controls(&s, 2, 0, false, true, None);
    assert_eq!(labels(&k[2]), vec!["Список мероприятий", "Список ожидания", "Присутствие", "Остановить запись"]);
    let closed = EventStats::new(event(2, 0), counter(1, 1, 0), counter(0, 0, 0), 1);
    assert_eq!(closed.state, EventState::Close);
    let k = get_signup_controls(&closed, 1, 0, true, true, None);
    assert_eq!(labels(&k[0]), vec!["Отписаться -1"]);
    assert!(k[1].is_empty());
    assert_eq!(labels(&k[2]), vec!["Список мероприятий", "Список ожидания", "Присутствие", "Разрешить запись"]);
}

#[test]
fn event_page() {
    let s = stats(event(2, 2), counter(1, 1, 0), counter(0, 0, 0));
    let ps = Some(vec![Participant {
        adults: 1,
        children: 0,
        user_id: 42,
        user_name1: "Ann".into(),
        user_name2: "ann".into(),
        attachment: Some("late".into()),
    }]);
    let r = show_event(&s, 5, false, true, &ps, &vec![], Some(0), &None, None, &Some("\nPS".to_string()), 0, 10);
    assert!(r.text.starts_with("\n \nWalk\nНачало: 20.04 09:10."));
    assert!(r.text.contains("<a href=\"https://t.me/ann\">Ann (ann)</a>"));
    assert!(r.text.contains("<b>У вас забронировано: 1</b>"));
    assert!(r.text.ends_with("\nPS"));
    let p = r.paging.unwrap();
    assert_eq!(p.len, 1);
    assert_eq!(p.next, CallbackQuery::Event { event_id: 5, offset: 1 });
}

#[test]
fn list_pages() {
    let s = stats(event(2, 2), counter(1, 1, 0), counter(0, 0, 0));
    let r = show_event_list(&vec![s], 0, 20, "https://help");
    assert!(r.text.starts_with("Программа\n"));
    assert_eq!(r.keyboard[0][0].text, "✅ 20.04 09:10 / 1(2) / Walk");
    let r = show_event_list(&vec![], 0, 20, "https://help");
    assert_eq!(r.text, "Нет мероприятий.");
    let ps = vec![Participant { adults: 1, children: 2, user_id: 7, user_name1: "Bob".into(), user_name2: "".into(), attachment: None }];
    let r = show_waiting_list(5, &ps, true, false, 0, 10);
    assert!(r.text.starts_with("Список ожидания:\n"));
    assert!(r.text.contains("7 <a href=\"tg://user?id=7\">Bob</a> 1(2)"));
    assert_eq!(show_waiting_list(5, &vec![], false, false, 0, 10).text, "Пустой список ожидания.");
    let pres = vec![Presence { user_id: 7, user_name1: "Bob".into(), user_name2: "bob".into(), reserved: 2, attachment: Some("x".into()) }];
    let r = show_presence_list(5, &pres, 0, 10);
    assert_eq!(r.keyboard[0][0].text, "Bob (bob) 2 - x");
    let us = vec![User { id: 9, user_name1: "Eve".into(), user_name2: "".into(), is_admin: false }];
    let r = show_black_list(&us, 0, 10);
    assert_eq!(r.keyboard[0][0].text, "Eve 9");
    assert_eq!(show_black_list(&vec![], 0, 10).text, "Чёрный список пуст.");
    let r = confirm_unban(9, "late cancel");
    assert!(r.text.starts_with("Причина бана: late cancel\n"));
    assert_eq!(r.keyboard[0].len(), 2);
}

/// The navigation row: back to the list first; the waiting list only once a
/// seat is taken; the state switch only for administrators, last.
#[test]
fn navigation_row_law_on_values() {
    let empty = stats(event(2, 2), counter(0, 0, 0), counter(0, 0, 0));
    let k = get_signup_controls(&empty, 2, 2, false, false, None);
    assert_eq!(k.len(), 3);
    assert_eq!(labels(&k[2]), vec!["Список мероприятий"]);
    assert!(matches!(k[2][0].action, ButtonAction::Callback(CallbackQuery::EventList { offset: 0 })));
    for row in &k {
        for b in row {
            assert!(!matches!(b.action, ButtonAction::Callback(CallbackQuery::ChangeEventState { .. })));
        }
    }
    let k = get_signup_controls(&empty, 2, 2, false, true, None);
    assert!(matches!(
        k[2].last().unwrap().action,
        ButtonAction::Callback(CallbackQuery::ChangeEventState { event_id: 5, state: 1 })
    ));
    let k = get_signup_controls(&empty, 0, 0, true, false, None);
    assert_eq!(labels(&k[0]), vec!["В лист ожидания +1"]);
    let at_limit = stats(event(2, 2), counter(0, 1, 1), counter(0, 0, 0));
    let k = get_signup_controls(&at_limit, 0, 2, false, false, None);
    assert_eq!(labels(&k[0]), vec!["Отписать взрослого -1"]);
    let huge = stats(event(2, 2), counter(0, 1, u64::MAX), counter(0, 0, 0));
    let k = get_signup_controls(&huge, 0, 2, false, false, None);
    assert_eq!(labels(&k[0]), vec!["Отписать взрослого -1"]);
}

/// The event list is built where its rows can be: a closed event shows no
/// free seats and so no counts are needed; counts beyond the limit of an open
/// event, or an offset with no following page, give nothing.
#[test]
fn checked_event_list_on_values() {
    let over = stats(event(2, 2), counter(3, 0, 0), counter(0, 0, 0));
    assert!(checked_event_list(&vec![over], 0, 20, "https://help").is_none());
    let closed = EventStats::new(event(2, 2), counter(3, 0, 0), counter(0, 0, 0), 1);
    let r = checked_event_list(&vec![closed], 0, 20, "https://help").unwrap();
    assert_eq!(r.keyboard[0][0].text, "✨ 20.04 09:10 / - / Walk");
    assert!(checked_event_list(&vec![], u64::MAX, 20, "https://help").is_none());
    let mut ann = event(0, 0);
    ann.link = "not an address".to_string();
    ann.ts = u64::MAX;
    let r = checked_event_list(&vec![stats(ann, counter(0, 0, 0), counter(0, 0, 0))], 0, 20, "https://help").unwrap();
    assert!(r.keyboard[0].is_empty());
}

/// An administrator's page shows the event id and limits, the user ids and the
/// state switch; nobody else's does; the postscript comes last.
#[test]
fn event_page_for_administrators() {
    let s = stats(event(2, 2), counter(1, 0, 0), counter(0, 0, 0));
    let ps = Some(vec![Participant {
        adults: 1,
        children: 0,
        user_id: 42,
        user_name1: "Ann".into(),
        user_name2: "".into(),
        attachment: None,
    }]);
    let r = show_event(&s, 5, true, false, &ps, &vec![], None, &None, None, &Some("\nPS".to_string()), 0, 10);
    assert!(r.text.starts_with("\n \nWalk\nНачало: 20.04 09:10. Мероприятие 5 / 2(2)"));
    assert!(r.text.contains("\n42 <a href=\"tg://user?id=42\">Ann</a> 1(0)"));
    assert!(r.text.ends_with("\nPS"));
    assert!(r.keyboard[2].iter().any(|b| matches!(b.action, ButtonAction::Callback(CallbackQuery::ChangeEventState { .. }))));
    let r = show_event(&s, 5, false, false, &None, &vec![], Some(0), &None, None, &None, 0, 10);
    assert!(!r.text.contains("Мероприятие 5"));
    assert!(!r.text.contains("Записались"));
    assert_eq!(r.paging.unwrap().len, 0);
    assert!(!r.keyboard[2].iter().any(|b| matches!(b.action, ButtonAction::Callback(CallbackQuery::ChangeEventState { .. }))));
}
