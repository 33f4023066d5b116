use event_manager::config::{Config, RawConfiguration, hours_from_moments, seconds_of_day};
use event_manager::schedule::{is_mailing_time, next_round_delay_ms, round_summary, link_to_event_button};
use event_manager::messages::MessageBatch;
use event_manager::entity::MessageType;
use event_manager::keyboard::ButtonAction;
use event_manager::callback::CallbackQuery;

fn raw(admin_ids: &str, mailing_hours: &str) -> RawConfiguration {
    RawConfiguration {
        telegram_bot_token: "token".to_string(),
        payment_provider_token: "pay".to_string(),
        admin_ids: admin_ids.to_string(),
        public_lists: false,
        automatic_blacklisting: true,
        drop_events_after_hours: 24,
        delete_from_black_list_after_days: 30,
        too_late_to_cancel_hours: 12,
        cleanup_old_events: true,
        event_list_page_size: 20,
        event_page_size: 30,
        presence_page_size: 40,
        cancel_future_reservations_on_ban: true,
        support: "support".to_string(),
        help: "https://help".to_string(),
        limit_bulk_notifications_per_second: 25,
        mailing_hours: mailing_hours.to_string(),
        listen_address: "127.0.0.1".to_string(),
        listen_port: 8080,
        database_connection: "".to_string(),
        db_protocol: "postgres".to_string(),
        db_host: "localhost".to_string(),
        db_port: "5432".to_string(),
        db_name: "events".to_string(),
        db_user: "bot".to_string(),
        db_password: "SECRET-REDACTED".to_string(),
    }
}

#[test]
fn admins_are_parsed_and_junk_skipped() {
    let r = raw("1,2,x,3,,18446744073709551616,4", "");
    let admins = r.parse_admins();
    let mut v: Vec<u64> = admins.into_iter().collect();
    v.sort();
    assert_eq!(v, vec![1, 2, 3, 4]);
    assert!(raw("", "").parse_admins().is_empty());
}

#[test]
fn mailing_hours_are_parsed() {
    assert_eq!(raw("", "10:00 +0000 .. 22:00 +0000").parse_mailing_hours(), Ok((36000, 79200)));
    assert_eq!(raw("", "  10:00   +0200\t..\n22:30 +0000 ").parse_mailing_hours(), Ok((28800, 81000)));
    assert_eq!(raw("", "01:00 +0300..23:00 +0300").parse_mailing_hours(), Ok((79200, 72000)));
}

#[test]
fn mailing_hours_errors() {
    assert_eq!(raw("", "10:00 +0000").parse_mailing_hours(), Err("Wrong mailing hours format.".to_string()));
    assert_eq!(raw("", "1..2..3").parse_mailing_hours(), Err("Wrong mailing hours format.".to_string()));
    assert_eq!(raw("", "10:00 .. 22:00").parse_mailing_hours(), Err("Failed to parse mailing hours.".to_string()));
    assert_eq!(hours_from_moments(Some(86400), None), Err("Failed to parse mailing hours.".to_string()));
}

#[test]
fn seconds_of_day_follow_rust_remainder() {
    assert_eq!(seconds_of_day(86400 + 5), 5);
    assert_eq!(seconds_of_day(0), 0);
    assert_eq!(seconds_of_day(-86400), 0);
    assert_eq!(seconds_of_day(-1), u64::MAX);
    assert_eq!(seconds_of_day(i64::MIN), (i64::MIN % 86400) as u64);
    assert_eq!(hours_from_moments(Some(90000), Some(-3600)), Ok((3600, (-3600i64) as u64)));
}

#[test]
fn config_from_raw() {
    let c = Config::try_from_raw(raw("5, 6", "09:00 +0000 .. 21:00 +0000")).unwrap();
    assert_eq!(c.mailing_hours_from, 32400);
    assert_eq!(c.mailing_hours_to, 75600);
    assert_eq!(c.api_socket_address, "127.0.0.1:8080");
    assert_eq!(c.db_connection_string, "host=localhost port=5432 user=bot password=SECRET-REDACTED dbname=events");
    assert!(c.admins.contains(&5));
    assert!(!c.admins.contains(&6));
    assert_eq!(c.event_page_size, 30);
    assert_eq!(c.support, "support");
    assert!(Config::try_from_raw(raw("", "nonsense")).is_err());
    assert_eq!(raw("", "").socket_address(), "127.0.0.1:8080");
}

#[test]
fn mailing_time_window() {
    let c = Config::from_raw(raw("", "09:00 +0000 .. 21:00 +0000"));
    assert!(is_mailing_time(&c, 86400 * 10 + 9 * 3600));
    assert!(!is_mailing_time(&c, 86400 * 10 + 21 * 3600));
    assert!(!is_mailing_time(&c, 86400 * 10 + 8 * 3600));
    assert!(!is_mailing_time(&c, -3600));
}

fn batch(t: MessageType, recipients: Vec<u64>, is_paid: bool) -> MessageBatch {
    MessageBatch {
        message_id: 1,
        event_id: 9,
        sender: "Bot".to_string(),
        message_type: t,
        waiting_list: 0,
        text: "hi".to_string(),
        is_paid,
        recipients,
    }
}

#[test]
fn rounds_and_delays() {
    let ms = vec![batch(MessageType::Direct, vec![1, 2, 3], false), batch(MessageType::WaitingListPrompt, vec![], false)];
    assert_eq!(round_summary(&ms), (3, false));
    assert_eq!(next_round_delay_ms(3, false), 1000);
    let ms = vec![batch(MessageType::Reminder, vec![1], false), batch(MessageType::WaitingListPrompt, vec![4], false)];
    assert_eq!(round_summary(&ms), (2, true));
    assert_eq!(next_round_delay_ms(2, true), 30_000);
    assert_eq!(next_round_delay_ms(0, false), 30_000);
    assert_eq!(round_summary(&vec![]), (0, false));
}

#[test]
fn event_button_under_message() {
    let b = link_to_event_button(&batch(MessageType::Direct, vec![], false));
    assert_eq!(b.text, "К мероприятию");
    assert!(matches!(b.action, ButtonAction::Callback(CallbackQuery::Event { event_id: 9, offset: 0 })));
    let b = link_to_event_button(&batch(MessageType::Direct, vec![], true));
    assert!(matches!(b.action,
        ButtonAction::Callback(CallbackQuery::PaidEvent { event_id: 9, adults: 0, children: 0, offset: 0 })));
}
