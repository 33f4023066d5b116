use event_manager::validation::{OptionalRawEvent, RawEvent, ValidationFailure, update_event, perform_update_event, event_with_id};
use event_manager::types::{Event, EventType};

fn timestamp(text: &str) -> i64 {
    chrono::DateTime::parse_from_rfc3339(text).unwrap().timestamp()
}

fn sample_raw_event() -> RawEvent {
    RawEvent {
        name: "Test name".to_string(),
        link: "https://google.com".to_string(),
        max_adults: 2000,
        max_children: 1000,
        max_adults_per_reservation: 4,
        max_children_per_reservation: 5,
        event_start_time: timestamp("2023-05-26T17:22:00+03:00"),
        remind: timestamp("2023-05-26T16:22:00+03:00"),
        adult_ticket_price: 50,
        child_ticket_price: 25,
        currency: "USD".to_string(),
    }
}

fn sample_event() -> Event {
    Event {
        id: 7,
        name: "Concert".to_string(),
        link: "https://example.com/7".to_string(),
        max_adults: 10,
        max_children: 5,
        max_adults_per_reservation: 2,
        max_children_per_reservation: 3,
        ts: 1_650_445_814,
        remind: 1_650_400_000,
        adult_ticket_price: 0,
        child_ticket_price: 0,
        currency: "EUR".to_string(),
    }
}

fn empty_change() -> OptionalRawEvent {
    OptionalRawEvent {
        name: None,
        link: None,
        max_adults: None,
        max_children: None,
        max_adults_per_reservation: None,
        max_children_per_reservation: None,
        event_start_time: None,
        remind: None,
        adult_ticket_price: None,
        child_ticket_price: None,
        currency: None,
    }
}

fn failures(e: &RawEvent) -> Vec<ValidationFailure> {
    match e.validation() {
        Ok(()) => vec![],
        Err(err) => err.failures,
    }
}

#[test]
fn raw_event_validation() {
    let event = sample_raw_event();
    assert_eq!(event.event_start_time, 1_685_110_920);
    let validation_result = event.validation();
    assert!(
        validation_result.is_ok(),
        "Expected that RawEvent is valid, but got this error: {:?}",
        validation_result.err().unwrap()
    )
}

#[test]
fn raw_event_name_length_is_checked() {
    let mut e = sample_raw_event();
    e.name = "Test".to_string();
    assert_eq!(failures(&e), vec![ValidationFailure::NameLength]);
    e.name = "Тесты".to_string();
    assert_eq!(failures(&e), vec![]);
    e.name = "x".repeat(256);
    assert_eq!(failures(&e), vec![ValidationFailure::NameLength]);
    e.name = "x".repeat(255);
    assert_eq!(failures(&e), vec![]);
}

#[test]
fn raw_event_link_must_be_an_address() {
    let mut e = sample_raw_event();
    e.link = "google.com".to_string();
    assert_eq!(failures(&e), vec![ValidationFailure::LinkUrl]);
}

#[test]
fn raw_event_prices_need_seats() {
    let mut e = sample_raw_event();
    e.max_adults = 0;
    e.max_adults_per_reservation = 0;
    assert_eq!(failures(&e), vec![ValidationFailure::AdultTicketPrice]);
    let mut e = sample_raw_event();
    e.max_children = 0;
    e.max_children_per_reservation = 0;
    assert_eq!(failures(&e), vec![ValidationFailure::ChildTicketPrice]);
}

#[test]
fn raw_event_reservation_limits_within_seats() {
    let mut e = sample_raw_event();
    e.max_adults = 3;
    e.max_children = 4;
    assert_eq!(
        failures(&e),
        vec![ValidationFailure::MaxAdultsPerReservation, ValidationFailure::MaxChildrenPerReservation]
    );
    assert_eq!(ValidationFailure::MaxAdultsPerReservation.field(), "max_adults_per_reservation");
}

#[test]
fn raw_event_failures_come_in_check_order() {
    let mut e = sample_raw_event();
    e.name = "abc".to_string();
    e.link = "nothing".to_string();
    e.max_adults = 0;
    assert_eq!(
        failures(&e),
        vec![ValidationFailure::NameLength, ValidationFailure::LinkUrl, ValidationFailure::AdultTicketPrice,
            ValidationFailure::MaxAdultsPerReservation]
    );
}

#[test]
fn optional_raw_event_checks_merged_values() {
    let current = sample_event();
    let mut change = empty_change();
    assert!(change.validation(&current).is_ok());
    change.adult_ticket_price = Some(100);
    change.max_adults = Some(0);
    let err = change.validation(&current).unwrap_err();
    assert_eq!(err.failures, vec![ValidationFailure::AdultTicketPrice, ValidationFailure::MaxAdultsPerReservation]);
    let mut change = empty_change();
    change.name = Some("abc".to_string());
    assert_eq!(change.validation(&current).unwrap_err().failures, vec![ValidationFailure::NameLength]);
}

#[test]
fn raw_event_into_event() {
    let e = sample_raw_event().into_event();
    assert_eq!(e.id, 0);
    assert_eq!(e.ts, 1_685_110_920);
    assert_eq!(e.max_adults, 2000);
    assert_eq!(e.get_type(), EventType::Paid);
}

#[test]
fn event_with_id_round_trip() {
    let w = event_with_id(sample_event());
    assert_eq!(w.id, 7);
    assert_eq!(w.entity.name, "Concert");
    assert_eq!(w.entity.event_start_time, 1_650_445_814);
    assert_eq!(w.entity.max_children_per_reservation, 3);
}

#[test]
fn empty_change_keeps_event() {
    let c = sample_event();
    let r = update_event(&c, &empty_change());
    assert_eq!(r.name, c.name);
    assert_eq!(r.ts, c.ts);
    assert_eq!(r.currency, c.currency);
    assert_eq!(r.max_children_per_reservation, c.max_children_per_reservation);
}

#[test]
fn change_replaces_given_fields_and_is_idempotent() {
    let c = sample_event();
    let mut change = empty_change();
    change.name = Some("Opera".to_string());
    change.max_adults = Some(20);
    change.child_ticket_price = Some(300);
    let once = update_event(&c, &change);
    assert_eq!(once.name, "Opera");
    assert_eq!(once.max_adults, 20);
    assert_eq!(once.child_ticket_price, 300);
    assert_eq!(once.link, c.link);
    assert_eq!(once.id, 7);
    let twice = update_event(&once, &change);
    assert_eq!(twice.name, once.name);
    assert_eq!(twice.max_adults, once.max_adults);
    assert_eq!(twice.child_ticket_price, once.child_ticket_price);
}

#[test]
fn perform_update_keeps_prices() {
    let c = sample_event();
    let mut change = empty_change();
    change.adult_ticket_price = Some(500);
    change.remind = Some(-1);
    let r = perform_update_event(9, &change, &c);
    assert_eq!(r.id, 9);
    assert_eq!(r.adult_ticket_price, 0);
    assert_eq!(r.remind, u64::MAX);
}

#[test]
fn event_types() {
    let mut e = sample_event();
    assert_eq!(e.get_type(), EventType::Free);
    e.child_ticket_price = 1;
    assert_eq!(e.get_type(), EventType::Paid);
    e.max_adults = 0;
    e.max_children = 0;
    assert_eq!(e.get_type(), EventType::Announcement);
}
