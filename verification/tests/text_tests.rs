use event_manager::text::{parse_u64, u64_to_string, i64_to_string, split_char, split_char_n, starts_with, str_eq, to_signed, to_unsigned};
use event_manager::whitespace::{collapse_whitespace, trim, split_at_mark, is_whitespace};
use event_manager::entity::{EventState, MessageType};
use event_manager::types::ReservationState;
use event_manager::pagination::{Pagination, RawPagination};
use event_manager::reservation::{VacantData, SeatCounts, get_vacancies, have_vacancies};
use event_manager::reply::prev_page;

#[test]
fn numbers_read_and_written() {
    assert_eq!(parse_u64("0"), Some(0));
    assert_eq!(parse_u64("+7"), Some(7));
    assert_eq!(parse_u64("18446744073709551615"), Some(u64::MAX));
    assert_eq!(parse_u64("18446744073709551616"), None);
    assert_eq!(parse_u64(""), None);
    assert_eq!(parse_u64("+"), None);
    assert_eq!(parse_u64("-1"), None);
    assert_eq!(parse_u64(" 1"), None);
    for n in [0u64, 9, 10, 12345, u64::MAX] {
        assert_eq!(u64_to_string(n), n.to_string());
        assert_eq!(parse_u64(&u64_to_string(n)), Some(n));
    }
    for i in [0i64, -1, 42, i64::MIN, i64::MAX] {
        assert_eq!(i64_to_string(i), i.to_string());
    }
    assert_eq!(to_signed(u64::MAX), -1);
    assert_eq!(to_unsigned(-1), u64::MAX);
    assert_eq!(to_unsigned(to_signed(12345678901234567890)), 12345678901234567890);
}

#[test]
fn splitting() {
    assert_eq!(split_char("a,,b", ','), vec!["a", "", "b"]);
    assert_eq!(split_char("", ','), vec![""]);
    assert_eq!(split_char_n("/send confirmed 5 hello world", ' ', 4), vec!["/send", "confirmed", "5", "hello world"]);
    assert_eq!(split_char_n("a b", ' ', 0), Vec::<String>::new());
    assert_eq!(split_at_mark("1..2...3", '.', '.'), vec!["1", "2", ".3"]);
    assert!(starts_with("donate_5", "donate_"));
    assert!(!starts_with("donat", "donate_"));
    assert!(str_eq("/help", "/help"));
    assert!(!str_eq("/help", "/hel"));
}

#[test]
fn whitespace() {
    assert_eq!(collapse_whitespace("  a \t\n b  "), " a b ");
    assert_eq!(collapse_whitespace("a\u{a0}\u{2003}b"), "a b");
    assert_eq!(trim("  a b \n"), "a b");
    assert_eq!(trim("   "), "");
    assert!(is_whitespace('\u{3000}'));
    assert!(!is_whitespace('x'));
    for c in ['\t', '\n', ' ', '\u{85}', '\u{2028}', 'a', '\u{200b}'] {
        assert_eq!(is_whitespace(c), c.is_whitespace());
    }
}

#[test]
fn stored_codes() {
    assert_eq!(EventState::Open.to_i32(), 0);
    assert_eq!(EventState::from_i32(1), Some(EventState::Close));
    assert_eq!(EventState::from_i32(2), None);
    assert_eq!(EventState::default_state(), EventState::Open);
    assert_eq!(MessageType::from_i32(MessageType::WaitingListPrompt.to_i32()), Some(MessageType::WaitingListPrompt));
    assert_eq!(MessageType::from_u64(1), Some(MessageType::Reminder));
    assert_eq!(MessageType::from_u64(7), None);
    assert_eq!(ReservationState::PaymentCompleted.to_u64(), 2);
}

#[test]
fn pages() {
    let p = RawPagination { page: None, per_page: None };
    assert_eq!(p.limit(), 20);
    assert_eq!(p.offset(), 0);
    let p = RawPagination { page: Some(3), per_page: Some(1000) };
    assert_eq!(p.limit(), 150);
    assert_eq!(p.offset(), 300);
    assert_eq!(prev_page(0), 0);
    assert_eq!(prev_page(4), 3);
}

#[test]
fn vacancies() {
    let v = VacantData { id: 1, max_adults: 10, max_children: 5, adults: 10, children: 5 };
    assert_eq!(v.get_vacant_adults(), 0);
    assert!(!v.is_have_vacancies());
    let v = VacantData { id: 1, max_adults: 10, max_children: 5, adults: 9, children: 5 };
    assert!(v.is_have_vacancies());
    assert_eq!(get_vacancies(&None), (0, 0));
    let row = Some(SeatCounts { max_adults: 4, max_children: 3, reserved_adults: None, reserved_children: Some(3) });
    assert_eq!(get_vacancies(&row), (4, 0));
    assert!(have_vacancies(&row));
    // Counted as numbers, past what 32 bits hold.
    let v = VacantData { id: 1, max_adults: i32::MAX, max_children: i32::MAX, adults: -1, children: 0 };
    assert!(v.is_have_vacancies());
    let v = VacantData { id: 1, max_adults: i32::MIN, max_children: 0, adults: 1, children: 0 };
    assert!(!v.is_have_vacancies());
    let full = Some(SeatCounts { max_adults: u64::MAX, max_children: u64::MAX, reserved_adults: Some(0), reserved_children: None });
    assert!(have_vacancies(&full));
}

#[test]
fn conversion_errors() {
    assert_eq!(EventState::conversion_error(5), "error to convert from 5 to EventState");
    assert_eq!(MessageType::conversion_error(-2), "error to convert from -2 to MessageType");
    assert_eq!(EventState::kind_name(), "EventState");
    assert_eq!(MessageType::kind_name(), "MessageType");
}

#[test]
fn checked_offsets() {
    assert_eq!(RawPagination { page: Some(0), per_page: None }.checked_offset(), None);
    assert_eq!(RawPagination { page: Some(2), per_page: Some(10) }.checked_offset(), Some(10));
    assert_eq!(RawPagination { page: Some(u64::MAX), per_page: Some(150) }.checked_offset(), None);
    assert_eq!(RawPagination { page: None, per_page: Some(0) }.checked_offset(), Some(0));
}
