use event_manager::auth::{
    auth_middleware, bearer_token, check_header, header_text, token_verdict, validate_header, HeaderCheck,
    ValidateHeaderError,
};
use event_manager::user::{login_status, credentials_match, UserCred, AppErrorKind};
use jwt_simple::prelude::{Claims, Duration, HS256Key, MACLike};

#[test]
fn bearer_tokens_are_found() {
    assert_eq!(bearer_token("Bearer abc.def-ghi"), Some("abc.def-ghi".to_string()));
    assert_eq!(bearer_token("Bearer   x"), None);
    assert_eq!(bearer_token("xBearer\tab Bearer cd"), Some("ab".to_string()));
    assert_eq!(bearer_token("Basic abc"), None);
    assert_eq!(bearer_token("Bearer "), None);
    assert_eq!(header_text(b"Bearer a"), Some("Bearer a".to_string()));
    assert_eq!(header_text(&[0x42, 0xff]), None);
}

#[test]
fn header_checks() {
    assert!(matches!(check_header(None), HeaderCheck::Rejected(ValidateHeaderError::AuthHeaderExpected)));
    assert!(matches!(check_header(Some(&[0x80][..])), HeaderCheck::Rejected(ValidateHeaderError::FailedToParsHeaderValue)));
    assert!(matches!(check_header(Some(&b"Token x"[..])), HeaderCheck::Rejected(ValidateHeaderError::InvalidHeaderValue)));
    assert!(matches!(check_header(Some(&b"Bearer x"[..])), HeaderCheck::Token(t) if t == "x"));
    assert_eq!(token_verdict(&HeaderCheck::Token("x".to_string()), false), Err(ValidateHeaderError::InvalidToken));
    assert_eq!(token_verdict(&HeaderCheck::Token("x".to_string()), true), Ok(()));
    assert_eq!(
        token_verdict(&HeaderCheck::Rejected(ValidateHeaderError::AuthHeaderExpected), true),
        Err(ValidateHeaderError::AuthHeaderExpected)
    );
    assert_eq!(ValidateHeaderError::InvalidToken.message(), "Invalid token");
    assert_eq!(ValidateHeaderError::AuthHeaderExpected.status_code(), 401);
}

#[test]
fn tokens_are_verified_with_the_key() {
    let key = HS256Key::generate();
    let token = key.authenticate(Claims::create(Duration::from_hours(1))).unwrap();
    let header = format!("Bearer {}", token);
    assert_eq!(validate_header(Some(header.as_bytes()), &key), Ok(()));
    let other = HS256Key::generate();
    assert_eq!(validate_header(Some(header.as_bytes()), &other), Err(ValidateHeaderError::InvalidToken));
    assert_eq!(validate_header(None, &key), Err(ValidateHeaderError::AuthHeaderExpected));
    let m = auth_middleware(&key);
    assert_eq!(validate_header(Some(header.as_bytes()), &m.key), Ok(()));
    let inner = m.new_transform(5u32);
    assert_eq!(*inner.service, 5);
    assert_eq!(validate_header(Some(header.as_bytes()), &inner.key), Ok(()));
}

#[test]
fn logins() {
    let admin = UserCred { user_name: "admin".to_string(), password: "pw".to_string() };
    let good = UserCred { user_name: "admin".to_string(), password: "pw".to_string() };
    let bad = UserCred { user_name: "admin".to_string(), password: "px".to_string() };
    assert!(credentials_match(&good, &admin));
    assert_eq!(login_status(&good, &admin), 204);
    assert_eq!(login_status(&bad, &admin), 401);
    assert_eq!(AppErrorKind::NotFound.status_code(), 404);
    assert_eq!(AppErrorKind::Validation.status_code(), 500);
    assert_eq!(AppErrorKind::Validation.response_status(), 400);
    assert_eq!(AppErrorKind::Database.response_status(), 500);
}
