//! Authorization of HTTP requests by a bearer token.
use vstd::prelude::*;
use std::rc::Rc;
use jwt_simple::prelude::{HS256Key, MACLike, NoCustomClaims};
use crate::text::push_char;

verus! {

/// `jwt_simple`'s HMAC-SHA256 key, made known to Verus as an opaque type.
#[verifier::external_type_specification]
#[verifier::external_body]
pub struct ExHS256Key(HS256Key);

/// The key that signs and checks tokens.
pub type JwtKeyAlgorithm = HS256Key;

/// Why a request is refused.
#[derive(Clone, Copy, Debug, PartialEq, Eq, Structural)]
pub enum ValidateHeaderError {
    /// No Authorization header.
    AuthHeaderExpected,
    /// The header holds bytes other than visible ASCII and tabs.
    FailedToParsHeaderValue,
    /// The header holds no bearer token.
    InvalidHeaderValue,
    /// The token does not verify with the key.
    InvalidToken,
}

/// The text of a refused request's answer.
pub open spec fn header_error_message_spec(e: ValidateHeaderError) -> Seq<char> {
    match e {
        ValidateHeaderError::AuthHeaderExpected => "Missing Authorization header"@,
        ValidateHeaderError::FailedToParsHeaderValue => "Failed to pars header value"@,
        ValidateHeaderError::InvalidHeaderValue => "Invalid header value"@,
        ValidateHeaderError::InvalidToken => "Invalid token"@,
    }
}

impl ValidateHeaderError {
    /// The text of the refusal.
    pub fn message(&self) -> (r: &'static str)
        ensures
            r@ == header_error_message_spec(*self),
    {
        match self {
            ValidateHeaderError::AuthHeaderExpected => "Missing Authorization header",
            ValidateHeaderError::FailedToParsHeaderValue => "Failed to pars header value",
            ValidateHeaderError::InvalidHeaderValue => "Invalid header value",
            ValidateHeaderError::InvalidToken => "Invalid token",
        }
    }

    /// Every refusal is answered with 401 (unauthorized).
    pub fn status_code(&self) -> (r: u16)
        ensures
            r == 401,
    {
        401
    }
}

/// Whether a byte may stand in a header read as text: visible ASCII or a tab.
pub open spec fn is_visible_ascii(b: u8) -> bool {
    (32 <= b && b < 127) || b == 9
}

/// A header value read as text: its bytes as characters, where all of them are
/// visible ASCII or tabs.
pub open spec fn header_text_spec(bytes: Seq<u8>) -> Option<Seq<char>> {
    if forall|i: int| 0 <= i < bytes.len() ==> is_visible_ascii(#[trigger] bytes[i]) {
        Some(bytes.map_values(|b: u8| b as char))
    } else {
        None
    }
}

/// Reads a header value as text.
pub fn header_text(bytes: &[u8]) -> (r: Option<String>)
    ensures
        match r {
            Some(t) => header_text_spec(bytes@) == Some(t@),
            None => header_text_spec(bytes@) is None,
        },
{
    let mut t = String::new();
    let mut i: usize = 0;
    while i < bytes.len()
        invariant
            i <= bytes@.len(),
            forall|j: int| 0 <= j < i ==> is_visible_ascii(#[trigger] bytes@[j]),
            t@ == bytes@.take(i as int).map_values(|b: u8| b as char),
        decreases bytes@.len() - i,
    {
        let b = bytes[i];
        if !((b >= 32 && b < 127) || b == 9) {
            return None;
        }
        push_char(&mut t, b as char);
        assert(bytes@.take(i + 1).map_values(|b: u8| b as char)
            =~= bytes@.take(i as int).map_values(|b: u8| b as char).push(b as char));
        i = i + 1;
    }
    assert(bytes@.take(bytes@.len() as int) =~= bytes@);
    Some(t)
}

/// Whitespace between "Bearer" and the token: the ASCII whitespace characters
/// (header text holds ASCII only).
pub open spec fn is_header_space(c: char) -> bool {
    c == ' ' || c == '\t' || c == '\n' || c == '\x0B' || c == '\x0C' || c == '\r'
}

/// A character of a token: an ASCII letter or digit, '_', '.' or '-' (the word
/// characters, '.' and '-', as far as header text, which is ASCII, can hold them).
pub open spec fn is_token_char(c: char) -> bool {
    ('A' <= c && c <= 'Z') || ('a' <= c && c <= 'z') || ('0' <= c && c <= '9') || c == '_' || c == '.'
        || c == '-'
}

/// Whether "Bearer", a whitespace and a token character start at `i`.
pub open spec fn bearer_at(s: Seq<char>, i: int) -> bool {
    0 <= i && i + 8 <= s.len() && s.subrange(i, i + 6) == "Bearer"@ && is_header_space(s[i + 6])
        && is_token_char(s[i + 7])
}

/// The first position from `from` on where a bearer token starts.
pub open spec fn first_bearer(s: Seq<char>, from: int) -> Option<int>
    decreases s.len() - from,
{
    if from < 0 || from + 8 > s.len() {
        None
    } else if bearer_at(s, from) {
        Some(from)
    } else {
        first_bearer(s, from + 1)
    }
}

/// The end of the run of token characters that starts at `j`.
pub open spec fn token_end(s: Seq<char>, j: int) -> int
    decreases s.len() - j,
{
    if j < 0 || j >= s.len() || !is_token_char(s[j]) {
        j
    } else {
        token_end(s, j + 1)
    }
}

/// The token of an Authorization header: the longest run of token characters
/// after the first "Bearer" followed by whitespace and a token character.
pub open spec fn bearer_token_spec(s: Seq<char>) -> Option<Seq<char>> {
    match first_bearer(s, 0) {
        Some(i) => Some(s.subrange(i + 7, token_end(s, i + 7))),
        None => None,
    }
}

proof fn lemma_token_end_bounds(s: Seq<char>, j: int)
    requires
        0 <= j <= s.len(),
    ensures
        j <= token_end(s, j) <= s.len(),
    decreases s.len() - j,
{
    if j < s.len() && is_token_char(s[j]) {
        lemma_token_end_bounds(s, j + 1);
    }
}

proof fn lemma_first_bearer_bounds(s: Seq<char>, from: int)
    ensures
        first_bearer(s, from) matches Some(i) ==> from <= i && bearer_at(s, i),
    decreases s.len() - from,
{
    if from >= 0 && from + 8 <= s.len() && !bearer_at(s, from) {
        lemma_first_bearer_bounds(s, from + 1);
    }
}

fn is_space_char(c: char) -> (r: bool)
    ensures
        r == is_header_space(c),
{
    c == ' ' || c == '\t' || c == '\n' || c == '\x0B' || c == '\x0C' || c == '\r'
}

fn is_token(c: char) -> (r: bool)
    ensures
        r == is_token_char(c),
{
    ('A' <= c && c <= 'Z') || ('a' <= c && c <= 'z') || ('0' <= c && c <= '9') || c == '_' || c == '.'
        || c == '-'
}

fn starts_bearer(s: &str, i: usize) -> (r: bool)
    requires
        i + 8 <= s@.len(),
    ensures
        r == bearer_at(s@, i as int),
{
    proof { reveal_strlit("Bearer"); }
    let _len = s.unicode_len();
    let word = "Bearer";
    let mut k: usize = 0;
    while k < 6
        invariant
            i + 8 <= s@.len(),
            s@.len() <= usize::MAX,
            k <= 6,
            word@ == "Bearer"@,
            word@.len() == 6,
            forall|m: int| 0 <= m < k ==> s@[i + m] == word@[m],
        decreases 6 - k,
    {
        if s.get_char(i + k) != word.get_char(k) {
            assert(s@.subrange(i as int, i + 6)[k as int] != word@[k as int]);
            return false;
        }
        k = k + 1;
    }
    assert(s@.subrange(i as int, i + 6) =~= word@);
    is_space_char(s.get_char(i + 6)) && is_token(s.get_char(i + 7))
}

/// The bearer token of an Authorization header, if it has one: the first
/// "Bearer" followed by one whitespace character and a run of token characters.
pub fn bearer_token(s: &str) -> (r: Option<String>)
    ensures
        match r {
            Some(t) => bearer_token_spec(s@) == Some(t@),
            None => bearer_token_spec(s@) is None,
        },
{
    let len = s.unicode_len();
    let mut i: usize = 0;
    while i < len && len - i >= 8
        invariant
            len == s@.len(),
            first_bearer(s@, 0) == first_bearer(s@, i as int),
        decreases len - i,
    {
        if starts_bearer(s, i) {
            let start = i + 7;
            let mut j = start;
            while j < len && is_token(s.get_char(j))
                invariant
                    len == s@.len(),
                    start <= j <= len,
                    token_end(s@, start as int) == token_end(s@, j as int),
                decreases len - j,
            {
                j = j + 1;
            }
            let t = String::from_str(s.substring_char(start, j));
            return Some(t);
        }
        i = i + 1;
    }
    None
}

/// What a request's Authorization header says before the token is checked.
#[derive(Debug)]
pub enum HeaderCheck {
    Rejected(ValidateHeaderError),
    /// The token to check.
    Token(String),
}

/// What an Authorization header (its bytes, if the request has one) says
/// before its token is checked.
pub open spec fn header_check_spec(header: Option<Seq<u8>>) -> Result<Seq<char>, ValidateHeaderError> {
    match header {
        None => Err(ValidateHeaderError::AuthHeaderExpected),
        Some(bytes) => match header_text_spec(bytes) {
            None => Err(ValidateHeaderError::FailedToParsHeaderValue),
            Some(text) => match bearer_token_spec(text) {
                None => Err(ValidateHeaderError::InvalidHeaderValue),
                Some(token) => Ok(token),
            },
        },
    }
}

pub open spec fn header_check_view(c: HeaderCheck) -> Result<Seq<char>, ValidateHeaderError> {
    match c {
        HeaderCheck::Rejected(e) => Err(e),
        HeaderCheck::Token(t) => Ok(t@),
    }
}

pub fn check_header(header: Option<&[u8]>) -> (r: HeaderCheck)
    ensures
        header_check_view(r) == header_check_spec(match header { Some(b) => Some(b@), None => None }),
{
    match header {
        None => HeaderCheck::Rejected(ValidateHeaderError::AuthHeaderExpected),
        Some(bytes) => match header_text(bytes) {
            None => HeaderCheck::Rejected(ValidateHeaderError::FailedToParsHeaderValue),
            Some(text) => match bearer_token(text.as_str()) {
                None => HeaderCheck::Rejected(ValidateHeaderError::InvalidHeaderValue),
                Some(token) => HeaderCheck::Token(token),
            },
        },
    }
}

/// Checks a token with `jwt_simple`'s `verify_token` (no custom claims,
/// default options). Nothing is stated of the answer: it depends on the
/// token's signature and on the current time (expiry).
#[verifier::external_body]
fn verify_token(key: &HS256Key, token: &str) -> (r: bool) {
    key.verify_token::<NoCustomClaims>(token, None).is_ok()
}

/// The verdict on a request once its token was checked (`verified`).
pub open spec fn token_verdict_spec(check: Result<Seq<char>, ValidateHeaderError>, verified: bool) -> Result<(), ValidateHeaderError> {
    match check {
        Err(e) => Err(e),
        Ok(_) => if verified { Ok(()) } else { Err(ValidateHeaderError::InvalidToken) },
    }
}

/// The verdict on a checked header, given whether its token verified.
pub fn token_verdict(check: &HeaderCheck, verified: bool) -> (r: Result<(), ValidateHeaderError>)
    ensures
        r == token_verdict_spec(header_check_view(*check), verified),
{
    match check {
        HeaderCheck::Rejected(e) => Err(*e),
        HeaderCheck::Token(_) => if verified { Ok(()) } else { Err(ValidateHeaderError::InvalidToken) },
    }
}

/// Validates the Authorization header of a request against `key`: the header
/// must be there, be text, hold a bearer token, and the token must verify.
pub fn validate_header(header: Option<&[u8]>, key: &JwtKeyAlgorithm) -> (r: Result<(), ValidateHeaderError>)
    ensures
        header_check_spec(match header { Some(b) => Some(b@), None => None }) matches Err(e) ==> r == Err::<(), _>(e),
        header_check_spec(match header { Some(b) => Some(b@), None => None }) is Ok ==> (r is Ok
            || r == Err::<(), _>(ValidateHeaderError::InvalidToken)),
{
    let check = check_header(header);
    let verified = match &check {
        HeaderCheck::Rejected(_) => false,
        HeaderCheck::Token(token) => verify_token(key, token.as_str()),
    };
    token_verdict(&check, verified)
}

/// Copies a key (`HS256Key::clone`, a derived clone of the key bytes).
#[verifier::external_body]
fn clone_key(key: &HS256Key) -> (r: HS256Key)
    ensures
        r == *key,
{
    key.clone()
}

/// Requires a valid bearer token on every request.
pub struct AuthMiddleware {
    pub key: JwtKeyAlgorithm,
}

/// The wrapped service of `AuthMiddleware`.
pub struct AuthMiddlewareInner<S> {
    pub service: Rc<S>,
    pub key: JwtKeyAlgorithm,
}

/// The middleware that checks tokens with `key`.
pub fn auth_middleware(key: &JwtKeyAlgorithm) -> (r: AuthMiddleware)
    ensures
        r.key == *key,
{
    AuthMiddleware { key: clone_key(key) }
}

impl AuthMiddleware {
    /// Wraps a service.
    pub fn new_transform<S>(&self, service: S) -> (r: AuthMiddlewareInner<S>)
        ensures
            *r.service == service,
            r.key == self.key,
    {
        AuthMiddlewareInner { service: Rc::new(service), key: clone_key(&self.key) }
    }
}

} // verus!
