//! Credentials of the HTTP interface.
use vstd::prelude::*;

verus! {

/// A user name with its password.
#[derive(Clone, Debug)]
pub struct UserCred {
    pub user_name: String,
    pub password: String,
}

impl PartialEq for UserCred {
    fn eq(&self, other: &Self) -> (r: bool) {
        self.user_name == other.user_name && self.password == other.password
    }
}

impl vstd::std_specs::cmp::PartialEqSpecImpl for UserCred {
    open spec fn obeys_eq_spec() -> bool {
        true
    }

    open spec fn eq_spec(&self, other: &Self) -> bool {
        self.user_name@ == other.user_name@ && self.password@ == other.password@
    }
}

impl Eq for UserCred {}

/// Whether the credentials of a login request are those of the administrator.
pub fn credentials_match(given: &UserCred, expected: &UserCred) -> (r: bool)
    ensures
        r == (given.user_name@ == expected.user_name@ && given.password@ == expected.password@),
{
    given == expected
}

/// The HTTP status of a login: 204 (no content) for the administrator's
/// credentials, 401 (unauthorized) for any others.
pub fn login_status(given: &UserCred, expected: &UserCred) -> (r: u16)
    ensures
        r == (if given.user_name@ == expected.user_name@ && given.password@ == expected.password@ { 204u16 } else { 401u16 }),
{
    if credentials_match(given, expected) {
        204
    } else {
        401
    }
}

/// The kinds of error the HTTP interface answers with.
#[derive(Clone, Copy, Debug, PartialEq, Eq, Structural)]
pub enum AppErrorKind {
    /// The database refused a request.
    Database,
    /// The request's data did not validate.
    Validation,
    /// The entity asked for does not exist.
    NotFound,
}

impl AppErrorKind {
    /// The HTTP status of the error: 404 where the entity does not exist, 500
    /// otherwise.
    pub fn status_code(&self) -> (r: u16)
        ensures
            r == (if *self == AppErrorKind::NotFound { 404u16 } else { 500u16 }),
    {
        match self {
            AppErrorKind::NotFound => 404,
            _ => 500,
        }
    }

    /// The status the response carries: data that did not validate is
    /// answered as a bad request (400), any other error with its status.
    pub fn response_status(&self) -> (r: u16)
        ensures
            r == (match *self {
                AppErrorKind::NotFound => 404u16,
                AppErrorKind::Validation => 400u16,
                AppErrorKind::Database => 500u16,
            }),
    {
        match self {
            AppErrorKind::Validation => 400,
            _ => self.status_code(),
        }
    }
}

} // verus!
