//! Errors of the authentication service, their HTTP status, text and
//! the integer codes that the C interface uses for them.
use crate::json::{json_quote, json_quoted};
use crate::text::{owned, push_str};
use vstd::prelude::*;

verus! {

#[derive(Debug)]
pub enum AuthError {
    Config(String),
    InvalidCredentials,
    AccountLocked { until: String },
    SessionExpired,
    SessionNotFound,
    Internal(String),
    Serialization(String),
}

/// An [`AuthError`] with its texts taken as character sequences.
pub enum AuthErrorView {
    Config(Seq<char>),
    InvalidCredentials,
    AccountLocked { until: Seq<char> },
    SessionExpired,
    SessionNotFound,
    Internal(Seq<char>),
    Serialization(Seq<char>),
}

impl View for AuthError {
    type V = AuthErrorView;

    open spec fn view(&self) -> AuthErrorView {
        match self {
            AuthError::Config(m) => AuthErrorView::Config(m@),
            AuthError::InvalidCredentials => AuthErrorView::InvalidCredentials,
            AuthError::AccountLocked { until } => AuthErrorView::AccountLocked { until: until@ },
            AuthError::SessionExpired => AuthErrorView::SessionExpired,
            AuthError::SessionNotFound => AuthErrorView::SessionNotFound,
            AuthError::Internal(m) => AuthErrorView::Internal(m@),
            AuthError::Serialization(m) => AuthErrorView::Serialization(m@),
        }
    }
}

/// The HTTP status answered for an error.
pub open spec fn auth_error_status(e: AuthErrorView) -> u16 {
    match e {
        AuthErrorView::Config(_) => 500,
        AuthErrorView::Internal(_) => 500,
        AuthErrorView::Serialization(_) => 500,
        AuthErrorView::InvalidCredentials => 401,
        AuthErrorView::AccountLocked { .. } => 403,
        AuthErrorView::SessionExpired => 401,
        AuthErrorView::SessionNotFound => 401,
    }
}

/// The text of an error, as it is shown to users.
pub open spec fn auth_error_text(e: AuthErrorView) -> Seq<char> {
    match e {
        AuthErrorView::Config(m) => "configuration error: "@ + m,
        AuthErrorView::InvalidCredentials => "invalid credentials"@,
        AuthErrorView::AccountLocked { until } => "account locked until "@ + until,
        AuthErrorView::SessionExpired => "session expired"@,
        AuthErrorView::SessionNotFound => "session not found"@,
        AuthErrorView::Internal(_) => "internal server error"@,
        AuthErrorView::Serialization(m) => "serialization error: "@ + m,
    }
}

/// The JSON body answered for an error: `{"error":"<text>"}`.
pub open spec fn auth_error_body(e: AuthErrorView) -> Seq<char> {
    "{\"error\":"@ + json_quoted(auth_error_text(e)) + "}"@
}

/// The error that a C callback's error code stands for.
pub open spec fn code_error(code: i32) -> AuthErrorView {
    if code == 1 {
        AuthErrorView::Config("callback config error"@)
    } else if code == 2 {
        AuthErrorView::InvalidCredentials
    } else if code == 3 {
        AuthErrorView::AccountLocked { until: "unknown"@ }
    } else if code == 4 {
        AuthErrorView::SessionExpired
    } else if code == 5 {
        AuthErrorView::SessionNotFound
    } else if code == 6 {
        AuthErrorView::Internal("callback internal error"@)
    } else if code == 7 {
        AuthErrorView::Serialization("callback serialization error"@)
    } else {
        AuthErrorView::Internal("unknown callback error"@)
    }
}

/// The code of an error's kind.
pub open spec fn error_code(e: AuthErrorView) -> i32 {
    match e {
        AuthErrorView::Config(_) => 1,
        AuthErrorView::InvalidCredentials => 2,
        AuthErrorView::AccountLocked { .. } => 3,
        AuthErrorView::SessionExpired => 4,
        AuthErrorView::SessionNotFound => 5,
        AuthErrorView::Internal(_) => 6,
        AuthErrorView::Serialization(_) => 7,
    }
}

fn copy_string(s: &String) -> (r: String)
    ensures
        r@ == s@,
{
    s.clone()
}

impl AuthError {
    /// The HTTP status code for this error.
    pub fn status_code(&self) -> (code: u16)
        ensures
            code == auth_error_status(self@),
    {
        match self {
            AuthError::Config(_) | AuthError::Internal(_) | AuthError::Serialization(_) => 500,
            AuthError::InvalidCredentials => 401,
            AuthError::AccountLocked { .. } => 403,
            AuthError::SessionExpired | AuthError::SessionNotFound => 401,
        }
    }

    /// The error's text (what `to_string` gives).
    pub fn to_string(&self) -> (s: String)
        ensures
            s@ == auth_error_text(self@),
    {
        let mut s = String::new();
        match self {
            AuthError::Config(m) => {
                push_str(&mut s, "configuration error: ");
                push_str(&mut s, m.as_str());
            },
            AuthError::InvalidCredentials => push_str(&mut s, "invalid credentials"),
            AuthError::AccountLocked { until } => {
                push_str(&mut s, "account locked until ");
                push_str(&mut s, until.as_str());
            },
            AuthError::SessionExpired => push_str(&mut s, "session expired"),
            AuthError::SessionNotFound => push_str(&mut s, "session not found"),
            AuthError::Internal(_) => push_str(&mut s, "internal server error"),
            AuthError::Serialization(m) => {
                push_str(&mut s, "serialization error: ");
                push_str(&mut s, m.as_str());
            },
        }
        s
    }

    /// The JSON body `{"error":"<text>"}` answered for this error.
    pub fn to_json_body(&self) -> (body: String)
        ensures
            body@ == auth_error_body(self@),
    {
        let text = self.to_string();
        let quoted = json_quote(text.as_str());
        let mut body = String::new();
        push_str(&mut body, "{\"error\":");
        push_str(&mut body, quoted.as_str());
        push_str(&mut body, "}");
        body
    }

    /// A copy of this error.
    pub fn duplicate(&self) -> (r: AuthError)
        ensures
            r@ == self@,
    {
        match self {
            AuthError::Config(m) => AuthError::Config(copy_string(m)),
            AuthError::InvalidCredentials => AuthError::InvalidCredentials,
            AuthError::AccountLocked { until } => AuthError::AccountLocked {
                until: copy_string(until),
            },
            AuthError::SessionExpired => AuthError::SessionExpired,
            AuthError::SessionNotFound => AuthError::SessionNotFound,
            AuthError::Internal(m) => AuthError::Internal(copy_string(m)),
            AuthError::Serialization(m) => AuthError::Serialization(copy_string(m)),
        }
    }
}

/// The error that a C callback reports with `code`.
pub fn map_error_code(code: i32) -> (e: AuthError)
    ensures
        e@ == code_error(code),
{
    match code {
        1 => AuthError::Config(owned("callback config error")),
        2 => AuthError::InvalidCredentials,
        3 => AuthError::AccountLocked { until: owned("unknown") },
        4 => AuthError::SessionExpired,
        5 => AuthError::SessionNotFound,
        6 => AuthError::Internal(owned("callback internal error")),
        7 => AuthError::Serialization(owned("callback serialization error")),
        _ => AuthError::Internal(owned("unknown callback error")),
    }
}

/// The code under which an error is handed to C.
pub fn auth_error_to_code(err: &AuthError) -> (code: i32)
    ensures
        code == error_code(err@),
{
    match err {
        AuthError::Config(_) => 1,
        AuthError::InvalidCredentials => 2,
        AuthError::AccountLocked { .. } => 3,
        AuthError::SessionExpired => 4,
        AuthError::SessionNotFound => 5,
        AuthError::Internal(_) => 6,
        AuthError::Serialization(_) => 7,
    }
}

/// Every code of a known kind (1 to 7) comes back unchanged from the error it names.
pub proof fn law_code_round_trip(code: i32)
    requires
        1 <= code <= 7,
    ensures
        error_code(code_error(code)) == code,
{
}

/// An error handed to C by its code and read back has the same kind.
pub proof fn law_error_kind_round_trip(e: AuthErrorView)
    ensures
        error_code(code_error(error_code(e))) == error_code(e),
        auth_error_status(code_error(error_code(e))) == auth_error_status(e),
{
}

/// Unknown codes are read as internal errors.
pub proof fn law_unknown_code_is_internal(code: i32)
    requires
        !(1 <= code <= 7),
    ensures
        code_error(code) == AuthErrorView::Internal("unknown callback error"@),
{
}

} // verus!
