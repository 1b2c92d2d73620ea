//! Decisions the client makes around each HTTP request: which headers to send,
//! and whether an answer is accepted, retried or given up on.
use crate::client::error::{JssError, JssErrorView};
use crate::client::url::{build_join_url, join_url_check};
use crate::keyed::entries_view;
use crate::text::{decimal, nat_decimal, owned, parse_u64, parse_u64_spec, push_str};
use vstd::prelude::*;

verus! {

/// How a failed attempt is treated by the retry loop (`backoff::Error`).
pub enum Backoff {
    /// Try again after a pause.
    Transient(JssError),
    /// Give up and report the error.
    Permanent(JssError),
}

pub enum BackoffView {
    Transient(JssErrorView),
    Permanent(JssErrorView),
}

impl View for Backoff {
    type V = BackoffView;

    open spec fn view(&self) -> BackoffView {
        match self {
            Backoff::Transient(e) => BackoffView::Transient(e@),
            Backoff::Permanent(e) => BackoffView::Permanent(e@),
        }
    }
}

pub open spec fn is_server_error(status: u16) -> bool {
    500 <= status <= 599
}

/// How an unsuccessful answer is classified: server errors and 429 are retried; 401
/// and 403 are final and so are 400, 404, 405, 409 and 410; anything else is retried.
pub open spec fn classification(status: u16, body: Seq<char>) -> BackoffView {
    if is_server_error(status) || status == 429 {
        BackoffView::Transient(JssErrorView::Http { status, body })
    } else if status == 401 || status == 403 {
        BackoffView::Permanent(JssErrorView::Http { status, body })
    } else if status == 400 || status == 404 || status == 405 || status == 409 || status == 410 {
        BackoffView::Permanent(JssErrorView::Http { status, body })
    } else {
        BackoffView::Transient(JssErrorView::Http { status, body })
    }
}

/// Classifies an unsuccessful answer for the retry loop.
pub fn classify_response(status: u16, body: &str) -> (r: Backoff)
    ensures
        r@ == classification(status, body@),
{
    if (500 <= status && status <= 599) || status == 429 {
        Backoff::Transient(JssError::from_api_response(status, body))
    } else if status == 401 || status == 403 {
        Backoff::Permanent(JssError::from_api_response(status, body))
    } else if status == 400 || status == 404 || status == 405 || status == 409 || status == 410 {
        Backoff::Permanent(JssError::Http { status, body: owned(body) })
    } else {
        Backoff::Transient(JssError::Http { status, body: owned(body) })
    }
}

/// The verdict on one attempt of an authenticated GET: server errors and 429 are retried
/// with the answer's body, 401 ends the attempts as unauthorized, anything else is taken.
pub open spec fn get_attempt(status: u16, body: Seq<char>) -> Option<BackoffView> {
    if is_server_error(status) || status == 429 {
        Some(BackoffView::Transient(JssErrorView::Http { status, body }))
    } else if status == 401 {
        Some(BackoffView::Permanent(JssErrorView::Auth("Unauthorized"@)))
    } else {
        None
    }
}

/// The verdict on one attempt of an authenticated GET; `None` accepts the answer.
pub fn judge_get_attempt(status: u16, body: &str) -> (r: Option<Backoff>)
    ensures
        r matches Some(b) ==> get_attempt(status, body@) == Some(b@),
        r is None ==> get_attempt(status, body@) is None,
{
    if (500 <= status && status <= 599) || status == 429 {
        Some(Backoff::Transient(JssError::from_api_response(status, body)))
    } else if status == 401 {
        Some(Backoff::Permanent(JssError::Auth(owned("Unauthorized"))))
    } else {
        None
    }
}

/// The verdict on one attempt of an authenticated POST, PUT or DELETE: server errors and
/// 429 are retried (the body is not kept), 401 ends the attempts, anything else is taken.
pub open spec fn write_attempt(status: u16) -> Option<BackoffView> {
    if is_server_error(status) || status == 429 {
        Some(BackoffView::Transient(JssErrorView::Http { status, body: Seq::empty() }))
    } else if status == 401 {
        Some(BackoffView::Permanent(JssErrorView::Auth("Unauthorized"@)))
    } else {
        None
    }
}

/// The verdict on one attempt of an authenticated POST, PUT or DELETE.
pub fn judge_write_attempt(status: u16) -> (r: Option<Backoff>)
    ensures
        r matches Some(b) ==> write_attempt(status) == Some(b@),
        r is None ==> write_attempt(status) is None,
{
    if (500 <= status && status <= 599) || status == 429 {
        Some(Backoff::Transient(JssError::Http { status, body: String::new() }))
    } else if status == 401 {
        Some(Backoff::Permanent(JssError::Auth(owned("Unauthorized"))))
    } else {
        None
    }
}

/// The `Authorization` value of token mode: `token <key>:<secret>`.
pub fn token_authorization(api_key: &str, api_secret: &str) -> (v: String)
    ensures
        v@ == "token "@ + api_key@ + ":"@ + api_secret@,
{
    let mut v = owned("token ");
    push_str(&mut v, api_key);
    push_str(&mut v, ":");
    push_str(&mut v, api_secret);
    v
}

/// The `X-Frappe-CSRF-Token` value to send, if any: the session's token, when the
/// request is one that carries it and the token is not empty.
pub fn csrf_header(applies: bool, token: Option<&str>) -> (v: Option<String>)
    ensures
        v matches Some(t) ==> (applies && token is Some && token->0@.len() > 0 && t@ == token->0@),
        v is None ==> !applies || token is None || token->0@.len() == 0,
{
    if applies {
        if let Some(t) = token {
            if !t.is_empty() {
                return Some(owned(t));
            }
        }
    }
    None
}

/// How long the retry loop may run, in seconds: one timeout per allowed attempt.
pub fn max_elapsed_secs(timeout_secs: u64, max_retries: u32) -> (s: u64)
    requires
        timeout_secs * (max_retries + 1) <= u64::MAX,
    ensures
        s == timeout_secs * (max_retries + 1),
{
    timeout_secs * (max_retries as u64 + 1)
}

/// The canonical reason phrase of a status code, as the `http` crate lists it.
pub uninterp spec fn canonical_reason(code: u16) -> Option<Seq<char>>;

/// `http::StatusCode::canonical_reason`.
#[verifier::external_body]
fn reason_phrase(code: u16) -> (r: Option<&'static str>)
    requires
        100 <= code <= 999,
    ensures
        canonical_reason(code) == match r {
            Some(s) => Some(s@),
            None => None::<Seq<char>>,
        },
{
    http::StatusCode::from_u16(code).unwrap().canonical_reason()
}

/// How `http::StatusCode` is displayed: the number and its reason phrase.
pub open spec fn status_display(code: u16) -> Seq<char> {
    nat_decimal(code as nat) + " "@ + match canonical_reason(code) {
        Some(r) => r,
        None => "<unknown status code>"@,
    }
}

/// The displayed form of a status code, such as `403 Forbidden`.
pub fn status_text(code: u16) -> (s: String)
    requires
        100 <= code <= 999,
    ensures
        s@ == status_display(code),
{
    let mut s = decimal(code as u64);
    push_str(&mut s, " ");
    match reason_phrase(code) {
        Some(r) => push_str(&mut s, r),
        None => push_str(&mut s, "<unknown status code>"),
    }
    s
}

/// The number of seconds that a `Retry-After` header asks to wait, when it reads as
/// one.
pub fn retry_after_secs(header: Option<&str>) -> (r: Option<u64>)
    ensures
        r == match header {
            Some(h) => parse_u64_spec(h@),
            None => None,
        },
{
    match header {
        Some(h) => parse_u64(h),
        None => None,
    }
}

/// The kinds of authenticated request.
#[derive(Debug, Clone, Copy, PartialEq, Eq, Structural)]
pub enum RequestKind {
    Get,
    Post,
    Put,
    Delete,
    /// A POST of form fields.
    Form,
}

/// What an authenticated request sends besides its body: the absolute URL and the
/// headers in order.
pub struct RequestPlan {
    pub url: String,
    pub headers: Vec<(String, String)>,
}

pub struct RequestPlanView {
    pub url: Seq<char>,
    pub headers: Seq<(Seq<char>, Seq<char>)>,
}

impl View for RequestPlan {
    type V = RequestPlanView;

    open spec fn view(&self) -> RequestPlanView {
        RequestPlanView { url: self.url@, headers: entries_view(self.headers@) }
    }
}

/// The headers of an authenticated request: `Content-Type: application/json` for a
/// JSON body, the CSRF token for a write in session mode (when there is a non-empty
/// one), and `Authorization` in token mode.
pub open spec fn request_headers(
    kind: RequestKind,
    session_mode: bool,
    csrf_token: Option<Seq<char>>,
    token: Option<(Seq<char>, Seq<char>)>,
) -> Seq<(Seq<char>, Seq<char>)> {
    (if kind == RequestKind::Post || kind == RequestKind::Put {
        seq![("Content-Type"@, "application/json"@)]
    } else {
        Seq::empty()
    }) + (if kind != RequestKind::Get && session_mode && csrf_token is Some && csrf_token->0.len() > 0 {
        seq![("X-Frappe-CSRF-Token"@, csrf_token->0)]
    } else {
        Seq::empty()
    }) + match token {
        Some((key, secret)) => seq![("Authorization"@, "token "@ + key + ":"@ + secret)],
        None => Seq::empty(),
    }
}

/// What an authenticated request to `path` under `base_url` sends, or why it is refused
/// (see [`join_url_check`]).
pub open spec fn request_plan_spec(
    base_url: Seq<char>,
    path: Seq<char>,
    kind: RequestKind,
    session_mode: bool,
    csrf_token: Option<Seq<char>>,
    token: Option<(Seq<char>, Seq<char>)>,
) -> Result<RequestPlanView, JssErrorView> {
    match join_url_check(base_url, path) {
        Ok(url) => Ok(
            RequestPlanView {
                url,
                headers: request_headers(kind, session_mode, csrf_token, token),
            },
        ),
        Err(e) => Err(e),
    }
}

/// Plans an authenticated request: `session_mode` tells the authentication mode,
/// `csrf_token` is the session's token (if there is a session) and `token` the API key
/// and secret of token mode.
pub fn plan_request(
    base_url: &str,
    path: &str,
    kind: RequestKind,
    session_mode: bool,
    csrf_token: Option<&str>,
    token: Option<(&str, &str)>,
) -> (r: Result<RequestPlan, JssError>)
    ensures
        ({
            let outcome = request_plan_spec(
                base_url@,
                path@,
                kind,
                session_mode,
                match csrf_token {
                    Some(t) => Some(t@),
                    None => None,
                },
                match token {
                    Some((k, s)) => Some((k@, s@)),
                    None => None,
                },
            );
            &&& r matches Ok(p) ==> outcome == Ok::<RequestPlanView, JssErrorView>(p@)
            &&& r matches Err(e) ==> outcome == Err::<RequestPlanView, JssErrorView>(e@)
        }),
{
    let url = match build_join_url(base_url, path) {
        Ok(u) => u,
        Err(e) => {
            return Err(e);
        },
    };
    let mut headers: Vec<(String, String)> = Vec::new();
    if kind == RequestKind::Post || kind == RequestKind::Put {
        headers.push((owned("Content-Type"), owned("application/json")));
    }
    let ghost h1 = entries_view(headers@);
    if let Some(t) = csrf_header(kind != RequestKind::Get && session_mode, csrf_token) {
        headers.push((owned("X-Frappe-CSRF-Token"), t));
    }
    let ghost h2 = entries_view(headers@);
    if let Some((key, secret)) = token {
        headers.push((owned("Authorization"), token_authorization(key, secret)));
    }
    let plan = RequestPlan { url, headers };
    proof {
        let csrf_v = match csrf_token {
            Some(t) => Some(t@),
            None => None,
        };
        let token_v = match token {
            Some((k, s)) => Some((k@, s@)),
            None => None,
        };
        assert(plan@.headers =~= request_headers(kind, session_mode, csrf_v, token_v));
    }
    Ok(plan)
}


/// A refused authorization ends the attempts: a 401 or 403 answer is final, and every
/// classified answer carries its own status and body. Only server errors, 429, and
/// statuses other than the client errors 400, 401, 403, 404, 405, 409 and 410 are
/// tried again.
pub proof fn law_classification(status: u16, body: Seq<char>)
    ensures
        status == 401 || status == 403 ==> classification(status, body) is Permanent,
        classification(status, body) is Transient <==> (500 <= status <= 599 || status == 429
            || !(status == 400 || status == 401 || status == 403 || status == 404 || status
            == 405 || status == 409 || status == 410)),
        match classification(status, body) {
            BackoffView::Transient(e) => e == JssErrorView::Http { status, body },
            BackoffView::Permanent(e) => e == JssErrorView::Http { status, body },
        },
{
}

} // verus!
