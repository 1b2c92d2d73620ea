//! Errors of the JSS client.
use crate::text::owned;
use vstd::prelude::*;

verus! {

/// `reqwest::Error`, carried in [`JssError::Network`] without being looked into.
#[verifier::external_type_specification]
#[verifier::external_body]
pub struct ExReqwestError(reqwest::Error);

#[derive(Debug)]
pub enum JssError {
    Config(String),
    Validation(String),
    Network(reqwest::Error),
    Http { status: u16, body: String },
    Auth(String),
    Csrf(String),
    Permission(String),
    SitenameMismatch { expected: String, actual: String },
    NotAuthenticated,
    RateLimited { retry_after: Option<u64> },
    Parse(String),
    Expired,
    Cancelled,
    FileOperation(String),
}

/// A [`JssError`] with its texts taken as character sequences; a network error
/// is only known to be one.
pub enum JssErrorView {
    Config(Seq<char>),
    Validation(Seq<char>),
    Network,
    Http { status: u16, body: Seq<char> },
    Auth(Seq<char>),
    Csrf(Seq<char>),
    Permission(Seq<char>),
    SitenameMismatch { expected: Seq<char>, actual: Seq<char> },
    NotAuthenticated,
    RateLimited { retry_after: Option<u64> },
    Parse(Seq<char>),
    Expired,
    Cancelled,
    FileOperation(Seq<char>),
}

impl View for JssError {
    type V = JssErrorView;

    open spec fn view(&self) -> JssErrorView {
        match self {
            JssError::Config(m) => JssErrorView::Config(m@),
            JssError::Validation(m) => JssErrorView::Validation(m@),
            JssError::Network(_) => JssErrorView::Network,
            JssError::Http { status, body } => JssErrorView::Http { status: *status, body: body@ },
            JssError::Auth(m) => JssErrorView::Auth(m@),
            JssError::Csrf(m) => JssErrorView::Csrf(m@),
            JssError::Permission(m) => JssErrorView::Permission(m@),
            JssError::SitenameMismatch { expected, actual } => JssErrorView::SitenameMismatch {
                expected: expected@,
                actual: actual@,
            },
            JssError::NotAuthenticated => JssErrorView::NotAuthenticated,
            JssError::RateLimited { retry_after } => JssErrorView::RateLimited {
                retry_after: *retry_after,
            },
            JssError::Parse(m) => JssErrorView::Parse(m@),
            JssError::Expired => JssErrorView::Expired,
            JssError::Cancelled => JssErrorView::Cancelled,
            JssError::FileOperation(m) => JssErrorView::FileOperation(m@),
        }
    }
}

impl JssError {
    /// The error for a response that the server answered with a failing status: the
    /// status and the body as they came.
    pub fn from_api_response(status: u16, body: &str) -> (e: JssError)
        ensures
            e@ == (JssErrorView::Http { status, body: body@ }),
    {
        JssError::Http { status, body: owned(body) }
    }
}

} // verus!
