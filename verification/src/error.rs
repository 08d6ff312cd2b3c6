//! The failures a linking attempt can surface, and how each rejection is
//! mapped to an HTTP status and a safe, generic message at the web boundary.

use vstd::prelude::*;

verus! {

/// Everything that can go wrong inside a linking attempt. No kind is fatal
/// to the process; each is scoped to a single attempt.
#[derive(Debug, Clone, Copy, PartialEq, Eq, Structural)]
pub enum Error {
    /// The key-value backend was unreachable or a read/write failed.
    Storage,
    /// The state token was absent: expired, already consumed, or forged.
    /// These are deliberately indistinguishable.
    ChallengeNotFound,
    /// The external platform's token exchange or profile fetch failed.
    ExternalService,
    /// Rendering the response view failed.
    Template,
}

/// Everything the web boundary can reject, including rejections that arise
/// before a linking attempt starts (unknown route, malformed input).
#[derive(Debug, Clone, Copy, PartialEq, Eq, Structural)]
pub enum Rejection {
    /// No route matched the request.
    RouteNotFound,
    /// The request body or query could not be deserialized.
    InvalidBody,
    /// A linking attempt failed with the given error.
    App(Error),
    /// The route exists but not for this HTTP method.
    MethodNotAllowed,
    /// Anything else; never rendered with detail.
    Unhandled,
}

/// The HTTP status for each rejection: 404 when the resource does not
/// exist, 400 for malformed input or an invalid challenge, 405 for a wrong
/// method, and 500 for internal, template and external-service failures.
pub open spec fn spec_http_status(r: Rejection) -> u16 {
    match r {
        Rejection::RouteNotFound => 404,
        Rejection::InvalidBody => 400,
        Rejection::App(e) => match e {
            Error::ChallengeNotFound => 400,
            Error::Storage => 500,
            Error::ExternalService => 500,
            Error::Template => 500,
        },
        Rejection::MethodNotAllowed => 405,
        Rejection::Unhandled => 500,
    }
}

/// The safe, client-visible message for each rejection. Internal detail is
/// never part of it.
pub open spec fn spec_message(r: Rejection) -> Seq<char> {
    match r {
        Rejection::RouteNotFound => "Not Found"@,
        Rejection::InvalidBody => "Invalid Body"@,
        Rejection::App(e) => match e {
            Error::ChallengeNotFound => "Invalid Request"@,
            Error::Storage => "there was an error accessing the database"@,
            Error::ExternalService => "Internal Server Error"@,
            Error::Template => "Internal Server Error"@,
        },
        Rejection::MethodNotAllowed => "Method Not Allowed"@,
        Rejection::Unhandled => "Internal Server Error"@,
    }
}

pub fn http_status(r: &Rejection) -> (s: u16)
    ensures
        s == spec_http_status(*r),
{
    match r {
        Rejection::RouteNotFound => 404,
        Rejection::InvalidBody => 400,
        Rejection::App(e) => match e {
            Error::ChallengeNotFound => 400,
            Error::Storage => 500,
            Error::ExternalService => 500,
            Error::Template => 500,
        },
        Rejection::MethodNotAllowed => 405,
        Rejection::Unhandled => 500,
    }
}

pub fn message(r: &Rejection) -> (m: &'static str)
    ensures
        m@ == spec_message(*r),
{
    match r {
        Rejection::RouteNotFound => "Not Found",
        Rejection::InvalidBody => "Invalid Body",
        Rejection::App(e) => match e {
            Error::ChallengeNotFound => "Invalid Request",
            Error::Storage => "there was an error accessing the database",
            Error::ExternalService => "Internal Server Error",
            Error::Template => "Internal Server Error",
        },
        Rejection::MethodNotAllowed => "Method Not Allowed",
        Rejection::Unhandled => "Internal Server Error",
    }
}

} // verus!
