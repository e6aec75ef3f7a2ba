use vstd::prelude::*;

use crate::errors::{error_text, Error};

verus! {

/// Every way a request can fail, as the error mapper sees it: the
/// authentication errors, the transport's routing failures, and anything else.
#[derive(Debug, Clone)]
pub enum Failure {
    /// No route matched the request.
    NotFound,
    /// Authentication failed.
    Auth(Error),
    /// A route matched, but not with the request's method.
    MethodNotAllowed,
    /// Any failure not otherwise classified.
    Internal,
}

/// The client-facing body of an error response: the numeric HTTP status and
/// a message.
#[derive(Debug, Clone)]
pub struct ErrorMessage {
    pub code: u16,
    pub message: String,
}

/// The HTTP status a failure is answered with.
pub open spec fn status_of(f: Failure) -> u16 {
    match f {
        Failure::NotFound => 404,
        Failure::Auth(Error::AuthTokenError(_)) => 400,
        Failure::Auth(Error::Unauthorized) => 401,
        Failure::MethodNotAllowed => 405,
        Failure::Internal => 500,
    }
}

/// The message a failure is answered with. An unclassified failure gets a
/// fixed text that tells nothing of its cause.
pub open spec fn message_of(f: Failure) -> Seq<char> {
    match f {
        Failure::NotFound => "not found"@,
        Failure::Auth(e) => error_text(e),
        Failure::MethodNotAllowed => "method not allowed"@,
        Failure::Internal => "internal server error"@,
    }
}

/// Maps a failure to the status and message of its response.
pub fn handle_rejection(f: &Failure) -> (r: ErrorMessage)
    ensures
        r.code == status_of(*f),
        r.message@ == message_of(*f),
{
    match f {
        Failure::NotFound => ErrorMessage { code: 404, message: "not found".to_owned() },
        Failure::Auth(e) => {
            let code: u16 = match e {
                Error::AuthTokenError(_) => 400,
                Error::Unauthorized => 401,
            };
            ErrorMessage { code, message: e.to_message() }
        },
        Failure::MethodNotAllowed => ErrorMessage {
            code: 405,
            message: "method not allowed".to_owned(),
        },
        Failure::Internal => ErrorMessage {
            code: 500,
            message: "internal server error".to_owned(),
        },
    }
}

/// Every failure maps to a body whose code is the failure's HTTP status, one of
/// the statuses of the mapping, and whose message is non-empty.
pub proof fn lemma_error_body_well_formed(f: Failure, r: ErrorMessage)
    requires
        r.code == status_of(f),
        r.message@ == message_of(f),
    ensures
        r.code == status_of(f),
        r.code == 400 || r.code == 401 || r.code == 404 || r.code == 405 || r.code == 500,
        r.message@.len() > 0,
{
    reveal_strlit("not found");
    reveal_strlit("invalid auth token: ");
    reveal_strlit("unauthorized");
    reveal_strlit("method not allowed");
    reveal_strlit("internal server error");
    match f {
        Failure::Auth(Error::AuthTokenError(reason)) => {
            assert(r.message@.len() == "invalid auth token: "@.len() + reason@.len());
        },
        _ => {},
    }
}

} // verus!
