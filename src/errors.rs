use vstd::prelude::*;
use vstd::string::StringExecFns;

verus! {

/// Why a request could not be authenticated.
#[derive(Debug, Clone)]
pub enum Error {
    /// The credential source was malformed or ambiguous; holds the reason.
    AuthTokenError(String),
    /// A credential was present and well formed but was not accepted.
    Unauthorized,
}

/// The human-readable text of an error: the reason of an extraction failure
/// follows a fixed prefix, verbatim.
pub open spec fn error_text(e: Error) -> Seq<char> {
    match e {
        Error::AuthTokenError(reason) => "invalid auth token: "@ + reason@,
        Error::Unauthorized => "unauthorized"@,
    }
}

impl Error {
    /// The human-readable text of this error.
    pub fn to_message(&self) -> (r: String)
        ensures
            r@ == error_text(*self),
    {
        match self {
            Error::AuthTokenError(reason) => {
                let mut text = "invalid auth token: ".to_owned();
                text.append(reason.as_str());
                text
            },
            Error::Unauthorized => "unauthorized".to_owned(),
        }
    }
}

/// An extraction failure carrying `inner` as its reason.
pub fn auth_token(inner: &str) -> (r: Error)
    ensures
        r matches Error::AuthTokenError(reason) && reason@ == inner@,
{
    Error::AuthTokenError(inner.to_owned())
}

/// The failure for a credential that did not validate.
pub fn unauthorized() -> (r: Error)
    ensures
        r is Unauthorized,
{
    Error::Unauthorized
}

} // verus!
