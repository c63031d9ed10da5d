//! Failures of the backend and what clients are told of them.

use vstd::prelude::*;

use crate::error_response::ErrorResponse;
use crate::text;

verus! {

/// An error from the backend that may carry an HTTP status code and says whether a retry can help.
#[derive(Debug)]
pub enum BackendError {
    /// Backend returned an HTTP error status (e.g., 401). Retryable where the status is one of a
    /// failing server (5xx).
    Http(u16),
    /// Model is not available on the backend (should return 404). Not retryable.
    ModelNotFound(String),
    /// Other error (parsing, empty response). Not retryable.
    Other(String),
    /// Network-level or timeout error that can be retried (connection refused, timeout, etc.).
    Retryable(String),
}

impl BackendError {
    /// The error in words. Of an HTTP error it holds the status code and nothing else.
    pub open spec fn message_spec(self) -> Seq<char> {
        match self {
            BackendError::Http(status) => "Backend HTTP error "@ + text::decimal_spec(
                status as nat,
            ),
            BackendError::ModelNotFound(msg) => msg@,
            BackendError::Other(msg) => msg@,
            BackendError::Retryable(msg) => msg@,
        }
    }

    /// The error in words.
    pub fn message(&self) -> (r: String)
        ensures
            r@ == self.message_spec(),
    {
        match self {
            BackendError::Http(status) => {
                let mut out = "Backend HTTP error ".to_owned();
                out.append(text::decimal(*status as u128).as_str());
                out
            },
            BackendError::ModelNotFound(msg) => msg.clone(),
            BackendError::Other(msg) => msg.clone(),
            BackendError::Retryable(msg) => msg.clone(),
        }
    }
}

/// Why a translation or a ping failed.
#[derive(Debug)]
pub enum TranslateError {
    /// The backend failed in a way that is known.
    Backend(BackendError),
    /// Anything else, in words.
    Generic(String),
}

impl TranslateError {
    /// Whether the same request may succeed later: after a failure of the network or of the server.
    pub open spec fn is_transient(self) -> bool {
        match self {
            TranslateError::Backend(BackendError::Retryable(_)) => true,
            TranslateError::Backend(BackendError::Http(status)) => 500 <= status < 600,
            _ => false,
        }
    }

    /// Whether the backend was reached and failed, so that a provider whose ping ends like this is
    /// given up.
    pub open spec fn is_permanent(self) -> bool {
        self matches TranslateError::Backend(e) && !(e is Retryable)
    }

    /// The error in words.
    pub open spec fn message_spec(self) -> Seq<char> {
        match self {
            TranslateError::Backend(e) => e.message_spec(),
            TranslateError::Generic(msg) => msg@,
        }
    }

    /// The error in words.
    pub fn message(&self) -> (r: String)
        ensures
            r@ == self.message_spec(),
    {
        match self {
            TranslateError::Backend(e) => e.message(),
            TranslateError::Generic(msg) => msg.clone(),
        }
    }

    /// Tells whether the same request may succeed later.
    pub fn transient(&self) -> (r: bool)
        ensures
            r == self.is_transient(),
    {
        match self {
            TranslateError::Backend(BackendError::Retryable(_)) => true,
            TranslateError::Backend(BackendError::Http(status)) => 500 <= *status && *status < 600,
            _ => false,
        }
    }

    /// Tells whether the backend was reached and failed.
    pub fn permanent(&self) -> (r: bool)
        ensures
            r == self.is_permanent(),
    {
        match self {
            TranslateError::Backend(BackendError::Retryable(_)) => false,
            TranslateError::Backend(_) => true,
            TranslateError::Generic(_) => false,
        }
    }
}

/// The status under which an error goes out to the client.
pub open spec fn status_of(e: TranslateError) -> u16 {
    match e {
        TranslateError::Backend(BackendError::Http(status)) => if status == 401 {
            403
        } else if status == 404 {
            404
        } else {
            503
        },
        TranslateError::Backend(BackendError::ModelNotFound(_)) => 404,
        TranslateError::Backend(BackendError::Retryable(_)) => 503,
        TranslateError::Backend(BackendError::Other(_)) => 500,
        TranslateError::Generic(_) => 503,
    }
}

/// The words in which an error goes out to the client. Details of the backend are kept back.
pub open spec fn public_message(e: TranslateError) -> Seq<char> {
    match e {
        TranslateError::Backend(BackendError::Http(status)) => "Backend returned "@
            + text::decimal_spec(status as nat),
        TranslateError::Backend(BackendError::ModelNotFound(msg)) => msg@,
        TranslateError::Backend(BackendError::Retryable(_)) => "Backend temporarily unavailable"@,
        TranslateError::Backend(BackendError::Other(_)) => "Backend error"@,
        TranslateError::Generic(msg) => msg@,
    }
}

/// What a client is answered when a translation fails.
pub fn map_translation_error(e: TranslateError) -> (r: ErrorResponse)
    ensures
        r.says(public_message(e), status_of(e)),
{
    match e {
        TranslateError::Backend(BackendError::Http(status_code)) => {
            let status: u16 = match status_code {
                401 => 403,
                404 => 404,
                _ => 503,
            };
            let mut error = "Backend returned ".to_owned();
            error.append(text::decimal(status_code as u128).as_str());
            ErrorResponse { error, status }
        },
        TranslateError::Backend(BackendError::ModelNotFound(msg)) => ErrorResponse {
            error: msg,
            status: 404,
        },
        TranslateError::Backend(BackendError::Retryable(_)) => ErrorResponse {
            error: "Backend temporarily unavailable".to_owned(),
            status: 503,
        },
        TranslateError::Backend(BackendError::Other(_)) => ErrorResponse {
            error: "Backend error".to_owned(),
            status: 500,
        },
        TranslateError::Generic(msg) => ErrorResponse { error: msg, status: 503 },
    }
}

/// A translation as the backend gives it.
#[derive(Debug)]
pub struct TranslationResult {
    pub text: String,
    /// Timings that the backend reports about itself, as it writes them.
    pub backend_timings: Option<String>,
}

/// When retries are used up the client is told 503; of a failure of the network it is told no
/// detail, of an HTTP error the status code alone. An authentication failure is 403, a missing
/// model 404, and no failure of the backend goes out under a status of success.
pub proof fn law_statuses(e: TranslateError, f: TranslateError)
    ensures
        e.is_transient() ==> status_of(e) == 503,
        e matches TranslateError::Backend(BackendError::Retryable(_)) && (f matches
            TranslateError::Backend(BackendError::Retryable(_))) ==> public_message(e)
            == public_message(f),
        e matches TranslateError::Backend(BackendError::Http(s)) ==> public_message(e)
            == "Backend returned "@ + text::decimal_spec(s as nat),
        e == TranslateError::Backend(BackendError::Http(401)) ==> status_of(e) == 403,
        e == TranslateError::Backend(BackendError::Http(404)) ==> status_of(e) == 404,
        e matches TranslateError::Backend(BackendError::ModelNotFound(_)) ==> status_of(e) == 404,
        400 <= status_of(e) < 600,
{
}

} // verus!
