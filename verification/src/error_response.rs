//! The error that a client is answered with.

use vstd::prelude::*;

verus! {

/// An error message with the HTTP status it goes out under.
#[derive(Debug)]
pub struct ErrorResponse {
    pub error: String,
    pub status: u16,
}

impl ErrorResponse {
    /// Whether this is the error `message` under `status`.
    pub open spec fn says(self, message: Seq<char>, status: u16) -> bool {
        self.error@ == message && self.status == status
    }
}

/// The error for an endpoint that exists for compatibility alone.
pub fn not_implemented() -> (r: ErrorResponse)
    ensures
        r.says("Not implemented"@, 501),
{
    ErrorResponse { error: "Not implemented".to_owned(), status: 501 }
}

} // verus!
