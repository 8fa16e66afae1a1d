//! The error that the Pasqal API clients return on a non-2xx response: the
//! status as a typed value beside the response body.

use vstd::prelude::*;
use crate::status::{HttpStatus, status_text, canonical_reason_of, code_digits};

verus! {

/// A failed Pasqal API request: the HTTP status of the response and its body.
#[derive(Debug)]
pub struct ApiError {
    pub status: HttpStatus,
    pub body: String,
}

/// `status {status}: {body}`, with the status displayed as `http` does.
pub open spec fn api_error_text(e: ApiError) -> Seq<char> {
    "status "@ + status_text(e.status@) + ": "@ + e.body@
}

/// An API error reads `status `, the three digits of its status, a space,
/// the reason phrase that `http` registers for that status, `: ` and the
/// response body; a status without a registered phrase reads
/// `<unknown status code>` in its place.
pub proof fn lemma_api_error_text_shape(e: ApiError)
    ensures
        canonical_reason_of(e.status@) matches Some(r) ==> api_error_text(e) == "status "@
            + code_digits(e.status@) + seq![' '] + r + ": "@ + e.body@,
        canonical_reason_of(e.status@) is None ==> api_error_text(e) == "status "@ + code_digits(
            e.status@,
        ) + seq![' '] + "<unknown status code>"@ + ": "@ + e.body@,
{
}

impl ApiError {
    /// The error's message, e.g. `status 404 Not Found: job not found`.
    pub fn to_text(&self) -> (s: String)
        ensures
            s@ == api_error_text(*self),
    {
        let mut s = String::from_str("status ");
        s.append(self.status.to_text().as_str());
        s.append(": ");
        s.append(self.body.as_str());
        s
    }
}

} // verus!
