//! The rules of the submission step: the target endpoint and how the result
//! of the HTTP POST is read.

use vstd::prelude::*;

verus! {

/// Why a submission failed.
#[derive(Clone, Copy, Debug, PartialEq, Eq, Structural)]
pub enum SubmissionError {
    /// The request never brought a response back: DNS failure, connection
    /// refused, timeout, or a broken transfer.
    TransportError,
}

/// The decisions of the submission step; the HTTP POST itself is made by the
/// caller, which hands the result back in plain values.
pub struct APIController;

impl APIController {
    /// The Microsoft Graph endpoint that event documents are posted to.
    pub fn events_url() -> (r: &'static str)
        ensures
            r@ == "https://graph.microsoft.com/v1.0/me/events"@,
    {
        "https://graph.microsoft.com/v1.0/me/events"
    }

    /// True exactly when an HTTP status code counts as a success.
    pub open spec fn spec_status_is_success(status: u16) -> bool {
        200 <= status < 300
    }

    /// Classifies an HTTP status code: success means a code in [200, 300).
    pub fn status_is_success(status: u16) -> (r: bool)
        ensures
            r == Self::spec_status_is_success(status),
    {
        200 <= status && status < 300
    }

    /// The outcome of a submission, from the status code of the response
    /// where one arrived and `None` where the transport failed.
    ///
    /// Every received response counts as success, whatever its status code:
    /// a rejection by the remote service, a 401 included, is not reported as
    /// a failure. Only a transport failure is an error.
    pub fn submission_outcome(response_status: Option<u16>) -> (r: Result<(), SubmissionError>)
        ensures
            r is Ok <==> response_status is Some,
            r matches Err(e) ==> e == SubmissionError::TransportError,
    {
        match response_status {
            Some(_) => Ok(()),
            None => Err(SubmissionError::TransportError),
        }
    }
}

} // verus!
