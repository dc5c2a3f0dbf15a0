//! Maps HTTP status codes returned by the server to a small outcome
//! taxonomy. The mapping is advisory: dispatch itself never fails on a
//! non-2xx status, only this classifier assigns meaning to one.

use vstd::prelude::*;

verus! {

/// Meaning assigned to an HTTP status code returned by the server.
#[derive(Debug, Clone, Copy, PartialEq, Eq, Structural)]
pub enum Outcome {
    /// 200: the request succeeded.
    Success,
    /// 400: request parameters or body have missing or invalid fields.
    InvalidRequest,
    /// 401: the signature or timestamp was not accepted.
    AuthenticationFailed,
    /// 403: the identity may not perform the operation.
    PermissionDenied,
    /// 404: the resource does not exist.
    NotFound,
    /// 406: the Accept header does not include application/json.
    UnacceptableContentType,
    /// Any other status; carries that status code.
    GenericServerError(u16),
}

/// The status table: six named codes, everything else generic.
pub open spec fn classify_spec(status: u16) -> Outcome {
    if status == 200 {
        Outcome::Success
    } else if status == 400 {
        Outcome::InvalidRequest
    } else if status == 401 {
        Outcome::AuthenticationFailed
    } else if status == 403 {
        Outcome::PermissionDenied
    } else if status == 404 {
        Outcome::NotFound
    } else if status == 406 {
        Outcome::UnacceptableContentType
    } else {
        Outcome::GenericServerError(status)
    }
}

/// Assigns an outcome to a status code, following `classify_spec` exactly.
pub fn classify(status: u16) -> (r: Outcome)
    ensures
        r == classify_spec(status),
{
    if status == 200 {
        Outcome::Success
    } else if status == 400 {
        Outcome::InvalidRequest
    } else if status == 401 {
        Outcome::AuthenticationFailed
    } else if status == 403 {
        Outcome::PermissionDenied
    } else if status == 404 {
        Outcome::NotFound
    } else if status == 406 {
        Outcome::UnacceptableContentType
    } else {
        Outcome::GenericServerError(status)
    }
}

/// Every status code is classified, each named code to its own outcome,
/// and every unmapped code to `GenericServerError` carrying that code.
pub proof fn lemma_classify_total(status: u16)
    ensures
        classify_spec(status) == Outcome::Success <==> status == 200,
        classify_spec(status) == Outcome::InvalidRequest <==> status == 400,
        classify_spec(status) == Outcome::AuthenticationFailed <==> status == 401,
        classify_spec(status) == Outcome::PermissionDenied <==> status == 403,
        classify_spec(status) == Outcome::NotFound <==> status == 404,
        classify_spec(status) == Outcome::UnacceptableContentType <==> status == 406,
        classify_spec(status) matches Outcome::GenericServerError(c) ==> c == status,
        classify_spec(status) matches Outcome::GenericServerError(c) <==> !(status == 200
            || status == 400 || status == 401 || status == 403 || status == 404
            || status == 406),
{
}

} // verus!
