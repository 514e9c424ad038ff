use vstd::prelude::*;

verus! {

/// The error of `serde_json` when a payload cannot be (de)serialized; carried as is.
#[verifier::external_type_specification]
#[verifier::external_body]
pub struct ExJsonError(serde_json::Error);

/// Errors reported by the remote API, or about its answers.
#[derive(Debug, PartialEq)]
pub enum ApifyApiError {
    /// The resource does not exist; carries the message from the error body.
    NotFound(String),
    /// Any other error status; carries the message from the error body.
    RawError(String),
    MaxTimeoutRetriesReached(u8),
    MaxRateLimitRetriesReached(u8),
    MaxServerFailedRetriesReached(u8),
    /// The service broke its contract (malformed answer, unknown transport failure).
    ApiFailure(String),
    MissingToken,
}

/// Errors detected locally, before any request is sent.
#[derive(Debug, PartialEq)]
pub enum ClientValidationError {
    MissingToken,
    InvalidResourceIdOrName(String),
}

/// Every error a call of the client can end in.
#[derive(Debug)]
pub enum ApifyClientError {
    ApifyApi(ApifyApiError),
    Parse(serde_json::Error),
    ClientValidation(ClientValidationError),
}

impl From<serde_json::Error> for ApifyClientError {
    fn from(e: serde_json::Error) -> (r: ApifyClientError)
        ensures
            r == ApifyClientError::Parse(e),
    {
        ApifyClientError::Parse(e)
    }
}

impl vstd::std_specs::convert::FromSpecImpl<serde_json::Error> for ApifyClientError {
    open spec fn obeys_from_spec() -> bool {
        true
    }

    open spec fn from_spec(e: serde_json::Error) -> ApifyClientError {
        ApifyClientError::Parse(e)
    }
}

impl From<ApifyApiError> for ApifyClientError {
    fn from(e: ApifyApiError) -> (r: ApifyClientError)
        ensures
            r == ApifyClientError::ApifyApi(e),
    {
        ApifyClientError::ApifyApi(e)
    }
}

impl vstd::std_specs::convert::FromSpecImpl<ApifyApiError> for ApifyClientError {
    open spec fn obeys_from_spec() -> bool {
        true
    }

    open spec fn from_spec(e: ApifyApiError) -> ApifyClientError {
        ApifyClientError::ApifyApi(e)
    }
}

impl From<ClientValidationError> for ApifyClientError {
    fn from(e: ClientValidationError) -> (r: ApifyClientError)
        ensures
            r == ApifyClientError::ClientValidation(e),
    {
        ApifyClientError::ClientValidation(e)
    }
}

impl vstd::std_specs::convert::FromSpecImpl<ClientValidationError> for ApifyClientError {
    open spec fn obeys_from_spec() -> bool {
        true
    }

    open spec fn from_spec(e: ClientValidationError) -> ApifyClientError {
        ApifyClientError::ClientValidation(e)
    }
}

} // verus!
