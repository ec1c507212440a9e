//! Records written to the journal for every outbound request and inbound
//! response.

use vstd::prelude::*;
use crate::domain::request::RequestEnvelope;

verus! {

/// An outbound request as journaled.
#[derive(Clone, Debug)]
pub struct RequestRecord {
    pub id: String,
    /// Raw JSON payload of the outbound command.
    pub raw_payload: Option<String>,
    /// Optional correlation ID for end-to-end request tracking.
    pub correlation_id: Option<String>,
}

/// An inbound response as journaled.
#[derive(Clone, Debug)]
pub struct ResponseRecord {
    pub id: String,
    /// Raw JSON payload of the inbound confirmation.
    pub raw_payload: Option<String>,
    /// Optional correlation ID echoed back from the request.
    pub correlation_id: Option<String>,
}

/// A request that passed validation.
#[derive(Clone, Debug)]
pub struct ValidatedRequest {
    pub envelope: RequestEnvelope,
}

} // verus!
