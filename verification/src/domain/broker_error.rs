//! Errors reported to callers of the gateway's order operations.

use vstd::prelude::*;
use crate::text::{concat2, owned};

verus! {

/// Why a broker operation was refused or failed.
#[derive(Debug, Clone, PartialEq)]
pub enum BrokerError {
    /// The broker could not be reached.
    ConnectionFailed(String),
    /// The rate limit for the broker is exhausted.
    RateLimited,
    /// Any other failure, with a description.
    Unknown(String),
}

/// A `BrokerError::Unknown` carrying exactly `msg`.
pub open spec fn unknown_with(e: BrokerError, msg: Seq<char>) -> bool {
    e matches BrokerError::Unknown(m) && m@ == msg
}

/// The description of a broker error.
pub open spec fn broker_error_text(e: BrokerError) -> Seq<char> {
    match e {
        BrokerError::ConnectionFailed(m) => "connection failed: "@ + m@,
        BrokerError::RateLimited => "rate limited"@,
        BrokerError::Unknown(m) => m@,
    }
}

impl BrokerError {
    /// The description of the error: `connection failed: <reason>`,
    /// `rate limited`, or the text of an unknown failure.
    pub fn to_string(&self) -> (s: String)
        ensures
            s@ == broker_error_text(*self),
    {
        match self {
            BrokerError::ConnectionFailed(m) => concat2("connection failed: ", m.as_str()),
            BrokerError::RateLimited => owned("rate limited"),
            BrokerError::Unknown(m) => m.clone(),
        }
    }
}

} // verus!
