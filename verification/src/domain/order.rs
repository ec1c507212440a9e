//! Order commands and identifiers exchanged with the broker.

use vstd::prelude::*;
use crate::text::str_eq;

verus! {

/// Side of an order.
#[derive(Clone, Copy, Debug, PartialEq, Eq, Structural)]
pub enum OrderSide {
    Buy,
    Sell,
}

/// Type of an order.
#[derive(Clone, Copy, Debug, PartialEq, Eq, Structural)]
pub enum OrderType {
    Market,
    Limit,
    Stop,
    StopLimit,
}

/// How long an order stays working.
#[derive(Clone, Copy, Debug, PartialEq, Eq, Structural)]
pub enum TimeInForce {
    /// Day order.
    Day,
    /// Good till canceled.
    Gtc,
    /// Immediate or cancel.
    Ioc,
    /// Fill or kill.
    Fok,
}

/// The broker's identifier of an order.
#[derive(Clone, Debug, PartialEq)]
pub struct ExecutionId(pub String);

impl View for ExecutionId {
    type V = Seq<char>;

    open spec fn view(&self) -> Seq<char> {
        self.0@
    }
}

impl From<String> for ExecutionId {
    fn from(s: String) -> (r: Self)
        ensures
            r@ == s@,
    {
        ExecutionId(s)
    }
}

impl vstd::std_specs::convert::FromSpecImpl<String> for ExecutionId {
    open spec fn obeys_from_spec() -> bool {
        true
    }

    open spec fn from_spec(s: String) -> Self {
        ExecutionId(s)
    }
}

impl ExecutionId {
    /// The identifier as text.
    pub fn to_string(&self) -> (r: String)
        ensures
            r@ == self@,
    {
        self.0.clone()
    }
}

/// A request to cancel an order.
#[derive(Clone, Debug)]
pub struct CancelCmd {
    pub execution_id: ExecutionId,
    /// Optional correlation ID for end-to-end request tracking.
    pub correlation_id: Option<String>,
}

/// A request for the status of an order.
#[derive(Clone, Debug)]
pub struct StatusQuery {
    pub execution_id: ExecutionId,
    /// Optional correlation ID for end-to-end request tracking.
    pub correlation_id: Option<String>,
}

/// Kinds of order lifecycle events published to subscribers.
#[derive(Clone, Copy, Debug, PartialEq, Eq, Structural)]
pub enum OrderLifecycleEventType {
    /// Order was successfully submitted to the broker.
    Submitted,
    /// Order was partially filled.
    PartialFill,
    /// Order was completely filled.
    Filled,
    /// Order was rejected by the broker.
    Rejected,
    /// Order was cancelled.
    Cancelled,
    /// Order was replaced/modified.
    Replaced,
    /// Order expired.
    Expired,
    /// Error occurred during order processing.
    Error,
}

/// The broker statuses in which an order is finished.
pub open spec fn terminal_status(s: Seq<char>) -> bool {
    s == "filled"@ || s == "canceled"@ || s == "cancelled"@ || s == "rejected"@ || s == "expired"@
        || s == "done_for_day"@
}

/// The broker statuses in which an order is still working.
pub open spec fn open_status(s: Seq<char>) -> bool {
    s == "new"@ || s == "accepted"@ || s == "pending"@ || s == "partially_filled"@ || s == "held"@
}

/// Whether an order in broker status `status` is in a terminal state
/// (filled, canceled, rejected, expired, done for the day).
pub fn is_terminal_status(status: &str) -> (r: bool)
    ensures
        r == terminal_status(status@),
{
    str_eq(status, "filled") || str_eq(status, "canceled") || str_eq(status, "cancelled") || str_eq(
        status,
        "rejected",
    ) || str_eq(status, "expired") || str_eq(status, "done_for_day")
}

/// Whether an order in broker status `status` is still open.
pub fn is_open_status(status: &str) -> (r: bool)
    ensures
        r == open_status(status@),
{
    str_eq(status, "new") || str_eq(status, "accepted") || str_eq(status, "pending") || str_eq(
        status,
        "partially_filled",
    ) || str_eq(status, "held")
}

/// The quantity still to be filled when `filled` of `qty` are filled
/// (zero when more than ordered was filled).
pub fn remaining_quantity(qty: u32, filled: u32) -> (r: u32)
    ensures
        r == if filled <= qty { (qty - filled) as u32 } else { 0u32 },
{
    qty.saturating_sub(filled)
}

} // verus!
