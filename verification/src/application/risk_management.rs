//! The decisions of the pre-flight risk check: the kill switch first, then
//! the broker's rate limit, which is not consulted while the kill switch
//! is on (asking it uses up tokens).

use vstd::prelude::*;
use crate::domain::broker_error::{BrokerError, unknown_with};
use crate::text::owned;

verus! {

/// What the risk check does next.
pub enum RiskAction {
    /// Ask the rate limiter for the request's tokens.
    ConsultRateLimiter,
    /// Let the request through.
    Allow,
    /// Refuse the request with this error.
    Refuse(BrokerError),
}

/// The decision of the risk check, given whether the kill switch is on and
/// the rate limiter's answer once it was asked (`None` before).
pub open spec fn risk_decision(kill_switch_enabled: bool, rate_answer: Option<bool>, r: RiskAction) -> bool {
    if kill_switch_enabled {
        r matches RiskAction::Refuse(e) && unknown_with(e, "kill switch is active"@)
    } else {
        match rate_answer {
            None => r is ConsultRateLimiter,
            Some(true) => r is Allow,
            Some(false) => r matches RiskAction::Refuse(e) && e == BrokerError::RateLimited,
        }
    }
}

/// The next step of the risk check; see [`risk_decision`].
pub fn risk_step(kill_switch_enabled: bool, rate_answer: Option<bool>) -> (r: RiskAction)
    ensures
        risk_decision(kill_switch_enabled, rate_answer, r),
{
    if kill_switch_enabled {
        RiskAction::Refuse(BrokerError::Unknown(owned("kill switch is active")))
    } else {
        match rate_answer {
            None => RiskAction::ConsultRateLimiter,
            Some(true) => RiskAction::Allow,
            Some(false) => RiskAction::Refuse(BrokerError::RateLimited),
        }
    }
}

/// The kill switch blocks every request: while it is on, no answer of the
/// rate limiter lets a request through, and the limiter is never asked.
pub proof fn law_kill_switch_blocks_all(rate_answer: Option<bool>, r: RiskAction)
    requires
        risk_decision(true, rate_answer, r),
    ensures
        r is Refuse,
{
}

} // verus!
