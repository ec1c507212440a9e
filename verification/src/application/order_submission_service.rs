//! The decisions of order submission: validation, duplicate detection, the
//! circuit breaker guard before every broker call, and the bookkeeping once
//! the broker has answered (breaker outcome, open-order tracking for the
//! kill switch, idempotency record).
//!
//! Each operation is split around the broker call: a `begin_*` step decides
//! whether the call may be made, and a `finish_*` step takes the broker's
//! answer.  The kill switch and the circuit breaker are shared with other
//! parts of the gateway, so they are passed in rather than owned.

use vstd::prelude::*;
use crate::application::idempotency::{
    IdemSeq,
    IdempotencyStore,
    after_lookup,
    after_mark,
    has_key,
    keys_unique,
    law_mark_then_lookup,
};
use crate::application::kill_switch::KillSwitch;
use crate::application::validator::{
    PriceCheck,
    RequestValidator,
    execution_id_error,
    order_error,
    replace_error,
    result_matches,
};
use crate::domain::broker_error::{BrokerError, broker_error_text, unknown_with};
use crate::domain::order::{CancelCmd, ExecutionId, OrderType, StatusQuery};
use crate::patterns::circuit_breaker::{
    BreakerModel,
    CircuitBreaker,
    after_failure,
    after_success,
    rejects_at,
};
use crate::ports::observability::IObservability;
use crate::text::owned;

verus! {

/// The idempotency key of an order: its client order ID, else its symbol.
pub open spec fn idempotency_key(client_order_id: Option<String>, symbol: Seq<char>) -> Seq<char> {
    match client_order_id {
        Some(c) => c@,
        None => symbol,
    }
}

/// The breaker after the broker answered: a success closes it, a failure
/// is counted at `now`.
pub open spec fn breaker_after<T>(m: BreakerModel, result: Result<T, BrokerError>, now: u64) -> BreakerModel {
    match result {
        Ok(_) => after_success(m),
        Err(_) => after_failure(m, now),
    }
}

/// Whether `r` is the verdict on an order with idempotency key `key`: the
/// validation failure `reason` first, then a refusal as a duplicate when
/// `submitted` remembers the key, then a refusal while the breaker is open
/// at `now`; otherwise the key is handed back.
pub open spec fn submit_verdict(
    reason: Option<Seq<char>>,
    submitted: IdemSeq,
    key: Seq<char>,
    m: BreakerModel,
    now: u64,
    r: Result<String, BrokerError>,
) -> bool {
    if reason is Some {
        r matches Err(e) && unknown_with(e, reason.unwrap())
    } else if has_key(submitted, key) {
        r matches Err(e) && unknown_with(e, "duplicate order"@)
    } else if rejects_at(m.state, now) {
        r matches Err(e) && unknown_with(e, "circuit breaker open"@)
    } else {
        r matches Ok(k) && k@ == key
    }
}

/// An order the broker accepted is refused when sent again: once
/// `finish_submit` has recorded its idempotency key, the verdict on a valid
/// order with the same key is a refusal as a duplicate, whatever the breaker
/// says.
pub proof fn law_resubmission_is_duplicate(
    submitted: IdemSeq,
    memory: nat,
    key: Seq<char>,
    id: Seq<char>,
    m: BreakerModel,
    now: u64,
    r: Result<String, BrokerError>,
)
    requires
        keys_unique(submitted),
        submit_verdict(None, after_mark(submitted, memory, key, id), key, m, now, r),
    ensures
        r matches Err(e) && unknown_with(e, "duplicate order"@),
{
    law_mark_then_lookup(submitted, memory, key, id);
}

/// `after` is `before` without the order `id`, every other order kept.
pub open spec fn untracked(before: Seq<Seq<char>>, after: Seq<Seq<char>>, id: Seq<char>) -> bool {
    &&& !after.contains(id)
    &&& forall|x: Seq<char>| x != id ==> (#[trigger] after.contains(x) == before.contains(x))
    &&& after.len() == before.len() - if before.contains(id) { 1int } else { 0int }
}

/// Order submission for one broker.
pub struct OrderSubmissionService {
    validator: RequestValidator,
    idempotency: IdempotencyStore,
    broker_id: String,
}

impl OrderSubmissionService {
    /// The idempotency store's invariant.
    pub closed spec fn wf(&self) -> bool {
        self.idempotency.wf()
    }

    /// The orders already submitted: key and execution ID, least recently
    /// used first.
    pub closed spec fn submitted(&self) -> Seq<(Seq<char>, Seq<char>)> {
        self.idempotency@
    }

    /// How many submitted orders are remembered at most.
    pub closed spec fn memory(&self) -> nat {
        self.idempotency.spec_capacity()
    }

    /// The broker the service submits to.
    pub closed spec fn spec_broker_id(&self) -> Seq<char> {
        self.broker_id@
    }

    /// The orders remembered as submitted have distinct keys.
    pub proof fn lemma_submitted_keys_unique(&self)
        requires
            self.wf(),
        ensures
            keys_unique(self.submitted()),
    {
        self.idempotency.lemma_keys_unique();
    }

    /// A service for `broker_id`.
    pub fn new(validator: RequestValidator, idempotency: IdempotencyStore, broker_id: &str) -> (s:
        Self)
        requires
            idempotency.wf(),
        ensures
            s.wf(),
            s.submitted() == idempotency@,
            s.memory() == idempotency.spec_capacity(),
            s.spec_broker_id() == broker_id@,
    {
        OrderSubmissionService { validator, idempotency, broker_id: owned(broker_id) }
    }

    /// The guard before every broker call: refused while the breaker is
    /// open at `now`.
    pub fn pre_flight<O: IObservability>(&self, breaker: &CircuitBreaker<O>, now: u64) -> (r: Result<
        (),
        BrokerError,
    >)
        ensures
            rejects_at(breaker.model().state, now) ==> (r matches Err(e) && unknown_with(
                e,
                "circuit breaker open"@,
            )),
            !rejects_at(breaker.model().state, now) ==> r is Ok,
    {
        if breaker.is_open_at(now) {
            Err(BrokerError::Unknown(owned("circuit breaker open")))
        } else {
            Ok(())
        }
    }

    /// Decide whether an order may go to the broker at `now`.  The order is
    /// validated, refused as a duplicate when its idempotency key was
    /// already submitted, then guarded by the breaker; on success returns
    /// the idempotency key to hand to [`Self::finish_submit`].
    pub fn begin_submit<O: IObservability>(
        &mut self,
        breaker: &CircuitBreaker<O>,
        symbol: &str,
        qty: u32,
        order_type: OrderType,
        limit: PriceCheck,
        stop: PriceCheck,
        notional: PriceCheck,
        client_order_id: &Option<String>,
        now: u64,
    ) -> (r: Result<String, BrokerError>)
        requires
            old(self).wf(),
        ensures
            final(self).wf(),
            final(self).memory() == old(self).memory(),
            final(self).spec_broker_id() == old(self).spec_broker_id(),
            ({
                let reason = order_error(symbol@, qty, order_type, limit, stop, notional);
                let key = idempotency_key(*client_order_id, symbol@);
                &&& submit_verdict(reason, old(self).submitted(), key, breaker.model(), now, r)
                &&& final(self).submitted() == if reason is Some {
                    old(self).submitted()
                } else {
                    after_lookup(old(self).submitted(), key)
                }
            }),
    {
        match self.validator.validate_order_checked(symbol, qty, order_type, limit, stop, notional) {
            Err(e) => return Err(e),
            Ok(()) => {},
        }
        let key = match client_order_id {
            Some(c) => c.clone(),
            None => owned(symbol),
        };
        if self.idempotency.is_processed(key.as_str()) {
            return Err(BrokerError::Unknown(owned("duplicate order")));
        }
        match self.pre_flight(breaker, now) {
            Err(e) => Err(e),
            Ok(()) => Ok(key),
        }
    }

    /// Take the broker's answer to a submission at `now`.  A success closes
    /// the breaker, tracks the order as open for the kill switch and
    /// records the key as submitted with the execution ID; a failure is
    /// counted by the breaker.  The broker's answer is returned.
    pub fn finish_submit<O: IObservability>(
        &mut self,
        breaker: &mut CircuitBreaker<O>,
        kill_switch: &mut KillSwitch,
        key: String,
        result: Result<ExecutionId, BrokerError>,
        now: u64,
    ) -> (r: Result<ExecutionId, BrokerError>)
        requires
            old(self).wf(),
            old(kill_switch).wf(),
        ensures
            final(self).wf(),
            final(kill_switch).wf(),
            r == result,
            final(self).memory() == old(self).memory(),
            final(self).spec_broker_id() == old(self).spec_broker_id(),
            final(breaker).model() == breaker_after(old(breaker).model(), result, now),
            final(breaker).spec_broker_id() == old(breaker).spec_broker_id(),
            final(kill_switch).spec_enabled() == old(kill_switch).spec_enabled(),
            match result {
                Ok(id) => {
                    &&& final(self).submitted() == after_mark(
                        old(self).submitted(),
                        old(self).memory(),
                        key@,
                        id@,
                    )
                    &&& final(kill_switch).spec_orders() == if old(kill_switch).spec_orders().contains(
                        id@,
                    ) {
                        old(kill_switch).spec_orders()
                    } else {
                        old(kill_switch).spec_orders().push(id@)
                    }
                },
                Err(_) => {
                    &&& final(self).submitted() == old(self).submitted()
                    &&& final(kill_switch).spec_orders() == old(kill_switch).spec_orders()
                },
            },
    {
        match result {
            Ok(id) => {
                breaker.record_success();
                let _ = kill_switch.track_open_order(&id);
                self.idempotency.mark_processed(key, id.0.clone());
                Ok(id)
            },
            Err(e) => {
                let text = e.to_string();
                breaker.record_failure_text_at(text.as_str(), now);
                Err(e)
            },
        }
    }

    /// Decide whether a cancel may go to the broker at `now`: the execution
    /// ID is validated, then the breaker guards the call.
    pub fn begin_cancel<O: IObservability>(&self, breaker: &CircuitBreaker<O>, cmd: &CancelCmd, now: u64) -> (r:
        Result<(), BrokerError>)
        ensures
            guard_verdict(execution_id_error(cmd.execution_id@), breaker.model(), now, r),
    {
        match self.validator.validate_cancel(cmd) {
            Err(e) => Err(e),
            Ok(()) => self.pre_flight(breaker, now),
        }
    }

    /// Take the broker's answer to a cancel at `now`.  A success closes the
    /// breaker and stops tracking the order; a failure is counted by the
    /// breaker.  The broker's answer is returned.
    pub fn finish_cancel<O: IObservability>(
        &self,
        breaker: &mut CircuitBreaker<O>,
        kill_switch: &mut KillSwitch,
        cmd: &CancelCmd,
        result: Result<(), BrokerError>,
        now: u64,
    ) -> (r: Result<(), BrokerError>)
        requires
            old(kill_switch).wf(),
        ensures
            final(kill_switch).wf(),
            r == result,
            final(breaker).model() == breaker_after(old(breaker).model(), result, now),
            final(breaker).spec_broker_id() == old(breaker).spec_broker_id(),
            final(kill_switch).spec_enabled() == old(kill_switch).spec_enabled(),
            result is Ok ==> untracked(
                old(kill_switch).spec_orders(),
                final(kill_switch).spec_orders(),
                cmd.execution_id@,
            ),
            result is Err ==> final(kill_switch).spec_orders() == old(kill_switch).spec_orders(),
    {
        match result {
            Ok(u) => {
                breaker.record_success();
                let _ = kill_switch.remove_open_order(&cmd.execution_id);
                Ok(u)
            },
            Err(e) => {
                let text = e.to_string();
                breaker.record_failure_text_at(text.as_str(), now);
                Err(e)
            },
        }
    }

    /// Decide whether a replace may go to the broker at `now`: the command is
    /// validated, then the breaker guards the call.
    pub fn begin_replace<O: IObservability>(
        &self,
        breaker: &CircuitBreaker<O>,
        execution_id: &str,
        symbol: &str,
        qty: Option<u32>,
        limit: PriceCheck,
        now: u64,
    ) -> (r: Result<(), BrokerError>)
        ensures
            guard_verdict(replace_error(execution_id@, symbol@, qty, limit), breaker.model(), now, r),
    {
        match self.validator.validate_replace_checked(execution_id, symbol, qty, limit) {
            Err(e) => Err(e),
            Ok(()) => self.pre_flight(breaker, now),
        }
    }

    /// Decide whether a status query may go to the broker at `now`: the
    /// execution ID is validated, then the breaker guards the call.
    pub fn begin_query<O: IObservability>(&self, breaker: &CircuitBreaker<O>, query: &StatusQuery, now: u64) -> (r:
        Result<(), BrokerError>)
        ensures
            guard_verdict(execution_id_error(query.execution_id@), breaker.model(), now, r),
    {
        match self.validator.validate_query(query) {
            Err(e) => Err(e),
            Ok(()) => self.pre_flight(breaker, now),
        }
    }

    /// Take the broker's answer to a replace or a status query at `now`: the
    /// breaker counts it as a success or a failure, and the answer is
    /// returned.
    pub fn finish_call<O: IObservability, T>(
        &self,
        breaker: &mut CircuitBreaker<O>,
        result: Result<T, BrokerError>,
        now: u64,
    ) -> (r: Result<T, BrokerError>)
        ensures
            r == result,
            final(breaker).model() == breaker_after(old(breaker).model(), result, now),
            final(breaker).spec_broker_id() == old(breaker).spec_broker_id(),
    {
        match result {
            Ok(v) => {
                breaker.record_success();
                Ok(v)
            },
            Err(e) => {
                let text = e.to_string();
                breaker.record_failure_text_at(text.as_str(), now);
                Err(e)
            },
        }
    }

    /// An order was filled: stop tracking it.  Returns whether it was
    /// tracked.
    pub fn mark_order_filled(&self, kill_switch: &mut KillSwitch, execution_id: &ExecutionId) -> (removed:
        bool)
        requires
            old(kill_switch).wf(),
        ensures
            final(kill_switch).wf(),
            removed == old(kill_switch).spec_orders().contains(execution_id@),
            untracked(old(kill_switch).spec_orders(), final(kill_switch).spec_orders(), execution_id@),
            final(kill_switch).spec_enabled() == old(kill_switch).spec_enabled(),
    {
        kill_switch.remove_open_order(execution_id)
    }

    /// Number of orders tracked as open.
    pub fn open_order_count(&self, kill_switch: &KillSwitch) -> (r: usize)
        ensures
            r == kill_switch.spec_orders().len(),
    {
        kill_switch.open_order_count()
    }

    /// Whether an order is tracked as open.
    pub fn is_order_open(&self, kill_switch: &KillSwitch, execution_id: &ExecutionId) -> (r: bool)
        requires
            kill_switch.wf(),
        ensures
            r == kill_switch.spec_orders().contains(execution_id@),
    {
        kill_switch.is_order_tracked(execution_id)
    }
}

/// Whether `r` is the verdict of the guard before a broker call: the
/// validation failure `reason` first, then a refusal while the breaker is
/// open at `now`, else `Ok`.
pub open spec fn guard_verdict(reason: Option<Seq<char>>, m: BreakerModel, now: u64, r: Result<(), BrokerError>) -> bool {
    if reason is Some {
        result_matches(r, reason)
    } else if rejects_at(m.state, now) {
        r matches Err(e) && unknown_with(e, "circuit breaker open"@)
    } else {
        r is Ok
    }
}

} // verus!
