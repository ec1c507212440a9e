//! Three-state circuit breaker: Closed → Open → HalfOpen → Closed.
//!
//!  Closed   : calls go through; failures are counted.
//!  Open     : calls are rejected until the cooldown has passed.
//!  HalfOpen : one probe call is let through; success closes the breaker,
//!             failure opens it again.
//!
//! Every state transition is reported to the observability port.  Times are
//! nanoseconds on the clock of `crate::clock::now_nanos`.

use vstd::prelude::*;
use crate::clock;
use crate::ports::observability::IObservability;
use crate::text::{decimal, decimal_string, owned};
use vstd::string::to_string_from_display_ensures;

verus! {

/// The state of a breaker.
#[derive(Debug, Clone, Copy, PartialEq, Eq, Structural)]
pub enum BreakerState {
    Closed,
    /// Rejecting calls until the given time.
    Open { until: u64 },
    HalfOpen,
}

/// Number of nanoseconds in a second.
pub const NANOS_PER_SEC: u64 = 1_000_000_000;

/// The shortest open window: one millisecond.
pub const MIN_COOLDOWN_NANOS: u64 = 1_000_000;

/// The open window for a cooldown of `secs` seconds, in nanoseconds: at least
/// one millisecond, saturating at `u64::MAX`.
pub open spec fn cooldown_nanos(secs: u64) -> u64 {
    let n = secs * 1_000_000_000;
    if n > u64::MAX {
        u64::MAX
    } else if n < 1_000_000 {
        1_000_000
    } else {
        n as u64
    }
}

/// The end of an open window that starts at `now`.
pub open spec fn open_until(now: u64, secs: u64) -> u64 {
    let t = now + cooldown_nanos(secs);
    if t > u64::MAX { u64::MAX } else { t as u64 }
}

/// The abstract state of a breaker: its state, failure count, threshold
/// and cooldown (seconds).
pub struct BreakerModel {
    pub state: BreakerState,
    pub failures: u32,
    pub threshold: u32,
    pub cooldown_secs: u64,
}

/// The model after a failure at `now`: the count goes up (saturating), and
/// the breaker opens when the count reaches the threshold or the failure was
/// the probe of a half-open breaker.
pub open spec fn after_failure(m: BreakerModel, now: u64) -> BreakerModel {
    let f: u32 = if m.failures < u32::MAX { (m.failures + 1) as u32 } else { m.failures };
    BreakerModel {
        state: if f >= m.threshold || m.state == BreakerState::HalfOpen {
            BreakerState::Open { until: open_until(now, m.cooldown_secs) }
        } else {
            m.state
        },
        failures: f,
        ..m
    }
}

/// The model after a success: closed, no failures counted.
pub open spec fn after_success(m: BreakerModel) -> BreakerModel {
    BreakerModel { state: BreakerState::Closed, failures: 0, ..m }
}

/// Whether a breaker in state `s` rejects calls at `now`.
pub open spec fn rejects_at(s: BreakerState, now: u64) -> bool {
    match s {
        BreakerState::Open { until } => now < until,
        _ => false,
    }
}

/// The model after a call is admitted at `now`: an expired open window
/// turns into a half-open probe.
pub open spec fn after_admission(m: BreakerModel, now: u64) -> BreakerModel {
    match m.state {
        BreakerState::Open { until } => if now < until {
            m
        } else {
            BreakerModel { state: BreakerState::HalfOpen, ..m }
        },
        _ => m,
    }
}

/// How a call through the breaker moves its model from `m0` to `m`: the
/// admission check happens at `t0`; a rejected call changes nothing, an
/// admitted one is counted as a success or, at `t1`, as a failure.
pub open spec fn call_transition(m0: BreakerModel, m: BreakerModel, t0: u64, t1: u64, ok: bool) -> bool {
    if rejects_at(m0.state, t0) {
        !ok && m == m0
    } else {
        &&& ok ==> m == after_success(after_admission(m0, t0))
        &&& !ok ==> m == after_failure(after_admission(m0, t0), t1)
    }
}

/// The text reported when a call is rejected.
pub open spec fn rejected_text(broker: Seq<char>) -> Seq<char> {
    "circuit_breaker.rejected broker="@ + broker + " state=open"@
}

/// The text reported when a failure is recorded.
pub open spec fn failure_text(broker: Seq<char>, failures: u32, err: Seq<char>) -> Seq<char> {
    "circuit_breaker.failure broker="@ + broker + " failures="@ + decimal(failures as nat)
        + " err="@ + err
}

/// The text reported when the breaker opens.
pub open spec fn opened_text(broker: Seq<char>, cooldown_secs: u64) -> Seq<char> {
    "circuit_breaker.opened broker="@ + broker + " cooldown_secs="@ + decimal(cooldown_secs as nat)
}

/// The text reported when an expired open window lets a probe through.
pub open spec fn half_open_text(broker: Seq<char>) -> Seq<char> {
    "circuit_breaker.half_open broker="@ + broker
}

/// The text reported when a successful probe closes the breaker.
pub open spec fn closed_text(broker: Seq<char>) -> Seq<char> {
    "circuit_breaker.closed broker="@ + broker
}

/// What an admission check at `now` reports: the rejection while the window
/// is open, the half-open probe once it has passed, nothing otherwise.
pub open spec fn admission_reports(m: BreakerModel, broker: Seq<char>, now: u64) -> Seq<Seq<char>> {
    match m.state {
        BreakerState::Open { until } => if now < until {
            seq![rejected_text(broker)]
        } else {
            seq![half_open_text(broker)]
        },
        _ => Seq::empty(),
    }
}

/// What a success reports: the closing, when the breaker was half-open.
pub open spec fn success_reports(m: BreakerModel, broker: Seq<char>) -> Seq<Seq<char>> {
    if m.state == BreakerState::HalfOpen {
        seq![closed_text(broker)]
    } else {
        Seq::empty()
    }
}

/// What a failure described by `err` at `now` reports: the failure with
/// the new count, then the opening when the breaker opens.
pub open spec fn failure_reports(m: BreakerModel, broker: Seq<char>, err: Seq<char>, now: u64) -> Seq<
    Seq<char>,
> {
    let m2 = after_failure(m, now);
    let f = seq![failure_text(broker, m2.failures, err)];
    if m2.failures >= m.threshold || m.state == BreakerState::HalfOpen {
        f.push(opened_text(broker, m.cooldown_secs))
    } else {
        f
    }
}

/// What a call reports, given its admission time `t0`, its failure time
/// `t1`, whether it succeeded and, if not, its error text.
pub open spec fn call_reports(
    m0: BreakerModel,
    broker: Seq<char>,
    t0: u64,
    t1: u64,
    ok: bool,
    err: Seq<char>,
) -> Seq<Seq<char>> {
    let adm = admission_reports(m0, broker, t0);
    if rejects_at(m0.state, t0) {
        adm
    } else if ok {
        adm + success_reports(after_admission(m0, t0), broker)
    } else {
        adm + failure_reports(after_admission(m0, t0), broker, err, t1)
    }
}

/// Circuit breaker for one broker, reporting to `O`.
pub struct CircuitBreaker<O: IObservability> {
    broker_id: String,
    state: BreakerState,
    failures: u32,
    failure_threshold: u32,
    cooldown_secs: u64,
    observability: O,
    /// Every text reported to `observability`, in order.
    reports: Ghost<Seq<Seq<char>>>,
}

impl<O: IObservability> CircuitBreaker<O> {
    /// The abstract state.
    pub closed spec fn model(&self) -> BreakerModel {
        BreakerModel {
            state: self.state,
            failures: self.failures,
            threshold: self.failure_threshold,
            cooldown_secs: self.cooldown_secs,
        }
    }

    /// The broker this breaker protects.
    pub closed spec fn spec_broker_id(&self) -> Seq<char> {
        self.broker_id@
    }

    /// The observability port the breaker reports to.
    pub closed spec fn spec_observability(&self) -> O {
        self.observability
    }

    /// The texts reported to observability so far, in order.
    pub closed spec fn spec_reports(&self) -> Seq<Seq<char>> {
        self.reports@
    }

    /// A closed breaker with no failures counted.
    pub fn new(broker_id: &str, failure_threshold: u32, cooldown_secs: u64, observability: O) -> (cb:
        Self)
        ensures
            cb.model() == (BreakerModel {
                state: BreakerState::Closed,
                failures: 0,
                threshold: failure_threshold,
                cooldown_secs,
            }),
            cb.spec_broker_id() == broker_id@,
            cb.spec_observability() == observability,
            cb.spec_reports() == Seq::<Seq<char>>::empty(),
    {
        CircuitBreaker {
            broker_id: owned(broker_id),
            state: BreakerState::Closed,
            failures: 0,
            failure_threshold,
            cooldown_secs,
            observability,
            reports: Ghost(Seq::empty()),
        }
    }

    fn rejected_message(&self) -> (r: String)
        ensures
            r@ == rejected_text(self.broker_id@),
    {
        let mut r = owned("circuit_breaker.rejected broker=");
        r.append(self.broker_id.as_str());
        r.append(" state=open");
        r
    }

    /// Admission check before a call at `now`: rejects while open, turns an
    /// expired open window into a half-open probe.
    pub fn admit_at(&mut self, now: u64) -> (r: Result<(), String>)
        ensures
            final(self).model() == after_admission(old(self).model(), now),
            final(self).spec_broker_id() == old(self).spec_broker_id(),
            match r {
                Ok(()) => !rejects_at(old(self).model().state, now),
                Err(msg) => rejects_at(old(self).model().state, now) && msg@ == rejected_text(
                    old(self).spec_broker_id(),
                ),
            },
            final(self).spec_observability() == old(self).spec_observability(),
            final(self).spec_reports() == old(self).spec_reports() + admission_reports(
                old(self).model(),
                old(self).spec_broker_id(),
                now,
            ),
    {
        let ghost r0 = self.reports@;
        match self.state {
            BreakerState::Open { until } => {
                if now < until {
                    let msg = self.rejected_message();
                    self.observability.emit(msg.clone());
                    proof {
                        self.reports@ = self.reports@.push(msg@);
                    }
                    Err(msg)
                } else {
                    self.state = BreakerState::HalfOpen;
                    let mut msg = owned("circuit_breaker.half_open broker=");
                    msg.append(self.broker_id.as_str());
                    let ghost text = msg@;
                    self.observability.emit(msg);
                    proof {
                        self.reports@ = self.reports@.push(text);
                    }
                    Ok(())
                }
            },
            _ => {
                assert(self.reports@ =~= r0 + Seq::<Seq<char>>::empty());
                Ok(())
            },
        }
    }

    /// Record a successful call: the breaker closes and the failure count
    /// is reset.
    pub fn record_success(&mut self)
        ensures
            final(self).model() == after_success(old(self).model()),
            final(self).spec_broker_id() == old(self).spec_broker_id(),
            final(self).spec_observability() == old(self).spec_observability(),
            final(self).spec_reports() == old(self).spec_reports() + success_reports(
                old(self).model(),
                old(self).spec_broker_id(),
            ),
    {
        let ghost r0 = self.reports@;
        let was_half_open = self.state == BreakerState::HalfOpen;
        self.failures = 0;
        self.state = BreakerState::Closed;
        if was_half_open {
            let mut msg = owned("circuit_breaker.closed broker=");
            msg.append(self.broker_id.as_str());
            let ghost text = msg@;
            self.observability.emit(msg);
            proof {
                self.reports@ = self.reports@.push(text);
            }
        } else {
            assert(self.reports@ =~= r0 + Seq::<Seq<char>>::empty());
        }
    }

    fn failure_message(&self, err: &str) -> (r: String)
        ensures
            r@ == failure_text(self.broker_id@, self.failures, err@),
    {
        let mut r = owned("circuit_breaker.failure broker=");
        r.append(self.broker_id.as_str());
        r.append(" failures=");
        let n = decimal_string(self.failures as u64);
        r.append(n.as_str());
        r.append(" err=");
        r.append(err);
        r
    }

    fn opened_message(&self) -> (r: String)
        ensures
            r@ == opened_text(self.broker_id@, self.cooldown_secs),
    {
        let mut r = owned("circuit_breaker.opened broker=");
        r.append(self.broker_id.as_str());
        r.append(" cooldown_secs=");
        let n = decimal_string(self.cooldown_secs);
        r.append(n.as_str());
        r
    }

    /// Record a failed call at `now`, described by `err`.
    pub fn record_failure_text_at(&mut self, err: &str, now: u64)
        ensures
            final(self).model() == after_failure(old(self).model(), now),
            final(self).spec_broker_id() == old(self).spec_broker_id(),
            final(self).spec_observability() == old(self).spec_observability(),
            final(self).spec_reports() == old(self).spec_reports() + failure_reports(
                old(self).model(),
                old(self).spec_broker_id(),
                err@,
                now,
            ),
    {
        let ghost r0 = self.reports@;
        self.failures = self.failures.saturating_add(1);
        let msg = self.failure_message(err);
        let ghost text = msg@;
        self.observability.emit(msg);
        proof {
            self.reports@ = self.reports@.push(text);
        }
        if self.failures >= self.failure_threshold || self.state == BreakerState::HalfOpen {
            let window = if self.cooldown_secs > 18_446_744_073 {
                u64::MAX
            } else if self.cooldown_secs * NANOS_PER_SEC < MIN_COOLDOWN_NANOS {
                MIN_COOLDOWN_NANOS
            } else {
                self.cooldown_secs * NANOS_PER_SEC
            };
            assert(window == cooldown_nanos(self.cooldown_secs));
            let until = now.saturating_add(window);
            self.state = BreakerState::Open { until };
            let open_msg = self.opened_message();
            let ghost open_text = open_msg@;
            self.observability.emit(open_msg);
            proof {
                self.reports@ = self.reports@.push(open_text);
            }
        }
    }

    /// Record a failed call, described by `err`, at the current time of
    /// `clock::now_nanos`.
    pub fn record_failure<E: std::fmt::Display>(&mut self, err: &E)
        ensures
            exists|now: u64, m: String| #![trigger after_failure(old(self).model(), now), to_string_from_display_ensures::<E>(err, m)] {
                &&& clock::clock_reading(now)
                &&& final(self).model() == after_failure(old(self).model(), now)
                &&& to_string_from_display_ensures::<E>(err, m)
                &&& final(self).spec_reports() == old(self).spec_reports() + failure_reports(
                    old(self).model(),
                    old(self).spec_broker_id(),
                    m@,
                    now,
                )
            },
            final(self).spec_broker_id() == old(self).spec_broker_id(),
            final(self).spec_observability() == old(self).spec_observability(),
    {
        let text = err.to_string();
        let now = clock::now_nanos();
        self.record_failure_text_at(text.as_str(), now);
    }

    /// Whether calls are rejected at `now`.
    pub fn is_open_at(&self, now: u64) -> (r: bool)
        ensures
            r == rejects_at(self.model().state, now),
    {
        match self.state {
            BreakerState::Open { until } => now < until,
            _ => false,
        }
    }

    /// Whether calls are rejected at the current time of `clock::now_nanos`:
    /// the answer of [`Self::is_open_at`] for the very time read.
    pub fn is_open(&self) -> (r: bool)
        ensures
            r ==> self.model().state is Open,
            exists|now: u64| #[trigger] clock::clock_reading(now) && r == rejects_at(self.model().state, now),
    {
        let now = clock::now_nanos();
        self.is_open_at(now)
    }

    /// Run `f` through the breaker: rejected with the rejection text while
    /// open; otherwise `f` runs and its result is returned, counted as a
    /// success or a failure (described by the error text).
    pub fn call<F, T>(&mut self, f: F) -> (r: Result<T, String>)
        where
            F: FnOnce() -> Result<T, String>,
        requires
            f.requires(()),
        ensures
            final(self).spec_broker_id() == old(self).spec_broker_id(),
            exists|t0: u64, t1: u64| #[trigger]
                call_transition(old(self).model(), final(self).model(), t0, t1, r is Ok)
                    && clock::clock_reading(t0) && clock::clock_reading(t1)
                    && (rejects_at(old(self).model().state, t0) ==> r is Err && r->Err_0@
                    == rejected_text(old(self).spec_broker_id()))
                    && (!rejects_at(old(self).model().state, t0) ==> f.ensures((), r))
                    && final(self).spec_reports() == old(self).spec_reports() + call_reports(
                    old(self).model(),
                    old(self).spec_broker_id(),
                    t0,
                    t1,
                    r is Ok,
                    match r {
                        Ok(_) => Seq::<char>::empty(),
                        Err(e) => e@,
                    },
                ),
            final(self).spec_observability() == old(self).spec_observability(),
    {
        let ghost g0 = self.reports@;
        let ghost m0 = self.model();
        let t0 = clock::now_nanos();
        match self.admit_at(t0) {
            Err(msg) => {
                assert(call_transition(m0, self.model(), t0, t0, false));
                Err(msg)
            },
            Ok(()) => {
                let result = f();
                match result {
                    Ok(v) => {
                        self.record_success();
                        assert(call_transition(m0, self.model(), t0, t0, true));
                        Ok(v)
                    },
                    Err(e) => {
                        let t1 = clock::now_nanos();
                        self.record_failure_text_at(e.as_str(), t1);
                        assert(call_transition(m0, self.model(), t0, t1, false));
                        Err(e)
                    },
                }
            },
        }
    }

    /// The observability port this breaker reports to.
    pub fn observability(&self) -> (r: &O)
        ensures
            *r == self.spec_observability(),
    {
        &self.observability
    }
}

/// A failure that brings the count to the threshold opens the breaker, and
/// the opened breaker rejects calls for at least a millisecond (unless the
/// clock is at the very end of its range).
pub proof fn law_threshold_opens(m: BreakerModel, now: u64)
    requires
        m.failures < u32::MAX,
        m.failures + 1 >= m.threshold,
        now < u64::MAX - 1_000_000,
    ensures
        after_failure(m, now).state is Open,
        rejects_at(after_failure(m, now).state, now),
        forall|t: u64| now <= t < now + 1_000_000 ==> rejects_at(after_failure(m, now).state, t),
{
}

/// Failures below the threshold leave a closed breaker closed.
pub proof fn law_below_threshold_stays_closed(m: BreakerModel, now: u64)
    requires
        m.state == BreakerState::Closed,
        m.failures + 1 < m.threshold,
    ensures
        after_failure(m, now).state == BreakerState::Closed,
        after_failure(m, now).failures == m.failures + 1,
{
}

/// A success always closes the breaker and clears the count, so a breaker
/// never rejects right after a success.
pub proof fn law_success_closes(m: BreakerModel, now: u64)
    ensures
        after_success(m).state == BreakerState::Closed,
        after_success(m).failures == 0,
        !rejects_at(after_success(m).state, now),
{
}

/// Once the open window has passed, the next call is admitted as a
/// half-open probe; a failing probe opens the breaker again at once.
pub proof fn law_expired_window_probes(m: BreakerModel, until: u64, now: u64)
    requires
        m.state == (BreakerState::Open { until }),
        now >= until,
        now < u64::MAX - 1_000_000,
    ensures
        !rejects_at(m.state, now),
        after_admission(m, now).state == BreakerState::HalfOpen,
        rejects_at(after_failure(after_admission(m, now), now).state, now),
{
}

/// An open breaker rejects every call before its window ends and then
/// stays as it was.
pub proof fn law_open_rejects(m: BreakerModel, until: u64, now: u64)
    requires
        m.state == (BreakerState::Open { until }),
        now < until,
    ensures
        rejects_at(m.state, now),
        after_admission(m, now) == m,
{
}


/// An admitted call counts its outcome: a success closes the breaker with
/// no failures counted; a failure adds one (saturating) and opens the
/// breaker exactly when the count reaches the threshold or the call was a
/// half-open probe.  A rejected call changes nothing.
pub proof fn law_call_counts_outcome(m0: BreakerModel, m: BreakerModel, t0: u64, t1: u64, ok: bool)
    requires
        call_transition(m0, m, t0, t1, ok),
    ensures
        rejects_at(m0.state, t0) ==> !ok && m == m0,
        !rejects_at(m0.state, t0) && ok ==> m.state == BreakerState::Closed && m.failures == 0,
        !rejects_at(m0.state, t0) && !ok ==> {
            let a = after_admission(m0, t0);
            &&& m.failures == (if a.failures < u32::MAX { a.failures + 1 } else { a.failures as int })
            &&& (m.state is Open <==> (m.failures >= m0.threshold || a.state == BreakerState::HalfOpen
                || a.state is Open))
        },
{
}


/// The open window ends: a breaker that a failure at `now` opens rejects
/// calls at every time before `open_until(now, cooldown)`, and at no time
/// from then on, so `is_open` at a later clock reading answers `false`.
pub proof fn law_open_window_ends(m: BreakerModel, now: u64, t: u64)
    requires
        !(m.state is Open),
        after_failure(m, now).state is Open,
    ensures
        after_failure(m, now).state == (BreakerState::Open { until: open_until(now, m.cooldown_secs) }),
        rejects_at(after_failure(m, now).state, t) <==> t < open_until(now, m.cooldown_secs),
{
}

} // verus!
