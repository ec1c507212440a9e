//! Telemetry for external round-trips: latency, status code, payload sizes,
//! error type and trace IDs.  Times are nanoseconds on the clock of
//! `crate::clock::now_nanos`.
//!
//! The decorator tracks operations in flight and builds one
//! [`TelemetryEvent`] per completed round-trip; the events are returned to
//! the caller, who forwards them to whatever consumes telemetry.

use vstd::prelude::*;
use vstd::string::to_string_from_display_ensures;
use crate::clock;
use crate::text::{decimal, decimal_string, owned, str_eq};

verus! {

/// Identifier tracing a request across the system.
#[derive(Debug, Clone, PartialEq, Eq, Hash)]
pub struct TraceId(pub String);

impl View for TraceId {
    type V = Seq<char>;

    open spec fn view(&self) -> Seq<char> {
        self.0@
    }
}

/// The text of a trace ID made at time `nanos` with random part `r`.
pub open spec fn trace_text(nanos: u64, r: u64) -> Seq<char> {
    "trace-"@ + decimal(nanos as nat) + "-"@ + decimal(r as nat)
}

impl TraceId {
    /// A new trace ID `trace-<nanoseconds>-<random>` from the clock and a
    /// random number.
    pub fn new() -> (t: Self)
        ensures
            exists|nanos: u64, r: u64| #![trigger trace_text(nanos, r)] clock::clock_reading(nanos) && t@ == trace_text(nanos, r),
    {
        let nanos = clock::now_nanos();
        let r = clock::random_u64();
        let mut s = owned("trace-");
        let a = decimal_string(nanos);
        s.append(a.as_str());
        s.append("-");
        let b = decimal_string(r);
        s.append(b.as_str());
        assert(s@ == trace_text(nanos, r));
        TraceId(s)
    }
}

/// Telemetry of one external round-trip.
#[derive(Debug, Clone, PartialEq)]
pub struct TelemetryEvent {
    /// Trace ID for request tracking.
    pub trace_id: TraceId,
    /// Operation name (e.g. `alpaca_submit_order`).
    pub operation: String,
    /// Start of the operation.
    pub start_time: u64,
    /// End of the operation.
    pub end_time: u64,
    /// Duration of the operation (nanoseconds).
    pub latency: u64,
    /// HTTP status code or FIX error code.
    pub status_code: Option<u16>,
    /// Size of the request payload in bytes.
    pub request_payload_size: usize,
    /// Size of the response payload in bytes.
    pub response_payload_size: usize,
    /// Error type if the operation failed.
    pub error_type: Option<String>,
    /// Error message if the operation failed.
    pub error_message: Option<String>,
    /// Broker or exchange.
    pub target: String,
    /// Whether the operation succeeded.
    pub success: bool,
}

/// Whether `e` is the event of the legacy text report `text`: operation
/// `legacy`, target `unknown`, failed with type `legacy_event` and the text
/// as message.
pub open spec fn legacy_event(e: TelemetryEvent, text: Seq<char>) -> bool {
    &&& e.operation@ == "legacy"@
    &&& e.target@ == "unknown"@
    &&& !e.success
    &&& opt_text(e.error_type) == Some("legacy_event"@)
    &&& opt_text(e.error_message) == Some(text)
}

/// The nanoseconds from `start` to `end`, zero when `end` is earlier.
pub open spec fn span(start: u64, end: u64) -> u64 {
    if end >= start { (end - start) as u64 } else { 0 }
}

/// The view of an optional text.
pub open spec fn opt_text(o: Option<String>) -> Option<Seq<char>> {
    match o {
        Some(s) => Some(s@),
        None => None,
    }
}

impl TelemetryEvent {
    /// A builder for an event of `operation` against `target`.
    pub fn builder(operation: &str, target: &str) -> (b: TelemetryEventBuilder)
        ensures
            b.operation@ == operation@,
            b.target@ == target@,
            b.status_code is None,
            b.request_payload_size == 0,
            b.response_payload_size == 0,
            b.error_type is None,
            b.error_message is None,
            b.success,
            clock::clock_reading(b.start_time),
    {
        TelemetryEventBuilder::new(operation, target)
    }
}

/// Builder for telemetry events.
pub struct TelemetryEventBuilder {
    pub trace_id: TraceId,
    pub operation: String,
    pub target: String,
    pub start_time: u64,
    pub status_code: Option<u16>,
    pub request_payload_size: usize,
    pub response_payload_size: usize,
    pub error_type: Option<String>,
    pub error_message: Option<String>,
    pub success: bool,
}

impl TelemetryEventBuilder {
    fn new(operation: &str, target: &str) -> (b: Self)
        ensures
            b.operation@ == operation@,
            b.target@ == target@,
            b.status_code is None,
            b.request_payload_size == 0,
            b.response_payload_size == 0,
            b.error_type is None,
            b.error_message is None,
            b.success,
            clock::clock_reading(b.start_time),
    {
        let trace_id = TraceId::new();
        TelemetryEventBuilder {
            trace_id,
            operation: owned(operation),
            target: owned(target),
            start_time: clock::now_nanos(),
            status_code: None,
            request_payload_size: 0,
            response_payload_size: 0,
            error_type: None,
            error_message: None,
            success: true,
        }
    }

    /// Set the trace ID.
    pub fn trace_id(self, trace_id: TraceId) -> (b: Self)
        ensures
            b == (TelemetryEventBuilder { trace_id, ..self }),
    {
        TelemetryEventBuilder { trace_id, ..self }
    }

    /// Set the status code.
    pub fn status_code(self, code: u16) -> (b: Self)
        ensures
            b == (TelemetryEventBuilder { status_code: Some(code), ..self }),
    {
        TelemetryEventBuilder { status_code: Some(code), ..self }
    }

    /// Set the request payload size.
    pub fn request_payload_size(self, size: usize) -> (b: Self)
        ensures
            b == (TelemetryEventBuilder { request_payload_size: size, ..self }),
    {
        TelemetryEventBuilder { request_payload_size: size, ..self }
    }

    /// Set the response payload size.
    pub fn response_payload_size(self, size: usize) -> (b: Self)
        ensures
            b == (TelemetryEventBuilder { response_payload_size: size, ..self }),
    {
        TelemetryEventBuilder { response_payload_size: size, ..self }
    }

    /// Mark the operation as failed with an error type and message.
    pub fn failed(self, error_type: &str, error_message: &str) -> (b: Self)
        ensures
            !b.success,
            opt_text(b.error_type) == Some(error_type@),
            opt_text(b.error_message) == Some(error_message@),
            b.trace_id == self.trace_id,
            b.operation == self.operation,
            b.target == self.target,
            b.start_time == self.start_time,
            b.status_code == self.status_code,
            b.request_payload_size == self.request_payload_size,
            b.response_payload_size == self.response_payload_size,
    {
        TelemetryEventBuilder {
            success: false,
            error_type: Some(owned(error_type)),
            error_message: Some(owned(error_message)),
            ..self
        }
    }

    /// Build the event, ending it now (never before it started: a clock
    /// read earlier than the start ends the event at its start).
    pub fn build(self) -> (e: TelemetryEvent)
        ensures
            e.trace_id == self.trace_id,
            e.operation == self.operation,
            e.target == self.target,
            e.start_time == self.start_time,
            e.start_time <= e.end_time,
            e.end_time == e.start_time || clock::clock_reading(e.end_time),
            e.latency == e.end_time - e.start_time,
            e.latency == span(e.start_time, e.end_time),
            e.status_code == self.status_code,
            e.request_payload_size == self.request_payload_size,
            e.response_payload_size == self.response_payload_size,
            e.error_type == self.error_type,
            e.error_message == self.error_message,
            e.success == self.success,
    {
        let end_time = end_after(self.start_time);
        let latency = end_time - self.start_time;
        TelemetryEvent {
            trace_id: self.trace_id,
            operation: self.operation,
            start_time: self.start_time,
            end_time,
            latency,
            status_code: self.status_code,
            request_payload_size: self.request_payload_size,
            response_payload_size: self.response_payload_size,
            error_type: self.error_type,
            error_message: self.error_message,
            target: self.target,
            success: self.success,
        }
    }
}

/// The event of a round trip begun with `b`, ended now that its `result`
/// is known: a success leaves what `b` holds; a failure is marked failed,
/// with the error's display text as message and `error_type` (the
/// classification of the error, if any) as type.
pub fn result_event<T, E: std::fmt::Display>(
    b: TelemetryEventBuilder,
    result: &Result<T, E>,
    error_type: Option<&str>,
) -> (e: TelemetryEvent)
    ensures
        e.trace_id == b.trace_id,
        e.operation == b.operation,
        e.target == b.target,
        e.start_time == b.start_time,
        e.start_time <= e.end_time,
        e.end_time == e.start_time || clock::clock_reading(e.end_time),
        e.latency == e.end_time - e.start_time,
        e.status_code == b.status_code,
        e.request_payload_size == b.request_payload_size,
        e.response_payload_size == b.response_payload_size,
        result is Ok ==> {
            &&& e.success == b.success
            &&& e.error_type == b.error_type
            &&& e.error_message == b.error_message
        },
        result is Err ==> {
            &&& !e.success
            &&& opt_text(e.error_type) == match error_type {
                Some(t) => Some(t@),
                None => None::<Seq<char>>,
            }
            &&& exists|m: String| {
                &&& to_string_from_display_ensures::<E>(&result->Err_0, m)
                &&& opt_text(e.error_message) == Some(m@)
            }
        },
{
    match result {
        Ok(_) => b.build(),
        Err(err) => {
            let m = err.to_string();
            proof {
                assert(to_string_from_display_ensures::<E>(err, m));
            }
            let t = match error_type {
                Some(t) => Some(owned(t)),
                None => None,
            };
            TelemetryEventBuilder { success: false, error_type: t, error_message: Some(m), ..b }.build()
        },
    }
}

struct ActiveOperation {
    trace_id: TraceId,
    operation: String,
    start_time: u64,
}

/// One operation in flight: trace ID, operation name, start time.
pub type ActiveView = (Seq<char>, Seq<char>, u64);

/// Measures external operations and builds their telemetry events.
pub struct TelemetryDecorator {
    active_operations: Vec<ActiveOperation>,
}

/// No trace ID is in flight twice.
pub open spec fn traces_unique(s: Seq<ActiveView>) -> bool {
    forall|i: int, j: int| 0 <= i < s.len() && 0 <= j < s.len() && i != j ==> s[i].0 != s[j].0
}

/// The trace `t` is in flight.
pub open spec fn has_trace(s: Seq<ActiveView>, t: Seq<char>) -> bool {
    exists|i: int| 0 <= i < s.len() && s[i].0 == t
}

/// The position of trace `t` (meaningful when `has_trace`).
pub open spec fn trace_index(s: Seq<ActiveView>, t: Seq<char>) -> int {
    choose|i: int| 0 <= i < s.len() && s[i].0 == t
}

/// Whether `e` is the event of a round-trip named `op` against `target`
/// from `start` to some end, with nothing measured but the time.
pub open spec fn plain_event(e: TelemetryEvent, op: Seq<char>, target: Seq<char>, start: u64) -> bool {
    &&& e.operation@ == op
    &&& e.target@ == target
    &&& e.start_time == start
    &&& clock::clock_reading(start)
    &&& start <= e.end_time
    &&& (e.end_time == start || clock::clock_reading(e.end_time))
    &&& e.latency == e.end_time - start
    &&& e.status_code is None
    &&& e.request_payload_size == 0
    &&& e.response_payload_size == 0
}

/// The end of a span that started at `start`: the clock now, or `start`
/// itself when the clock reads earlier (an event never ends before it
/// starts).
fn end_after(start: u64) -> (end: u64)
    ensures
        start <= end,
        end == start || clock::clock_reading(end),
{
    let now = clock::now_nanos();
    if now >= start {
        now
    } else {
        start
    }
}

impl View for TelemetryDecorator {
    type V = Seq<ActiveView>;

    closed spec fn view(&self) -> Seq<ActiveView> {
        self.active_operations@.map_values(|a: ActiveOperation| (a.trace_id@, a.operation@, a.start_time))
    }
}

impl TelemetryDecorator {
    /// The invariant: no trace ID in flight twice.
    pub closed spec fn wf(&self) -> bool {
        &&& traces_unique(self@)
        &&& forall|i: int| 0 <= i < self@.len() ==> clock::clock_reading(#[trigger] self@[i].2)
    }

    /// Every operation in flight started at a time the clock gave: the start
    /// recorded by `start_operation` is the clock reading taken then, so the
    /// latency `complete_operation` reports is the time since that reading.
    pub proof fn law_starts_are_clock_readings(&self)
        requires
            self.wf(),
        ensures
            forall|i: int| 0 <= i < self@.len() ==> clock::clock_reading(#[trigger] self@[i].2),
    {
    }

    /// A decorator with no operation in flight.
    pub fn new() -> (d: Self)
        ensures
            d.wf(),
            d@ == Seq::<ActiveView>::empty(),
    {
        let d = TelemetryDecorator { active_operations: Vec::new() };
        assert(d@ =~= Seq::<ActiveView>::empty());
        d
    }

    fn find(&self, trace: &str) -> (r: Option<usize>)
        requires
            self.wf(),
        ensures
            match r {
                Some(i) => i < self@.len() && has_trace(self@, trace@) && trace_index(self@, trace@)
                    == i,
                None => !has_trace(self@, trace@),
            },
    {
        let mut i: usize = 0;
        while i < self.active_operations.len()
            invariant
                0 <= i <= self.active_operations.len(),
                self@.len() == self.active_operations.len(),
                self.wf(),
                forall|j: int| 0 <= j < i ==> self@[j].0 != trace@,
            decreases self.active_operations.len() - i,
        {
            assert(self@[i as int].0 == self.active_operations@[i as int].trace_id@);
            if str_eq(self.active_operations[i].trace_id.0.as_str(), trace) {
                proof {
                    assert(has_trace(self@, trace@));
                    let c = trace_index(self@, trace@);
                    assert(self@[c].0 == self@[i as int].0);
                }
                return Some(i);
            }
            i = i + 1;
        }
        None
    }

    fn remove_at(&mut self, i: usize) -> (a: ActiveOperation)
        requires
            old(self).wf(),
            i < old(self)@.len(),
        ensures
            final(self).wf(),
            final(self)@ == old(self)@.remove(i as int),
            (a.trace_id@, a.operation@, a.start_time) == old(self)@[i as int],
    {
        let ghost s = self@;
        let a = self.active_operations.remove(i);
        proof {
            assert(self@ =~= s.remove(i as int));
            assert forall|x: int, y: int|
                0 <= x < self@.len() && 0 <= y < self@.len() && x != y implies self@[x].0 != self@[y].0 by {
                let ix = if x < i { x } else { x + 1 };
                let iy = if y < i { y } else { y + 1 };
                assert(self@[x] == s[ix] && self@[y] == s[iy]);
            }
        }
        a
    }

    /// Start tracking an operation and return its new trace ID.
    pub fn start_operation(&mut self, operation: &str) -> (t: TraceId)
        requires
            old(self).wf(),
        ensures
            final(self).wf(),
            has_trace(final(self)@, t@),
            final(self)@[trace_index(final(self)@, t@)].1 == operation@,
            clock::clock_reading(final(self)@[trace_index(final(self)@, t@)].2),
            forall|x: Seq<char>| x != t@ ==> has_trace(final(self)@, x) == has_trace(old(self)@, x),
    {
        let trace_id = TraceId::new();
        let start = clock::now_nanos();
        match self.find(trace_id.0.as_str()) {
            Some(i) => {
                self.remove_at(i);
            },
            None => {},
        }
        let ghost mid = self@;
        self.active_operations.push(
            ActiveOperation { trace_id: TraceId(owned(trace_id.0.as_str())), operation: owned(operation), start_time: start },
        );
        proof {
            let t = trace_id@;
            assert(self@ =~= mid.push((t, operation@, start)));
            assert(!has_trace(mid, t)) by {
                if has_trace(mid, t) {
                    let k = choose|k: int| 0 <= k < mid.len() && mid[k].0 == t;
                    lemma_removed_trace(old(self)@, mid, t, k);
                }
            }
            assert forall|x: int, y: int|
                0 <= x < self@.len() && 0 <= y < self@.len() && x != y implies self@[x].0 != self@[y].0 by {
                if x < mid.len() && y < mid.len() {
                    assert(self@[x] == mid[x] && self@[y] == mid[y]);
                } else if x < mid.len() {
                    assert(self@[x] == mid[x]);
                } else if y < mid.len() {
                    assert(self@[y] == mid[y]);
                }
            }
            let last = mid.len() as int;
            assert(self@[last].0 == t);
            assert(has_trace(self@, t));
            let c = trace_index(self@, t);
            assert(self@[c].0 == self@[last].0);
            assert forall|x: Seq<char>| x != t implies has_trace(self@, x) == has_trace(old(self)@, x) by {
                lemma_trace_membership(old(self)@, mid, self@, t, x);
            }
        }
        trace_id
    }

    /// Complete the operation `trace_id`: it stops being tracked and its
    /// event is returned, successful when `error` is `None`, otherwise
    /// carrying the error type and message.  `None` when the trace is not
    /// in flight.
    pub fn complete_operation(
        &mut self,
        trace_id: TraceId,
        status_code: Option<u16>,
        request_size: usize,
        response_size: usize,
        error: Option<(String, String)>,
    ) -> (r: Option<TelemetryEvent>)
        requires
            old(self).wf(),
        ensures
            final(self).wf(),
            !has_trace(final(self)@, trace_id@),
            match r {
                Some(e) => has_trace(old(self)@, trace_id@) && {
                    let a = old(self)@[trace_index(old(self)@, trace_id@)];
                    &&& final(self)@ == old(self)@.remove(trace_index(old(self)@, trace_id@))
                    &&& e.trace_id@ == trace_id@
                    &&& e.operation@ == a.1
                    &&& e.start_time == a.2
                    &&& clock::clock_reading(e.start_time)
                    &&& e.start_time <= e.end_time
                    &&& (e.end_time == e.start_time || clock::clock_reading(e.end_time))
                    &&& e.latency == e.end_time - e.start_time
                    &&& e.status_code == status_code
                    &&& e.request_payload_size == request_size
                    &&& e.response_payload_size == response_size
                    &&& e.target@ == "unknown"@
                    &&& e.success == error is None
                    &&& opt_text(e.error_type) == match error {
                        Some(p) => Some(p.0@),
                        None => None,
                    }
                    &&& opt_text(e.error_message) == match error {
                        Some(p) => Some(p.1@),
                        None => None,
                    }
                },
                None => !has_trace(old(self)@, trace_id@) && final(self)@ == old(self)@,
            },
    {
        match self.find(trace_id.0.as_str()) {
            None => None,
            Some(i) => {
                let a = self.remove_at(i);
                proof {
                    assert(clock::clock_reading(old(self)@[i as int].2));
                    if has_trace(self@, trace_id@) {
                        let k = choose|k: int| 0 <= k < self@.len() && self@[k].0 == trace_id@;
                        lemma_removed_trace(old(self)@, self@, trace_id@, k);
                    }
                }
                let end_time = end_after(a.start_time);
                let latency = end_time - a.start_time;
                let success = error.is_none();
                let (error_type, error_message) = match error {
                    Some((t, m)) => (Some(t), Some(m)),
                    None => (None, None),
                };
                Some(
                    TelemetryEvent {
                        trace_id,
                        operation: a.operation,
                        start_time: a.start_time,
                        end_time,
                        latency,
                        status_code,
                        request_payload_size: request_size,
                        response_payload_size: response_size,
                        error_type,
                        error_message,
                        target: owned("unknown"),
                        success,
                    },
                )
            },
        }
    }

    /// Run `f` as the round-trip `operation_name` against `target` and
    /// return its result with the measured, successful event.
    pub fn wrap_outbound<F, T>(&self, operation_name: &str, target: &str, f: F) -> (r: (
        T,
        TelemetryEvent,
    ))
        where
            F: FnOnce() -> T,
        requires
            f.requires(()),
        ensures
            f.ensures((), r.0),
            plain_event(r.1, operation_name@, target@, r.1.start_time),
            r.1.success,
            r.1.error_type is None,
            r.1.error_message is None,
    {
        let start = clock::now_nanos();
        let trace_id = TraceId::new();
        let result = f();
        let end = end_after(start);
        let latency = end - start;
        let event = TelemetryEvent {
            trace_id,
            operation: owned(operation_name),
            start_time: start,
            end_time: end,
            latency,
            status_code: None,
            request_payload_size: 0,
            response_payload_size: 0,
            error_type: None,
            error_message: None,
            target: owned(target),
            success: true,
        };
        (result, event)
    }

    /// Run `f` as the round-trip `operation_name` against `target` and
    /// return its result with the measured event: a failure carries the
    /// error's text and, when a classifier is given, the error type it
    /// assigns.
    pub fn wrap_outbound_result<F, T, E, C>(
        &self,
        operation_name: &str,
        target: &str,
        f: F,
        error_classifier: Option<C>,
    ) -> (r: (Result<T, E>, TelemetryEvent))
        where
            F: FnOnce() -> Result<T, E>,
            E: std::fmt::Display,
            C: Fn(&E) -> &'static str,
        requires
            f.requires(()),
            error_classifier matches Some(c) ==> forall|e: &E| #[trigger] c.requires((e,)),
        ensures
            f.ensures((), r.0),
            plain_event(r.1, operation_name@, target@, r.1.start_time),
            r.1.success == r.0 is Ok,
            r.0 is Ok ==> r.1.error_type is None && r.1.error_message is None,
            r.0 is Err ==> exists|m: String| {
                &&& to_string_from_display_ensures::<E>(&r.0->Err_0, m)
                &&& opt_text(r.1.error_message) == Some(m@)
            },
            r.0 is Err ==> (r.1.error_type is Some <==> error_classifier is Some),
            r.0 is Err && error_classifier is Some ==> exists|k: &'static str| {
                &&& error_classifier->0.ensures((&r.0->Err_0,), k)
                &&& opt_text(r.1.error_type) == Some(k@)
            },
    {
        let start = clock::now_nanos();
        let trace_id = TraceId::new();
        let result = f();
        let end = end_after(start);
        let latency = end - start;
        let (success, error_type, error_message) = match &result {
            Ok(_) => (true, None, None),
            Err(e) => {
                let error_type = match &error_classifier {
                    Some(c) => {
                        let k = c(e);
                        Some(owned(k))
                    },
                    None => None,
                };
                let m = e.to_string();
                proof {
                    assert(to_string_from_display_ensures::<E>(e, m));
                }
                (false, error_type, Some(m))
            },
        };
        let event = TelemetryEvent {
            trace_id,
            operation: owned(operation_name),
            start_time: start,
            end_time: end,
            latency,
            status_code: None,
            request_payload_size: 0,
            response_payload_size: 0,
            error_type,
            error_message,
            target: owned(target),
            success,
        };
        (result, event)
    }

    /// The event of a legacy text report: operation `legacy`, target
    /// `unknown`, failed with type `legacy_event` and the text as message.
    pub fn emit_telemetry(&self, event: &str) -> (e: TelemetryEvent)
        ensures
            legacy_event(e, event@),
    {
        TelemetryEvent::builder("legacy", "unknown").failed("legacy_event", event).build()
    }

    /// Number of operations in flight.
    pub fn active_operation_count(&self) -> (r: usize)
        ensures
            r == self@.len(),
    {
        self.active_operations.len()
    }

    /// The trace IDs of the operations in flight.
    pub fn active_trace_ids(&self) -> (r: Vec<TraceId>)
        ensures
            r@.len() == self@.len(),
            forall|i: int| 0 <= i < r@.len() ==> (#[trigger] r@[i])@ == self@[i].0,
    {
        let mut r: Vec<TraceId> = Vec::new();
        let mut i: usize = 0;
        while i < self.active_operations.len()
            invariant
                0 <= i <= self.active_operations.len(),
                self@.len() == self.active_operations.len(),
                r@.len() == i,
                forall|j: int| 0 <= j < i ==> (#[trigger] r@[j])@ == self@[j].0,
            decreases self.active_operations.len() - i,
        {
            assert(self@[i as int].0 == self.active_operations@[i as int].trace_id@);
            r.push(TraceId(owned(self.active_operations[i].trace_id.0.as_str())));
            i = i + 1;
        }
        r
    }
}

impl Default for TelemetryDecorator {
    fn default() -> (d: Self)
        ensures
            d.wf(),
            d@ == Seq::<ActiveView>::empty(),
    {
        Self::new()
    }
}

/// A result together with the telemetry of the round-trip that produced it.
pub struct TelemetryResult<T> {
    pub value: T,
    pub event: TelemetryEvent,
}

impl<T> TelemetryResult<T> {
    /// Pair a value with its telemetry event.
    pub fn new(value: T, event: TelemetryEvent) -> (r: Self)
        ensures
            r.value == value,
            r.event == event,
    {
        TelemetryResult { value, event }
    }
}

proof fn lemma_removed_trace(s: Seq<ActiveView>, mid: Seq<ActiveView>, t: Seq<char>, k: int)
    requires
        traces_unique(s),
        0 <= k < mid.len(),
        !has_trace(s, t) ==> mid == s,
        has_trace(s, t) ==> mid == s.remove(trace_index(s, t)),
    ensures
        mid[k].0 != t,
{
    if has_trace(s, t) {
        let i = trace_index(s, t);
        let ik = if k < i { k } else { k + 1 };
        assert(mid[k] == s[ik]);
    }
}

proof fn lemma_trace_membership(
    s: Seq<ActiveView>,
    mid: Seq<ActiveView>,
    fin: Seq<ActiveView>,
    t: Seq<char>,
    x: Seq<char>,
)
    requires
        traces_unique(s),
        !has_trace(s, t) ==> mid == s,
        has_trace(s, t) ==> mid == s.remove(trace_index(s, t)),
        fin.len() == mid.len() + 1,
        forall|i: int| 0 <= i < mid.len() ==> fin[i] == mid[i],
        fin[mid.len() as int].0 == t,
        x != t,
    ensures
        has_trace(fin, x) == has_trace(s, x),
{
    if has_trace(fin, x) {
        let k = choose|k: int| 0 <= k < fin.len() && fin[k].0 == x;
        assert(k < mid.len());
        assert(fin[k] == mid[k]);
        if has_trace(s, t) {
            let i = trace_index(s, t);
            let ik = if k < i { k } else { k + 1 };
            assert(mid[k] == s[ik]);
        }
    }
    if has_trace(s, x) {
        let k = choose|k: int| 0 <= k < s.len() && s[k].0 == x;
        if has_trace(s, t) {
            let i = trace_index(s, t);
            assert(k != i);
            let km = if k < i { k } else { k - 1 };
            assert(mid[km] == s[k]);
            assert(fin[km] == mid[km]);
        } else {
            assert(fin[k] == s[k]);
        }
    }
}

} // verus!
