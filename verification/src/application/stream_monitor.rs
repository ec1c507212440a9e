//! Monitors inbound event streams for sequence gaps, duplicates, resets,
//! high latency and silent disconnects.
//!
//! Streams are identified by `(source, symbol)`.  Times are nanoseconds on
//! the clock of `crate::clock::now_nanos`; thresholds are milliseconds.

use vstd::prelude::*;
use crate::clock;
use crate::text::{owned, str_eq};

verus! {

/// Control events emitted when stream issues are detected.
#[derive(Debug, Clone, PartialEq)]
pub enum StreamControlEvent {
    /// Sequence number gap detected.
    SequenceGap {
        source: String,
        symbol: String,
        expected_seq: u64,
        actual_seq: u64,
        gap_size: u64,
        timestamp: String,
    },
    /// Silent disconnect detected (no events for the threshold duration).
    SilentDisconnect {
        source: String,
        symbol: String,
        last_event_time: String,
        silence_duration_ms: u64,
        threshold_ms: u64,
    },
    /// Stream reconnected after a disconnect.
    StreamReconnected { source: String, symbol: String, downtime_ms: u64, timestamp: String },
    /// Sequence number went backwards (possible stream restart).
    SequenceReset { source: String, symbol: String, last_seq: u64, new_seq: u64, timestamp: String },
    /// High latency detected in event processing.
    HighLatency {
        source: String,
        symbol: String,
        latency_ms: u64,
        threshold_ms: u64,
        timestamp: String,
    },
    /// Duplicate sequence number detected.
    DuplicateSequence { source: String, symbol: String, seq_no: u64, timestamp: String },
}

/// The content of a [`StreamControlEvent`], with texts as character sequences.
pub enum ControlEventView {
    SequenceGap {
        source: Seq<char>,
        symbol: Seq<char>,
        expected_seq: u64,
        actual_seq: u64,
        gap_size: u64,
        timestamp: Seq<char>,
    },
    SilentDisconnect {
        source: Seq<char>,
        symbol: Seq<char>,
        last_event_time: Seq<char>,
        silence_duration_ms: u64,
        threshold_ms: u64,
    },
    StreamReconnected {
        source: Seq<char>,
        symbol: Seq<char>,
        downtime_ms: u64,
        timestamp: Seq<char>,
    },
    SequenceReset {
        source: Seq<char>,
        symbol: Seq<char>,
        last_seq: u64,
        new_seq: u64,
        timestamp: Seq<char>,
    },
    HighLatency {
        source: Seq<char>,
        symbol: Seq<char>,
        latency_ms: u64,
        threshold_ms: u64,
        timestamp: Seq<char>,
    },
    DuplicateSequence { source: Seq<char>, symbol: Seq<char>, seq_no: u64, timestamp: Seq<char> },
}

impl View for StreamControlEvent {
    type V = ControlEventView;

    open spec fn view(&self) -> ControlEventView {
        match self {
            StreamControlEvent::SequenceGap {
                source,
                symbol,
                expected_seq,
                actual_seq,
                gap_size,
                timestamp,
            } => ControlEventView::SequenceGap {
                source: source@,
                symbol: symbol@,
                expected_seq: *expected_seq,
                actual_seq: *actual_seq,
                gap_size: *gap_size,
                timestamp: timestamp@,
            },
            StreamControlEvent::SilentDisconnect {
                source,
                symbol,
                last_event_time,
                silence_duration_ms,
                threshold_ms,
            } => ControlEventView::SilentDisconnect {
                source: source@,
                symbol: symbol@,
                last_event_time: last_event_time@,
                silence_duration_ms: *silence_duration_ms,
                threshold_ms: *threshold_ms,
            },
            StreamControlEvent::StreamReconnected { source, symbol, downtime_ms, timestamp } =>
                ControlEventView::StreamReconnected {
                source: source@,
                symbol: symbol@,
                downtime_ms: *downtime_ms,
                timestamp: timestamp@,
            },
            StreamControlEvent::SequenceReset { source, symbol, last_seq, new_seq, timestamp } =>
                ControlEventView::SequenceReset {
                source: source@,
                symbol: symbol@,
                last_seq: *last_seq,
                new_seq: *new_seq,
                timestamp: timestamp@,
            },
            StreamControlEvent::HighLatency {
                source,
                symbol,
                latency_ms,
                threshold_ms,
                timestamp,
            } => ControlEventView::HighLatency {
                source: source@,
                symbol: symbol@,
                latency_ms: *latency_ms,
                threshold_ms: *threshold_ms,
                timestamp: timestamp@,
            },
            StreamControlEvent::DuplicateSequence { source, symbol, seq_no, timestamp } =>
                ControlEventView::DuplicateSequence {
                source: source@,
                symbol: symbol@,
                seq_no: *seq_no,
                timestamp: timestamp@,
            },
        }
    }
}

/// The source identifier carried by an event view.
pub open spec fn event_source(e: ControlEventView) -> Seq<char> {
    match e {
        ControlEventView::SequenceGap { source, .. } => source,
        ControlEventView::SilentDisconnect { source, .. } => source,
        ControlEventView::StreamReconnected { source, .. } => source,
        ControlEventView::SequenceReset { source, .. } => source,
        ControlEventView::HighLatency { source, .. } => source,
        ControlEventView::DuplicateSequence { source, .. } => source,
    }
}

/// The symbol carried by an event view.
pub open spec fn event_symbol(e: ControlEventView) -> Seq<char> {
    match e {
        ControlEventView::SequenceGap { symbol, .. } => symbol,
        ControlEventView::SilentDisconnect { symbol, .. } => symbol,
        ControlEventView::StreamReconnected { symbol, .. } => symbol,
        ControlEventView::SequenceReset { symbol, .. } => symbol,
        ControlEventView::HighLatency { symbol, .. } => symbol,
        ControlEventView::DuplicateSequence { symbol, .. } => symbol,
    }
}

impl StreamControlEvent {
    /// The event type name for metrics and logging.
    pub fn event_type(&self) -> (r: &'static str)
        ensures
            r@ == match self {
                StreamControlEvent::SequenceGap { .. } => "sequence_gap"@,
                StreamControlEvent::SilentDisconnect { .. } => "silent_disconnect"@,
                StreamControlEvent::StreamReconnected { .. } => "stream_reconnected"@,
                StreamControlEvent::SequenceReset { .. } => "sequence_reset"@,
                StreamControlEvent::HighLatency { .. } => "high_latency"@,
                StreamControlEvent::DuplicateSequence { .. } => "duplicate_sequence"@,
            },
    {
        match self {
            StreamControlEvent::SequenceGap { .. } => "sequence_gap",
            StreamControlEvent::SilentDisconnect { .. } => "silent_disconnect",
            StreamControlEvent::StreamReconnected { .. } => "stream_reconnected",
            StreamControlEvent::SequenceReset { .. } => "sequence_reset",
            StreamControlEvent::HighLatency { .. } => "high_latency",
            StreamControlEvent::DuplicateSequence { .. } => "duplicate_sequence",
        }
    }

    /// The source identifier.
    pub fn source(&self) -> (r: &str)
        ensures
            r@ == event_source(self@),
    {
        match self {
            StreamControlEvent::SequenceGap { source, .. } => source.as_str(),
            StreamControlEvent::SilentDisconnect { source, .. } => source.as_str(),
            StreamControlEvent::StreamReconnected { source, .. } => source.as_str(),
            StreamControlEvent::SequenceReset { source, .. } => source.as_str(),
            StreamControlEvent::HighLatency { source, .. } => source.as_str(),
            StreamControlEvent::DuplicateSequence { source, .. } => source.as_str(),
        }
    }

    /// The symbol.
    pub fn symbol(&self) -> (r: &str)
        ensures
            r@ == event_symbol(self@),
    {
        match self {
            StreamControlEvent::SequenceGap { symbol, .. } => symbol.as_str(),
            StreamControlEvent::SilentDisconnect { symbol, .. } => symbol.as_str(),
            StreamControlEvent::StreamReconnected { symbol, .. } => symbol.as_str(),
            StreamControlEvent::SequenceReset { symbol, .. } => symbol.as_str(),
            StreamControlEvent::HighLatency { symbol, .. } => symbol.as_str(),
            StreamControlEvent::DuplicateSequence { symbol, .. } => symbol.as_str(),
        }
    }
}

/// Per-stream tracking state.  Times are nanoseconds.
#[derive(Debug, Clone, Copy)]
pub struct StreamState {
    /// Last seen sequence number.
    pub last_seq_no: u64,
    /// Time of the last event.
    pub last_event_time: u64,
    /// Time of the first event.
    pub stream_start_time: u64,
    /// Whether the stream is currently considered healthy.
    pub is_healthy: bool,
    /// Number of gaps detected.
    pub gap_count: u64,
    /// Number of silent disconnects detected.
    pub disconnect_count: u64,
    /// Expected next sequence number.
    pub expected_seq_no: u64,
}

/// The state of a stream whose first event carries `seq_no` and arrives at `now`.
pub open spec fn initial_state(seq_no: u64, now: u64) -> StreamState {
    StreamState {
        last_seq_no: seq_no,
        last_event_time: now,
        stream_start_time: now,
        is_healthy: true,
        gap_count: 0,
        disconnect_count: 0,
        expected_seq_no: (seq_no + 1) as u64,
    }
}

/// Configuration for stream monitoring.  Thresholds are milliseconds.
#[derive(Debug, Clone, Copy)]
pub struct StreamMonitorConfig {
    /// No events for longer than this is a silent disconnect.
    pub silence_threshold: u64,
    /// Processing latency above this is reported.
    pub latency_threshold: u64,
    /// Whether control events are handed to a registered listener.
    pub emit_control_events: bool,
    /// Whether to check for sequence gaps.
    pub check_sequence_gaps: bool,
    /// Whether to check for duplicate sequences.
    pub check_duplicates: bool,
}

impl Default for StreamMonitorConfig {
    fn default() -> (c: Self)
        ensures
            c.silence_threshold == 30_000,
            c.latency_threshold == 100,
            c.emit_control_events,
            c.check_sequence_gaps,
            c.check_duplicates,
    {
        StreamMonitorConfig {
            silence_threshold: 30_000,
            latency_threshold: 100,
            emit_control_events: true,
            check_sequence_gaps: true,
            check_duplicates: true,
        }
    }
}

impl StreamMonitorConfig {
    /// Stricter thresholds for high-frequency trading.
    pub fn hft() -> (c: Self)
        ensures
            c.silence_threshold == 5_000,
            c.latency_threshold == 10,
            c.emit_control_events,
            c.check_sequence_gaps,
            c.check_duplicates,
    {
        StreamMonitorConfig {
            silence_threshold: 5_000,
            latency_threshold: 10,
            ..Default::default()
        }
    }

    /// More lenient thresholds for backtesting, without control events.
    pub fn backtest() -> (c: Self)
        ensures
            c.silence_threshold == 300_000,
            c.latency_threshold == 500,
            !c.emit_control_events,
            c.check_sequence_gaps,
            c.check_duplicates,
    {
        StreamMonitorConfig {
            silence_threshold: 300_000,
            latency_threshold: 500,
            emit_control_events: false,
            ..Default::default()
        }
    }

    /// The same configuration without control events.
    pub fn without_control_events(self) -> (c: Self)
        ensures
            c.silence_threshold == self.silence_threshold,
            c.latency_threshold == self.latency_threshold,
            !c.emit_control_events,
            c.check_sequence_gaps == self.check_sequence_gaps,
            c.check_duplicates == self.check_duplicates,
    {
        let mut c = self;
        c.emit_control_events = false;
        c
    }
}

struct StreamEntry {
    source: String,
    symbol: String,
    state: StreamState,
}

/// One monitored stream: `(source, symbol, state)`.
pub type StreamRow = (Seq<char>, Seq<char>, StreamState);

/// Monitors streams for gaps, disconnects, and anomalies.
pub struct StreamMonitor {
    streams: Vec<StreamEntry>,
    config: StreamMonitorConfig,
}

/// Health information for a stream.
#[derive(Debug, Clone)]
pub struct StreamHealth {
    pub is_healthy: bool,
    pub last_seq_no: u64,
    pub gap_count: u64,
    pub disconnect_count: u64,
    /// Time of the last event (nanoseconds).
    pub last_event_time: u64,
}

/// Statistics across all monitored streams.
#[derive(Debug, Clone)]
pub struct StreamStatistics {
    pub total_streams: usize,
    pub healthy_streams: usize,
    pub total_gaps: u64,
    pub total_disconnects: u64,
}

/// No stream is listed twice.
pub open spec fn streams_unique(s: Seq<StreamRow>) -> bool {
    forall|i: int, j: int|
        0 <= i < s.len() && 0 <= j < s.len() && i != j ==> (s[i].0, s[i].1) != (s[j].0, s[j].1)
}

/// The stream `(src, sym)` is monitored.
pub open spec fn has_stream(s: Seq<StreamRow>, src: Seq<char>, sym: Seq<char>) -> bool {
    exists|i: int| 0 <= i < s.len() && s[i].0 == src && s[i].1 == sym
}

/// The position of `(src, sym)` (meaningful when `has_stream`).
pub open spec fn stream_index(s: Seq<StreamRow>, src: Seq<char>, sym: Seq<char>) -> int {
    choose|i: int| 0 <= i < s.len() && s[i].0 == src && s[i].1 == sym
}

/// Whether `latency_ns` exceeds a threshold of `threshold_ms` milliseconds.
pub open spec fn exceeds_ms(latency_ns: u64, threshold_ms: u64) -> bool {
    latency_ns > threshold_ms * 1_000_000
}

/// Nanoseconds elapsed from `from` to `now`, zero when `now` is earlier.
pub open spec fn elapsed(from: u64, now: u64) -> u64 {
    if now >= from { (now - from) as u64 } else { 0 }
}

/// The control events caused by an event with sequence number `seq` on a
/// known stream in state `st`, in the order they are reported: duplicate,
/// reset or gap, high latency, reconnection.
pub open spec fn events_for(
    cfg: StreamMonitorConfig,
    st: StreamState,
    src: Seq<char>,
    sym: Seq<char>,
    seq: u64,
    latency_ns: u64,
    now: u64,
    ts: Seq<char>,
) -> Seq<ControlEventView> {
    let dup: Seq<ControlEventView> = if cfg.check_duplicates && seq == st.last_seq_no {
        seq![ControlEventView::DuplicateSequence { source: src, symbol: sym, seq_no: seq, timestamp: ts }]
    } else {
        seq![]
    };
    let order: Seq<ControlEventView> = if cfg.check_sequence_gaps && seq != st.expected_seq_no {
        if seq < st.expected_seq_no && seq != st.last_seq_no {
            seq![ControlEventView::SequenceReset { source: src, symbol: sym, last_seq: st.last_seq_no, new_seq: seq, timestamp: ts }]
        } else if seq > st.expected_seq_no {
            seq![ControlEventView::SequenceGap { source: src, symbol: sym, expected_seq: st.expected_seq_no, actual_seq: seq, gap_size: (seq - st.expected_seq_no) as u64, timestamp: ts }]
        } else {
            seq![]
        }
    } else {
        seq![]
    };
    let latency: Seq<ControlEventView> = if exceeds_ms(latency_ns, cfg.latency_threshold) {
        seq![ControlEventView::HighLatency { source: src, symbol: sym, latency_ms: latency_ns / 1_000_000, threshold_ms: cfg.latency_threshold, timestamp: ts }]
    } else {
        seq![]
    };
    let reconnect: Seq<ControlEventView> = if !st.is_healthy {
        seq![ControlEventView::StreamReconnected { source: src, symbol: sym, downtime_ms: elapsed(st.last_event_time, now) / 1_000_000, timestamp: ts }]
    } else {
        seq![]
    };
    dup + order + latency + reconnect
}

/// Whether an event with sequence number `seq` on a stream in state `st`
/// counts as a gap.
pub open spec fn is_gap(cfg: StreamMonitorConfig, st: StreamState, seq: u64) -> bool {
    cfg.check_sequence_gaps && seq > st.expected_seq_no
}

/// `n + 1`, saturating at `u64::MAX`.
pub open spec fn sat_inc(n: u64) -> u64 {
    if n < u64::MAX { (n + 1) as u64 } else { n }
}

/// The state of a known stream after an event with sequence number `seq` at `now`.
pub open spec fn state_after(cfg: StreamMonitorConfig, st: StreamState, seq: u64, now: u64) -> StreamState {
    StreamState {
        last_seq_no: seq,
        last_event_time: now,
        stream_start_time: st.stream_start_time,
        is_healthy: true,
        gap_count: if is_gap(cfg, st, seq) { sat_inc(st.gap_count) } else { st.gap_count },
        disconnect_count: st.disconnect_count,
        expected_seq_no: (seq + 1) as u64,
    }
}

/// The monitored streams after an event on `(src, sym)`.
pub open spec fn streams_after(
    cfg: StreamMonitorConfig,
    s: Seq<StreamRow>,
    src: Seq<char>,
    sym: Seq<char>,
    seq: u64,
    now: u64,
) -> Seq<StreamRow> {
    if has_stream(s, src, sym) {
        let i = stream_index(s, src, sym);
        s.update(i, (src, sym, state_after(cfg, s[i].2, seq, now)))
    } else {
        s.push((src, sym, initial_state(seq, now)))
    }
}

/// The control events reported for an event on `(src, sym)`: none for the
/// first event of a stream.
pub open spec fn reported_events(
    cfg: StreamMonitorConfig,
    s: Seq<StreamRow>,
    src: Seq<char>,
    sym: Seq<char>,
    seq: u64,
    latency_ns: u64,
    now: u64,
    ts: Seq<char>,
) -> Seq<ControlEventView> {
    if has_stream(s, src, sym) {
        events_for(cfg, s[stream_index(s, src, sym)].2, src, sym, seq, latency_ns, now, ts)
    } else {
        seq![]
    }
}

/// The views of a list of events.
pub open spec fn event_views(v: Seq<StreamControlEvent>) -> Seq<ControlEventView> {
    v.map_values(|e: StreamControlEvent| e@)
}

/// Number of healthy streams in `s`.
pub open spec fn healthy_count(s: Seq<StreamRow>) -> nat
    decreases s.len(),
{
    if s.len() == 0 {
        0
    } else {
        healthy_count(s.drop_last()) + if s.last().2.is_healthy { 1nat } else { 0nat }
    }
}

/// Sum of `gap_count` over `s`, saturating at `u64::MAX`.
pub open spec fn gap_total(s: Seq<StreamRow>) -> u64
    decreases s.len(),
{
    if s.len() == 0 {
        0
    } else {
        sat_add(gap_total(s.drop_last()), s.last().2.gap_count)
    }
}

/// Sum of `disconnect_count` over `s`, saturating at `u64::MAX`.
pub open spec fn disconnect_total(s: Seq<StreamRow>) -> u64
    decreases s.len(),
{
    if s.len() == 0 {
        0
    } else {
        sat_add(disconnect_total(s.drop_last()), s.last().2.disconnect_count)
    }
}

/// `a + b`, saturating at `u64::MAX`.
pub open spec fn sat_add(a: u64, b: u64) -> u64 {
    if a + b <= u64::MAX { (a + b) as u64 } else { u64::MAX }
}

/// The state of a stream after a silence check at `now`.
pub open spec fn state_after_check(cfg: StreamMonitorConfig, st: StreamState, now: u64) -> StreamState {
    if st.is_healthy && exceeds_ms(elapsed(st.last_event_time, now), cfg.silence_threshold) {
        StreamState { is_healthy: false, disconnect_count: sat_inc(st.disconnect_count), ..st }
    } else {
        st
    }
}

impl View for StreamMonitor {
    type V = Seq<StreamRow>;

    closed spec fn view(&self) -> Seq<StreamRow> {
        self.streams@.map_values(|e: StreamEntry| (e.source@, e.symbol@, e.state))
    }
}

impl StreamMonitor {
    /// The monitor's invariant: every stream is listed once and expects a
    /// representable next sequence number.
    pub closed spec fn wf(&self) -> bool {
        &&& streams_unique(self@)
        &&& forall|i: int| 0 <= i < self@.len() ==> self@[i].2.expected_seq_no == self@[i].2.last_seq_no + 1
    }

    /// The configuration the monitor was made with.
    pub closed spec fn spec_config(&self) -> StreamMonitorConfig {
        self.config
    }

    /// Create a new stream monitor with the given configuration.
    pub fn new(config: StreamMonitorConfig) -> (m: Self)
        ensures
            m.wf(),
            m@ == Seq::<StreamRow>::empty(),
            m.spec_config() == config,
    {
        let m = StreamMonitor { streams: Vec::new(), config };
        assert(m@ =~= Seq::<StreamRow>::empty());
        m
    }

    /// Create a new stream monitor with the default configuration.
    pub fn default() -> (m: Self)
        ensures
            m.wf(),
            m@ == Seq::<StreamRow>::empty(),
            m.spec_config().silence_threshold == 30_000,
            m.spec_config().latency_threshold == 100,
            m.spec_config().emit_control_events,
            m.spec_config().check_sequence_gaps,
            m.spec_config().check_duplicates,
    {
        Self::new(StreamMonitorConfig::default())
    }

    /// The configuration.
    pub fn config(&self) -> (c: &StreamMonitorConfig)
        ensures
            *c == self.spec_config(),
    {
        &self.config
    }

    fn find(&self, source: &str, symbol: &str) -> (r: Option<usize>)
        requires
            self.wf(),
        ensures
            match r {
                Some(i) => i < self@.len() && has_stream(self@, source@, symbol@) && stream_index(
                    self@,
                    source@,
                    symbol@,
                ) == i,
                None => !has_stream(self@, source@, symbol@),
            },
    {
        let mut i: usize = 0;
        while i < self.streams.len()
            invariant
                self.wf(),
                0 <= i <= self.streams.len(),
                self@.len() == self.streams.len(),
                forall|j: int| 0 <= j < i ==> !(self@[j].0 == source@ && self@[j].1 == symbol@),
            decreases self.streams.len() - i,
        {
            assert(self@[i as int].0 == self.streams@[i as int].source@);
            assert(self@[i as int].1 == self.streams@[i as int].symbol@);
            if str_eq(self.streams[i].source.as_str(), source) && str_eq(
                self.streams[i].symbol.as_str(),
                symbol,
            ) {
                proof {
                    assert(has_stream(self@, source@, symbol@));
                    let c = stream_index(self@, source@, symbol@);
                    assert(self@[c].0 == source@ && self@[c].1 == symbol@);
                    assert((self@[c].0, self@[c].1) == (self@[i as int].0, self@[i as int].1));
                }
                return Some(i);
            }
            i = i + 1;
        }
        None
    }

    /// Process an event that arrived at `now` (nanoseconds) and was
    /// ingested `latency_ns` nanoseconds before; `timestamp` is stamped on
    /// every control event reported.  Returns the control events the event
    /// causes, in the order of [`events_for`].
    pub fn process_event_at(
        &mut self,
        source: &str,
        symbol: &str,
        seq_no: u64,
        latency_ns: u64,
        now: u64,
        timestamp: &str,
    ) -> (events: Vec<StreamControlEvent>)
        requires
            old(self).wf(),
            seq_no < u64::MAX,
        ensures
            final(self).wf(),
            final(self).spec_config() == old(self).spec_config(),
            final(self)@ == streams_after(
                old(self).spec_config(),
                old(self)@,
                source@,
                symbol@,
                seq_no,
                now,
            ),
            event_views(events@) == reported_events(
                old(self).spec_config(),
                old(self)@,
                source@,
                symbol@,
                seq_no,
                latency_ns,
                now,
                timestamp@,
            ),
    {
        let ghost s = self@;
        let cfg = self.config;
        let mut events: Vec<StreamControlEvent> = Vec::new();
        match self.find(source, symbol) {
            None => {
                let st = StreamState {
                    last_seq_no: seq_no,
                    last_event_time: now,
                    stream_start_time: now,
                    is_healthy: true,
                    gap_count: 0,
                    disconnect_count: 0,
                    expected_seq_no: seq_no + 1,
                };
                self.streams.push(StreamEntry { source: owned(source), symbol: owned(symbol), state: st });
                proof {
                    assert(self@ =~= s.push((source@, symbol@, initial_state(seq_no, now))));
                    assert forall|a: int, b: int|
                        0 <= a < self@.len() && 0 <= b < self@.len() && a != b implies (self@[a].0, self@[a].1)
                        != (self@[b].0, self@[b].1) by {
                        if a < s.len() && b < s.len() {
                            assert(self@[a] == s[a] && self@[b] == s[b]);
                        } else if a < s.len() {
                            assert(self@[a] == s[a]);
                        } else if b < s.len() {
                            assert(self@[b] == s[b]);
                        }
                    }
                    assert(event_views(events@) =~= Seq::<ControlEventView>::empty());
                }
                events
            },
            Some(i) => {
                let st = self.streams[i].state;
                assert(st == s[i as int].2);
                let ghost ts = timestamp@;
                let ghost src = source@;
                let ghost sym = symbol@;
                if cfg.check_duplicates && seq_no == st.last_seq_no {
                    events.push(StreamControlEvent::DuplicateSequence {
                        source: owned(source),
                        symbol: owned(symbol),
                        seq_no,
                        timestamp: owned(timestamp),
                    });
                }
                let ghost dup = event_views(events@);
                let mut gap = false;
                if cfg.check_sequence_gaps && seq_no != st.expected_seq_no {
                    if seq_no < st.expected_seq_no && seq_no != st.last_seq_no {
                        events.push(StreamControlEvent::SequenceReset {
                            source: owned(source),
                            symbol: owned(symbol),
                            last_seq: st.last_seq_no,
                            new_seq: seq_no,
                            timestamp: owned(timestamp),
                        });
                    } else if seq_no > st.expected_seq_no {
                        gap = true;
                        events.push(StreamControlEvent::SequenceGap {
                            source: owned(source),
                            symbol: owned(symbol),
                            expected_seq: st.expected_seq_no,
                            actual_seq: seq_no,
                            gap_size: seq_no - st.expected_seq_no,
                            timestamp: owned(timestamp),
                        });
                    }
                }
                let ghost upto_order = event_views(events@);
                let over = if cfg.latency_threshold > 18_446_744_073_709 {
                    false
                } else {
                    latency_ns > cfg.latency_threshold * 1_000_000
                };
                if over {
                    events.push(StreamControlEvent::HighLatency {
                        source: owned(source),
                        symbol: owned(symbol),
                        latency_ms: latency_ns / 1_000_000,
                        threshold_ms: cfg.latency_threshold,
                        timestamp: owned(timestamp),
                    });
                }
                let ghost upto_latency = event_views(events@);
                if !st.is_healthy {
                    let down = if now >= st.last_event_time {
                        now - st.last_event_time
                    } else {
                        0
                    };
                    events.push(StreamControlEvent::StreamReconnected {
                        source: owned(source),
                        symbol: owned(symbol),
                        downtime_ms: down / 1_000_000,
                        timestamp: owned(timestamp),
                    });
                }
                let new_gap_count = if gap {
                    st.gap_count.saturating_add(1)
                } else {
                    st.gap_count
                };
                let new_state = StreamState {
                    last_seq_no: seq_no,
                    last_event_time: now,
                    stream_start_time: st.stream_start_time,
                    is_healthy: true,
                    gap_count: new_gap_count,
                    disconnect_count: st.disconnect_count,
                    expected_seq_no: seq_no + 1,
                };
                self.streams[i].state = new_state;
                proof {
                    let e = events_for(cfg, st, src, sym, seq_no, latency_ns, now, ts);
                    assert(event_views(events@) =~= e);
                    assert(new_state == state_after(cfg, st, seq_no, now));
                    assert(self@ =~= s.update(i as int, (src, sym, new_state)));
                    assert forall|a: int, b: int|
                        0 <= a < self@.len() && 0 <= b < self@.len() && a != b implies (self@[a].0, self@[a].1)
                        != (self@[b].0, self@[b].1) by {
                        assert(self@[a].0 == s[a].0 && self@[a].1 == s[a].1);
                        assert(self@[b].0 == s[b].0 && self@[b].1 == s[b].1);
                    }
                }
                events
            },
        }
    }

    /// Process an event from a stream, ingested at `ingestion_ts`
    /// (nanoseconds on the clock of `clock::now_nanos`).  Reads the clock
    /// and the wall-clock time, then behaves as [`Self::process_event_at`]
    /// for the time read, the latency from `ingestion_ts` to it (zero if
    /// `ingestion_ts` is later) and the time stamp read.
    pub fn process_event(&mut self, source: &str, symbol: &str, seq_no: u64, ingestion_ts: u64) -> (events: Vec<
        StreamControlEvent,
    >)
        requires
            old(self).wf(),
            seq_no < u64::MAX,
        ensures
            final(self).wf(),
            final(self).spec_config() == old(self).spec_config(),
            exists|now: u64, ts: Seq<char>|
                {
                    &&& clock::clock_reading(now)
                    &&& final(self)@ == streams_after(
                        old(self).spec_config(),
                        old(self)@,
                        source@,
                        symbol@,
                        seq_no,
                        now,
                    )
                    &&& event_views(events@) == reported_events(
                        old(self).spec_config(),
                        old(self)@,
                        source@,
                        symbol@,
                        seq_no,
                        elapsed(ingestion_ts, now),
                        now,
                        ts,
                    )
                },
    {
        let now = clock::now_nanos();
        let latency = if now >= ingestion_ts {
            now - ingestion_ts
        } else {
            0
        };
        let ts = clock::utc_now_rfc3339();
        let ev = self.process_event_at(source, symbol, seq_no, latency, now, ts.as_str());
        assert(latency == elapsed(ingestion_ts, now));
        ev
    }

    /// Check every healthy stream for silence at `now` (nanoseconds): a
    /// stream silent for longer than the threshold is marked disconnected
    /// and reported.  The reported events come in the order of the streams.
    pub fn check_silent_disconnects_at(&mut self, now: u64) -> (events: Vec<StreamControlEvent>)
        requires
            old(self).wf(),
        ensures
            final(self).wf(),
            final(self).spec_config() == old(self).spec_config(),
            final(self)@.len() == old(self)@.len(),
            forall|i: int|
                0 <= i < old(self)@.len() ==> #[trigger] final(self)@[i] == (
                    old(self)@[i].0,
                    old(self)@[i].1,
                    state_after_check(old(self).spec_config(), old(self)@[i].2, now),
                ),
            events@.map_values(|e: StreamControlEvent| silence_report(e@)) == silence_reports(
                old(self).spec_config(),
                old(self)@,
                now,
            ),
            forall|k: int|
                0 <= k < events@.len() ==> reports_threshold(
                    (#[trigger] events@[k])@,
                    old(self).spec_config(),
                ),
    {
        let ghost s = self@;
        let cfg = self.config;
        let mut events: Vec<StreamControlEvent> = Vec::new();
        let mut i: usize = 0;
        while i < self.streams.len()
            invariant
                0 <= i <= self.streams.len(),
                self.streams.len() == s.len(),
                self.config == cfg,
                cfg == old(self).spec_config(),
                s == old(self)@,
                old(self).wf(),
                forall|j: int|
                    0 <= j < i ==> #[trigger] self@[j] == (s[j].0, s[j].1, state_after_check(cfg, s[j].2, now)),
                forall|j: int| i <= j < s.len() ==> #[trigger] self@[j] == s[j],
                events@.map_values(|e: StreamControlEvent| silence_report(e@)) == silence_reports(
                    cfg,
                    s.subrange(0, i as int),
                    now,
                ),
                forall|k: int|
                    0 <= k < events@.len() ==> reports_threshold((#[trigger] events@[k])@, cfg),
            decreases self.streams.len() - i,
        {
            let st = self.streams[i].state;
            assert(self@[i as int] == s[i as int]);
            assert(st == s[i as int].2);
            let silence = if now >= st.last_event_time {
                now - st.last_event_time
            } else {
                0
            };
            let over = if cfg.silence_threshold > 18_446_744_073_709 {
                false
            } else {
                silence > cfg.silence_threshold * 1_000_000
            };
            assert(s.subrange(0, i + 1).drop_last() =~= s.subrange(0, i as int));
            let ghost before_events = events@;
            if st.is_healthy && over {
                let new_state = StreamState {
                    is_healthy: false,
                    disconnect_count: st.disconnect_count.saturating_add(1),
                    ..st
                };
                let ghost before = self@;
                self.streams[i].state = new_state;
                assert(self@ =~= before.update(i as int, (before[i as int].0, before[i as int].1, new_state)));
                let last_time = clock::utc_rfc3339_before_now(silence);
                let src = self.streams[i].source.clone();
                let sym = self.streams[i].symbol.clone();
                let ev = StreamControlEvent::SilentDisconnect {
                    source: src,
                    symbol: sym,
                    last_event_time: last_time,
                    silence_duration_ms: silence / 1_000_000,
                    threshold_ms: cfg.silence_threshold,
                };
                events.push(ev);
                proof {
                    assert(is_silent(cfg, s[i as int].2, now));
                    assert(events@ == before_events.push(events@[events@.len() - 1]));
                    assert(events@.map_values(|e: StreamControlEvent| silence_report(e@)) =~= before_events.map_values(
                        |e: StreamControlEvent| silence_report(e@),
                    ).push(silence_report(events@[events@.len() - 1]@)));
                }
            }
            proof {
                assert(self@[i as int] == (s[i as int].0, s[i as int].1, state_after_check(cfg, s[i as int].2, now)));
            }
            i = i + 1;
        }
        proof {
            assert(s.subrange(0, s.len() as int) =~= s);
            assert forall|a: int, b: int|
                0 <= a < self@.len() && 0 <= b < self@.len() && a != b implies (self@[a].0, self@[a].1)
                != (self@[b].0, self@[b].1) by {
                assert(self@[a].0 == s[a].0 && self@[a].1 == s[a].1);
                assert(self@[b].0 == s[b].0 && self@[b].1 == s[b].1);
            }
        }
        events
    }

    /// Check for silent disconnects at the current time of
    /// `clock::now_nanos`; see [`Self::check_silent_disconnects_at`].
    pub fn check_silent_disconnects(&mut self) -> (events: Vec<StreamControlEvent>)
        requires
            old(self).wf(),
        ensures
            final(self).wf(),
            final(self).spec_config() == old(self).spec_config(),
            exists|now: u64|
                {
                    &&& clock::clock_reading(now)
                    &&& final(self)@.len() == old(self)@.len()
                    &&& forall|i: int|
                        0 <= i < old(self)@.len() ==> #[trigger] final(self)@[i] == (
                            old(self)@[i].0,
                            old(self)@[i].1,
                            state_after_check(old(self).spec_config(), old(self)@[i].2, now),
                        )
                    &&& events@.map_values(|e: StreamControlEvent| silence_report(e@)) == silence_reports(
                        old(self).spec_config(),
                        old(self)@,
                        now,
                    )
                },
            forall|k: int|
                0 <= k < events@.len() ==> reports_threshold(
                    (#[trigger] events@[k])@,
                    old(self).spec_config(),
                ),
    {
        let now = clock::now_nanos();
        self.check_silent_disconnects_at(now)
    }

    /// The health of the stream `(source, symbol)`, if monitored.
    pub fn get_stream_state(&self, source: &str, symbol: &str) -> (r: Option<StreamHealth>)
        requires
            self.wf(),
        ensures
            match r {
                Some(h) => has_stream(self@, source@, symbol@) && {
                    let st = self@[stream_index(self@, source@, symbol@)].2;
                    &&& h.is_healthy == st.is_healthy
                    &&& h.last_seq_no == st.last_seq_no
                    &&& h.gap_count == st.gap_count
                    &&& h.disconnect_count == st.disconnect_count
                    &&& h.last_event_time == st.last_event_time
                },
                None => !has_stream(self@, source@, symbol@),
            },
    {
        match self.find(source, symbol) {
            Some(i) => {
                let st = self.streams[i].state;
                assert(st == self@[i as int].2);
                Some(
                    StreamHealth {
                        is_healthy: st.is_healthy,
                        last_seq_no: st.last_seq_no,
                        gap_count: st.gap_count,
                        disconnect_count: st.disconnect_count,
                        last_event_time: st.last_event_time,
                    },
                )
            },
            None => None,
        }
    }

    /// All monitored streams as `(source, symbol)` pairs.
    pub fn get_monitored_streams(&self) -> (r: Vec<(String, String)>)
        ensures
            r@.len() == self@.len(),
            forall|i: int|
                0 <= i < r@.len() ==> (#[trigger] r@[i]).0@ == self@[i].0 && r@[i].1@ == self@[i].1,
    {
        let mut r: Vec<(String, String)> = Vec::new();
        let mut i: usize = 0;
        while i < self.streams.len()
            invariant
                0 <= i <= self.streams.len(),
                self@.len() == self.streams.len(),
                r@.len() == i,
                forall|j: int|
                    0 <= j < i ==> (#[trigger] r@[j]).0@ == self@[j].0 && r@[j].1@ == self@[j].1,
            decreases self.streams.len() - i,
        {
            let a = self.streams[i].source.clone();
            let b = self.streams[i].symbol.clone();
            assert(a@ == self@[i as int].0 && b@ == self@[i as int].1);
            r.push((a, b));
            i = i + 1;
        }
        r
    }

    /// Statistics for all streams.
    pub fn get_statistics(&self) -> (r: StreamStatistics)
        ensures
            r.total_streams == self@.len(),
            r.healthy_streams == healthy_count(self@),
            r.total_gaps == gap_total(self@),
            r.total_disconnects == disconnect_total(self@),
    {
        let mut healthy: usize = 0;
        let mut gaps: u64 = 0;
        let mut disconnects: u64 = 0;
        let mut i: usize = 0;
        let ghost s = self@;
        while i < self.streams.len()
            invariant
                0 <= i <= self.streams.len(),
                s == self@,
                s.len() == self.streams.len(),
                healthy == healthy_count(s.subrange(0, i as int)),
                healthy <= i,
                gaps == gap_total(s.subrange(0, i as int)),
                disconnects == disconnect_total(s.subrange(0, i as int)),
            decreases self.streams.len() - i,
        {
            let st = self.streams[i].state;
            assert(st == s[i as int].2);
            assert(s.subrange(0, i + 1).drop_last() =~= s.subrange(0, i as int));
            if st.is_healthy {
                healthy = healthy + 1;
            }
            gaps = gaps.saturating_add(st.gap_count);
            disconnects = disconnects.saturating_add(st.disconnect_count);
            i = i + 1;
        }
        assert(s.subrange(0, s.len() as int) =~= s);
        StreamStatistics {
            total_streams: self.streams.len(),
            healthy_streams: healthy,
            total_gaps: gaps,
            total_disconnects: disconnects,
        }
    }

    /// The control events to hand to a listener: all of `events` when the
    /// configuration asks for control events and a listener is registered,
    /// none otherwise.
    pub fn control_events_to_deliver(&self, events: Vec<StreamControlEvent>, listener_registered: bool) -> (r:
        Vec<StreamControlEvent>)
        ensures
            r@ == if self.spec_config().emit_control_events && listener_registered {
                events@
            } else {
                Seq::<StreamControlEvent>::empty()
            },
    {
        if self.config.emit_control_events && listener_registered {
            events
        } else {
            Vec::new()
        }
    }

    /// Forget every stream.
    pub fn reset(&mut self)
        ensures
            final(self).wf(),
            final(self)@ == Seq::<StreamRow>::empty(),
            final(self).spec_config() == old(self).spec_config(),
    {
        self.streams.clear();
        assert(self@ =~= Seq::<StreamRow>::empty());
    }
}

/// What a silence report says: the stream and how long it was silent
/// (milliseconds).
pub open spec fn silence_report(e: ControlEventView) -> (Seq<char>, Seq<char>, u64) {
    match e {
        ControlEventView::SilentDisconnect { source, symbol, silence_duration_ms, .. } => (
            source,
            symbol,
            silence_duration_ms,
        ),
        _ => (Seq::empty(), Seq::empty(), 0),
    }
}

/// `e` is a silence report against the configured threshold.
pub open spec fn reports_threshold(e: ControlEventView, cfg: StreamMonitorConfig) -> bool {
    e matches ControlEventView::SilentDisconnect { threshold_ms, .. } && threshold_ms == cfg.silence_threshold
}

/// Whether a stream in state `st` is found silent at `now`.
pub open spec fn is_silent(cfg: StreamMonitorConfig, st: StreamState, now: u64) -> bool {
    st.is_healthy && exceeds_ms(elapsed(st.last_event_time, now), cfg.silence_threshold)
}

/// The reports of a silence check at `now`, in the order of the streams:
/// each stream found silent, with its silence in milliseconds.
pub open spec fn silence_reports(cfg: StreamMonitorConfig, s: Seq<StreamRow>, now: u64) -> Seq<
    (Seq<char>, Seq<char>, u64),
>
    decreases s.len(),
{
    if s.len() == 0 {
        Seq::empty()
    } else {
        let before = silence_reports(cfg, s.drop_last(), now);
        let last = s.last();
        if is_silent(cfg, last.2, now) {
            before.push((last.0, last.1, elapsed(last.2.last_event_time, now) / 1_000_000))
        } else {
            before
        }
    }
}

} // verus!

verus! {

/// An in-order event (the next expected sequence number) on a healthy
/// stream, processed within the latency threshold, reports nothing.
pub proof fn law_in_order_event_is_quiet(
    cfg: StreamMonitorConfig,
    st: StreamState,
    src: Seq<char>,
    sym: Seq<char>,
    latency_ns: u64,
    now: u64,
    ts: Seq<char>,
)
    requires
        st.expected_seq_no == st.last_seq_no + 1,
        st.is_healthy,
        !exceeds_ms(latency_ns, cfg.latency_threshold),
    ensures
        events_for(cfg, st, src, sym, st.expected_seq_no, latency_ns, now, ts) == Seq::<
            ControlEventView,
        >::empty(),
{
    assert(events_for(cfg, st, src, sym, st.expected_seq_no, latency_ns, now, ts) =~= Seq::<
        ControlEventView,
    >::empty());
}

/// An event skipping ahead of the expected sequence number, with gap
/// checking on, reports exactly one gap whose size is the number of
/// skipped sequence numbers, and counts it.
pub proof fn law_gap_reported_with_size(
    cfg: StreamMonitorConfig,
    st: StreamState,
    src: Seq<char>,
    sym: Seq<char>,
    seq: u64,
    latency_ns: u64,
    now: u64,
    ts: Seq<char>,
)
    requires
        cfg.check_sequence_gaps,
        st.expected_seq_no == st.last_seq_no + 1,
        seq > st.expected_seq_no,
        seq < u64::MAX,
    ensures
        events_for(cfg, st, src, sym, seq, latency_ns, now, ts).contains(
            ControlEventView::SequenceGap {
                source: src,
                symbol: sym,
                expected_seq: st.expected_seq_no,
                actual_seq: seq,
                gap_size: (seq - st.expected_seq_no) as u64,
                timestamp: ts,
            },
        ),
        state_after(cfg, st, seq, now).gap_count == sat_inc(st.gap_count),
        state_after(cfg, st, seq, now).expected_seq_no == seq + 1,
{
    let e = events_for(cfg, st, src, sym, seq, latency_ns, now, ts);
    let g = ControlEventView::SequenceGap {
        source: src,
        symbol: sym,
        expected_seq: st.expected_seq_no,
        actual_seq: seq,
        gap_size: (seq - st.expected_seq_no) as u64,
        timestamp: ts,
    };
    assert(e[0] == g);
}

/// Streams are independent: an event on one stream leaves every other
/// stream as it was, and the monitored streams keep their positions.
pub proof fn law_streams_independent(
    cfg: StreamMonitorConfig,
    s: Seq<StreamRow>,
    src: Seq<char>,
    sym: Seq<char>,
    seq: u64,
    now: u64,
    j: int,
)
    requires
        0 <= j < s.len(),
        !(s[j].0 == src && s[j].1 == sym),
    ensures
        streams_after(cfg, s, src, sym, seq, now)[j] == s[j],
        streams_after(cfg, s, src, sym, seq, now).len() >= s.len(),
{
}

/// A stream's first event starts it healthy, with the next sequence number
/// expected, and reports nothing.
pub proof fn law_first_event_starts_stream(
    cfg: StreamMonitorConfig,
    s: Seq<StreamRow>,
    src: Seq<char>,
    sym: Seq<char>,
    seq: u64,
    latency_ns: u64,
    now: u64,
    ts: Seq<char>,
)
    requires
        !has_stream(s, src, sym),
    ensures
        has_stream(streams_after(cfg, s, src, sym, seq, now), src, sym),
        streams_after(cfg, s, src, sym, seq, now).last() == (src, sym, initial_state(seq, now)),
        reported_events(cfg, s, src, sym, seq, latency_ns, now, ts) == Seq::<ControlEventView>::empty(),
{
    let t = streams_after(cfg, s, src, sym, seq, now);
    assert(t[t.len() - 1].0 == src && t[t.len() - 1].1 == sym);
}


/// A silent disconnect is reported once per silence: a healthy stream found
/// silent is marked unhealthy with one more disconnect counted, and later
/// checks do not report it again (until an event revives it); a stream not
/// found silent is left as it was.
pub proof fn law_silence_reported_once(cfg: StreamMonitorConfig, st: StreamState, now: u64, later: u64)
    ensures
        is_silent(cfg, st, now) ==> {
            &&& !state_after_check(cfg, st, now).is_healthy
            &&& state_after_check(cfg, st, now).disconnect_count == sat_inc(st.disconnect_count)
            &&& !is_silent(cfg, state_after_check(cfg, st, now), later)
            &&& state_after_check(cfg, state_after_check(cfg, st, now), later) == state_after_check(
                cfg,
                st,
                now,
            )
        },
        !is_silent(cfg, st, now) ==> state_after_check(cfg, st, now) == st,
{
}


/// The report a silence check at `now` gives for the stream `row`.
pub open spec fn row_report(row: StreamRow, now: u64) -> (Seq<char>, Seq<char>, u64) {
    (row.0, row.1, elapsed(row.2.last_event_time, now) / 1_000_000)
}

/// `x` is the report of some stream of `s` found silent at `now`.
pub open spec fn reports_a_silent_stream(cfg: StreamMonitorConfig, s: Seq<StreamRow>, now: u64, x: (
    Seq<char>,
    Seq<char>,
    u64,
)) -> bool {
    exists|i: int| 0 <= i < s.len() && #[trigger] is_silent(cfg, s[i].2, now) && x == row_report(s[i], now)
}

/// A silence check reports exactly the streams found silent, in the order
/// of the streams, each with its silence in milliseconds: a report names a
/// silent stream, and every silent stream is reported.
pub proof fn law_silence_check_reports_silent_streams(cfg: StreamMonitorConfig, s: Seq<StreamRow>, now: u64)
    ensures
        forall|k: int|
            0 <= k < silence_reports(cfg, s, now).len() ==> reports_a_silent_stream(
                cfg,
                s,
                now,
                #[trigger] silence_reports(cfg, s, now)[k],
            ),
        forall|i: int|
            0 <= i < s.len() && #[trigger] is_silent(cfg, s[i].2, now) ==> silence_reports(cfg, s, now).contains(
                row_report(s[i], now),
            ),
    decreases s.len(),
{
    if s.len() > 0 {
        let p = s.drop_last();
        law_silence_check_reports_silent_streams(cfg, p, now);
        let before = silence_reports(cfg, p, now);
        let all = silence_reports(cfg, s, now);
        let last = s.last();
        assert forall|k: int| 0 <= k < all.len() implies reports_a_silent_stream(cfg, s, now, #[trigger] all[k]) by {
            if k < before.len() {
                assert(all[k] == before[k]);
                assert(reports_a_silent_stream(cfg, p, now, before[k]));
                let i = choose|i: int|
                    0 <= i < p.len() && #[trigger] is_silent(cfg, p[i].2, now) && before[k] == row_report(p[i], now);
                assert(p[i] == s[i]);
                assert(is_silent(cfg, s[i].2, now));
            } else {
                let j = s.len() - 1;
                assert(s[j] == last);
                assert(is_silent(cfg, s[j].2, now));
                assert(all[k] == row_report(s[j], now));
            }
        }
        assert forall|i: int| 0 <= i < s.len() && #[trigger] is_silent(cfg, s[i].2, now) implies all.contains(
            row_report(s[i], now),
        ) by {
            let x = row_report(s[i], now);
            if i < s.len() - 1 {
                assert(p[i] == s[i]);
                assert(is_silent(cfg, p[i].2, now));
                let k = choose|k: int| 0 <= k < before.len() && before[k] == x;
                assert(all[k] == x);
            } else {
                assert(all[all.len() - 1] == x);
            }
        }
    }
}


/// An event refreshes its stream: afterwards the stream `(src, sym)` is
/// monitored, and its recorded last event is this one (sequence number
/// `seq`, time `now`), healthy.  So a silence check no later than the
/// threshold after the event finds the stream live and reports nothing for
/// it, however old the stream's first event is.
pub proof fn law_event_refreshes_stream(
    cfg: StreamMonitorConfig,
    s: Seq<StreamRow>,
    src: Seq<char>,
    sym: Seq<char>,
    seq: u64,
    now: u64,
    later: u64,
)
    requires
        streams_unique(s),
    ensures
        has_stream(streams_after(cfg, s, src, sym, seq, now), src, sym),
        forall|i: int|
            0 <= i < streams_after(cfg, s, src, sym, seq, now).len() && (#[trigger] streams_after(
                cfg,
                s,
                src,
                sym,
                seq,
                now,
            )[i]).0 == src && streams_after(cfg, s, src, sym, seq, now)[i].1 == sym ==> {
                let st = streams_after(cfg, s, src, sym, seq, now)[i].2;
                &&& st.last_event_time == now
                &&& st.last_seq_no == seq
                &&& st.is_healthy
                &&& (now <= later && later - now <= cfg.silence_threshold * 1_000_000 ==> !is_silent(
                    cfg,
                    st,
                    later,
                ))
            },
        now <= later && later - now <= cfg.silence_threshold * 1_000_000 ==> forall|k: int|
            0 <= k < silence_reports(cfg, streams_after(cfg, s, src, sym, seq, now), later).len() ==> !(
            (#[trigger] silence_reports(cfg, streams_after(cfg, s, src, sym, seq, now), later)[k]).0 == src
                && silence_reports(cfg, streams_after(cfg, s, src, sym, seq, now), later)[k].1 == sym),
{
    let t = streams_after(cfg, s, src, sym, seq, now);
    assert forall|i: int| 0 <= i < t.len() && (#[trigger] t[i]).0 == src && t[i].1 == sym implies t[i].2.last_event_time
        == now && t[i].2.last_seq_no == seq && t[i].2.is_healthy by {
        if has_stream(s, src, sym) {
            let i0 = stream_index(s, src, sym);
            if i != i0 {
                assert(t[i] == s[i]);
                assert((s[i].0, s[i].1) == (s[i0].0, s[i0].1));
            }
        } else {
            if i < s.len() {
                assert(t[i] == s[i]);
            }
        }
    }
    if has_stream(s, src, sym) {
        let i0 = stream_index(s, src, sym);
        assert(t[i0].0 == src && t[i0].1 == sym);
    } else {
        assert(t[t.len() - 1].0 == src && t[t.len() - 1].1 == sym);
    }
    if now <= later && later - now <= cfg.silence_threshold * 1_000_000 {
        law_silence_check_reports_silent_streams(cfg, t, later);
        let r = silence_reports(cfg, t, later);
        assert forall|k: int| 0 <= k < r.len() implies !((#[trigger] r[k]).0 == src && r[k].1 == sym) by {
            assert(reports_a_silent_stream(cfg, t, later, r[k]));
            let i = choose|i: int| 0 <= i < t.len() && #[trigger] is_silent(cfg, t[i].2, later) && r[k] == row_report(t[i], later);
            if r[k].0 == src && r[k].1 == sym {
                assert(t[i].0 == src && t[i].1 == sym);
                assert(t[i].2.last_event_time == now);
            }
        }
    }
}

} // verus!
