//! Data sources for broker operations: live API, replay from the journal,
//! synthetic responses, or a live source with a fallback.

use vstd::prelude::*;
use crate::text::{decimal, decimal_string, owned};

verus! {

/// Where broker adapters get their responses from.
#[derive(Debug, PartialEq)]
pub enum DataSource {
    /// Live broker API calls.
    Live {
        /// Broker identifier (alpaca, fix, ...).
        broker: String,
    },
    /// Replay historical responses from the journal.
    Replay {
        /// Query to filter journal records.
        query: String,
        /// Whether to loop through responses.
        loop_replay: bool,
        /// Artificial latency in milliseconds.
        latency_ms: u64,
    },
    /// Synthetic responses for testing.
    Mock {
        /// Scenario identifier for deterministic behaviour.
        scenario: String,
    },
    /// Primary source with a fallback on errors.
    Hybrid {
        primary: Box<DataSource>,
        fallback: Box<DataSource>,
        /// Error threshold before switching to the fallback.
        error_threshold: u32,
    },
}

/// Whether a source needs network connectivity: a live source does, a
/// hybrid source when its primary does.
pub open spec fn needs_connectivity(d: DataSource) -> bool
    decreases d,
{
    match d {
        DataSource::Live { .. } => true,
        DataSource::Replay { .. } => false,
        DataSource::Mock { .. } => false,
        DataSource::Hybrid { primary, .. } => needs_connectivity(*primary),
    }
}

/// Whether a source reads the journal: a replay source does, a hybrid source
/// when either of its parts does.
pub open spec fn reads_journal(d: DataSource) -> bool
    decreases d,
{
    match d {
        DataSource::Live { .. } => false,
        DataSource::Replay { .. } => true,
        DataSource::Mock { .. } => false,
        DataSource::Hybrid { primary, fallback, .. } => reads_journal(*primary) || reads_journal(
            *fallback,
        ),
    }
}

/// The text form of a source: `live:<broker>`,
/// `replay:<query>[:loop][:<ms>ms]`, `mock:<scenario>`,
/// `hybrid:<primary>:<fallback>:threshold=<n>`.
pub open spec fn source_text(d: DataSource) -> Seq<char>
    decreases d,
{
    match d {
        DataSource::Live { broker } => "live:"@ + broker@,
        DataSource::Replay { query, loop_replay, latency_ms } => "replay:"@ + query@ + (if loop_replay {
            ":loop"@
        } else {
            Seq::empty()
        }) + (if latency_ms > 0 {
            ":"@ + decimal(latency_ms as nat) + "ms"@
        } else {
            Seq::empty()
        }),
        DataSource::Mock { scenario } => "mock:"@ + scenario@,
        DataSource::Hybrid { primary, fallback, error_threshold } => "hybrid:"@ + source_text(
            *primary,
        ) + ":"@ + source_text(*fallback) + ":threshold="@ + decimal(error_threshold as nat),
    }
}

impl DataSource {
    /// A live source for the given broker.
    pub fn live(broker: &str) -> (d: Self)
        ensures
            d matches DataSource::Live { broker: b } && b@ == broker@,
    {
        DataSource::Live { broker: owned(broker) }
    }

    /// A replay source for the given query, without looping or latency.
    pub fn replay(query: &str) -> (d: Self)
        ensures
            d matches DataSource::Replay { query: q, loop_replay, latency_ms } && q@ == query@
                && !loop_replay && latency_ms == 0,
    {
        DataSource::Replay { query: owned(query), loop_replay: false, latency_ms: 0 }
    }

    /// A replay source that loops through the responses.
    pub fn replay_looping(query: &str) -> (d: Self)
        ensures
            d matches DataSource::Replay { query: q, loop_replay, latency_ms } && q@ == query@
                && loop_replay && latency_ms == 0,
    {
        DataSource::Replay { query: owned(query), loop_replay: true, latency_ms: 0 }
    }

    /// A mock source for the given scenario.
    pub fn mock(scenario: &str) -> (d: Self)
        ensures
            d matches DataSource::Mock { scenario: s } && s@ == scenario@,
    {
        DataSource::Mock { scenario: owned(scenario) }
    }

    /// Whether this is a live source.
    pub fn is_live(&self) -> (r: bool)
        ensures
            r == self is Live,
    {
        match self {
            DataSource::Live { .. } => true,
            _ => false,
        }
    }

    /// Whether this is a replay source.
    pub fn is_replay(&self) -> (r: bool)
        ensures
            r == self is Replay,
    {
        match self {
            DataSource::Replay { .. } => true,
            _ => false,
        }
    }

    /// Whether this is a mock source.
    pub fn is_mock(&self) -> (r: bool)
        ensures
            r == self is Mock,
    {
        match self {
            DataSource::Mock { .. } => true,
            _ => false,
        }
    }

    /// Whether this is a hybrid source.
    pub fn is_hybrid(&self) -> (r: bool)
        ensures
            r == self is Hybrid,
    {
        match self {
            DataSource::Hybrid { .. } => true,
            _ => false,
        }
    }

    /// Whether this source needs network connectivity.
    pub fn requires_connectivity(&self) -> (r: bool)
        ensures
            r == needs_connectivity(*self),
        decreases self,
    {
        match self {
            DataSource::Live { .. } => true,
            DataSource::Replay { .. } => false,
            DataSource::Mock { .. } => false,
            DataSource::Hybrid { primary, .. } => primary.requires_connectivity(),
        }
    }

    /// Whether this source reads the journal.
    pub fn uses_journal(&self) -> (r: bool)
        ensures
            r == reads_journal(*self),
        decreases self,
    {
        match self {
            DataSource::Live { .. } => false,
            DataSource::Replay { .. } => true,
            DataSource::Mock { .. } => false,
            DataSource::Hybrid { primary, fallback, .. } => {
                primary.uses_journal() || fallback.uses_journal()
            },
        }
    }

    /// Set the artificial latency of a replay source; other sources are
    /// returned unchanged.
    pub fn with_latency(self, ms: u64) -> (d: Self)
        ensures
            d == match self {
                DataSource::Replay { query, loop_replay, .. } => DataSource::Replay {
                    query,
                    loop_replay,
                    latency_ms: ms,
                },
                _ => self,
            },
    {
        match self {
            DataSource::Replay { query, loop_replay, .. } => DataSource::Replay {
                query,
                loop_replay,
                latency_ms: ms,
            },
            other => other,
        }
    }

    /// The broker of a live source.
    pub fn broker_id(&self) -> (r: Option<&str>)
        ensures
            match self {
                DataSource::Live { broker } => r is Some && r->0@ == broker@,
                _ => r is None,
            },
    {
        match self {
            DataSource::Live { broker } => Some(broker.as_str()),
            _ => None,
        }
    }

    /// The query of a replay source.
    pub fn replay_query(&self) -> (r: Option<&str>)
        ensures
            match self {
                DataSource::Replay { query, .. } => r is Some && r->0@ == query@,
                _ => r is None,
            },
    {
        match self {
            DataSource::Replay { query, .. } => Some(query.as_str()),
            _ => None,
        }
    }

    /// The text form; see [`source_text`].
    pub fn to_string(&self) -> (r: String)
        ensures
            r@ == source_text(*self),
        decreases self,
    {
        match self {
            DataSource::Live { broker } => {
                let mut r = owned("live:");
                r.append(broker.as_str());
                r
            },
            DataSource::Replay { query, loop_replay, latency_ms } => {
                let mut r = owned("replay:");
                r.append(query.as_str());
                if *loop_replay {
                    r.append(":loop");
                }
                if *latency_ms > 0 {
                    r.append(":");
                    let n = decimal_string(*latency_ms);
                    r.append(n.as_str());
                    r.append("ms");
                }
                assert(r@ =~= source_text(*self));
                r
            },
            DataSource::Mock { scenario } => {
                let mut r = owned("mock:");
                r.append(scenario.as_str());
                r
            },
            DataSource::Hybrid { primary, fallback, error_threshold } => {
                let mut r = owned("hybrid:");
                let p = primary.to_string();
                r.append(p.as_str());
                r.append(":");
                let f = fallback.to_string();
                r.append(f.as_str());
                r.append(":threshold=");
                let n = decimal_string(*error_threshold as u64);
                r.append(n.as_str());
                assert(r@ =~= source_text(*self));
                r
            },
        }
    }
}

impl Default for DataSource {
    /// The mock source `default`.
    fn default() -> (d: Self)
        ensures
            d matches DataSource::Mock { scenario: s } && s@ == "default"@,
    {
        DataSource::mock("default")
    }
}

/// Operation configuration: a data source, logging and timeout.
#[derive(Debug, PartialEq)]
pub struct ExecutionConfig {
    /// The data source to use.
    pub data_source: DataSource,
    /// Whether to log every operation in detail.
    pub verbose_logging: bool,
    /// Timeout for operations in milliseconds.
    pub timeout_ms: u64,
}

impl ExecutionConfig {
    /// Live trading with the given broker: quiet, 30 s timeout.
    pub fn live(broker: &str) -> (c: Self)
        ensures
            c.data_source matches DataSource::Live { broker: b } && b@ == broker@,
            !c.verbose_logging,
            c.timeout_ms == 30_000,
    {
        ExecutionConfig { data_source: DataSource::live(broker), verbose_logging: false, timeout_ms: 30_000 }
    }

    /// Paper trading replaying the given query: verbose, 60 s timeout.
    pub fn paper_with_replay(query: &str) -> (c: Self)
        ensures
            c.data_source matches DataSource::Replay { query: q, loop_replay, latency_ms } && q@
                == query@ && !loop_replay && latency_ms == 0,
            c.verbose_logging,
            c.timeout_ms == 60_000,
    {
        ExecutionConfig {
            data_source: DataSource::replay(query),
            verbose_logging: true,
            timeout_ms: 60_000,
        }
    }

    /// Backtesting against the given mock scenario: verbose, 1 s timeout.
    pub fn backtest(scenario: &str) -> (c: Self)
        ensures
            c.data_source matches DataSource::Mock { scenario: s } && s@ == scenario@,
            c.verbose_logging,
            c.timeout_ms == 1_000,
    {
        ExecutionConfig { data_source: DataSource::mock(scenario), verbose_logging: true, timeout_ms: 1_000 }
    }

    /// The same configuration with verbose logging.
    pub fn with_verbose_logging(self) -> (c: Self)
        ensures
            c == (ExecutionConfig { verbose_logging: true, ..self }),
    {
        let mut c = self;
        c.verbose_logging = true;
        c
    }

    /// The same configuration with the given timeout (milliseconds).
    pub fn with_timeout(self, ms: u64) -> (c: Self)
        ensures
            c == (ExecutionConfig { timeout_ms: ms, ..self }),
    {
        let mut c = self;
        c.timeout_ms = ms;
        c
    }

    /// Whether the configuration uses live broker connectivity.
    pub fn is_live(&self) -> (r: bool)
        ensures
            r == self.data_source is Live,
    {
        self.data_source.is_live()
    }
}

impl Default for ExecutionConfig {
    /// The default mock source, quiet, 30 s timeout.
    fn default() -> (c: Self)
        ensures
            c.data_source matches DataSource::Mock { scenario: s } && s@ == "default"@,
            !c.verbose_logging,
            c.timeout_ms == 30_000,
    {
        ExecutionConfig { data_source: DataSource::default(), verbose_logging: false, timeout_ms: 30_000 }
    }
}

/// A hybrid source needs connectivity exactly when its primary does, and
/// reads the journal exactly when one of its parts does.
pub proof fn law_hybrid_follows_parts(p: DataSource, f: DataSource, n: u32)
    ensures
        needs_connectivity(DataSource::Hybrid { primary: Box::new(p), fallback: Box::new(f), error_threshold: n })
            == needs_connectivity(p),
        reads_journal(DataSource::Hybrid { primary: Box::new(p), fallback: Box::new(f), error_threshold: n })
            == (reads_journal(p) || reads_journal(f)),
{
}

/// Setting the latency keeps the kind of the source, and a replay source
/// keeps its query and looping.
pub proof fn law_with_latency_keeps_kind(d: DataSource, ms: u64)
    ensures
        needs_connectivity(d) == needs_connectivity(match d {
            DataSource::Replay { query, loop_replay, .. } => DataSource::Replay {
                query,
                loop_replay,
                latency_ms: ms,
            },
            _ => d,
        }),
        reads_journal(d) == reads_journal(match d {
            DataSource::Replay { query, loop_replay, .. } => DataSource::Replay {
                query,
                loop_replay,
                latency_ms: ms,
            },
            _ => d,
        }),
{
}

} // verus!
