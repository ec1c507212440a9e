//! Operation modes and workload types, separating live trading from
//! offline and bulk operations such as reconciliation and historical
//! downloads.

use vstd::prelude::*;
use crate::text::owned;

verus! {

/// Operational mode of the gateway: decides which operations are allowed.
#[derive(Clone, Copy, Debug, PartialEq, Eq, Hash, Structural)]
pub enum OperationMode {
    /// Full live trading: all operations allowed.
    Live,
    /// Paper trading / sandbox: no real money at risk.
    Paper,
    /// Queries allowed, no order modifications.
    ReadOnly,
    /// Only local operations, no broker connectivity.
    Offline,
}

impl OperationMode {
    /// Whether live trading operations are allowed.
    pub fn allows_live_trading(&self) -> (r: bool)
        ensures
            r == (*self == OperationMode::Live || *self == OperationMode::Paper),
    {
        match self {
            OperationMode::Live | OperationMode::Paper => true,
            _ => false,
        }
    }

    /// Whether order modifications (submit, cancel, replace) are allowed.
    pub fn allows_order_modifications(&self) -> (r: bool)
        ensures
            r == (*self == OperationMode::Live || *self == OperationMode::Paper),
    {
        match self {
            OperationMode::Live | OperationMode::Paper => true,
            _ => false,
        }
    }

    /// Whether broker connectivity is required.
    pub fn requires_broker_connection(&self) -> (r: bool)
        ensures
            r == (*self != OperationMode::Offline),
    {
        match self {
            OperationMode::Offline => false,
            _ => true,
        }
    }

    /// Whether queries to the broker are allowed.
    pub fn allows_queries(&self) -> (r: bool)
        ensures
            r == (*self != OperationMode::Offline),
    {
        match self {
            OperationMode::Offline => false,
            _ => true,
        }
    }

    /// Whether offline operations are allowed: always.
    pub fn allows_offline_operations(&self) -> (r: bool)
        ensures
            r,
    {
        true
    }

    /// The mode's name: `live`, `paper`, `readonly` or `offline`.
    pub fn to_string(&self) -> (r: String)
        ensures
            r@ == mode_name(*self),
    {
        match self {
            OperationMode::Live => owned("live"),
            OperationMode::Paper => owned("paper"),
            OperationMode::ReadOnly => owned("readonly"),
            OperationMode::Offline => owned("offline"),
        }
    }
}

/// The name of a mode.
pub open spec fn mode_name(m: OperationMode) -> Seq<char> {
    match m {
        OperationMode::Live => "live"@,
        OperationMode::Paper => "paper"@,
        OperationMode::ReadOnly => "readonly"@,
        OperationMode::Offline => "offline"@,
    }
}

impl Default for OperationMode {
    /// Paper trading, the safer default.
    fn default() -> (m: Self)
        ensures
            m == OperationMode::Paper,
    {
        OperationMode::Paper
    }
}

/// Types of workloads that can be executed.
#[derive(Clone, Copy, Debug, PartialEq, Eq, Hash, Structural)]
pub enum WorkloadType {
    /// Real-time order submission, cancellation, modification.
    LiveTrading,
    /// Order status queries and position queries.
    Query,
    /// Historical order reconciliation (bulk status checks).
    Reconciliation,
    /// Historical market data download.
    HistoricalDataDownload,
    /// Market data streaming subscription.
    MarketDataStreaming,
    /// Administrative operations (config, health checks).
    Administrative,
}

/// Whether a workload needs live broker connectivity.
pub open spec fn needs_live_connectivity(w: WorkloadType) -> bool {
    w == WorkloadType::LiveTrading || w == WorkloadType::Query || w
        == WorkloadType::MarketDataStreaming
}

/// The priority of a workload (lower is more urgent).
pub open spec fn priority_of(w: WorkloadType) -> u8 {
    match w {
        WorkloadType::LiveTrading => 1,
        WorkloadType::MarketDataStreaming => 2,
        WorkloadType::Query => 3,
        WorkloadType::Administrative => 4,
        WorkloadType::Reconciliation => 5,
        WorkloadType::HistoricalDataDownload => 6,
    }
}

/// The recommended rate limit of a workload, in requests per minute.
pub open spec fn rate_limit_of(w: WorkloadType) -> u32 {
    match w {
        WorkloadType::LiveTrading => 300,
        WorkloadType::MarketDataStreaming => 1000,
        WorkloadType::Query => 200,
        WorkloadType::Administrative => 60,
        WorkloadType::Reconciliation => 30,
        WorkloadType::HistoricalDataDownload => 10,
    }
}

/// The name of a workload.
pub open spec fn workload_name(w: WorkloadType) -> Seq<char> {
    match w {
        WorkloadType::LiveTrading => "live_trading"@,
        WorkloadType::Query => "query"@,
        WorkloadType::Reconciliation => "reconciliation"@,
        WorkloadType::HistoricalDataDownload => "historical_download"@,
        WorkloadType::MarketDataStreaming => "market_data_streaming"@,
        WorkloadType::Administrative => "administrative"@,
    }
}

impl WorkloadType {
    /// The priority level (lower = higher priority).
    pub fn priority(&self) -> (r: u8)
        ensures
            r == priority_of(*self),
    {
        match self {
            WorkloadType::LiveTrading => 1,
            WorkloadType::MarketDataStreaming => 2,
            WorkloadType::Query => 3,
            WorkloadType::Administrative => 4,
            WorkloadType::Reconciliation => 5,
            WorkloadType::HistoricalDataDownload => 6,
        }
    }

    /// Whether this workload requires live broker connectivity.
    pub fn requires_live_connectivity(&self) -> (r: bool)
        ensures
            r == needs_live_connectivity(*self),
    {
        match self {
            WorkloadType::LiveTrading | WorkloadType::Query | WorkloadType::MarketDataStreaming => true,
            _ => false,
        }
    }

    /// Whether this is a bulk operation that can be rate-limited separately.
    pub fn is_bulk_operation(&self) -> (r: bool)
        ensures
            r == (*self == WorkloadType::Reconciliation || *self
                == WorkloadType::HistoricalDataDownload),
    {
        match self {
            WorkloadType::Reconciliation | WorkloadType::HistoricalDataDownload => true,
            _ => false,
        }
    }

    /// Whether this workload can be queued when the system is under load.
    pub fn can_be_queued(&self) -> (r: bool)
        ensures
            r == (*self == WorkloadType::Reconciliation || *self
                == WorkloadType::HistoricalDataDownload || *self == WorkloadType::Administrative),
    {
        match self {
            WorkloadType::Reconciliation
            | WorkloadType::HistoricalDataDownload
            | WorkloadType::Administrative => true,
            _ => false,
        }
    }

    /// The recommended rate limit for this workload, in requests per minute.
    pub fn recommended_rate_limit_rpm(&self) -> (r: u32)
        ensures
            r == rate_limit_of(*self),
    {
        match self {
            WorkloadType::LiveTrading => 300,
            WorkloadType::MarketDataStreaming => 1000,
            WorkloadType::Query => 200,
            WorkloadType::Administrative => 60,
            WorkloadType::Reconciliation => 30,
            WorkloadType::HistoricalDataDownload => 10,
        }
    }

    /// The workload's name (`live_trading`, `query`, ...).
    pub fn to_string(&self) -> (r: String)
        ensures
            r@ == workload_name(*self),
    {
        match self {
            WorkloadType::LiveTrading => owned("live_trading"),
            WorkloadType::Query => owned("query"),
            WorkloadType::Reconciliation => owned("reconciliation"),
            WorkloadType::HistoricalDataDownload => owned("historical_download"),
            WorkloadType::MarketDataStreaming => owned("market_data_streaming"),
            WorkloadType::Administrative => owned("administrative"),
        }
    }
}

/// Configuration for workload separation.
#[derive(Clone, Debug, PartialEq)]
pub struct WorkloadConfig {
    /// Current operational mode.
    pub mode: OperationMode,
    /// Allowed workload types (empty = all allowed).
    pub allowed_workloads: Vec<WorkloadType>,
    /// Whether bulk operations should be isolated on separate threads.
    pub isolate_bulk_operations: bool,
    /// Maximum concurrent bulk operations.
    pub max_concurrent_bulk: usize,
    /// Whether to enable separate rate limiting per workload type.
    pub per_workload_rate_limiting: bool,
}

/// Whether `allowed` lets `w` run: an empty list allows everything.
pub open spec fn workload_allowed(allowed: Seq<WorkloadType>, w: WorkloadType) -> bool {
    allowed.len() == 0 || allowed.contains(w)
}

/// Whether mode `m` can run a configured workload `w` (used by
/// [`WorkloadConfig::validate`]).
pub open spec fn config_compatible(m: OperationMode, w: WorkloadType) -> bool {
    !(m == OperationMode::ReadOnly && w == WorkloadType::LiveTrading) && !(m
        == OperationMode::Offline && needs_live_connectivity(w))
}

/// Whether mode `m` lets a request of workload `w` through (used by
/// [`validate_request_for_mode`]).
pub open spec fn request_compatible(m: OperationMode, w: WorkloadType) -> bool {
    !((m == OperationMode::ReadOnly || m == OperationMode::Offline) && w == WorkloadType::LiveTrading)
        && !(m == OperationMode::Offline && needs_live_connectivity(w))
}

/// Errors of the workload configuration.
#[derive(Debug, Clone, PartialEq)]
pub enum WorkloadConfigError {
    InvalidWorkloadForMode { mode: OperationMode, workload: WorkloadType },
    WorkloadNotAllowed(WorkloadType),
}

/// The message of a configuration error.
pub open spec fn error_text(e: WorkloadConfigError) -> Seq<char> {
    match e {
        WorkloadConfigError::InvalidWorkloadForMode { mode, workload } => "Workload "@
            + workload_name(workload) + " is not compatible with operation mode "@ + mode_name(
            mode,
        ),
        WorkloadConfigError::WorkloadNotAllowed(workload) => "Workload "@ + workload_name(workload)
            + " is not allowed in current configuration"@,
    }
}

impl WorkloadConfigError {
    /// The error message.
    pub fn to_string(&self) -> (r: String)
        ensures
            r@ == error_text(*self),
    {
        match self {
            WorkloadConfigError::InvalidWorkloadForMode { mode, workload } => {
                let mut r = owned("Workload ");
                let w = workload.to_string();
                r.append(w.as_str());
                r.append(" is not compatible with operation mode ");
                let m = mode.to_string();
                r.append(m.as_str());
                r
            },
            WorkloadConfigError::WorkloadNotAllowed(workload) => {
                let mut r = owned("Workload ");
                let w = workload.to_string();
                r.append(w.as_str());
                r.append(" is not allowed in current configuration");
                r
            },
        }
    }
}

impl WorkloadConfig {
    /// Live trading: trading, queries, streaming, administration.
    pub fn live_trading() -> (c: Self)
        ensures
            c.mode == OperationMode::Live,
            c.allowed_workloads@ == seq![
                WorkloadType::LiveTrading,
                WorkloadType::Query,
                WorkloadType::MarketDataStreaming,
                WorkloadType::Administrative,
            ],
            c.isolate_bulk_operations,
            c.max_concurrent_bulk == 2,
            c.per_workload_rate_limiting,
    {
        let mut v: Vec<WorkloadType> = Vec::new();
        v.push(WorkloadType::LiveTrading);
        v.push(WorkloadType::Query);
        v.push(WorkloadType::MarketDataStreaming);
        v.push(WorkloadType::Administrative);
        let c = WorkloadConfig {
            mode: OperationMode::Live,
            allowed_workloads: v,
            isolate_bulk_operations: true,
            max_concurrent_bulk: 2,
            per_workload_rate_limiting: true,
        };
        assert(c.allowed_workloads@ =~= seq![
            WorkloadType::LiveTrading,
            WorkloadType::Query,
            WorkloadType::MarketDataStreaming,
            WorkloadType::Administrative,
        ]);
        c
    }

    /// Paper trading: as live trading, plus reconciliation.
    pub fn paper_trading() -> (c: Self)
        ensures
            c.mode == OperationMode::Paper,
            c.allowed_workloads@ == seq![
                WorkloadType::LiveTrading,
                WorkloadType::Query,
                WorkloadType::MarketDataStreaming,
                WorkloadType::Administrative,
                WorkloadType::Reconciliation,
            ],
            c.isolate_bulk_operations,
            c.max_concurrent_bulk == 3,
            c.per_workload_rate_limiting,
    {
        let mut v: Vec<WorkloadType> = Vec::new();
        v.push(WorkloadType::LiveTrading);
        v.push(WorkloadType::Query);
        v.push(WorkloadType::MarketDataStreaming);
        v.push(WorkloadType::Administrative);
        v.push(WorkloadType::Reconciliation);
        let c = WorkloadConfig {
            mode: OperationMode::Paper,
            allowed_workloads: v,
            isolate_bulk_operations: true,
            max_concurrent_bulk: 3,
            per_workload_rate_limiting: true,
        };
        assert(c.allowed_workloads@ =~= seq![
            WorkloadType::LiveTrading,
            WorkloadType::Query,
            WorkloadType::MarketDataStreaming,
            WorkloadType::Administrative,
            WorkloadType::Reconciliation,
        ]);
        c
    }

    /// Back office only: queries, reconciliation, downloads, administration.
    pub fn backoffice_only() -> (c: Self)
        ensures
            c.mode == OperationMode::ReadOnly,
            c.allowed_workloads@ == seq![
                WorkloadType::Query,
                WorkloadType::Reconciliation,
                WorkloadType::HistoricalDataDownload,
                WorkloadType::Administrative,
            ],
            !c.isolate_bulk_operations,
            c.max_concurrent_bulk == 5,
            c.per_workload_rate_limiting,
    {
        let mut v: Vec<WorkloadType> = Vec::new();
        v.push(WorkloadType::Query);
        v.push(WorkloadType::Reconciliation);
        v.push(WorkloadType::HistoricalDataDownload);
        v.push(WorkloadType::Administrative);
        let c = WorkloadConfig {
            mode: OperationMode::ReadOnly,
            allowed_workloads: v,
            isolate_bulk_operations: false,
            max_concurrent_bulk: 5,
            per_workload_rate_limiting: true,
        };
        assert(c.allowed_workloads@ =~= seq![
            WorkloadType::Query,
            WorkloadType::Reconciliation,
            WorkloadType::HistoricalDataDownload,
            WorkloadType::Administrative,
        ]);
        c
    }

    /// Whether a workload type is allowed (an empty list allows all).
    pub fn is_workload_allowed(&self, workload: WorkloadType) -> (r: bool)
        ensures
            r == workload_allowed(self.allowed_workloads@, workload),
    {
        if self.allowed_workloads.len() == 0 {
            return true;
        }
        let mut i: usize = 0;
        while i < self.allowed_workloads.len()
            invariant
                0 <= i <= self.allowed_workloads.len(),
                self.allowed_workloads@.len() > 0,
                forall|j: int| 0 <= j < i ==> self.allowed_workloads@[j] != workload,
            decreases self.allowed_workloads.len() - i,
        {
            if self.allowed_workloads[i] == workload {
                assert(self.allowed_workloads@.contains(workload));
                return true;
            }
            i = i + 1;
        }
        false
    }

    /// Check that the mode can run every configured workload.  The first
    /// configured workload the mode cannot run is reported.
    pub fn validate(&self) -> (r: Result<(), WorkloadConfigError>)
        ensures
            match r {
                Ok(()) => forall|i: int|
                    0 <= i < self.allowed_workloads@.len() ==> config_compatible(
                        self.mode,
                        #[trigger] self.allowed_workloads@[i],
                    ),
                Err(e) => exists|i: int|
                    0 <= i < self.allowed_workloads@.len() && !config_compatible(
                        self.mode,
                        #[trigger] self.allowed_workloads@[i],
                    ) && (forall|j: int|
                        0 <= j < i ==> config_compatible(self.mode, #[trigger] self.allowed_workloads@[j]))
                        && e == (WorkloadConfigError::InvalidWorkloadForMode {
                        mode: self.mode,
                        workload: self.allowed_workloads@[i],
                    }),
            },
    {
        let mut i: usize = 0;
        while i < self.allowed_workloads.len()
            invariant
                0 <= i <= self.allowed_workloads.len(),
                forall|j: int|
                    0 <= j < i ==> config_compatible(self.mode, #[trigger] self.allowed_workloads@[j]),
            decreases self.allowed_workloads.len() - i,
        {
            let w = self.allowed_workloads[i];
            let bad = match (self.mode, w) {
                (OperationMode::ReadOnly, WorkloadType::LiveTrading) => true,
                (OperationMode::Offline, w2) => w2.requires_live_connectivity(),
                _ => false,
            };
            if bad {
                return Err(WorkloadConfigError::InvalidWorkloadForMode { mode: self.mode, workload: w });
            }
            i = i + 1;
        }
        Ok(())
    }
}

impl Default for WorkloadConfig {
    /// The paper-trading configuration.
    fn default() -> (c: Self)
        ensures
            c.mode == OperationMode::Paper,
            c.allowed_workloads@ == seq![
                WorkloadType::LiveTrading,
                WorkloadType::Query,
                WorkloadType::MarketDataStreaming,
                WorkloadType::Administrative,
                WorkloadType::Reconciliation,
            ],
            c.isolate_bulk_operations,
            c.max_concurrent_bulk == 3,
            c.per_workload_rate_limiting,
    {
        Self::paper_trading()
    }
}

/// Check a request of workload `workload` against the configuration and
/// the operation mode: a workload the configuration does not allow is
/// refused first; then the mode must let the workload through.
pub fn validate_request_for_mode(
    mode: OperationMode,
    config: &WorkloadConfig,
    workload: WorkloadType,
) -> (r: Result<(), WorkloadConfigError>)
    ensures
        r == if !workload_allowed(config.allowed_workloads@, workload) {
            Err(WorkloadConfigError::WorkloadNotAllowed(workload))
        } else if !request_compatible(mode, workload) {
            Err(WorkloadConfigError::InvalidWorkloadForMode { mode, workload })
        } else {
            Ok(())
        },
{
    if !config.is_workload_allowed(workload) {
        return Err(WorkloadConfigError::WorkloadNotAllowed(workload));
    }
    match (mode, workload) {
        (OperationMode::ReadOnly | OperationMode::Offline, WorkloadType::LiveTrading) => {
            Err(WorkloadConfigError::InvalidWorkloadForMode { mode, workload })
        },
        (OperationMode::Offline, w) => {
            if w.requires_live_connectivity() {
                Err(WorkloadConfigError::InvalidWorkloadForMode { mode, workload })
            } else {
                Ok(())
            }
        },
        _ => Ok(()),
    }
}

/// Every request that passes the check is one the configuration allows and
/// the mode can run; in particular no live trading request passes in a
/// read-only or offline mode, and nothing needing broker connectivity passes
/// offline.
pub proof fn law_accepted_request_is_safe(
    mode: OperationMode,
    allowed: Seq<WorkloadType>,
    w: WorkloadType,
)
    requires
        workload_allowed(allowed, w),
        request_compatible(mode, w),
    ensures
        w == WorkloadType::LiveTrading ==> mode == OperationMode::Live || mode
            == OperationMode::Paper,
        mode == OperationMode::Offline ==> !needs_live_connectivity(w),
{
}

/// The mode whose requests pass is exactly one that allows order
/// modifications, for live trading requests.
pub proof fn law_live_trading_needs_trading_mode(mode: OperationMode)
    ensures
        request_compatible(mode, WorkloadType::LiveTrading) == (mode == OperationMode::Live || mode
            == OperationMode::Paper),
{
}

/// The workloads of the live-trading preset.
pub open spec fn live_preset() -> Seq<WorkloadType> {
    seq![
        WorkloadType::LiveTrading,
        WorkloadType::Query,
        WorkloadType::MarketDataStreaming,
        WorkloadType::Administrative,
    ]
}

/// The workloads of the paper-trading preset.
pub open spec fn paper_preset() -> Seq<WorkloadType> {
    live_preset().push(WorkloadType::Reconciliation)
}

/// The workloads of the back-office preset.
pub open spec fn backoffice_preset() -> Seq<WorkloadType> {
    seq![
        WorkloadType::Query,
        WorkloadType::Reconciliation,
        WorkloadType::HistoricalDataDownload,
        WorkloadType::Administrative,
    ]
}

/// The three preset configurations are consistent: each passes its own
/// validation.
pub proof fn law_presets_valid()
    ensures
        forall|i: int|
            0 <= i < live_preset().len() ==> config_compatible(
                OperationMode::Live,
                #[trigger] live_preset()[i],
            ),
        forall|i: int|
            0 <= i < paper_preset().len() ==> config_compatible(
                OperationMode::Paper,
                #[trigger] paper_preset()[i],
            ),
        forall|i: int|
            0 <= i < backoffice_preset().len() ==> config_compatible(
                OperationMode::ReadOnly,
                #[trigger] backoffice_preset()[i],
            ),
{
}

/// Priorities order the workloads strictly: live trading first, bulk
/// downloads last, and bulk operations get lower rate limits than live
/// trading.
pub proof fn law_priority_and_rate_order(w: WorkloadType)
    ensures
        priority_of(WorkloadType::LiveTrading) <= priority_of(w) <= priority_of(
            WorkloadType::HistoricalDataDownload,
        ),
        (w == WorkloadType::Reconciliation || w == WorkloadType::HistoricalDataDownload) ==> rate_limit_of(w)
            < rate_limit_of(WorkloadType::LiveTrading),
{
}

} // verus!
