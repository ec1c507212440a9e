//! Pools of broker connections, and the back-off schedule for reconnecting.
//!
//! Back-off schedule (base=500ms, factor=2, max_attempts=5):
//!   attempt 1: no wait
//!   attempt 2: wait  500ms
//!   attempt 3: wait 1000ms
//!   attempt 4: wait 2000ms
//!   attempt 5: wait 4000ms  → give up after it fails

use vstd::prelude::*;
use crate::domain::request::{BrokerId, Connection};
use crate::text::{owned, str_eq};

verus! {

struct BrokerPool {
    broker_id: String,
    conns: Vec<Connection>,
}

/// One broker's pool: its ID and the IDs of its connections.
pub type PoolView = (Seq<char>, Seq<Seq<char>>);

/// Manages pools of broker connections (several per broker, one per
/// connection ID).
pub struct ConnectionManager {
    pools: Vec<BrokerPool>,
    max_attempts: u32,
    base_ms: u64,
}

/// No connection ID occurs twice.
pub open spec fn conn_ids_unique(s: Seq<Seq<char>>) -> bool {
    forall|i: int, j: int| 0 <= i < s.len() && 0 <= j < s.len() && i != j ==> s[i] != s[j]
}

/// The pools are well formed: each broker once, each pool non-empty and
/// without repeated connection IDs.
pub open spec fn pools_wf(p: Seq<PoolView>) -> bool {
    &&& forall|i: int, j: int| 0 <= i < p.len() && 0 <= j < p.len() && i != j ==> p[i].0 != p[j].0
    &&& forall|i: int| 0 <= i < p.len() ==> (#[trigger] p[i]).1.len() > 0 && conn_ids_unique(p[i].1)
}

/// The broker `b` has a pool.
pub open spec fn has_broker(p: Seq<PoolView>, b: Seq<char>) -> bool {
    exists|i: int| 0 <= i < p.len() && p[i].0 == b
}

/// The position of `b`'s pool (meaningful when `has_broker`).
pub open spec fn broker_index(p: Seq<PoolView>, b: Seq<char>) -> int {
    choose|i: int| 0 <= i < p.len() && p[i].0 == b
}

/// The connection IDs of `b` (empty when it has no pool).
pub open spec fn pool_of(p: Seq<PoolView>, b: Seq<char>) -> Seq<Seq<char>> {
    if has_broker(p, b) {
        p[broker_index(p, b)].1
    } else {
        Seq::empty()
    }
}

/// The position of connection `c` in a pool (meaningful when it is there).
pub open spec fn conn_index(s: Seq<Seq<char>>, c: Seq<char>) -> int {
    choose|i: int| 0 <= i < s.len() && s[i] == c
}

/// The pools after registering connection `c` for broker `b`: a connection
/// with the same ID is replaced, otherwise `c` joins the broker's pool (a new
/// pool when the broker had none).
pub open spec fn after_register(p: Seq<PoolView>, b: Seq<char>, c: Seq<char>) -> Seq<PoolView> {
    if has_broker(p, b) {
        let i = broker_index(p, b);
        if p[i].1.contains(c) {
            p
        } else {
            p.update(i, (b, p[i].1.push(c)))
        }
    } else {
        p.push((b, seq![c]))
    }
}

/// The pools after releasing every connection of broker `b`.
pub open spec fn after_release(p: Seq<PoolView>, b: Seq<char>) -> Seq<PoolView> {
    if has_broker(p, b) {
        p.remove(broker_index(p, b))
    } else {
        p
    }
}

/// The pools after releasing connection `c` of broker `b`; a pool left
/// empty is removed.
pub open spec fn after_release_one(p: Seq<PoolView>, b: Seq<char>, c: Seq<char>) -> Seq<PoolView> {
    if has_broker(p, b) {
        let i = broker_index(p, b);
        if p[i].1.contains(c) {
            let rest = p[i].1.remove(conn_index(p[i].1, c));
            if rest.len() == 0 {
                p.remove(i)
            } else {
                p.update(i, (b, rest))
            }
        } else {
            p
        }
    } else {
        p
    }
}

/// `2^n`.
pub open spec fn pow2(n: nat) -> nat
    decreases n,
{
    if n == 0 { 1 } else { 2 * pow2((n - 1) as nat) }
}

/// The wait before reconnect attempt `attempt` (1-based): none before the
/// first, `base * 2^(attempt - 2)` before the others, saturating at
/// `u64::MAX`.
pub open spec fn backoff_delay(base: u64, attempt: u32) -> u64 {
    if attempt <= 1 {
        0
    } else {
        let d = base * pow2((attempt - 2) as nat);
        if d > u64::MAX { u64::MAX } else { d as u64 }
    }
}

impl View for ConnectionManager {
    type V = Seq<PoolView>;

    closed spec fn view(&self) -> Seq<PoolView> {
        self.pools@.map_values(|p: BrokerPool| (p.broker_id@, p.conns@.map_values(|c: Connection| c@)))
    }
}

impl ConnectionManager {
    /// The invariant of the pools.
    pub closed spec fn wf(&self) -> bool {
        pools_wf(self@)
    }

    /// Maximum reconnect attempts.
    pub closed spec fn spec_max_attempts(&self) -> u32 {
        self.max_attempts
    }

    /// Base back-off delay (milliseconds).
    pub closed spec fn spec_base_ms(&self) -> u64 {
        self.base_ms
    }

    /// A manager with no connections.
    pub fn new(max_attempts: u32, base_ms: u64) -> (m: Self)
        ensures
            m.wf(),
            m@ == Seq::<PoolView>::empty(),
            m.spec_max_attempts() == max_attempts,
            m.spec_base_ms() == base_ms,
    {
        let m = ConnectionManager { pools: Vec::new(), max_attempts, base_ms };
        assert(m@ =~= Seq::<PoolView>::empty());
        m
    }

    fn find_pool(&self, broker_id: &str) -> (r: Option<usize>)
        requires
            self.wf(),
        ensures
            match r {
                Some(i) => i < self@.len() && has_broker(self@, broker_id@) && broker_index(
                    self@,
                    broker_id@,
                ) == i,
                None => !has_broker(self@, broker_id@),
            },
    {
        let mut i: usize = 0;
        while i < self.pools.len()
            invariant
                0 <= i <= self.pools.len(),
                self@.len() == self.pools.len(),
                self.wf(),
                forall|j: int| 0 <= j < i ==> self@[j].0 != broker_id@,
            decreases self.pools.len() - i,
        {
            assert(self@[i as int].0 == self.pools@[i as int].broker_id@);
            if str_eq(self.pools[i].broker_id.as_str(), broker_id) {
                proof {
                    assert(has_broker(self@, broker_id@));
                    let c = broker_index(self@, broker_id@);
                    assert(self@[c].0 == self@[i as int].0);
                }
                return Some(i);
            }
            i = i + 1;
        }
        None
    }

    fn find_conn(conns: &Vec<Connection>, conn_id: &str) -> (r: Option<usize>)
        requires
            conn_ids_unique(conns@.map_values(|c: Connection| c@)),
        ensures
            match r {
                Some(i) => i < conns@.len() && conns@[i as int]@ == conn_id@ && conn_index(
                    conns@.map_values(|c: Connection| c@),
                    conn_id@,
                ) == i && conns@.map_values(|c: Connection| c@).contains(conn_id@),
                None => !conns@.map_values(|c: Connection| c@).contains(conn_id@),
            },
    {
        let ghost s = conns@.map_values(|c: Connection| c@);
        let mut i: usize = 0;
        while i < conns.len()
            invariant
                0 <= i <= conns.len(),
                s == conns@.map_values(|c: Connection| c@),
                conn_ids_unique(s),
                forall|j: int| 0 <= j < i ==> s[j] != conn_id@,
            decreases conns.len() - i,
        {
            assert(s[i as int] == conns@[i as int]@);
            if str_eq(conns[i].conn_id.as_str(), conn_id) {
                proof {
                    assert(s.contains(conn_id@));
                    let c = conn_index(s, conn_id@);
                    assert(s[c] == s[i as int]);
                }
                return Some(i);
            }
            i = i + 1;
        }
        None
    }

    /// One connection of the broker, if it has any (the first registered
    /// that is still open).
    pub fn get_connection(&self, broker_id: BrokerId) -> (r: Option<Connection>)
        requires
            self.wf(),
        ensures
            match r {
                Some(c) => pool_of(self@, broker_id@).len() > 0 && c@ == pool_of(self@, broker_id@)[0],
                None => pool_of(self@, broker_id@).len() == 0,
            },
    {
        match self.find_pool(broker_id.0.as_str()) {
            Some(i) => {
                let pool = &self.pools[i];
                assert(self@[i as int].1 == pool.conns@.map_values(|c: Connection| c@));
                let c = Connection { conn_id: pool.conns[0].conn_id.clone() };
                assert(c@ == pool.conns@[0]@);
                Some(c)
            },
            None => None,
        }
    }

    /// All connections of the broker.
    pub fn get_connections(&self, broker_id: BrokerId) -> (r: Vec<Connection>)
        requires
            self.wf(),
        ensures
            r@.map_values(|c: Connection| c@) == pool_of(self@, broker_id@),
    {
        match self.find_pool(broker_id.0.as_str()) {
            Some(i) => {
                let pool = &self.pools[i];
                assert(self@[i as int].1 == pool.conns@.map_values(|c: Connection| c@));
                let mut r: Vec<Connection> = Vec::new();
                let mut k: usize = 0;
                while k < pool.conns.len()
                    invariant
                        0 <= k <= pool.conns.len(),
                        r@.len() == k,
                        forall|j: int| 0 <= j < k ==> (#[trigger] r@[j])@ == pool.conns@[j]@,
                    decreases pool.conns.len() - k,
                {
                    let c = Connection { conn_id: pool.conns[k].conn_id.clone() };
                    assert(c@ == pool.conns@[k as int]@);
                    r.push(c);
                    k = k + 1;
                }
                assert(r@.map_values(|c: Connection| c@) =~= pool.conns@.map_values(|c: Connection| c@));
                r
            },
            None => {
                let r: Vec<Connection> = Vec::new();
                assert(r@.map_values(|c: Connection| c@) =~= Seq::<Seq<char>>::empty());
                r
            },
        }
    }

    /// Number of connections of the broker.
    pub fn connection_count(&self, broker_id: BrokerId) -> (r: usize)
        requires
            self.wf(),
        ensures
            r == pool_of(self@, broker_id@).len(),
    {
        match self.find_pool(broker_id.0.as_str()) {
            Some(i) => {
                assert(self@[i as int].1 == self.pools@[i as int].conns@.map_values(|c: Connection| c@));
                self.pools[i].conns.len()
            },
            None => 0,
        }
    }

    /// Store a connection for a broker; one with the same connection ID is
    /// replaced.
    pub fn register_connection(&mut self, broker_id: BrokerId, conn: Connection)
        requires
            old(self).wf(),
        ensures
            final(self).wf(),
            final(self)@ == after_register(old(self)@, broker_id@, conn@),
            final(self).spec_max_attempts() == old(self).spec_max_attempts(),
            final(self).spec_base_ms() == old(self).spec_base_ms(),
    {
        let ghost p = self@;
        let ghost b = broker_id@;
        let ghost c = conn@;
        match self.find_pool(broker_id.0.as_str()) {
            Some(i) => {
                let ghost old_pool = p[i as int].1;
                assert(old_pool == self.pools@[i as int].conns@.map_values(|x: Connection| x@));
                let found = Self::find_conn(&self.pools[i].conns, conn.conn_id.as_str());
                match found {
                    Some(k) => {
                        let ghost before = self.pools@[i as int].conns@;
                        self.pools[i].conns.set(k, conn);
                        proof {
                            let after = self.pools@[i as int].conns@;
                            assert(after.map_values(|x: Connection| x@) =~= before.map_values(
                                |x: Connection| x@,
                            ));
                            assert(self@ =~= p);
                        }
                    },
                    None => {
                        self.pools[i].conns.push(conn);
                        proof {
                            let np = self@[i as int].1;
                            assert(np =~= old_pool.push(c));
                            assert(self@ =~= p.update(i as int, (b, old_pool.push(c))));
                            assert forall|x: int, y: int|
                                0 <= x < np.len() && 0 <= y < np.len() && x != y implies np[x]
                                != np[y] by {
                                if x < old_pool.len() && y < old_pool.len() {
                                } else if x < old_pool.len() {
                                    assert(old_pool.contains(np[x]));
                                } else if y < old_pool.len() {
                                    assert(old_pool.contains(np[y]));
                                }
                            }
                            assert forall|x: int| 0 <= x < self@.len() implies (#[trigger] self@[x]).1.len()
                                > 0 && conn_ids_unique(self@[x].1) by {
                                if x != i {
                                    assert(self@[x] == p[x]);
                                }
                            }
                        }
                    },
                }
            },
            None => {
                let mut conns: Vec<Connection> = Vec::new();
                conns.push(conn);
                self.pools.push(BrokerPool { broker_id: broker_id.0, conns });
                proof {
                    assert(self@[p.len() as int].1 =~= seq![c]);
                    assert(self@ =~= p.push((b, seq![c])));
                    assert forall|x: int| 0 <= x < self@.len() implies (#[trigger] self@[x]).1.len() > 0
                        && conn_ids_unique(self@[x].1) by {
                        if x < p.len() {
                            assert(self@[x] == p[x]);
                        }
                    }
                    assert forall|x: int, y: int|
                        0 <= x < self@.len() && 0 <= y < self@.len() && x != y implies self@[x].0
                        != self@[y].0 by {
                        if x == p.len() {
                            assert(!has_broker(p, b));
                            assert(p[y].0 != b);
                        } else if y == p.len() {
                            assert(p[x].0 != b);
                        }
                    }
                }
            },
        }
    }

    /// Release every connection of a broker.
    pub fn release_connection(&mut self, broker_id: &str)
        requires
            old(self).wf(),
        ensures
            final(self).wf(),
            final(self)@ == after_release(old(self)@, broker_id@),
            final(self).spec_max_attempts() == old(self).spec_max_attempts(),
            final(self).spec_base_ms() == old(self).spec_base_ms(),
    {
        let ghost p = self@;
        match self.find_pool(broker_id) {
            Some(i) => {
                self.pools.remove(i);
                proof {
                    assert(self@ =~= p.remove(i as int));
                    assert forall|x: int| 0 <= x < self@.len() implies (#[trigger] self@[x]).1.len() > 0
                        && conn_ids_unique(self@[x].1) by {
                        let ix = if x < i { x } else { x + 1 };
                        assert(self@[x] == p[ix]);
                    }
                    assert forall|x: int, y: int|
                        0 <= x < self@.len() && 0 <= y < self@.len() && x != y implies self@[x].0
                        != self@[y].0 by {
                        let ix = if x < i { x } else { x + 1 };
                        let iy = if y < i { y } else { y + 1 };
                        assert(self@[x] == p[ix] && self@[y] == p[iy]);
                    }
                }
            },
            None => {},
        }
    }

    /// Release one connection of a broker; the broker's pool is dropped
    /// when it becomes empty.
    pub fn release_connection_by_id(&mut self, broker_id: &str, conn_id: &str)
        requires
            old(self).wf(),
        ensures
            final(self).wf(),
            final(self)@ == after_release_one(old(self)@, broker_id@, conn_id@),
            final(self).spec_max_attempts() == old(self).spec_max_attempts(),
            final(self).spec_base_ms() == old(self).spec_base_ms(),
    {
        let ghost p = self@;
        match self.find_pool(broker_id) {
            Some(i) => {
                let ghost old_pool = p[i as int].1;
                assert(old_pool == self.pools@[i as int].conns@.map_values(|x: Connection| x@));
                match Self::find_conn(&self.pools[i].conns, conn_id) {
                    Some(k) => {
                        self.pools[i].conns.remove(k);
                        let ghost rest = old_pool.remove(k as int);
                        assert(self@[i as int].1 =~= rest);
                        if self.pools[i].conns.len() == 0 {
                            let ghost mid = self@;
                            self.pools.remove(i);
                            proof {
                                assert(self@ =~= p.remove(i as int));
                                assert forall|x: int| 0 <= x < self@.len() implies (#[trigger] self@[x]).1.len()
                                    > 0 && conn_ids_unique(self@[x].1) by {
                                    let ix = if x < i { x } else { x + 1 };
                                    assert(self@[x] == p[ix]);
                                }
                                assert forall|x: int, y: int|
                                    0 <= x < self@.len() && 0 <= y < self@.len() && x != y implies self@[x].0
                                    != self@[y].0 by {
                                    let ix = if x < i { x } else { x + 1 };
                                    let iy = if y < i { y } else { y + 1 };
                                    assert(self@[x] == p[ix] && self@[y] == p[iy]);
                                }
                            }
                        } else {
                            proof {
                                assert(self@ =~= p.update(i as int, (broker_id@, rest)));
                                assert forall|x: int, y: int|
                                    0 <= x < rest.len() && 0 <= y < rest.len() && x != y implies rest[x]
                                    != rest[y] by {
                                    let ix = if x < k { x } else { x + 1 };
                                    let iy = if y < k { y } else { y + 1 };
                                    assert(rest[x] == old_pool[ix] && rest[y] == old_pool[iy]);
                                }
                                assert forall|x: int| 0 <= x < self@.len() implies (#[trigger] self@[x]).1.len()
                                    > 0 && conn_ids_unique(self@[x].1) by {
                                    if x != i {
                                        assert(self@[x] == p[x]);
                                    }
                                }
                            }
                        }
                    },
                    None => {},
                }
            },
            None => {},
        }
    }

    /// Maximum reconnect attempts.
    pub fn max_attempts(&self) -> (r: u32)
        ensures
            r == self.spec_max_attempts(),
    {
        self.max_attempts
    }

    /// The wait (milliseconds) before reconnect attempt `attempt`
    /// (1-based); see [`backoff_delay`].
    pub fn delay_before_attempt(&self, attempt: u32) -> (r: u64)
        ensures
            r == backoff_delay(self.spec_base_ms(), attempt),
    {
        if attempt <= 1 {
            return 0;
        }
        let mut d: u64 = self.base_ms;
        let mut k: u32 = 2;
        assert(pow2(0) == 1);
        assert(self.base_ms * pow2(0) == self.base_ms);
        assert(backoff_delay(self.base_ms, 2) == self.base_ms);
        while k < attempt
            invariant
                2 <= k <= attempt,
                d == backoff_delay(self.base_ms, k),
            decreases attempt - k,
        {
            proof {
                let a = pow2((k - 2) as nat);
                assert(pow2((k + 1 - 2) as nat) == 2 * a);
                let b = self.base_ms as int;
                assert(b * (2 * a) == 2 * (b * a)) by (nonlinear_arith);
            }
            d = if d > u64::MAX / 2 { u64::MAX } else { d * 2 };
            k = k + 1;
        }
        d
    }
}

/// What to do next while reconnecting to a broker.
pub enum ReconnectStep {
    /// Wait this many milliseconds, then make the next attempt.
    RetryAfter(u64),
    /// The attempt succeeded; the connection is registered.
    Connected(Connection),
    /// Every attempt failed: give up with this error.
    GiveUp(String),
}

impl ConnectionManager {
    /// How a reconnection starts: the first attempt is made at once, unless
    /// no attempt is allowed at all.
    pub fn reconnect_start(&self) -> (r: ReconnectStep)
        ensures
            self.spec_max_attempts() >= 1 ==> (r matches ReconnectStep::RetryAfter(d) && d == 0),
            self.spec_max_attempts() == 0 ==> (r matches ReconnectStep::GiveUp(e) && e@ == "no attempts made"@),
    {
        if self.max_attempts >= 1 {
            ReconnectStep::RetryAfter(0)
        } else {
            ReconnectStep::GiveUp(owned("no attempts made"))
        }
    }

    /// Take the outcome of reconnect attempt `attempt` (1-based) to
    /// `broker_id`: a new connection is registered; after a failure the
    /// next attempt waits as the back-off schedule says, and the last
    /// allowed attempt gives up with its error.
    pub fn reconnect_step(&mut self, broker_id: &str, attempt: u32, outcome: Result<Connection, String>) -> (r:
        ReconnectStep)
        requires
            old(self).wf(),
            1 <= attempt <= old(self).spec_max_attempts(),
        ensures
            final(self).wf(),
            final(self).spec_max_attempts() == old(self).spec_max_attempts(),
            final(self).spec_base_ms() == old(self).spec_base_ms(),
            match outcome {
                Ok(c) => {
                    &&& r matches ReconnectStep::Connected(k) && k@ == c@
                    &&& final(self)@ == after_register(old(self)@, broker_id@, c@)
                },
                Err(e) => {
                    &&& final(self)@ == old(self)@
                    &&& if attempt < old(self).spec_max_attempts() {
                        r matches ReconnectStep::RetryAfter(d) && d == backoff_delay(
                            old(self).spec_base_ms(),
                            (attempt + 1) as u32,
                        )
                    } else {
                        r matches ReconnectStep::GiveUp(m) && m@ == e@
                    }
                },
            },
    {
        match outcome {
            Ok(conn) => {
                let kept = Connection { conn_id: conn.conn_id.clone() };
                self.register_connection(BrokerId(owned(broker_id)), conn);
                ReconnectStep::Connected(kept)
            },
            Err(e) => {
                if attempt < self.max_attempts {
                    ReconnectStep::RetryAfter(self.delay_before_attempt(attempt + 1))
                } else {
                    ReconnectStep::GiveUp(e)
                }
            },
        }
    }
}

impl Default for ConnectionManager {
    fn default() -> (m: Self)
        ensures
            m.wf(),
            m@ == Seq::<PoolView>::empty(),
            m.spec_max_attempts() == 5,
            m.spec_base_ms() == 500,
    {
        Self::new(5, 500)
    }
}

/// The reconnect waits follow the back-off schedule: nothing before the
/// first attempt, `base` before the second, and each later wait doubles the
/// one before it, saturating at `u64::MAX`.
pub proof fn law_backoff_doubles(base: u64, attempt: u32)
    requires
        2 <= attempt < u32::MAX,
    ensures
        backoff_delay(base, 1) == 0,
        backoff_delay(base, 2) == base,
        backoff_delay(base, (attempt + 1) as u32) == if 2 * backoff_delay(base, attempt) > u64::MAX {
            u64::MAX
        } else {
            (2 * backoff_delay(base, attempt)) as u64
        },
{
    assert(pow2(0) == 1);
    assert(base * pow2(0) == base);
    let p = pow2((attempt - 2) as nat);
    assert(pow2((attempt + 1 - 2) as nat) == 2 * p);
    let b = base as int;
    assert(b * (2 * p) == 2 * (b * p)) by (nonlinear_arith);
}

/// Brokers of well-formed pools are distinct, so the pool at a position
/// named `b` is `b`'s pool.
proof fn lemma_broker_at(p: Seq<PoolView>, b: Seq<char>, i: int)
    requires
        forall|x: int, y: int| 0 <= x < p.len() && 0 <= y < p.len() && x != y ==> p[x].0 != p[y].0,
        0 <= i < p.len(),
        p[i].0 == b,
    ensures
        has_broker(p, b),
        broker_index(p, b) == i,
{
    assert(has_broker(p, b));
}

/// Releasing a connection removes exactly that connection: afterwards the
/// broker's pool holds every connection it held before except `c`, and the
/// pools of the other brokers are unchanged.
pub proof fn law_release_removes_only_that_connection(p: Seq<PoolView>, b: Seq<char>, c: Seq<char>, x: Seq<char>, b2: Seq<char>)
    requires
        pools_wf(p),
    ensures
        pool_of(after_release_one(p, b, c), b).contains(x) == (x != c && pool_of(p, b).contains(x)),
        b2 != b ==> pool_of(after_release_one(p, b, c), b2) == pool_of(p, b2),
{
    let t = after_release_one(p, b, c);
    if has_broker(p, b) {
        let i = broker_index(p, b);
        let pool = p[i].1;
        assert(pool.len() > 0 && conn_ids_unique(pool));
        if pool.contains(c) {
            let ci = conn_index(pool, c);
            let rest = pool.remove(ci);
            assert forall|y: Seq<char>| rest.contains(y) == (y != c && pool.contains(y)) by {
                if rest.contains(y) {
                    let j = choose|j: int| 0 <= j < rest.len() && rest[j] == y;
                    let jj = if j < ci { j } else { j + 1 };
                    assert(rest[j] == pool[jj]);
                    assert(jj != ci);
                }
                if y != c && pool.contains(y) {
                    let j = choose|j: int| 0 <= j < pool.len() && pool[j] == y;
                    assert(j != ci);
                    let jr = if j < ci { j } else { j - 1 };
                    assert(rest[jr] == pool[j]);
                }
            }
            if rest.len() == 0 {
                assert(t == p.remove(i));
                if has_broker(t, b) {
                    let j = broker_index(t, b);
                    let ij = if j < i { j } else { j + 1 };
                    assert(t[j] == p[ij]);
                }
                assert(!rest.contains(x));
                if has_broker(t, b2) {
                    let j = broker_index(t, b2);
                    let ij = if j < i { j } else { j + 1 };
                    assert(t[j] == p[ij]);
                    lemma_broker_at(p, b2, ij);
                }
                if b2 != b && has_broker(p, b2) {
                    let j = broker_index(p, b2);
                    assert(j != i);
                    let jt = if j < i { j } else { j - 1 };
                    assert(t[jt] == p[j]);
                    assert(has_broker(t, b2));
                }
            } else {
                assert(t == p.update(i, (b, rest)));
                lemma_broker_at(t, b, i);
                if b2 != b {
                    if has_broker(p, b2) {
                        let j = broker_index(p, b2);
                        assert(t[j] == p[j]);
                        lemma_broker_at(t, b2, j);
                    }
                    if has_broker(t, b2) {
                        let j = broker_index(t, b2);
                        assert(t[j] == p[j]);
                    }
                }
            }
        } else {
            assert(t == p);
            assert(!(x == c && pool.contains(x)));
        }
    }
}

/// A registered connection can be found again under its broker.
pub proof fn law_register_then_found(p: Seq<PoolView>, b: Seq<char>, c: Seq<char>)
    requires
        pools_wf(p),
    ensures
        pool_of(after_register(p, b, c), b).contains(c),
{
    let t = after_register(p, b, c);
    if has_broker(p, b) {
        let i = broker_index(p, b);
        if !p[i].1.contains(c) {
            assert(t[i].0 == b);
            assert(has_broker(t, b));
            let j = broker_index(t, b);
            if j != i {
                assert(t[j] == p[j]);
            }
            assert(t[i].1[p[i].1.len() as int] == c);
        }
    } else {
        assert(t[p.len() as int].0 == b);
        assert(has_broker(t, b));
        let j = broker_index(t, b);
        if j != p.len() {
            assert(t[j] == p[j]);
        }
        assert(t[p.len() as int].1[0] == c);
    }
}

/// Releasing a broker's connections leaves it with none.
pub proof fn law_release_empties(p: Seq<PoolView>, b: Seq<char>)
    requires
        pools_wf(p),
    ensures
        pool_of(after_release(p, b), b).len() == 0,
{
    let t = after_release(p, b);
    if has_broker(p, b) {
        let i = broker_index(p, b);
        if has_broker(t, b) {
            let j = broker_index(t, b);
            let ij = if j < i { j } else { j + 1 };
            assert(t[j] == p[ij]);
        }
    }
}

} // verus!
