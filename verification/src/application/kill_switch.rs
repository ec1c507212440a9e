//! Kill switch that stops new orders and knows which open orders must be
//! cancelled when it is activated.
//!
//! When the kill switch is activated it must block all new orders and have
//! every tracked open order cancelled.  This type holds the decision state;
//! delivering the cancels (callback or channel) is the caller's part.

use vstd::prelude::*;
use crate::domain::order::ExecutionId;
use crate::text::{owned, str_eq};

verus! {

/// The kill switch: an on/off flag and the set of tracked open orders.
pub struct KillSwitch {
    enabled: bool,
    open_orders: Vec<String>,
}

/// No execution ID is tracked twice.
pub open spec fn ids_unique(s: Seq<Seq<char>>) -> bool {
    forall|i: int, j: int| 0 <= i < s.len() && 0 <= j < s.len() && i != j ==> s[i] != s[j]
}

impl KillSwitch {
    /// Whether the kill switch is active.
    pub closed spec fn spec_enabled(&self) -> bool {
        self.enabled
    }

    /// The tracked open orders, in the order they were tracked.
    pub closed spec fn spec_orders(&self) -> Seq<Seq<char>> {
        self.open_orders@.map_values(|s: String| s@)
    }

    /// The invariant: no order is tracked twice.
    pub closed spec fn wf(&self) -> bool {
        ids_unique(self.spec_orders())
    }

    /// A disabled kill switch tracking no orders.
    pub fn new() -> (k: Self)
        ensures
            k.wf(),
            !k.spec_enabled(),
            k.spec_orders() == Seq::<Seq<char>>::empty(),
    {
        let k = KillSwitch { enabled: false, open_orders: Vec::new() };
        assert(k.spec_orders() =~= Seq::<Seq<char>>::empty());
        k
    }

    /// Whether the kill switch is active.
    pub fn is_enabled(&self) -> (r: bool)
        ensures
            r == self.spec_enabled(),
    {
        self.enabled
    }

    /// Activate the kill switch.  Returns the number of tracked open
    /// orders, which are the ones to cancel (see [`Self::get_open_orders`]);
    /// when the switch was already active it stays so and the same count is
    /// returned.
    pub fn enable(&mut self) -> (count: usize)
        ensures
            final(self).spec_enabled(),
            final(self).spec_orders() == old(self).spec_orders(),
            count == old(self).spec_orders().len(),
            old(self).wf() ==> final(self).wf(),
    {
        self.enabled = true;
        self.open_orders.len()
    }


    /// Enable the kill switch and say which orders must now be cancelled:
    /// every open order when the switch was off, none when it was already
    /// on (their cancellation was requested when it was turned on).  Also
    /// returns the number of open orders.
    pub fn enable_with_cancellations(&mut self) -> (r: (usize, Vec<ExecutionId>))
        requires
            old(self).wf(),
        ensures
            final(self).wf(),
            final(self).spec_enabled(),
            final(self).spec_orders() == old(self).spec_orders(),
            r.0 == old(self).spec_orders().len(),
            r.1@.map_values(|e: ExecutionId| e@) == cancellations_on_enable(
                old(self).spec_enabled(),
                old(self).spec_orders(),
            ),
    {
        let was_enabled = self.enabled;
        let to_cancel = if was_enabled {
            Vec::new()
        } else {
            self.get_open_orders()
        };
        let count = self.enable();
        assert(to_cancel@.map_values(|e: ExecutionId| e@) =~= cancellations_on_enable(
            was_enabled,
            self.spec_orders(),
        ));
        (count, to_cancel)
    }
    /// Deactivate the kill switch; new orders flow again.
    pub fn disable(&mut self)
        ensures
            !final(self).spec_enabled(),
            final(self).spec_orders() == old(self).spec_orders(),
            old(self).wf() ==> final(self).wf(),
    {
        self.enabled = false;
    }

    fn position(&self, id: &str) -> (r: Option<usize>)
        requires
            self.wf(),
        ensures
            match r {
                Some(i) => i < self.spec_orders().len() && self.spec_orders()[i as int] == id@,
                None => !self.spec_orders().contains(id@),
            },
    {
        let mut i: usize = 0;
        while i < self.open_orders.len()
            invariant
                0 <= i <= self.open_orders.len(),
                self.spec_orders().len() == self.open_orders.len(),
                forall|j: int| 0 <= j < i ==> self.spec_orders()[j] != id@,
            decreases self.open_orders.len() - i,
        {
            assert(self.spec_orders()[i as int] == self.open_orders@[i as int]@);
            if str_eq(self.open_orders[i].as_str(), id) {
                return Some(i);
            }
            i = i + 1;
        }
        None
    }

    /// Track an open order.  Returns `true` if it was newly added, `false`
    /// if it was already tracked.
    pub fn track_open_order(&mut self, execution_id: &ExecutionId) -> (added: bool)
        requires
            old(self).wf(),
        ensures
            final(self).wf(),
            final(self).spec_enabled() == old(self).spec_enabled(),
            added == !old(self).spec_orders().contains(execution_id@),
            final(self).spec_orders() == if added {
                old(self).spec_orders().push(execution_id@)
            } else {
                old(self).spec_orders()
            },
    {
        let ghost s = self.spec_orders();
        match self.position(execution_id.0.as_str()) {
            Some(i) => {
                assert(s[i as int] == execution_id@);
                false
            },
            None => {
                self.open_orders.push(owned(execution_id.0.as_str()));
                assert(self.spec_orders() =~= s.push(execution_id@));
                assert forall|a: int, b: int|
                    0 <= a < self.spec_orders().len() && 0 <= b < self.spec_orders().len() && a
                        != b implies self.spec_orders()[a] != self.spec_orders()[b] by {
                    if a < s.len() && b < s.len() {
                    } else if a < s.len() {
                        assert(s.contains(s[a]));
                    } else if b < s.len() {
                        assert(s.contains(s[b]));
                    }
                }
                true
            },
        }
    }

    /// Stop tracking an order (filled or cancelled).  Returns `true` if it
    /// was tracked.
    pub fn remove_open_order(&mut self, execution_id: &ExecutionId) -> (removed: bool)
        requires
            old(self).wf(),
        ensures
            final(self).wf(),
            final(self).spec_enabled() == old(self).spec_enabled(),
            removed == old(self).spec_orders().contains(execution_id@),
            !final(self).spec_orders().contains(execution_id@),
            final(self).spec_orders().len() == old(self).spec_orders().len() - if removed {
                1int
            } else {
                0int
            },
            forall|x: Seq<char>|
                x != execution_id@ ==> (#[trigger] final(self).spec_orders().contains(x)
                    == old(self).spec_orders().contains(x)),
    {
        let ghost s = self.spec_orders();
        match self.position(execution_id.0.as_str()) {
            Some(i) => {
                self.open_orders.remove(i);
                let ghost t = self.spec_orders();
                assert(t =~= s.remove(i as int));
                assert forall|a: int, b: int|
                    0 <= a < t.len() && 0 <= b < t.len() && a != b implies t[a] != t[b] by {
                    let ia = if a < i { a } else { a + 1 };
                    let ib = if b < i { b } else { b + 1 };
                    assert(t[a] == s[ia] && t[b] == s[ib]);
                }
                assert forall|x: Seq<char>| x != execution_id@ implies #[trigger] t.contains(x)
                    == s.contains(x) by {
                    if s.contains(x) {
                        let k = choose|k: int| 0 <= k < s.len() && s[k] == x;
                        assert(k != i);
                        let kt = if k < i { k } else { k - 1 };
                        assert(t[kt] == x);
                    }
                    if t.contains(x) {
                        let k = choose|k: int| 0 <= k < t.len() && t[k] == x;
                        let ks = if k < i { k } else { k + 1 };
                        assert(s[ks] == x);
                    }
                }
                proof {
                    if t.contains(execution_id@) {
                        let k = choose|k: int| 0 <= k < t.len() && t[k] == execution_id@;
                        let ks = if k < i { k } else { k + 1 };
                        assert(s[ks] == s[i as int]);
                    }
                }
                true
            },
            None => false,
        }
    }

    /// Number of tracked open orders.
    pub fn open_order_count(&self) -> (r: usize)
        ensures
            r == self.spec_orders().len(),
    {
        self.open_orders.len()
    }

    /// All tracked open orders.
    pub fn get_open_orders(&self) -> (r: Vec<ExecutionId>)
        ensures
            r@.len() == self.spec_orders().len(),
            forall|i: int| 0 <= i < r@.len() ==> (#[trigger] r@[i])@ == self.spec_orders()[i],
    {
        let mut r: Vec<ExecutionId> = Vec::new();
        let mut i: usize = 0;
        while i < self.open_orders.len()
            invariant
                0 <= i <= self.open_orders.len(),
                self.spec_orders().len() == self.open_orders.len(),
                r@.len() == i,
                forall|j: int| 0 <= j < i ==> (#[trigger] r@[j])@ == self.spec_orders()[j],
            decreases self.open_orders.len() - i,
        {
            assert(self.spec_orders()[i as int] == self.open_orders@[i as int]@);
            r.push(ExecutionId(owned(self.open_orders[i].as_str())));
            i = i + 1;
        }
        r
    }

    /// Whether an order is tracked.
    pub fn is_order_tracked(&self, execution_id: &ExecutionId) -> (r: bool)
        requires
            self.wf(),
        ensures
            r == self.spec_orders().contains(execution_id@),
    {
        match self.position(execution_id.0.as_str()) {
            Some(i) => {
                assert(self.spec_orders()[i as int] == execution_id@);
                true
            },
            None => false,
        }
    }
}

impl Default for KillSwitch {
    fn default() -> (k: Self)
        ensures
            k.wf(),
            !k.spec_enabled(),
            k.spec_orders() == Seq::<Seq<char>>::empty(),
    {
        Self::new()
    }
}

/// The orders whose cancellation is requested when the kill switch is
/// turned on: every open order when it was off, none when it was already on.
pub open spec fn cancellations_on_enable(enabled: bool, orders: Seq<Seq<char>>) -> Seq<Seq<char>> {
    if enabled {
        Seq::empty()
    } else {
        orders
    }
}

/// Turning the kill switch on requests the cancellation of every open
/// order, and turning it on again requests nothing more: the open orders
/// are cancelled once.
pub proof fn law_enable_cancels_once(orders: Seq<Seq<char>>)
    ensures
        cancellations_on_enable(false, orders) == orders,
        cancellations_on_enable(true, orders).len() == 0,
{
}

/// Tracking an order and then removing it leaves the same set of tracked
/// orders as before when it was not tracked: the removal undoes the
/// tracking.
pub proof fn law_track_then_remove(s: Seq<Seq<char>>, id: Seq<char>, x: Seq<char>)
    requires
        !s.contains(id),
        x != id,
    ensures
        s.push(id).contains(id),
        s.push(id).contains(x) == s.contains(x),
{
    assert(s.push(id)[s.len() as int] == id);
    if s.push(id).contains(x) {
        let k = choose|k: int| 0 <= k < s.push(id).len() && s.push(id)[k] == x;
        assert(k < s.len());
        assert(s[k] == x);
    }
    if s.contains(x) {
        let k = choose|k: int| 0 <= k < s.len() && s[k] == x;
        assert(s.push(id)[k] == x);
    }
}

} // verus!
