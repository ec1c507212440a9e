//! Bounded idempotency store with least-recently-used eviction.
//!
//! The store remembers which request keys were already processed, together
//! with the result that was produced for them.  It never holds more entries
//! than its capacity (at least one entry is always kept, so a store made with
//! capacity zero still remembers the last key): once full, recording a new key
//! evicts the entry that was used least recently.  Looking a key up counts as
//! a use.

use vstd::prelude::*;
use crate::text::str_eq;

verus! {

/// Default maximum number of entries in the idempotency store.
pub const DEFAULT_CAPACITY: usize = 100_000;

/// One remembered key and the result recorded for it.
pub struct IdempotencyEntry {
    key: String,
    result: String,
}

/// Abstract content of the store: `(key, result)` pairs ordered from the
/// least recently used (first) to the most recently used (last).
pub type IdemSeq = Seq<(Seq<char>, Seq<char>)>;

/// Bounded idempotency store with LRU eviction.
pub struct IdempotencyStore {
    entries: Vec<IdempotencyEntry>,
    capacity: usize,
}

/// No key occurs twice.
pub open spec fn keys_unique(s: IdemSeq) -> bool {
    forall|i: int, j: int| 0 <= i < s.len() && 0 <= j < s.len() && i != j ==> s[i].0 != s[j].0
}

/// The key `k` is remembered.
pub open spec fn has_key(s: IdemSeq, k: Seq<char>) -> bool {
    exists|i: int| 0 <= i < s.len() && s[i].0 == k
}

/// The position of `k` (meaningful when `has_key(s, k)`).
pub open spec fn key_index(s: IdemSeq, k: Seq<char>) -> int {
    choose|i: int| 0 <= i < s.len() && s[i].0 == k
}

/// The entry at position `i` becomes the most recently used one.
pub open spec fn touch_at(s: IdemSeq, i: int) -> IdemSeq {
    s.remove(i).push(s[i])
}

/// The content after a lookup of `k`: a remembered key becomes the most
/// recently used one, otherwise nothing changes.
pub open spec fn after_lookup(s: IdemSeq, k: Seq<char>) -> IdemSeq {
    if has_key(s, k) {
        touch_at(s, key_index(s, k))
    } else {
        s
    }
}

/// The content after recording `(k, r)` in a store of capacity `cap`:
/// an existing entry for `k` is replaced; otherwise, when the store is full,
/// the least recently used entry is evicted.  The new entry is the most
/// recently used one.
pub open spec fn after_mark(s: IdemSeq, cap: nat, k: Seq<char>, r: Seq<char>) -> IdemSeq {
    if has_key(s, k) {
        s.remove(key_index(s, k)).push((k, r))
    } else if s.len() >= cap && s.len() > 0 {
        s.subrange(1, s.len() as int).push((k, r))
    } else {
        s.push((k, r))
    }
}

/// The largest number of entries a store of capacity `cap` holds.
pub open spec fn size_bound(cap: nat) -> nat {
    if cap == 0 { 1 } else { cap }
}

/// The result remembered for `k`, if any.
pub open spec fn result_for(s: IdemSeq, k: Seq<char>) -> Option<Seq<char>> {
    if has_key(s, k) {
        Some(s[key_index(s, k)].1)
    } else {
        None
    }
}


/// A key that was just recorded is remembered, with the result just recorded.
pub proof fn law_mark_then_lookup(s: IdemSeq, cap: nat, k: Seq<char>, r: Seq<char>)
    requires
        keys_unique(s),
    ensures
        has_key(after_mark(s, cap, k, r), k),
        result_for(after_mark(s, cap, k, r), k) == Some(r),
{
    let t = after_mark(s, cap, k, r);
    let last = t.len() - 1;
    assert(t[last] == (k, r));
    assert forall|a: int, b: int| 0 <= a < t.len() && 0 <= b < t.len() && a != b implies t[a].0
        != t[b].0 by {
        lemma_mark_keys_unique(s, cap, k, r, a, b);
    }
    lemma_unique_index(t, k, last);
}

proof fn lemma_mark_keys_unique(s: IdemSeq, cap: nat, k: Seq<char>, r: Seq<char>, a: int, b: int)
    requires
        keys_unique(s),
        0 <= a < after_mark(s, cap, k, r).len(),
        0 <= b < after_mark(s, cap, k, r).len(),
        a != b,
    ensures
        after_mark(s, cap, k, r)[a].0 != after_mark(s, cap, k, r)[b].0,
{
    let t = after_mark(s, cap, k, r);
    if has_key(s, k) {
        let i = key_index(s, k);
        let m = s.remove(i);
        if a < m.len() {
            let ia = if a < i { a } else { a + 1 };
            assert(t[a] == s[ia]);
        }
        if b < m.len() {
            let ib = if b < i { b } else { b + 1 };
            assert(t[b] == s[ib]);
        }
    } else if s.len() >= cap && s.len() > 0 {
        if a < s.len() - 1 {
            assert(t[a] == s[a + 1]);
        }
        if b < s.len() - 1 {
            assert(t[b] == s[b + 1]);
        }
    } else {
        if a < s.len() {
            assert(t[a] == s[a]);
        }
        if b < s.len() {
            assert(t[b] == s[b]);
        }
    }
}

/// Recording never lets the store grow past its size bound, and recording a
/// key that is already remembered leaves the number of entries unchanged.
pub proof fn law_mark_bounded(s: IdemSeq, cap: nat, k: Seq<char>, r: Seq<char>)
    requires
        keys_unique(s),
        s.len() <= size_bound(cap),
    ensures
        after_mark(s, cap, k, r).len() <= size_bound(cap),
        has_key(s, k) ==> after_mark(s, cap, k, r).len() == s.len(),
        keys_unique(after_mark(s, cap, k, r)),
{
    let t = after_mark(s, cap, k, r);
    assert forall|a: int, b: int| 0 <= a < t.len() && 0 <= b < t.len() && a != b implies t[a].0
        != t[b].0 by {
        lemma_mark_keys_unique(s, cap, k, r, a, b);
    }
}

/// When a full store records a new key, exactly the least recently used
/// entry is evicted: its key is forgotten and every other key is kept.
pub proof fn law_eviction_is_lru(s: IdemSeq, cap: nat, k: Seq<char>, r: Seq<char>)
    requires
        keys_unique(s),
        !has_key(s, k),
        s.len() >= cap,
        s.len() > 0,
    ensures
        !has_key(after_mark(s, cap, k, r), s[0].0),
        forall|j: int| 1 <= j < s.len() ==> has_key(after_mark(s, cap, k, r), #[trigger] s[j].0),
{
    let t = after_mark(s, cap, k, r);
    assert forall|j: int| 1 <= j < s.len() implies has_key(t, #[trigger] s[j].0) by {
        assert(t[j - 1] == s[j]);
    }
    if has_key(t, s[0].0) {
        let w = choose|i: int| 0 <= i < t.len() && t[i].0 == s[0].0;
        if w < t.len() - 1 {
            assert(t[w] == s[w + 1]);
        } else {
            assert(t[w].0 == k);
            assert(has_key(s, k));
        }
    }
}

/// A lookup never changes which keys are remembered, nor their results, nor
/// how many there are.
pub proof fn law_lookup_preserves_content(s: IdemSeq, k: Seq<char>, q: Seq<char>)
    requires
        keys_unique(s),
    ensures
        after_lookup(s, k).len() == s.len(),
        has_key(after_lookup(s, k), q) == has_key(s, q),
        result_for(after_lookup(s, k), q) == result_for(s, q),
        keys_unique(after_lookup(s, k)),
{
    let t = after_lookup(s, k);
    if has_key(s, k) {
        let i = key_index(s, k);
        let m = s.remove(i);
        assert(t.len() == s.len());
        assert forall|a: int| 0 <= a < t.len() implies #[trigger] t[a] == s[if a == t.len() - 1 {
            i
        } else if a < i {
            a
        } else {
            a + 1
        }] by {}
        assert forall|a: int, b: int| 0 <= a < t.len() && 0 <= b < t.len() && a != b implies t[a].0
            != t[b].0 by {
            let ia = if a == t.len() - 1 { i } else if a < i { a } else { a + 1 };
            let ib = if b == t.len() - 1 { i } else if b < i { b } else { b + 1 };
            assert(t[a] == s[ia]);
            assert(t[b] == s[ib]);
        }
        if has_key(s, q) {
            let j = key_index(s, q);
            let jt = if j == i { t.len() - 1 } else if j < i { j } else { j - 1 };
            assert(t[jt] == s[j]);
            lemma_unique_index(t, q, jt);
        }
        if has_key(t, q) {
            let w = choose|a: int| 0 <= a < t.len() && t[a].0 == q;
            let iw = if w == t.len() - 1 { i } else if w < i { w } else { w + 1 };
            assert(t[w] == s[iw]);
            assert(has_key(s, q));
        }
    }
}

/// Across calls, eviction follows use: in a full store holding at least two
/// keys, a key that was just looked up survives the recording of a new key
/// (the entry evicted is another, less recently used one).
pub proof fn law_lookup_protects_from_eviction(s: IdemSeq, cap: nat, q: Seq<char>, k: Seq<char>, r: Seq<char>)
    requires
        keys_unique(s),
        has_key(s, q),
        !has_key(s, k),
        s.len() >= cap,
        s.len() >= 2,
    ensures
        has_key(after_mark(after_lookup(s, q), cap, k, r), q),
        result_for(after_mark(after_lookup(s, q), cap, k, r), q) == result_for(s, q),
{
    let t = after_lookup(s, q);
    law_lookup_preserves_content(s, q, k);
    law_lookup_preserves_content(s, q, q);
    let i = key_index(s, q);
    let last = t.len() - 1;
    assert(t[last] == s[i]);
    law_eviction_is_lru(t, cap, k, r);
    assert(has_key(after_mark(t, cap, k, r), t[last].0));
    let u = after_mark(t, cap, k, r);
    assert(u[last - 1] == t[last]);
    assert forall|a: int, b: int| 0 <= a < u.len() && 0 <= b < u.len() && a != b implies u[a].0
        != u[b].0 by {
        lemma_mark_keys_unique(t, cap, k, r, a, b);
    }
    lemma_unique_index(u, q, last - 1);
    lemma_unique_index(t, q, last);
}

/// Below capacity nothing is evicted: recording a new key in a store that
/// is not full adds one entry and keeps every key (so after `clear`, the
/// next `capacity` distinct keys are all kept).
pub proof fn law_mark_below_capacity_keeps_all(s: IdemSeq, cap: nat, k: Seq<char>, r: Seq<char>, q: Seq<char>)
    requires
        keys_unique(s),
        !has_key(s, k),
        s.len() < cap,
    ensures
        after_mark(s, cap, k, r).len() == s.len() + 1,
        has_key(s, q) ==> has_key(after_mark(s, cap, k, r), q),
        has_key(after_mark(s, cap, k, r), k),
{
    let t = after_mark(s, cap, k, r);
    if has_key(s, q) {
        let i = key_index(s, q);
        assert(t[i] == s[i]);
    }
    assert(t[t.len() - 1].0 == k);
}

impl View for IdempotencyStore {
    type V = IdemSeq;

    closed spec fn view(&self) -> IdemSeq {
        self.entries@.map_values(|e: IdempotencyEntry| (e.key@, e.result@))
    }
}

proof fn lemma_unique_index(s: IdemSeq, k: Seq<char>, i: int)
    requires
        keys_unique(s),
        0 <= i < s.len(),
        s[i].0 == k,
    ensures
        has_key(s, k),
        key_index(s, k) == i,
{
    assert(has_key(s, k));
}

impl IdempotencyStore {
    /// The store's invariant: keys are unique and the size bound holds.
    pub closed spec fn wf(&self) -> bool {
        &&& keys_unique(self@)
        &&& self@.len() <= size_bound(self.capacity as nat)
    }

    /// The remembered keys of a well-formed store are distinct.
    pub proof fn lemma_keys_unique(&self)
        requires
            self.wf(),
        ensures
            keys_unique(self@),
    {
    }

    /// The configured capacity.
    pub closed spec fn spec_capacity(&self) -> nat {
        self.capacity as nat
    }

    /// A well-formed store never holds more entries than its size bound:
    /// its capacity, or one entry for a store made with capacity zero.
    pub proof fn lemma_size_bounded(&self)
        requires
            self.wf(),
        ensures
            self@.len() <= size_bound(self.spec_capacity()),
            self.spec_capacity() >= 1 ==> self@.len() <= self.spec_capacity(),
    {
    }

    /// Create a new idempotency store with the default capacity.
    pub fn new() -> (s: Self)
        ensures
            s.wf(),
            s@ == Seq::<(Seq<char>, Seq<char>)>::empty(),
            s.spec_capacity() == DEFAULT_CAPACITY,
    {
        Self::with_capacity(DEFAULT_CAPACITY)
    }

    /// Create a new idempotency store with a specific capacity.
    pub fn with_capacity(capacity: usize) -> (s: Self)
        ensures
            s.wf(),
            s@ == Seq::<(Seq<char>, Seq<char>)>::empty(),
            s.spec_capacity() == capacity,
    {
        let s = IdempotencyStore { entries: Vec::new(), capacity };
        assert(s@ =~= Seq::<(Seq<char>, Seq<char>)>::empty());
        s
    }

    /// Position of `key` among the entries.
    fn find(&self, key: &str) -> (r: Option<usize>)
        requires
            self.wf(),
        ensures
            match r {
                Some(i) => i < self@.len() && self@[i as int].0 == key@ && key_index(self@, key@)
                    == i && has_key(self@, key@),
                None => !has_key(self@, key@),
            },
    {
        let mut i: usize = 0;
        while i < self.entries.len()
            invariant
                self.wf(),
                0 <= i <= self.entries.len(),
                self@.len() == self.entries.len(),
                forall|j: int| 0 <= j < i ==> self@[j].0 != key@,
            decreases self.entries.len() - i,
        {
            assert(self@[i as int].0 == self.entries@[i as int].key@);
            if str_eq(self.entries[i].key.as_str(), key) {
                proof {
                    lemma_unique_index(self@, key@, i as int);
                }
                return Some(i);
            }
            i = i + 1;
        }
        None
    }

    /// Move the entry at `i` to the most recently used position.
    fn touch(&mut self, i: usize)
        requires
            old(self).wf(),
            i < old(self)@.len(),
        ensures
            final(self).wf(),
            final(self)@ == touch_at(old(self)@, i as int),
            final(self).capacity == old(self).capacity,
    {
        let ghost s = self@;
        let e = self.entries.remove(i);
        self.entries.push(e);
        assert(self@ =~= touch_at(s, i as int));
        assert forall|a: int, b: int|
            0 <= a < self@.len() && 0 <= b < self@.len() && a != b implies self@[a].0
            != self@[b].0 by {
            let ia = if a == s.len() - 1 { i as int } else if a < i { a } else { a + 1 };
            let ib = if b == s.len() - 1 { i as int } else if b < i { b } else { b + 1 };
            assert(self@[a] == s[ia]);
            assert(self@[b] == s[ib]);
        }
    }

    /// Check if a key has been processed; a remembered key becomes the most
    /// recently used one.
    pub fn is_processed(&mut self, key: &str) -> (r: bool)
        requires
            old(self).wf(),
        ensures
            final(self).wf(),
            r == has_key(old(self)@, key@),
            final(self)@ == after_lookup(old(self)@, key@),
            final(self).spec_capacity() == old(self).spec_capacity(),
    {
        match self.find(key) {
            Some(i) => {
                self.touch(i);
                true
            },
            None => false,
        }
    }

    /// Record `key` as processed with `result`.  An existing entry for the
    /// key is replaced; otherwise, at capacity, the least recently used entry
    /// is evicted first.
    pub fn mark_processed(&mut self, key: String, result: String)
        requires
            old(self).wf(),
        ensures
            final(self).wf(),
            final(self)@ == after_mark(
                old(self)@,
                old(self).spec_capacity(),
                key@,
                result@,
            ),
            final(self).spec_capacity() == old(self).spec_capacity(),
    {
        let ghost s = self@;
        let ghost k = key@;
        let ghost r = result@;
        let found = self.find(key.as_str());
        let new_entry = IdempotencyEntry { key, result };
        match found {
            Some(i) => {
                self.entries.remove(i);
                let ghost mid = self@;
                assert(mid =~= s.remove(i as int));
                self.entries.push(new_entry);
                assert(self@ =~= mid.push((k, r)));
                assert forall|a: int, b: int|
                    0 <= a < self@.len() && 0 <= b < self@.len() && a != b implies self@[a].0
                    != self@[b].0 by {
                    if a < mid.len() {
                        let ia = if a < i { a } else { a + 1 };
                        assert(self@[a] == s[ia]);
                    }
                    if b < mid.len() {
                        let ib = if b < i { b } else { b + 1 };
                        assert(self@[b] == s[ib]);
                    }
                }
            },
            None => {
                if self.entries.len() >= self.capacity && self.entries.len() > 0 {
                    self.entries.remove(0);
                    assert(self@ =~= s.subrange(1, s.len() as int));
                }
                let ghost mid = self@;
                self.entries.push(new_entry);
                assert(self@ =~= mid.push((k, r)));
                assert forall|a: int, b: int|
                    0 <= a < self@.len() && 0 <= b < self@.len() && a != b implies self@[a].0
                    != self@[b].0 by {
                    if a < mid.len() && b < mid.len() {
                        if mid.len() < s.len() {
                            assert(self@[a] == s[a + 1]);
                            assert(self@[b] == s[b + 1]);
                        } else {
                            assert(self@[a] == s[a]);
                            assert(self@[b] == s[b]);
                        }
                    } else if a < mid.len() {
                        if mid.len() < s.len() {
                            assert(self@[a] == s[a + 1]);
                        } else {
                            assert(self@[a] == s[a]);
                        }
                    } else if b < mid.len() {
                        if mid.len() < s.len() {
                            assert(self@[b] == s[b + 1]);
                        } else {
                            assert(self@[b] == s[b]);
                        }
                    }
                }
            },
        }
    }

    /// The result recorded for `key`, if any; a remembered key becomes the
    /// most recently used one.
    pub fn get_result(&mut self, key: &str) -> (r: Option<String>)
        requires
            old(self).wf(),
        ensures
            final(self).wf(),
            match r {
                Some(v) => result_for(old(self)@, key@) == Some(v@),
                None => result_for(old(self)@, key@) is None,
            },
            final(self)@ == after_lookup(old(self)@, key@),
            final(self).spec_capacity() == old(self).spec_capacity(),
    {
        match self.find(key) {
            Some(i) => {
                let v = self.entries[i].result.clone();
                assert(v@ == self@[i as int].1);
                self.touch(i);
                Some(v)
            },
            None => None,
        }
    }

    /// Number of entries in the store.
    pub fn len(&self) -> (r: usize)
        ensures
            r == self@.len(),
    {
        self.entries.len()
    }

    /// Whether the store is empty.
    pub fn is_empty(&self) -> (r: bool)
        ensures
            r == (self@.len() == 0),
    {
        self.entries.len() == 0
    }

    /// The configured capacity of the store.
    pub fn capacity(&self) -> (r: usize)
        ensures
            r == self.spec_capacity(),
    {
        self.capacity
    }

    /// Forget every entry.
    pub fn clear(&mut self)
        ensures
            final(self).wf(),
            final(self)@ == Seq::<(Seq<char>, Seq<char>)>::empty(),
            final(self).spec_capacity() == old(self).spec_capacity(),
    {
        self.entries.clear();
        assert(self@ =~= Seq::<(Seq<char>, Seq<char>)>::empty());
    }
}

impl Default for IdempotencyStore {
    fn default() -> (s: Self)
        ensures
            s.wf(),
            s@ == Seq::<(Seq<char>, Seq<char>)>::empty(),
            s.spec_capacity() == DEFAULT_CAPACITY,
    {
        Self::new()
    }
}

} // verus!
