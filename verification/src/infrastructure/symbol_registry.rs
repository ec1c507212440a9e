//! Fixed-capacity symbol registry: symbols get compact integer IDs, in the
//! order they are registered, so that per-symbol data can live in arrays
//! indexed by ID instead of maps keyed by text.

use vstd::prelude::*;
use crate::text::{decimal, decimal_string, owned, str_eq};

verus! {

/// Maximum number of symbols that can be registered.
pub const MAX_SYMBOLS: usize = 10_000;

/// A compact identifier for a symbol.
#[derive(Debug, Clone, Copy, PartialEq, Eq, Hash, Structural)]
pub struct SymbolId(u16);

impl SymbolId {
    /// The raw value.
    pub closed spec fn raw(self) -> u16 {
        self.0
    }

    /// A SymbolId from a raw value; meant for values below `MAX_SYMBOLS`.
    pub fn from_raw(id: u16) -> (r: Self)
        ensures
            r.raw() == id,
    {
        SymbolId(id)
    }

    /// The raw value.
    pub fn as_u16(&self) -> (r: u16)
        ensures
            r == self.raw(),
    {
        self.0
    }

    /// The index into arrays sized by `MAX_SYMBOLS`.
    pub fn as_usize(&self) -> (r: usize)
        ensures
            r == self.raw(),
    {
        self.0 as usize
    }

    /// The text `SymbolId(<raw>)`.
    pub fn to_string(&self) -> (r: String)
        ensures
            r@ == "SymbolId("@ + decimal(self.raw() as nat) + ")"@,
    {
        let mut r = owned("SymbolId(");
        let n = decimal_string(self.0 as u64);
        r.append(n.as_str());
        r.append(")");
        r
    }
}

/// Registry mapping symbols to compact IDs: the ID of a symbol is its
/// position in registration order.
pub struct SymbolRegistry {
    symbols: Vec<String>,
}

/// No symbol occurs twice.
pub open spec fn symbols_unique(s: Seq<Seq<char>>) -> bool {
    forall|i: int, j: int| 0 <= i < s.len() && 0 <= j < s.len() && i != j ==> s[i] != s[j]
}

/// The position of `sym` in `s` (meaningful when `s.contains(sym)`).
pub open spec fn symbol_index(s: Seq<Seq<char>>, sym: Seq<char>) -> int {
    choose|i: int| 0 <= i < s.len() && s[i] == sym
}

impl View for SymbolRegistry {
    type V = Seq<Seq<char>>;

    closed spec fn view(&self) -> Seq<Seq<char>> {
        self.symbols@.map_values(|s: String| s@)
    }
}

impl SymbolRegistry {
    /// The invariant: symbols are unique and at most `MAX_SYMBOLS`.
    pub closed spec fn wf(&self) -> bool {
        &&& symbols_unique(self@)
        &&& self@.len() <= MAX_SYMBOLS
    }

    /// An empty registry.
    pub fn new() -> (r: Self)
        ensures
            r.wf(),
            r@ == Seq::<Seq<char>>::empty(),
    {
        let r = SymbolRegistry { symbols: Vec::new() };
        assert(r@ =~= Seq::<Seq<char>>::empty());
        r
    }

    fn position(&self, symbol: &str) -> (r: Option<usize>)
        requires
            self.wf(),
        ensures
            match r {
                Some(i) => i < self@.len() && self@[i as int] == symbol@ && symbol_index(
                    self@,
                    symbol@,
                ) == i && self@.contains(symbol@),
                None => !self@.contains(symbol@),
            },
    {
        let mut i: usize = 0;
        while i < self.symbols.len()
            invariant
                0 <= i <= self.symbols.len(),
                self@.len() == self.symbols.len(),
                self.wf(),
                forall|j: int| 0 <= j < i ==> self@[j] != symbol@,
            decreases self.symbols.len() - i,
        {
            assert(self@[i as int] == self.symbols@[i as int]@);
            if str_eq(self.symbols[i].as_str(), symbol) {
                proof {
                    assert(self@.contains(symbol@));
                    let c = symbol_index(self@, symbol@);
                    assert(self@[c] == self@[i as int]);
                }
                return Some(i);
            }
            i = i + 1;
        }
        None
    }

    /// Register a symbol and return its ID: the existing ID when already
    /// registered, otherwise the next free one.  A full registry cannot
    /// take a new symbol.
    pub fn register(&mut self, symbol: &str) -> (id: SymbolId)
        requires
            old(self).wf(),
            old(self)@.contains(symbol@) || old(self)@.len() < MAX_SYMBOLS,
        ensures
            final(self).wf(),
            final(self)@ == if old(self)@.contains(symbol@) {
                old(self)@
            } else {
                old(self)@.push(symbol@)
            },
            id.raw() == symbol_index(final(self)@, symbol@),
            final(self)@[id.raw() as int] == symbol@,
    {
        let ghost s = self@;
        match self.position(symbol) {
            Some(i) => SymbolId(i as u16),
            None => {
                let n = self.symbols.len();
                self.symbols.push(owned(symbol));
                proof {
                    assert(self@ =~= s.push(symbol@));
                    assert forall|a: int, b: int|
                        0 <= a < self@.len() && 0 <= b < self@.len() && a != b implies self@[a]
                        != self@[b] by {
                        if a < s.len() && b < s.len() {
                        } else if a < s.len() {
                            assert(s.contains(s[a]));
                        } else if b < s.len() {
                            assert(s.contains(s[b]));
                        }
                    }
                    assert(self@[n as int] == symbol@);
                    let c = symbol_index(self@, symbol@);
                    assert(self@.contains(symbol@));
                    assert(self@[c] == self@[n as int]);
                }
                SymbolId(n as u16)
            },
        }
    }

    /// The ID of a registered symbol.
    pub fn lookup(&self, symbol: &str) -> (r: Option<SymbolId>)
        requires
            self.wf(),
        ensures
            match r {
                Some(id) => self@.contains(symbol@) && id.raw() == symbol_index(self@, symbol@),
                None => !self@.contains(symbol@),
            },
    {
        match self.position(symbol) {
            Some(i) => Some(SymbolId(i as u16)),
            None => None,
        }
    }

    /// The symbol registered under `id`.
    pub fn get_symbol(&self, id: SymbolId) -> (r: Option<&str>)
        requires
            self.wf(),
        ensures
            match r {
                Some(s) => id.raw() < self@.len() && s@ == self@[id.raw() as int],
                None => id.raw() >= self@.len(),
            },
    {
        let i = id.0 as usize;
        if i < self.symbols.len() {
            assert(self@[i as int] == self.symbols@[i as int]@);
            Some(self.symbols[i].as_str())
        } else {
            None
        }
    }

    /// Whether a symbol is registered.
    pub fn contains(&self, symbol: &str) -> (r: bool)
        requires
            self.wf(),
        ensures
            r == self@.contains(symbol@),
    {
        self.position(symbol).is_some()
    }

    /// Number of registered symbols.
    pub fn len(&self) -> (r: usize)
        ensures
            r == self@.len(),
    {
        self.symbols.len()
    }

    /// Whether no symbol is registered.
    pub fn is_empty(&self) -> (r: bool)
        ensures
            r == (self@.len() == 0),
    {
        self.symbols.len() == 0
    }

    /// Whether the registry has reached capacity.
    pub fn is_full(&self) -> (r: bool)
        ensures
            r == (self@.len() >= MAX_SYMBOLS),
    {
        self.symbols.len() >= MAX_SYMBOLS
    }

    /// Forget every registration; IDs are handed out from 0 again.
    pub fn clear(&mut self)
        ensures
            final(self).wf(),
            final(self)@ == Seq::<Seq<char>>::empty(),
    {
        self.symbols.clear();
        assert(self@ =~= Seq::<Seq<char>>::empty());
    }

    /// A summary in the form
    /// `SymbolRegistry { registered_count: <n>, capacity: 10000, is_full: <bool> }`.
    pub fn debug_string(&self) -> (r: String)
        ensures
            r@ == "SymbolRegistry { registered_count: "@ + decimal(self@.len()) + ", capacity: "@
                + decimal(MAX_SYMBOLS as nat) + ", is_full: "@ + (if self@.len() >= MAX_SYMBOLS {
                "true"@
            } else {
                "false"@
            }) + " }"@,
    {
        let mut r = owned("SymbolRegistry { registered_count: ");
        let n = decimal_string(self.symbols.len() as u64);
        r.append(n.as_str());
        r.append(", capacity: ");
        let c = decimal_string(MAX_SYMBOLS as u64);
        r.append(c.as_str());
        r.append(", is_full: ");
        if self.symbols.len() >= MAX_SYMBOLS {
            r.append("true");
        } else {
            r.append("false");
        }
        r.append(" }");
        r
    }
}

impl Default for SymbolRegistry {
    fn default() -> (r: Self)
        ensures
            r.wf(),
            r@ == Seq::<Seq<char>>::empty(),
    {
        Self::new()
    }
}

/// Registering a symbol twice gives the same ID and registers nothing new;
/// a registered symbol is found again under its ID.
pub proof fn law_register_idempotent(s: Seq<Seq<char>>, sym: Seq<char>)
    requires
        symbols_unique(s),
        s.contains(sym),
    ensures
        s[symbol_index(s, sym)] == sym,
        0 <= symbol_index(s, sym) < s.len(),
{
}

/// A new symbol gets the next ID, and the IDs of earlier symbols do not
/// change.
pub proof fn law_new_symbol_next_id(s: Seq<Seq<char>>, sym: Seq<char>, other: Seq<char>)
    requires
        symbols_unique(s),
        !s.contains(sym),
        s.contains(other),
    ensures
        symbol_index(s.push(sym), sym) == s.len(),
        symbol_index(s.push(sym), other) == symbol_index(s, other),
{
    let t = s.push(sym);
    assert(t[s.len() as int] == sym);
    assert(t.contains(sym));
    let c = symbol_index(t, sym);
    if c < s.len() {
        assert(s[c] == sym);
        assert(s.contains(sym));
    }
    let i = symbol_index(s, other);
    assert(t[i] == other);
    assert(t.contains(other));
    let j = symbol_index(t, other);
    if j == s.len() {
        assert(other == sym);
    } else {
        assert(s[j] == other);
    }
}

/// A fixed-capacity array indexed by [`SymbolId`]: `MAX_SYMBOLS` slots,
/// each empty or holding a value.
pub struct SymbolIdArray<T> {
    data: Vec<Option<T>>,
}

impl<T> View for SymbolIdArray<T> {
    type V = Seq<Option<T>>;

    closed spec fn view(&self) -> Seq<Option<T>> {
        self.data@
    }
}

impl<T: Default> SymbolIdArray<T> {
    /// An array with every slot empty.
    pub fn new() -> (a: Self)
        ensures
            a@.len() == MAX_SYMBOLS,
            forall|i: int| 0 <= i < MAX_SYMBOLS ==> a@[i] is None,
    {
        let mut data: Vec<Option<T>> = Vec::new();
        let mut i: usize = 0;
        while i < MAX_SYMBOLS
            invariant
                0 <= i <= MAX_SYMBOLS,
                data@.len() == i,
                forall|j: int| 0 <= j < i ==> data@[j] is None,
            decreases MAX_SYMBOLS - i,
        {
            data.push(None);
            i = i + 1;
        }
        SymbolIdArray { data }
    }

    /// Put `value` in the slot of `id` (ignored when `id` is out of range).
    pub fn insert(&mut self, id: SymbolId, value: T)
        ensures
            final(self)@ == if id.raw() < old(self)@.len() {
                old(self)@.update(id.raw() as int, Some(value))
            } else {
                old(self)@
            },
    {
        let idx = id.0 as usize;
        if idx < self.data.len() {
            self.data.set(idx, Some(value));
        }
    }

    /// The value in the slot of `id`, if any.
    pub fn get(&self, id: SymbolId) -> (r: Option<&T>)
        ensures
            r == if id.raw() < self@.len() {
                match self@[id.raw() as int] {
                    Some(v) => Some(&v),
                    None => None,
                }
            } else {
                None::<&T>
            },
    {
        let idx = id.0 as usize;
        if idx < self.data.len() {
            match &self.data[idx] {
                Some(v) => Some(v),
                None => None,
            }
        } else {
            None
        }
    }

    /// Mutable access to the slot of `id`; an empty slot is first filled
    /// with `T::default()`.  `None` when `id` is out of range.
    pub fn get_mut(&mut self, id: SymbolId) -> (r: Option<&mut T>)
        ensures
            id.raw() < old(self)@.len() ==> {
                &&& r is Some
                &&& old(self)@[id.raw() as int] is Some ==> *r->0 == old(self)@[id.raw() as int]->0
                &&& old(self)@[id.raw() as int] is None ==> call_ensures(T::default, (), *r->0)
                &&& final(self)@ == old(self)@.update(id.raw() as int, Some(*final(r->0)))
            },
            id.raw() >= old(self)@.len() ==> r is None && final(self)@ == old(self)@,
    {
        let idx = id.0 as usize;
        if idx < self.data.len() {
            if self.data[idx].is_none() {
                let d = T::default();
                self.data.set(idx, Some(d));
            }
            self.data[idx].as_mut()
        } else {
            None
        }
    }

    /// Empty the slot of `id`, returning what it held.
    pub fn remove(&mut self, id: SymbolId) -> (r: Option<T>)
        ensures
            r == if id.raw() < old(self)@.len() {
                old(self)@[id.raw() as int]
            } else {
                None
            },
            final(self)@ == if id.raw() < old(self)@.len() {
                old(self)@.update(id.raw() as int, None)
            } else {
                old(self)@
            },
    {
        let idx = id.0 as usize;
        if idx < self.data.len() {
            let mut taken: Option<T> = None;
            std::mem::swap(&mut taken, &mut self.data[idx]);
            taken
        } else {
            None
        }
    }

    /// Whether the slot of `id` holds a value.
    pub fn contains(&self, id: SymbolId) -> (r: bool)
        ensures
            r == (id.raw() < self@.len() && self@[id.raw() as int] is Some),
    {
        let idx = id.0 as usize;
        if idx < self.data.len() {
            self.data[idx].is_some()
        } else {
            false
        }
    }

    /// Empty every slot.
    pub fn clear(&mut self)
        ensures
            final(self)@.len() == old(self)@.len(),
            forall|i: int| 0 <= i < final(self)@.len() ==> final(self)@[i] is None,
    {
        let mut i: usize = 0;
        let n = self.data.len();
        while i < n
            invariant
                0 <= i <= n,
                n == self.data@.len(),
                n == old(self)@.len(),
                forall|j: int| 0 <= j < i ==> self.data@[j] is None,
            decreases n - i,
        {
            self.data.set(i, None);
            i = i + 1;
        }
    }

    /// The filled slots, as `(id, value)` pairs in increasing ID order.
    pub fn iter(&self) -> (r: Vec<(SymbolId, &T)>)
        requires
            self@.len() <= MAX_SYMBOLS,
        ensures
            forall|k: int|
                0 <= k < r@.len() ==> {
                    let (id, v) = #[trigger] r@[k];
                    id.raw() < self@.len() && self@[id.raw() as int] == Some(*v)
                },
            forall|i: int|
                0 <= i < self@.len() && self@[i] is Some ==> exists|k: int|
                    0 <= k < r@.len() && (#[trigger] r@[k]).0.raw() == i,
            forall|k1: int, k2: int|
                0 <= k1 < k2 < r@.len() ==> (#[trigger] r@[k1]).0.raw() < (#[trigger] r@[k2]).0.raw(),
    {
        let mut r: Vec<(SymbolId, &T)> = Vec::new();
        let mut i: usize = 0;
        while i < self.data.len()
            invariant
                0 <= i <= self.data.len(),
                self.data@.len() <= MAX_SYMBOLS,
                forall|k: int|
                    0 <= k < r@.len() ==> {
                        let (id, v) = #[trigger] r@[k];
                        id.raw() < i && self.data@[id.raw() as int] == Some(*v)
                    },
                forall|j: int|
                    0 <= j < i && self.data@[j] is Some ==> exists|k: int|
                        0 <= k < r@.len() && (#[trigger] r@[k]).0.raw() == j,
                forall|k1: int, k2: int|
                    0 <= k1 < k2 < r@.len() ==> (#[trigger] r@[k1]).0.raw() < (#[trigger] r@[k2]).0.raw(),
            decreases self.data.len() - i,
        {
            let ghost old_r = r@;
            match &self.data[i] {
                Some(v) => {
                    r.push((SymbolId(i as u16), v));
                    assert(r@[r@.len() - 1].0.raw() == i);
                    assert forall|k1: int, k2: int|
                        0 <= k1 < k2 < r@.len() implies (#[trigger] r@[k1]).0.raw() < (#[trigger] r@[k2]).0.raw() by {
                        if k2 < r@.len() - 1 {
                            assert(r@[k1] == old_r[k1] && r@[k2] == old_r[k2]);
                        } else {
                            assert(r@[k1] == old_r[k1]);
                        }
                    }
                },
                None => {},
            }
            proof {
                assert forall|j: int|
                    0 <= j < i + 1 && self.data@[j] is Some implies exists|k: int|
                        0 <= k < r@.len() && (#[trigger] r@[k]).0.raw() == j by {
                    if j < i {
                        let k0 = choose|k: int| 0 <= k < old_r.len() && (#[trigger] old_r[k]).0.raw() == j;
                        assert(r@[k0] == old_r[k0]);
                    } else {
                        assert(r@[r@.len() - 1].0.raw() == j);
                    }
                }
            }
            i = i + 1;
        }
        r
    }
}

impl<T: Default> Default for SymbolIdArray<T> {
    fn default() -> (a: Self)
        ensures
            a@.len() == MAX_SYMBOLS,
            forall|i: int| 0 <= i < MAX_SYMBOLS ==> a@[i] is None,
    {
        Self::new()
    }
}

} // verus!
