//! The decisions of the event reactor, which fans market data events out to
//! per-symbol handlers.
//!
//! The reactor's task alternates between awaiting a control command or a
//! market event and acting on it.  [`ReactorCore`] holds everything the
//! decisions depend on: the symbol registry, which symbols have handlers,
//! the sequence number of the last event and whether shutdown was asked
//! for.  Each input is turned into one [`ReactorStep`] that the task carries
//! out (spawning or aborting handler workers, sending an envelope to them,
//! or stopping).

use vstd::prelude::*;
use crate::infrastructure::symbol_registry::{
    MAX_SYMBOLS,
    SymbolId,
    SymbolIdArray,
    SymbolRegistry,
    symbol_index,
    symbols_unique,
};

verus! {

/// What the reactor's task received.
pub enum ReactorInput {
    /// A handler was registered for the symbol.
    Subscribe(String),
    /// All handlers of the symbol are to be removed.
    Unsubscribe(String),
    /// Drain and exit.
    Shutdown,
    /// A market data event for the symbol arrived.
    Market(String),
    /// Every channel is closed.
    Closed,
}

/// What the reactor's task must do next.
#[derive(Debug, Clone, Copy, PartialEq, Eq)]
pub enum ReactorStep {
    /// Leave the loop and abort every handler worker.
    Stop,
    /// Spawn a worker for the new handler under this symbol ID and
    /// acknowledge the subscription.
    AddWorker(SymbolId),
    /// Abort and drop the workers under this symbol ID.
    RemoveWorkers(SymbolId),
    /// Send the envelope numbered `seq_no` to every worker under `symbol_id`.
    Dispatch { symbol_id: SymbolId, seq_no: u64 },
    /// Nothing to do.
    Skip,
}

/// The state the decisions depend on.
pub struct ReactorView {
    /// Registered symbols in registration order (the ID is the position).
    pub symbols: Seq<Seq<char>>,
    /// Per symbol ID, the number of handlers when the symbol has workers.
    pub handlers: Seq<Option<u64>>,
    /// Number of the last market event taken in.
    pub seq: u64,
    /// Whether shutdown was asked for.
    pub shutdown: bool,
}

/// The invariant of the reactor's state.
pub open spec fn reactor_wf(s: ReactorView) -> bool {
    &&& symbols_unique(s.symbols)
    &&& s.symbols.len() <= MAX_SYMBOLS
    &&& s.handlers.len() == MAX_SYMBOLS
}

/// Whether the symbol `sym` currently has handler workers in `s`.
pub open spec fn has_workers(s: ReactorView, sym: Seq<char>) -> bool {
    s.symbols.contains(sym) && s.handlers[symbol_index(s.symbols, sym)] is Some
}

/// The state after a handler is registered for `sym`.
pub open spec fn after_subscribe(s: ReactorView, sym: Seq<char>) -> ReactorView {
    let symbols = if s.symbols.contains(sym) { s.symbols } else { s.symbols.push(sym) };
    let i = symbol_index(symbols, sym);
    let n: u64 = match s.handlers[i] {
        Some(c) => c,
        None => 0,
    };
    ReactorView {
        symbols,
        handlers: s.handlers.update(i, Some(if n < u64::MAX { (n + 1) as u64 } else { n })),
        seq: s.seq,
        shutdown: s.shutdown,
    }
}

/// One decision: from `s`, on `input`, with the kill switch set or not, the
/// reactor moves to `t` and answers `a`.
pub open spec fn reactor_step(
    s: ReactorView,
    input: ReactorInput,
    kill: bool,
    t: ReactorView,
    a: ReactorStep,
) -> bool {
    match input {
        ReactorInput::Subscribe(sym) => {
            &&& t == after_subscribe(s, sym@)
            &&& a matches ReactorStep::AddWorker(id) && id.raw() == symbol_index(t.symbols, sym@)
        },
        ReactorInput::Unsubscribe(sym) => if has_workers(s, sym@) {
            let i = symbol_index(s.symbols, sym@);
            &&& t == ReactorView {
                symbols: s.symbols,
                handlers: s.handlers.update(i, None),
                seq: s.seq,
                shutdown: s.shutdown,
            }
            &&& a matches ReactorStep::RemoveWorkers(id) && id.raw() == i
        } else {
            t == s && a == ReactorStep::Skip
        },
        ReactorInput::Shutdown => {
            &&& t == ReactorView {
                symbols: s.symbols,
                handlers: s.handlers,
                seq: s.seq,
                shutdown: true,
            }
            &&& a == ReactorStep::Skip
        },
        ReactorInput::Market(sym) => if kill {
            t == s && a == ReactorStep::Stop
        } else {
            &&& t == ReactorView {
                symbols: s.symbols,
                handlers: s.handlers,
                seq: (s.seq + 1) as u64,
                shutdown: s.shutdown,
            }
            &&& if has_workers(s, sym@) {
                a matches ReactorStep::Dispatch { symbol_id, seq_no } && symbol_id.raw()
                    == symbol_index(s.symbols, sym@) && seq_no == t.seq
            } else {
                a == ReactorStep::Skip
            }
        },
        ReactorInput::Closed => t == s && a == ReactorStep::Stop,
    }
}

/// Whether the reactor can take `input` in state `s`: a new symbol needs a
/// free ID, and the event counter must not be exhausted.
pub open spec fn step_allowed(s: ReactorView, input: ReactorInput) -> bool {
    match input {
        ReactorInput::Subscribe(sym) => s.symbols.contains(sym@) || s.symbols.len() < MAX_SYMBOLS,
        ReactorInput::Market(_) => s.seq < u64::MAX,
        _ => true,
    }
}

/// The decision state of an event reactor.
pub struct ReactorCore {
    registry: SymbolRegistry,
    handlers: SymbolIdArray<u64>,
    seq: u64,
    shutdown_requested: bool,
}

impl View for ReactorCore {
    type V = ReactorView;

    closed spec fn view(&self) -> ReactorView {
        ReactorView {
            symbols: self.registry@,
            handlers: self.handlers@,
            seq: self.seq,
            shutdown: self.shutdown_requested,
        }
    }
}

impl ReactorCore {
    /// The invariant: the registry's and the handler table's.
    pub closed spec fn wf(&self) -> bool {
        &&& self.registry.wf()
        &&& reactor_wf(self@)
    }

    /// A reactor with no symbol, no handler and no event taken in.
    pub fn new() -> (r: Self)
        ensures
            r.wf(),
            r@.symbols == Seq::<Seq<char>>::empty(),
            forall|i: int| 0 <= i < MAX_SYMBOLS ==> r@.handlers[i] is None,
            r@.seq == 0,
            !r@.shutdown,
    {
        ReactorCore {
            registry: SymbolRegistry::new(),
            handlers: SymbolIdArray::new(),
            seq: 0,
            shutdown_requested: false,
        }
    }

    /// Whether the loop must end before waiting for more input: shutdown was
    /// asked for or the kill switch is set.
    pub fn should_stop(&self, kill_switch_enabled: bool) -> (r: bool)
        ensures
            r == (self@.shutdown || kill_switch_enabled),
    {
        self.shutdown_requested || kill_switch_enabled
    }

    /// The symbol registered under `id`.
    pub fn symbol(&self, id: SymbolId) -> (r: Option<&str>)
        requires
            self.wf(),
        ensures
            match r {
                Some(s) => id.raw() < self@.symbols.len() && s@ == self@.symbols[id.raw() as int],
                None => id.raw() >= self@.symbols.len(),
            },
    {
        self.registry.get_symbol(id)
    }

    /// Whether [`Self::step`] can take `input` now: a new symbol needs a
    /// free ID, and the event counter must not be exhausted.
    pub fn accepts(&self, input: &ReactorInput) -> (r: bool)
        requires
            self.wf(),
        ensures
            r == step_allowed(self@, *input),
    {
        match input {
            ReactorInput::Subscribe(sym) => self.registry.contains(sym.as_str()) || self.registry.len()
                < MAX_SYMBOLS,
            ReactorInput::Market(_) => self.seq < u64::MAX,
            _ => true,
        }
    }

    /// Decide what to do with `input`; `kill_switch_enabled` is the kill
    /// switch as read when the input arrived.
    pub fn step(&mut self, input: ReactorInput, kill_switch_enabled: bool) -> (a: ReactorStep)
        requires
            old(self).wf(),
            step_allowed(old(self)@, input),
        ensures
            final(self).wf(),
            reactor_step(old(self)@, input, kill_switch_enabled, final(self)@, a),
    {
        match input {
            ReactorInput::Subscribe(sym) => {
                let ghost before = self@;
                let id = self.registry.register(sym.as_str());
                proof {
                    let syms = self.registry@;
                    if !before.symbols.contains(sym@) {
                        assert(syms[syms.len() - 1] == sym@);
                    }
                    assert(syms.contains(sym@));
                    assert(0 <= id.raw() < syms.len());
                }
                let n: u64 = match self.handlers.get(id) {
                    Some(c) => *c,
                    None => 0,
                };
                let next: u64 = if n < u64::MAX { n + 1 } else { n };
                self.handlers.insert(id, next);
                ReactorStep::AddWorker(id)
            },
            ReactorInput::Unsubscribe(sym) => {
                match self.registry.lookup(sym.as_str()) {
                    Some(id) => {
                        if self.handlers.contains(id) {
                            let _ = self.handlers.remove(id);
                            ReactorStep::RemoveWorkers(id)
                        } else {
                            ReactorStep::Skip
                        }
                    },
                    None => ReactorStep::Skip,
                }
            },
            ReactorInput::Shutdown => {
                self.shutdown_requested = true;
                ReactorStep::Skip
            },
            ReactorInput::Market(sym) => {
                if kill_switch_enabled {
                    return ReactorStep::Stop;
                }
                self.seq = self.seq + 1;
                match self.registry.lookup(sym.as_str()) {
                    Some(id) => {
                        if self.handlers.contains(id) {
                            ReactorStep::Dispatch { symbol_id: id, seq_no: self.seq }
                        } else {
                            ReactorStep::Skip
                        }
                    },
                    None => ReactorStep::Skip,
                }
            },
            ReactorInput::Closed => ReactorStep::Stop,
        }
    }
}

/// A handler registered for a symbol receives the symbol's next event: once
/// `Subscribe(sym)` is taken, a `Market` event for the same symbol with the
/// kill switch clear is dispatched to the new worker's ID, numbered one
/// more than any event before it.
pub proof fn law_subscribed_symbol_receives_events(
    s: ReactorView,
    t: ReactorView,
    u: ReactorView,
    sym: String,
    event_sym: String,
    kill: bool,
    a1: ReactorStep,
    a2: ReactorStep,
)
    requires
        reactor_wf(s),
        step_allowed(s, ReactorInput::Subscribe(sym)),
        s.seq < u64::MAX,
        reactor_step(s, ReactorInput::Subscribe(sym), kill, t, a1),
        event_sym@ == sym@,
        reactor_step(t, ReactorInput::Market(event_sym), false, u, a2),
    ensures
        a1 matches ReactorStep::AddWorker(id) && a2 matches ReactorStep::Dispatch { symbol_id, seq_no }
            && symbol_id.raw() == id.raw() && seq_no == s.seq + 1,
{
    let syms = t.symbols;
    if !s.symbols.contains(sym@) {
        assert(syms[syms.len() - 1] == sym@);
    }
    assert(syms.contains(sym@));
    assert(has_workers(t, event_sym@));
}

/// Once a symbol's handlers are removed, its events are no longer
/// dispatched: after `Unsubscribe(sym)`, a `Market` event for the same
/// symbol yields no `Dispatch`.
pub proof fn law_unsubscribed_symbol_gets_nothing(
    s: ReactorView,
    t: ReactorView,
    u: ReactorView,
    sym: String,
    event_sym: String,
    kill1: bool,
    kill2: bool,
    a1: ReactorStep,
    a2: ReactorStep,
)
    requires
        reactor_wf(s),
        reactor_step(s, ReactorInput::Unsubscribe(sym), kill1, t, a1),
        event_sym@ == sym@,
        reactor_step(t, ReactorInput::Market(event_sym), kill2, u, a2),
    ensures
        !(a2 is Dispatch),
{
    if has_workers(s, sym@) {
        let i = symbol_index(s.symbols, sym@);
        assert(t.handlers[i] is None);
        assert(!has_workers(t, event_sym@));
    }
}

/// Events are numbered in arrival order: every decision keeps the event
/// count or, for a market event taken in, adds one; a dispatched envelope
/// carries the new count.
pub proof fn law_event_numbers_increase(
    s: ReactorView,
    input: ReactorInput,
    kill: bool,
    t: ReactorView,
    a: ReactorStep,
)
    requires
        step_allowed(s, input),
        reactor_step(s, input, kill, t, a),
    ensures
        t.seq == s.seq || t.seq == s.seq + 1,
        a matches ReactorStep::Dispatch { seq_no, .. } ==> seq_no == t.seq && seq_no == s.seq + 1,
{
}

/// The kill switch stops the reactor: a market event that finds it set is
/// dropped, the state is left as it was, and the loop ends.
pub proof fn law_kill_switch_stops_events(
    s: ReactorView,
    sym: String,
    t: ReactorView,
    a: ReactorStep,
)
    requires
        reactor_step(s, ReactorInput::Market(sym), true, t, a),
    ensures
        a == ReactorStep::Stop,
        t == s,
{
}

/// Shutdown is final: once asked for, every later decision keeps it, so the
/// loop ends before waiting again.
pub proof fn law_shutdown_is_final(
    s: ReactorView,
    input: ReactorInput,
    kill: bool,
    t: ReactorView,
    a: ReactorStep,
)
    requires
        s.shutdown || input is Shutdown,
        reactor_step(s, input, kill, t, a),
    ensures
        t.shutdown,
{
}

/// Every decision the reactor can take keeps its invariant: symbols stay
/// unique and within `MAX_SYMBOLS`, and the handler table keeps its size.
pub proof fn law_steps_keep_invariant(
    s: ReactorView,
    input: ReactorInput,
    kill: bool,
    t: ReactorView,
    a: ReactorStep,
)
    requires
        reactor_wf(s),
        step_allowed(s, input),
        reactor_step(s, input, kill, t, a),
    ensures
        reactor_wf(t),
{
    if let ReactorInput::Subscribe(sym) = input {
        if !s.symbols.contains(sym@) {
            let syms = s.symbols.push(sym@);
            assert forall|i: int, j: int|
                0 <= i < syms.len() && 0 <= j < syms.len() && i != j implies syms[i] != syms[j] by {
                if i == s.symbols.len() {
                    assert(s.symbols[j] == syms[j]);
                    assert(s.symbols[j] != sym@);
                } else if j == s.symbols.len() {
                    assert(s.symbols[i] == syms[i]);
                    assert(s.symbols[i] != sym@);
                } else {
                    assert(s.symbols[i] == syms[i] && s.symbols[j] == syms[j]);
                }
            }
            assert(syms[syms.len() - 1] == sym@);
            assert(syms.contains(sym@));
        } else {
            assert(s.symbols.contains(sym@));
        }
    }
}

} // verus!
