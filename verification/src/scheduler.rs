//! The scheduler: fires one fetch-all round immediately on start, then one
//! round per fixed tick, for the process lifetime, until cancelled.
//!
//! The state machine decides; the clock, the interval timer and the
//! dispatch of the fetch orders run in the surrounding binary, which feeds
//! every event into [`YahooFinance::step`].

use vstd::prelude::*;

use crate::messages::{Fetch, FetchAll};

verus! {

/// The fixed interval between two rounds, in seconds.
pub const TICK_SECONDS: u64 = 30;

/// The scheduler's lifecycle: it idles until started, runs until
/// cancelled, and never recovers from `Stopped`.
#[derive(Clone, Copy, Debug, PartialEq, Eq, Structural)]
pub enum SchedPhase {
    Idle,
    Running,
    Stopped,
}

/// One scheduling event: the start of the process, one tick of the
/// interval clock, or the external cancellation signal.
#[derive(Clone, Copy, Debug, PartialEq, Eq, Structural)]
pub enum SchedEvent {
    Start,
    Tick,
    Cancel,
}

/// One transition: the next phase, and whether the event triggers a
/// fetch-all round. Start triggers the immediate first round; every tick
/// while running triggers one more; nothing triggers after cancellation.
pub open spec fn spec_step(p: SchedPhase, ev: SchedEvent) -> (SchedPhase, bool) {
    match ev {
        SchedEvent::Start => if p is Idle {
            (SchedPhase::Running, true)
        } else {
            (p, false)
        },
        SchedEvent::Tick => if p is Running {
            (SchedPhase::Running, true)
        } else {
            (p, false)
        },
        SchedEvent::Cancel => (SchedPhase::Stopped, false),
    }
}

/// How many fetch-all rounds a sequence of events triggers from phase `p`.
pub open spec fn count_triggers(p: SchedPhase, evs: Seq<SchedEvent>) -> int
    decreases evs.len(),
{
    if evs.len() == 0 {
        0
    } else {
        (if spec_step(p, evs.first()).1 {
            1int
        } else {
            0int
        }) + count_triggers(spec_step(p, evs.first()).0, evs.drop_first())
    }
}

/// A running scheduler triggers one round per tick.
proof fn lemma_ticks_trigger(evs: Seq<SchedEvent>)
    requires
        forall|i: int| 0 <= i < evs.len() ==> evs[i] == SchedEvent::Tick,
    ensures
        count_triggers(SchedPhase::Running, evs) == evs.len(),
    decreases evs.len(),
{
    if evs.len() > 0 {
        assert(evs.first() == SchedEvent::Tick);
        lemma_ticks_trigger(evs.drop_first());
    }
}

/// A start followed by `N` ticks triggers exactly `N + 1` fetch-all
/// rounds — the immediate one plus one per tick — however long any
/// individual round's processing takes: the count depends on the events
/// alone.
pub proof fn lemma_scheduler_triggers(evs: Seq<SchedEvent>)
    requires
        evs.len() >= 1,
        evs.first() == SchedEvent::Start,
        forall|i: int| 1 <= i < evs.len() ==> evs[i] == SchedEvent::Tick,
    ensures
        count_triggers(SchedPhase::Idle, evs) == evs.len(),
{
    assert(forall|i: int|
        0 <= i < evs.drop_first().len() ==> evs.drop_first()[i] == SchedEvent::Tick);
    lemma_ticks_trigger(evs.drop_first());
}

/// The scheduling unit: the configured symbol set, the fixed window start
/// (unix seconds UTC), and the lifecycle phase.
pub struct YahooFinance {
    pub start: i64,
    pub symbols: Vec<String>,
    pub phase: SchedPhase,
}

impl YahooFinance {
    pub fn new(start: i64, symbols: Vec<String>) -> (r: YahooFinance)
        ensures
            r == (YahooFinance { start, symbols, phase: SchedPhase::Idle }),
    {
        YahooFinance { start, symbols, phase: SchedPhase::Idle }
    }

    /// Feeds one event into the state machine; returns the round trigger
    /// exactly when the transition fires one.
    pub fn step(&mut self, ev: SchedEvent) -> (r: Option<FetchAll>)
        ensures
            final(self).phase == spec_step(old(self).phase, ev).0,
            (r is Some) == spec_step(old(self).phase, ev).1,
            final(self).start == old(self).start,
            final(self).symbols == old(self).symbols,
    {
        match ev {
            SchedEvent::Start => {
                if let SchedPhase::Idle = self.phase {
                    self.phase = SchedPhase::Running;
                    Some(FetchAll)
                } else {
                    None
                }
            },
            SchedEvent::Tick => {
                if let SchedPhase::Running = self.phase {
                    Some(FetchAll)
                } else {
                    None
                }
            },
            SchedEvent::Cancel => {
                self.phase = SchedPhase::Stopped;
                None
            },
        }
    }

    /// One fetch-all round: one independent fetch order per configured
    /// symbol, each over the window from the fixed start to `now`, the
    /// round's dispatch time. Duplicate symbols produce duplicate
    /// independent orders.
    pub fn handle(&self, now: i64) -> (v: Vec<Fetch>)
        ensures
            v@.len() == self.symbols@.len(),
            forall|i: int|
                0 <= i < v@.len() ==> #[trigger] v@[i] == (Fetch {
                    symbol: self.symbols@[i],
                    start: self.start,
                    end: now,
                }),
    {
        let mut v: Vec<Fetch> = Vec::new();
        let mut i: usize = 0;
        while i < self.symbols.len()
            invariant
                i <= self.symbols@.len(),
                v@.len() == i as int,
                forall|j: int|
                    0 <= j < i ==> #[trigger] v@[j] == (Fetch {
                        symbol: self.symbols@[j],
                        start: self.start,
                        end: now,
                    }),
            decreases self.symbols@.len() - i,
        {
            let symbol = self.symbols[i].clone();
            v.push(Fetch::new(symbol, self.start, now));
            i = i + 1;
        }
        v
    }
}

} // verus!
