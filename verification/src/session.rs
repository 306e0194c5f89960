//! The search session: shared state of one bounded-concurrency search.
//!
//! A session owns the Found Flag (a sticky, write-once boolean), the Result
//! Slot (a capacity-one handoff that delivers at most one URL to the
//! coordinator), the count of in-flight probes against the concurrency
//! ceiling, and the coordinator's state (`Searching` until either a URL is
//! received or the global timeout fires; both outcomes are terminal).
//!
//! The driver that actually runs probes concurrently lives outside the
//! library; it consults [`SearchSession::next_dispatch`] before every probe
//! and reports each completion through [`SearchSession::finish_probe`]. The
//! spec-level [`step`]/[`run`] functions describe the same transitions over
//! any sequence of events, and the public lemmas state the session-wide
//! guarantees: the ceiling is never exceeded, the flag is sticky, no probe
//! is dispatched once the flag is set, and at most one URL is delivered.

use vstd::prelude::*;
use crate::probe::ProbeOutcome;

verus! {

/// The coordinator's view of the session: `Searching` until a result
/// arrives (`Found`) or the global timer fires (`TimedOut`); both are
/// terminal.
#[derive(Clone, Copy, Debug, PartialEq, Eq, Structural)]
pub enum SearchState {
    Searching,
    Found,
    TimedOut,
}

/// What the fan-out driver must do with the next candidate.
#[derive(Clone, Copy, Debug, PartialEq, Eq, Structural)]
pub enum DispatchDecision {
    /// Dispatch a probe for the candidate now.
    Dispatch,
    /// Skip the candidate without spending a concurrency slot (the flag is
    /// set, or the session is no longer searching).
    Skip,
    /// All concurrency slots are busy: wait for a probe to finish.
    Wait,
}

/// One observable event in the life of a session.
pub enum SessionEvent {
    /// The driver dispatches a probe (only effective when the decision for
    /// the current state is `Dispatch`).
    BeginProbe,
    /// A dispatched probe completed with the given outcome.
    FinishProbe(ProbeOutcome),
    /// The coordinator polls the result slot.
    TakeResult,
    /// The global search timer fired.
    Timeout,
}

/// Shared state of one search session.
pub struct SearchSession {
    /// Concurrency ceiling: the most probes that may be in flight at once.
    pub ceiling: usize,
    /// Probes currently dispatched and not yet finished.
    pub in_flight: usize,
    /// The Found Flag: set once a probe succeeds, never reset.
    pub found: bool,
    /// The Result Slot: holds the first delivered URL, written at most once.
    pub slot: Option<String>,
    /// The coordinator's state.
    pub state: SearchState,
}

impl SearchSession {
    /// Session well-formedness, established by `new` and preserved by
    /// every transition.
    pub open spec fn inv(self) -> bool {
        &&& self.ceiling >= 1
        &&& self.in_flight <= self.ceiling
        &&& (self.slot is Some ==> self.found)
        &&& (self.state is Found ==> self.slot is Some)
    }

    /// The dispatch rule: skip once the flag is set or the session has left
    /// `Searching`; otherwise dispatch when a slot is free, else wait.
    pub open spec fn dispatch_decision(self) -> DispatchDecision {
        if !(self.state is Searching) || self.found {
            DispatchDecision::Skip
        } else if self.in_flight < self.ceiling {
            DispatchDecision::Dispatch
        } else {
            DispatchDecision::Wait
        }
    }

    /// Start a session with the given concurrency ceiling: no probe in
    /// flight, flag clear, slot empty, coordinator searching.
    pub fn new(ceiling: usize) -> (r: SearchSession)
        requires
            ceiling >= 1,
        ensures
            r == (SearchSession {
                ceiling,
                in_flight: 0,
                found: false,
                slot: None,
                state: SearchState::Searching,
            }),
            r.inv(),
    {
        SearchSession {
            ceiling,
            in_flight: 0,
            found: false,
            slot: None,
            state: SearchState::Searching,
        }
    }

    /// What to do with the next candidate, per the dispatch rule.
    pub fn next_dispatch(&self) -> (r: DispatchDecision)
        ensures
            r == self.dispatch_decision(),
    {
        match self.state {
            SearchState::Searching => {
                if self.found {
                    DispatchDecision::Skip
                } else if self.in_flight < self.ceiling {
                    DispatchDecision::Dispatch
                } else {
                    DispatchDecision::Wait
                }
            },
            _ => DispatchDecision::Skip,
        }
    }

    /// Record the dispatch of one probe; only legal when the dispatch rule
    /// says `Dispatch`, so the ceiling is never exceeded.
    pub fn begin_probe(&mut self)
        requires
            old(self).dispatch_decision() is Dispatch,
        ensures
            *final(self) == step(*old(self), SessionEvent::BeginProbe),
            final(self).in_flight == old(self).in_flight + 1,
    {
        self.in_flight = self.in_flight + 1;
    }

    /// Record the completion of one in-flight probe. On success the Found
    /// Flag is set (sticky) and the URL is placed in the Result Slot unless
    /// the slot is already occupied; a failure changes nothing but the
    /// in-flight count.
    pub fn finish_probe(&mut self, outcome: ProbeOutcome)
        requires
            old(self).in_flight >= 1,
        ensures
            *final(self) == step(*old(self), SessionEvent::FinishProbe(outcome)),
    {
        self.in_flight = self.in_flight - 1;
        match outcome {
            ProbeOutcome::Success(url) => {
                self.found = true;
                if self.slot.is_none() {
                    self.slot = Some(url);
                }
            },
            ProbeOutcome::Failure => {},
            ProbeOutcome::Inconclusive => {},
        }
    }

    /// The coordinator polls the Result Slot. While searching, a delivered
    /// URL moves the session to `Found` (which cancels further dispatch)
    /// and is returned; in every other case nothing changes and `None` is
    /// returned, so a session delivers at most one URL.
    pub fn take_result(&mut self) -> (r: Option<String>)
        ensures
            *final(self) == step(*old(self), SessionEvent::TakeResult),
            r == (if delivery_fires(*old(self), SessionEvent::TakeResult) {
                old(self).slot
            } else {
                None::<String>
            }),
    {
        match self.state {
            SearchState::Searching => {
                match &self.slot {
                    Some(url) => {
                        let r = Some(url.clone());
                        self.state = SearchState::Found;
                        r
                    },
                    None => None,
                }
            },
            _ => None,
        }
    }

    /// The global timer fired. While searching, the session moves to the
    /// terminal `TimedOut` state; afterwards the event is ignored.
    pub fn on_timeout(&mut self)
        ensures
            *final(self) == step(*old(self), SessionEvent::Timeout),
    {
        match self.state {
            SearchState::Searching => {
                self.state = SearchState::TimedOut;
            },
            _ => {},
        }
    }

    /// The process exit code the session calls for: 1 when the search
    /// timed out without a result, 0 otherwise.
    pub fn exit_code(&self) -> (r: i32)
        ensures
            r == (if self.state is TimedOut {
                1i32
            } else {
                0i32
            }),
    {
        match self.state {
            SearchState::TimedOut => 1,
            _ => 0,
        }
    }
}

/// Whether a `BeginProbe` event actually dispatches in state `s`.
pub open spec fn dispatch_fires(s: SearchSession, e: SessionEvent) -> bool {
    e is BeginProbe && s.dispatch_decision() is Dispatch
}

/// Whether a `TakeResult` event actually delivers a URL in state `s`.
pub open spec fn delivery_fires(s: SearchSession, e: SessionEvent) -> bool {
    e is TakeResult && s.state is Searching && s.slot is Some
}

/// The session transition relation: how one event changes the state.
/// Guarded events that do not fire leave the state unchanged.
pub open spec fn step(s: SearchSession, e: SessionEvent) -> SearchSession {
    match e {
        SessionEvent::BeginProbe => {
            if s.dispatch_decision() is Dispatch {
                SearchSession { in_flight: (s.in_flight + 1) as usize, ..s }
            } else {
                s
            }
        },
        SessionEvent::FinishProbe(outcome) => {
            if s.in_flight >= 1 {
                let dec = SearchSession { in_flight: (s.in_flight - 1) as usize, ..s };
                match outcome {
                    ProbeOutcome::Success(url) => SearchSession {
                        found: true,
                        slot: if s.slot is Some {
                            s.slot
                        } else {
                            Some(url)
                        },
                        ..dec
                    },
                    _ => dec,
                }
            } else {
                s
            }
        },
        SessionEvent::TakeResult => {
            if s.state is Searching && s.slot is Some {
                SearchSession { state: SearchState::Found, ..s }
            } else {
                s
            }
        },
        SessionEvent::Timeout => {
            if s.state is Searching {
                SearchSession { state: SearchState::TimedOut, ..s }
            } else {
                s
            }
        },
    }
}

/// The session state after a whole sequence of events.
pub open spec fn run(s: SearchSession, es: Seq<SessionEvent>) -> SearchSession
    decreases es.len(),
{
    if es.len() == 0 {
        s
    } else {
        run(step(s, es[0]), es.drop_first())
    }
}

/// How many probes a sequence of events actually dispatches from state `s`.
pub open spec fn dispatch_count(s: SearchSession, es: Seq<SessionEvent>) -> nat
    decreases es.len(),
{
    if es.len() == 0 {
        0
    } else {
        (if dispatch_fires(s, es[0]) {
            1nat
        } else {
            0nat
        }) + dispatch_count(step(s, es[0]), es.drop_first())
    }
}

/// How many URLs a sequence of events actually delivers from state `s`.
pub open spec fn delivery_count(s: SearchSession, es: Seq<SessionEvent>) -> nat
    decreases es.len(),
{
    if es.len() == 0 {
        0
    } else {
        (if delivery_fires(s, es[0]) {
            1nat
        } else {
            0nat
        }) + delivery_count(step(s, es[0]), es.drop_first())
    }
}

/// Every single transition preserves well-formedness and the ceiling.
pub proof fn lemma_step_preserves_inv(s: SearchSession, e: SessionEvent)
    requires
        s.inv(),
    ensures
        step(s, e).inv(),
        step(s, e).ceiling == s.ceiling,
{
}

/// Every run preserves well-formedness and the ceiling.
pub proof fn lemma_run_preserves_inv(s: SearchSession, es: Seq<SessionEvent>)
    requires
        s.inv(),
    ensures
        run(s, es).inv(),
        run(s, es).ceiling == s.ceiling,
    decreases es.len(),
{
    if es.len() > 0 {
        lemma_step_preserves_inv(s, es[0]);
        lemma_run_preserves_inv(step(s, es[0]), es.drop_first());
    }
}

/// The concurrency ceiling is never exceeded: at every point of every run
/// of a well-formed session, the number of in-flight probes stays within
/// the ceiling the session was created with.
pub proof fn lemma_ceiling_never_exceeded(s: SearchSession, es: Seq<SessionEvent>)
    requires
        s.inv(),
    ensures
        forall|k: int|
            0 <= k <= es.len() ==> #[trigger] run(s, es.subrange(0, k)).in_flight <= s.ceiling,
{
    assert forall|k: int|
        0 <= k <= es.len() implies #[trigger] run(s, es.subrange(0, k)).in_flight
        <= s.ceiling by {
        lemma_run_preserves_inv(s, es.subrange(0, k));
    }
}

/// The Found Flag is sticky: once true it stays true through every run.
pub proof fn lemma_found_sticky(s: SearchSession, es: Seq<SessionEvent>)
    requires
        s.found,
    ensures
        run(s, es).found,
    decreases es.len(),
{
    if es.len() > 0 {
        lemma_found_sticky(step(s, es[0]), es.drop_first());
    }
}

/// Once the Found Flag is true, no further probe is dispatched: every
/// subsequent run dispatches zero probes.
pub proof fn lemma_no_dispatch_after_found(s: SearchSession, es: Seq<SessionEvent>)
    requires
        s.found,
    ensures
        dispatch_count(s, es) == 0,
    decreases es.len(),
{
    if es.len() > 0 {
        lemma_no_dispatch_after_found(step(s, es[0]), es.drop_first());
    }
}

/// The Result Slot is written at most once: once it holds a URL, no later
/// event replaces or clears it.
pub proof fn lemma_slot_write_once(s: SearchSession, es: Seq<SessionEvent>)
    requires
        s.slot is Some,
    ensures
        run(s, es).slot == s.slot,
    decreases es.len(),
{
    if es.len() > 0 {
        lemma_slot_write_once(step(s, es[0]), es.drop_first());
    }
}

/// Terminal states are stable: once the session has left `Searching`, its
/// state never changes again and no further URL is delivered.
pub proof fn lemma_terminal_stable(s: SearchSession, es: Seq<SessionEvent>)
    requires
        !(s.state is Searching),
    ensures
        run(s, es).state == s.state,
        delivery_count(s, es) == 0,
    decreases es.len(),
{
    if es.len() > 0 {
        lemma_terminal_stable(step(s, es[0]), es.drop_first());
    }
}

/// The Result Slot delivers at most one URL per session, whatever the
/// events and however many probes succeed.
pub proof fn lemma_at_most_one_delivery(s: SearchSession, es: Seq<SessionEvent>)
    ensures
        delivery_count(s, es) <= 1,
    decreases es.len(),
{
    if es.len() > 0 {
        if delivery_fires(s, es[0]) {
            lemma_terminal_stable(step(s, es[0]), es.drop_first());
        } else {
            lemma_at_most_one_delivery(step(s, es[0]), es.drop_first());
        }
    }
}

} // verus!
