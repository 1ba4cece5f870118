//! Decisions of the TCP accept loop: dispatch accepted connections to the worker pool
//! until shutdown is requested, then drain the pool and finish.
use vstd::prelude::*;
use crate::outcome::LoopExit;

verus! {

/// The most connections that are served at the same time; further ones wait for a free worker.
pub const MAX_TCP_CLIENTS: usize = 100;

/// Where the accept loop stands.
#[derive(Clone, Copy, Debug, PartialEq, Eq, Structural)]
pub enum AcceptPhase {
    /// Accepting connections and handing them to workers.
    Accepting,
    /// Shutdown was observed: no new work, waiting for the workers to finish.
    Draining,
    /// The loop is over.
    Closed(LoopExit),
}

/// What the loop observed: the outcome of its race between cancellation and `accept`,
/// or the end of a drain.
#[derive(Clone, Copy, Debug, PartialEq, Eq, Structural)]
pub enum AcceptEvent {
    /// The cancellation signal won the race.
    Cancelled,
    /// A connection was accepted.
    Accepted,
    /// `accept` failed; `shutting_down` tells whether cancellation had been signalled by then.
    AcceptFailed { shutting_down: bool },
    /// Every dispatched worker has finished.
    Drained,
}

/// What the loop must do next.
#[derive(Clone, Copy, Debug, PartialEq, Eq, Structural)]
pub enum AcceptAction {
    /// Hand the accepted connection to the worker pool, then accept again.
    Dispatch,
    /// Close the accepted connection without serving it.
    Refuse,
    /// Accept again.
    KeepAccepting,
    /// Wait until every dispatched worker has finished, then report `Drained`.
    Drain,
    /// Leave the loop with this result.
    Finish(LoopExit),
}

/// One step of the accept loop: the next phase and the action to take.
pub open spec fn accept_step(p: AcceptPhase, e: AcceptEvent) -> (AcceptPhase, AcceptAction) {
    match p {
        AcceptPhase::Accepting => match e {
            AcceptEvent::Cancelled => (AcceptPhase::Draining, AcceptAction::Drain),
            AcceptEvent::Accepted => (AcceptPhase::Accepting, AcceptAction::Dispatch),
            AcceptEvent::AcceptFailed { shutting_down } => if shutting_down {
                (AcceptPhase::Draining, AcceptAction::Drain)
            } else {
                (AcceptPhase::Closed(LoopExit::Failed), AcceptAction::Finish(LoopExit::Failed))
            },
            AcceptEvent::Drained => (AcceptPhase::Accepting, AcceptAction::KeepAccepting),
        },
        AcceptPhase::Draining => match e {
            AcceptEvent::Drained => (
                AcceptPhase::Closed(LoopExit::Clean),
                AcceptAction::Finish(LoopExit::Clean),
            ),
            AcceptEvent::Accepted => (AcceptPhase::Draining, AcceptAction::Refuse),
            _ => (AcceptPhase::Draining, AcceptAction::Drain),
        },
        AcceptPhase::Closed(x) => (AcceptPhase::Closed(x), AcceptAction::Finish(x)),
    }
}

/// The phase reached from `p` after the events `evs`, in order.
pub open spec fn accept_run(p: AcceptPhase, evs: Seq<AcceptEvent>) -> AcceptPhase
    decreases evs.len(),
{
    if evs.len() == 0 {
        p
    } else {
        accept_run(accept_step(p, evs[0]).0, evs.drop_first())
    }
}

/// The actions taken from `p` on the events `evs`, in order.
pub open spec fn accept_actions(p: AcceptPhase, evs: Seq<AcceptEvent>) -> Seq<AcceptAction>
    decreases evs.len(),
{
    if evs.len() == 0 {
        Seq::empty()
    } else {
        seq![accept_step(p, evs[0]).1] + accept_actions(accept_step(p, evs[0]).0, evs.drop_first())
    }
}

/// The state of one accept loop.
pub struct Dispatcher {
    phase: AcceptPhase,
}

impl Dispatcher {
    /// The phase the loop is in.
    pub closed spec fn spec_phase(&self) -> AcceptPhase {
        self.phase
    }

    /// A loop that has just bound its listener and accepts connections.
    pub fn new() -> (r: Dispatcher)
        ensures
            r.spec_phase() == AcceptPhase::Accepting,
    {
        Dispatcher { phase: AcceptPhase::Accepting }
    }

    /// The phase the loop is in.
    pub fn phase(&self) -> (r: AcceptPhase)
        ensures
            r == self.spec_phase(),
    {
        self.phase
    }

    /// True once the loop is over.
    pub fn is_closed(&self) -> (r: bool)
        ensures
            r == (self.spec_phase() is Closed),
    {
        match self.phase {
            AcceptPhase::Closed(_) => true,
            _ => false,
        }
    }

    /// Takes in what the loop observed and says what it must do next.
    pub fn on_event(&mut self, e: AcceptEvent) -> (a: AcceptAction)
        ensures
            (final(self).spec_phase(), a) == accept_step(old(self).spec_phase(), e),
    {
        let (next, action) = match self.phase {
            AcceptPhase::Accepting => match e {
                AcceptEvent::Cancelled => (AcceptPhase::Draining, AcceptAction::Drain),
                AcceptEvent::Accepted => (AcceptPhase::Accepting, AcceptAction::Dispatch),
                AcceptEvent::AcceptFailed { shutting_down } => if shutting_down {
                    (AcceptPhase::Draining, AcceptAction::Drain)
                } else {
                    (AcceptPhase::Closed(LoopExit::Failed), AcceptAction::Finish(LoopExit::Failed))
                },
                AcceptEvent::Drained => (AcceptPhase::Accepting, AcceptAction::KeepAccepting),
            },
            AcceptPhase::Draining => match e {
                AcceptEvent::Drained => (
                    AcceptPhase::Closed(LoopExit::Clean),
                    AcceptAction::Finish(LoopExit::Clean),
                ),
                AcceptEvent::Accepted => (AcceptPhase::Draining, AcceptAction::Refuse),
                _ => (AcceptPhase::Draining, AcceptAction::Drain),
            },
            AcceptPhase::Closed(x) => (AcceptPhase::Closed(x), AcceptAction::Finish(x)),
        };
        self.phase = next;
        action
    }
}

/// Phases in which shutdown has been observed: the loop no longer takes new work.
pub open spec fn stopped_accepting(p: AcceptPhase) -> bool {
    p is Draining || p is Closed
}

proof fn stopped_stays_stopped(p: AcceptPhase, evs: Seq<AcceptEvent>)
    requires
        stopped_accepting(p),
    ensures
        stopped_accepting(accept_run(p, evs)),
        forall|i: int|
            0 <= i < accept_actions(p, evs).len() ==> accept_actions(p, evs)[i]
                != AcceptAction::Dispatch,
    decreases evs.len(),
{
    if evs.len() > 0 {
        let q = accept_step(p, evs[0]).0;
        stopped_stays_stopped(q, evs.drop_first());
        let rest = accept_actions(q, evs.drop_first());
        assert(accept_actions(p, evs) == seq![accept_step(p, evs[0]).1] + rest);
        assert forall|i: int| 0 <= i < accept_actions(p, evs).len() implies accept_actions(
            p,
            evs,
        )[i] != AcceptAction::Dispatch by {
            if i > 0 {
                assert(accept_actions(p, evs)[i] == rest[i - 1]);
            }
        }
    }
}

/// Once cancellation is observed, the accept loop never dispatches another connection,
/// whatever it observes afterwards, and it never returns to accepting.
pub proof fn no_dispatch_after_cancel(p: AcceptPhase, evs: Seq<AcceptEvent>)
    ensures
        stopped_accepting(accept_run(accept_step(p, AcceptEvent::Cancelled).0, evs)),
        forall|i: int|
            0 <= i < accept_actions(accept_step(p, AcceptEvent::Cancelled).0, evs).len()
                ==> accept_actions(accept_step(p, AcceptEvent::Cancelled).0, evs)[i]
                != AcceptAction::Dispatch,
{
    stopped_stays_stopped(accept_step(p, AcceptEvent::Cancelled).0, evs);
}

/// A loop that is still running finishes cleanly once it observes cancellation and the
/// drain of its workers completes.
pub proof fn cancel_then_drain_finishes(p: AcceptPhase)
    requires
        !(p is Closed),
    ensures
        accept_run(p, seq![AcceptEvent::Cancelled, AcceptEvent::Drained]) == AcceptPhase::Closed(
            LoopExit::Clean,
        ),
        accept_actions(p, seq![AcceptEvent::Cancelled, AcceptEvent::Drained]) == seq![
            AcceptAction::Drain,
            AcceptAction::Finish(LoopExit::Clean),
        ],
{
    let evs = seq![AcceptEvent::Cancelled, AcceptEvent::Drained];
    let rest = evs.drop_first();
    assert(rest =~= seq![AcceptEvent::Drained]);
    assert(rest.drop_first() =~= Seq::<AcceptEvent>::empty());
    let done = AcceptPhase::Closed(LoopExit::Clean);
    assert(accept_step(p, AcceptEvent::Cancelled).0 == AcceptPhase::Draining);
    assert(accept_run(done, rest.drop_first()) == done);
    assert(accept_run(AcceptPhase::Draining, rest) == done);
    assert(accept_actions(done, rest.drop_first()) == Seq::<AcceptAction>::empty());
    assert(accept_actions(AcceptPhase::Draining, rest) =~= seq![
        AcceptAction::Finish(LoopExit::Clean),
    ]);
    assert(accept_actions(p, evs) =~= seq![
        AcceptAction::Drain,
        AcceptAction::Finish(LoopExit::Clean),
    ]);
}

/// Observing cancellation a second time changes nothing: the phase and the action are those
/// of the first time.
pub proof fn cancel_is_idempotent(p: AcceptPhase)
    ensures
        accept_step(accept_step(p, AcceptEvent::Cancelled).0, AcceptEvent::Cancelled)
            == accept_step(p, AcceptEvent::Cancelled),
{
}

} // verus!
