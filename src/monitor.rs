use vstd::prelude::*;

use crate::latch::TerminationLatch;

verus! {

/// The session's connection state, as the engine reports it.
#[derive(Clone, Copy, Debug, PartialEq, Eq, Structural)]
pub enum ConnectionState {
    Unspecified,
    New,
    Connecting,
    Connected,
    Disconnected,
    Failed,
    Closed,
}

/// Watches connection-state transitions and raises the termination signal once,
/// on the first transition to `Failed`.
pub struct ConnectionMonitor {
    pub latch: TerminationLatch,
}

/// The latch after observing `s`, and whether the signal is raised by it.
pub open spec fn monitor_next(fired: bool, s: ConnectionState) -> (bool, bool) {
    if s == ConnectionState::Failed {
        (true, !fired)
    } else {
        (fired, false)
    }
}

/// How many times the signal is raised while observing `states` in order.
pub open spec fn signals(fired: bool, states: Seq<ConnectionState>) -> nat
    decreases states.len(),
{
    if states.len() == 0 {
        0
    } else {
        let (f, raised) = monitor_next(fired, states[0]);
        (if raised {
            1nat
        } else {
            0nat
        }) + signals(f, states.drop_first())
    }
}

/// The signal is raised at most once over any sequence of states, and never after
/// it has fired.
pub proof fn lemma_signal_at_most_once(fired: bool, states: Seq<ConnectionState>)
    ensures
        signals(fired, states) <= 1,
        fired ==> signals(fired, states) == 0,
    decreases states.len(),
{
    if states.len() > 0 {
        let (f, raised) = monitor_next(fired, states[0]);
        lemma_signal_at_most_once(f, states.drop_first());
    }
}

/// Observing any sequence of states that holds `Failed` one or more times raises
/// the signal exactly once.
pub proof fn lemma_signal_exactly_once(states: Seq<ConnectionState>)
    requires
        states.contains(ConnectionState::Failed),
    ensures
        signals(false, states) == 1,
    decreases states.len(),
{
    if states[0] == ConnectionState::Failed {
        lemma_signal_at_most_once(true, states.drop_first());
    } else {
        let i = choose|i: int| 0 <= i < states.len() && states[i] == ConnectionState::Failed;
        assert(states.drop_first()[i - 1] == ConnectionState::Failed);
        lemma_signal_exactly_once(states.drop_first());
    }
}

impl ConnectionMonitor {
    pub fn new() -> (r: Self)
        ensures
            !r.latch.fired,
    {
        ConnectionMonitor { latch: TerminationLatch::new() }
    }

    /// Observes one transition; returns true exactly when it raises the signal.
    pub fn on_state_change(&mut self, s: ConnectionState) -> (raised: bool)
        ensures
            (final(self).latch.fired, raised) == monitor_next(old(self).latch.fired, s),
    {
        if s == ConnectionState::Failed {
            self.latch.fire()
        } else {
            false
        }
    }
}

/// Why the session is being closed.
#[derive(Clone, Copy, Debug, PartialEq, Eq, Structural)]
pub enum ShutdownReason {
    TransportFailure,
    Interrupted,
}

/// The two triggers that race to end the session.
#[derive(Clone, Copy, Debug, PartialEq, Eq, Structural)]
pub enum ShutdownEvent {
    /// The termination signal was raised.
    TerminationSignal,
    /// The operator asked to stop.
    Interrupt,
}

pub open spec fn reason_of(e: ShutdownEvent) -> ShutdownReason {
    match e {
        ShutdownEvent::TerminationSignal => ShutdownReason::TransportFailure,
        ShutdownEvent::Interrupt => ShutdownReason::Interrupted,
    }
}

/// Decides, from whichever trigger comes first, when and why the session closes.
pub struct ShutdownCoordinator {
    pub reason: Option<ShutdownReason>,
}

/// The reason after `e`, and whether the session is to be closed now.
pub open spec fn shutdown_next(reason: Option<ShutdownReason>, e: ShutdownEvent) -> (
    Option<ShutdownReason>,
    bool,
) {
    match reason {
        Some(_) => (reason, false),
        None => (Some(reason_of(e)), true),
    }
}

/// The reason and the number of closes after the events `evs` in order.
pub open spec fn shutdown_run(reason: Option<ShutdownReason>, evs: Seq<ShutdownEvent>) -> (
    Option<ShutdownReason>,
    nat,
)
    decreases evs.len(),
{
    if evs.len() == 0 {
        (reason, 0)
    } else {
        let (r1, close) = shutdown_next(reason, evs[0]);
        let (r2, n) = shutdown_run(r1, evs.drop_first());
        (r2, n + if close {
            1nat
        } else {
            0nat
        })
    }
}

proof fn lemma_decided_stays(reason: Option<ShutdownReason>, evs: Seq<ShutdownEvent>)
    requires
        reason is Some,
    ensures
        shutdown_run(reason, evs) == (reason, 0nat),
    decreases evs.len(),
{
    if evs.len() > 0 {
        lemma_decided_stays(reason, evs.drop_first());
    }
}

/// Whatever triggers arrive, in whatever order, the session is closed exactly
/// once, for the reason of the first trigger; later triggers are not consulted.
pub proof fn lemma_first_trigger_wins(evs: Seq<ShutdownEvent>)
    requires
        evs.len() > 0,
    ensures
        shutdown_run(None, evs) == (Some(reason_of(evs[0])), 1nat),
{
    lemma_decided_stays(Some(reason_of(evs[0])), evs.drop_first());
}

/// An interrupt that comes before any termination signal closes the session once,
/// with the interrupt as its reason.
pub proof fn lemma_interrupt_first(evs: Seq<ShutdownEvent>)
    requires
        evs.len() > 0,
        evs[0] == ShutdownEvent::Interrupt,
    ensures
        shutdown_run(None, evs) == (Some(ShutdownReason::Interrupted), 1nat),
{
    lemma_first_trigger_wins(evs);
}

impl ShutdownCoordinator {
    pub fn new() -> (r: Self)
        ensures
            r.reason is None,
    {
        ShutdownCoordinator { reason: None }
    }

    /// Takes one trigger; returns true exactly when the session is to be closed now.
    pub fn on_event(&mut self, e: ShutdownEvent) -> (close: bool)
        ensures
            (final(self).reason, close) == shutdown_next(old(self).reason, e),
    {
        match self.reason {
            Some(_) => false,
            None => {
                self.reason = Some(
                    match e {
                        ShutdownEvent::TerminationSignal => ShutdownReason::TransportFailure,
                        ShutdownEvent::Interrupt => ShutdownReason::Interrupted,
                    },
                );
                true
            },
        }
    }
}

} // verus!
