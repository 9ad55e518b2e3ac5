//! The reconnect service state machine.
//!
//! Wraps a connector and a connection manager into a supervised, cancellable
//! service instance. Exactly one lifecycle state holds at any instant:
//! `Inactive`, `Connecting`, `Active` (carrying the live service handle) or
//! `Cooldown` (waiting out a deadline). The transition function is the sole
//! writer of state; the surrounding driver performs the returned action (it
//! starts connection attempts, tears sessions down, schedules timers) and
//! feeds the next event back in.
//!
//! A cancelled handle is terminal: it transitions to `Inactive` at once,
//! whatever state it was in and whatever timers are pending, and never
//! resurrects; a fatal connect failure ends the handle the same way.

use vstd::prelude::*;

use crate::connection_manager::sat_add64;
use crate::errors::ErrorClass;

verus! {

/// Lifecycle state of one supervised service instance with handle type `S`.
#[derive(Debug)]
pub enum ServiceState<S> {
    /// Not running and not trying to run.
    Inactive,
    /// A connection attempt is in flight.
    Connecting,
    /// The service is usable; carries the live service handle.
    Active(S),
    /// No attempt in flight; the next attempt starts when the deadline
    /// elapses or a network-change event arrives, whichever is first.
    Cooldown { until_ms: u64 },
}

/// An observation delivered to the state machine.
#[derive(Debug)]
pub enum ServiceEvent<S> {
    /// The caller asks the service to start.
    StartRequested,
    /// The in-flight connection attempt produced a live service handle.
    ConnectSucceeded(S),
    /// The in-flight connection attempt failed, with the failure's class
    /// and, for a retryable failure, the cooldown duration derived from it
    /// in milliseconds.
    ConnectFailed(ErrorClass, u64),
    /// The active session ended, cleanly or through an error.
    SessionEnded,
    /// Something about network reachability changed.
    NetworkChanged,
    /// The caller asks for cancellation.
    CancelRequested,
    /// The scheduled cooldown timer fired.
    TimerFired,
}

/// What the driver must do after a transition.
#[derive(Copy, Clone, Debug, PartialEq, Eq, Structural)]
pub enum ServiceAction {
    /// Nothing to do.
    Idle,
    /// Start a connection attempt.
    BeginConnect,
    /// Tear down any in-flight attempt or active session.
    TearDownSession,
    /// Schedule a timer for the given deadline, in milliseconds.
    WaitUntil(u64),
    /// Surface the fatal connect failure to the caller; the handle is done.
    SurfaceFatal,
}

/// One supervised service instance: its lifecycle state, and whether the
/// handle has ended for good (by cancellation or a fatal failure).
#[derive(Debug)]
pub struct ReconnectService<S> {
    /// The current lifecycle state.
    pub state: ServiceState<S>,
    /// Whether this handle is finished and will never leave `Inactive`.
    pub terminated: bool,
}

/// What one event does to a service at time `now`: the service afterwards
/// and the action the driver must perform.
///
/// Cancellation wins over everything: it moves any state to `Inactive`
/// immediately, regardless of pending timers. A terminated handle ignores
/// every other event. Otherwise: a start request begins connecting from
/// `Inactive`; success while connecting activates the session; a retryable
/// connect failure starts a cooldown and a fatal one ends the handle; the
/// session ending or a network change while active reconnects; a network
/// change during cooldown reconnects immediately, and the timer reaching the
/// cooldown deadline does the same.
pub open spec fn spec_transition<S>(
    svc: ReconnectService<S>,
    now_ms: u64,
    event: ServiceEvent<S>,
) -> (ReconnectService<S>, ServiceAction) {
    match event {
        ServiceEvent::CancelRequested => (
            ReconnectService { state: ServiceState::Inactive, terminated: true },
            ServiceAction::TearDownSession,
        ),
        _ => {
            if svc.terminated {
                (svc, ServiceAction::Idle)
            } else {
                match event {
                    ServiceEvent::CancelRequested => (svc, ServiceAction::Idle),
                    ServiceEvent::StartRequested => match svc.state {
                        ServiceState::Inactive => (
                            ReconnectService { state: ServiceState::Connecting, ..svc },
                            ServiceAction::BeginConnect,
                        ),
                        _ => (svc, ServiceAction::Idle),
                    },
                    ServiceEvent::ConnectSucceeded(handle) => match svc.state {
                        ServiceState::Connecting => (
                            ReconnectService { state: ServiceState::Active(handle), ..svc },
                            ServiceAction::Idle,
                        ),
                        _ => (svc, ServiceAction::Idle),
                    },
                    ServiceEvent::ConnectFailed(class, cooldown_ms) => match svc.state {
                        ServiceState::Connecting => if class == ErrorClass::Retryable {
                            (
                                ReconnectService {
                                    state: ServiceState::Cooldown {
                                        until_ms: sat_add64(now_ms, cooldown_ms),
                                    },
                                    ..svc
                                },
                                ServiceAction::WaitUntil(sat_add64(now_ms, cooldown_ms)),
                            )
                        } else {
                            (
                                ReconnectService { state: ServiceState::Inactive, terminated: true },
                                ServiceAction::SurfaceFatal,
                            )
                        },
                        _ => (svc, ServiceAction::Idle),
                    },
                    ServiceEvent::SessionEnded => match svc.state {
                        ServiceState::Active(_) => (
                            ReconnectService { state: ServiceState::Connecting, ..svc },
                            ServiceAction::BeginConnect,
                        ),
                        _ => (svc, ServiceAction::Idle),
                    },
                    ServiceEvent::NetworkChanged => match svc.state {
                        ServiceState::Active(_) => (
                            ReconnectService { state: ServiceState::Connecting, ..svc },
                            ServiceAction::BeginConnect,
                        ),
                        ServiceState::Cooldown { .. } => (
                            ReconnectService { state: ServiceState::Connecting, ..svc },
                            ServiceAction::BeginConnect,
                        ),
                        _ => (svc, ServiceAction::Idle),
                    },
                    ServiceEvent::TimerFired => match svc.state {
                        ServiceState::Cooldown { until_ms } => if now_ms >= until_ms {
                            (
                                ReconnectService { state: ServiceState::Connecting, ..svc },
                                ServiceAction::BeginConnect,
                            )
                        } else {
                            (svc, ServiceAction::Idle)
                        },
                        _ => (svc, ServiceAction::Idle),
                    },
                }
            }
        },
    }
}

impl<S> ReconnectService<S> {
    /// A handle that has ended for good is `Inactive`; transitions keep it
    /// so.
    pub open spec fn wf(self) -> bool {
        self.terminated ==> self.state is Inactive
    }

    /// A fresh, not-yet-started handle.
    pub fn new() -> (r: ReconnectService<S>)
        ensures
            r.state is Inactive,
            !r.terminated,
    {
        ReconnectService { state: ServiceState::Inactive, terminated: false }
    }

    /// Apply one event at time `now` and return the action the driver must
    /// perform. The transition function is the sole writer of the state.
    pub fn handle_event(&mut self, now_ms: u64, event: ServiceEvent<S>) -> (action: ServiceAction)
        ensures
            (*final(self), action) == spec_transition(*old(self), now_ms, event),
    {
        match event {
            ServiceEvent::CancelRequested => {
                self.state = ServiceState::Inactive;
                self.terminated = true;
                ServiceAction::TearDownSession
            },
            ServiceEvent::StartRequested => {
                if self.terminated {
                    return ServiceAction::Idle;
                }
                match &self.state {
                    ServiceState::Inactive => {
                        self.state = ServiceState::Connecting;
                        ServiceAction::BeginConnect
                    },
                    _ => ServiceAction::Idle,
                }
            },
            ServiceEvent::ConnectSucceeded(handle) => {
                if self.terminated {
                    return ServiceAction::Idle;
                }
                match &self.state {
                    ServiceState::Connecting => {
                        self.state = ServiceState::Active(handle);
                        ServiceAction::Idle
                    },
                    _ => ServiceAction::Idle,
                }
            },
            ServiceEvent::ConnectFailed(class, cooldown_ms) => {
                if self.terminated {
                    return ServiceAction::Idle;
                }
                match &self.state {
                    ServiceState::Connecting => {
                        if class == ErrorClass::Retryable {
                            let until = crate::connection_manager::sat_add(now_ms, cooldown_ms);
                            self.state = ServiceState::Cooldown { until_ms: until };
                            ServiceAction::WaitUntil(until)
                        } else {
                            self.state = ServiceState::Inactive;
                            self.terminated = true;
                            ServiceAction::SurfaceFatal
                        }
                    },
                    _ => ServiceAction::Idle,
                }
            },
            ServiceEvent::SessionEnded => {
                if self.terminated {
                    return ServiceAction::Idle;
                }
                match &self.state {
                    ServiceState::Active(_) => {
                        self.state = ServiceState::Connecting;
                        ServiceAction::BeginConnect
                    },
                    _ => ServiceAction::Idle,
                }
            },
            ServiceEvent::NetworkChanged => {
                if self.terminated {
                    return ServiceAction::Idle;
                }
                match &self.state {
                    ServiceState::Active(_) => {
                        self.state = ServiceState::Connecting;
                        ServiceAction::BeginConnect
                    },
                    ServiceState::Cooldown { .. } => {
                        self.state = ServiceState::Connecting;
                        ServiceAction::BeginConnect
                    },
                    _ => ServiceAction::Idle,
                }
            },
            ServiceEvent::TimerFired => {
                if self.terminated {
                    return ServiceAction::Idle;
                }
                match &self.state {
                    ServiceState::Cooldown { until_ms } => {
                        if now_ms >= *until_ms {
                            self.state = ServiceState::Connecting;
                            ServiceAction::BeginConnect
                        } else {
                            ServiceAction::Idle
                        }
                    },
                    _ => ServiceAction::Idle,
                }
            },
        }
    }
}

/// Every transition keeps a well-formed handle well formed: a terminated
/// handle is always `Inactive`.
pub proof fn lemma_transition_preserves_wf<S>(
    svc: ReconnectService<S>,
    now_ms: u64,
    event: ServiceEvent<S>,
)
    requires
        svc.wf(),
    ensures
        spec_transition(svc, now_ms, event).0.wf(),
{
}

/// Cancellation moves a service in any state to `Inactive` in one step,
/// independent of any pending cooldown timer, and the session is torn down.
pub proof fn lemma_cancel_immediate<S>(svc: ReconnectService<S>, now_ms: u64)
    ensures
        spec_transition(svc, now_ms, ServiceEvent::<S>::CancelRequested).0.state is Inactive,
        spec_transition(svc, now_ms, ServiceEvent::<S>::CancelRequested).0.terminated,
        spec_transition(svc, now_ms, ServiceEvent::<S>::CancelRequested).1
            == ServiceAction::TearDownSession,
{
}

/// A network-change event during cooldown re-enters `Connecting` at once: it
/// does not wait out the remaining cooldown, whatever the deadline is.
pub proof fn lemma_network_change_in_cooldown<S>(svc: ReconnectService<S>, now_ms: u64)
    requires
        svc.state is Cooldown,
        !svc.terminated,
    ensures
        spec_transition(svc, now_ms, ServiceEvent::<S>::NetworkChanged).0.state is Connecting,
        spec_transition(svc, now_ms, ServiceEvent::<S>::NetworkChanged).1
            == ServiceAction::BeginConnect,
{
}

/// A terminated handle never resurrects: whatever event arrives, it stays
/// `Inactive` and terminated.
pub proof fn lemma_terminated_stays_inactive<S>(
    svc: ReconnectService<S>,
    now_ms: u64,
    event: ServiceEvent<S>,
)
    requires
        svc.terminated,
        svc.state is Inactive,
    ensures
        spec_transition(svc, now_ms, event).0.state is Inactive,
        spec_transition(svc, now_ms, event).0.terminated,
{
}

} // verus!
