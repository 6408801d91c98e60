//! The supervisor as a state machine: from a state and an event to the next
//! state and the command that the host carries out.
//!
//! The sequence is launch, then probe, then handoff. The host starts with
//! [`Event::Begin`], performs each [`Command`] it is handed and reports the
//! result as the next [`Event`], until it is handed [`Command::Succeed`] or
//! [`Command::Fail`]. An event that the current state does not wait for changes
//! nothing and yields no command.
//!
//! The prober within it has the states probing, ready and failed. Probing
//! attempt `k` is [`SupervisorState::Probing`] while the health check is in
//! flight and [`SupervisorState::Pausing`] during the pause that follows a
//! failure; the budget is tested when that pause has elapsed, before the next
//! attempt is issued. There is no cancellation: a run that has begun ends in
//! [`SupervisorState::Exposed`] or [`SupervisorState::Failed`].

use crate::outcome::{ProbeAttempt, ProbeOutcome};
use crate::policy::ReadinessPolicy;
use vstd::prelude::*;

verus! {

/// The width of the client surface, in logical pixels.
pub const SURFACE_WIDTH: u32 = 1400;

/// The height of the client surface, in logical pixels.
pub const SURFACE_HEIGHT: u32 = 900;

/// The fatal errors of the supervisor. Unhealthy responses and transport
/// failures are no errors of this kind: the probing loop absorbs them.
#[derive(Clone, Copy, Debug, PartialEq, Eq, Structural)]
pub enum SupervisorError {
    /// The child service could not be started.
    LaunchFailure,
    /// The service did not become ready within the given number of attempts.
    ReadinessTimeout { max_attempts: u32 },
    /// The service is ready, but the host could not create the client surface.
    SurfaceCreationFailure,
}

/// Where the supervisor stands.
#[derive(Clone, Copy, Debug, PartialEq, Eq, Structural)]
pub enum SupervisorState {
    /// Nothing has been started.
    Idle,
    /// The launch of the child service has been asked for.
    Launching,
    /// Health check number `attempt` is in flight.
    Probing { attempt: u32 },
    /// Health check number `attempt` failed and the pause that follows it is
    /// running; the budget is tested when the pause has elapsed.
    Pausing { attempt: u32 },
    /// The service answered healthily at attempt number `attempts` and the
    /// creation of the client surface has been asked for.
    Ready { attempts: u32 },
    /// The client surface exists. Terminal.
    Exposed,
    /// The supervisor gave up with the given error. Terminal.
    Failed { error: SupervisorError },
}

/// What the host reports to the supervisor.
#[derive(Clone, Copy, Debug, PartialEq, Eq, Structural)]
pub enum Event {
    /// The host asks the supervisor to start.
    Begin,
    /// The child service was started.
    LaunchSucceeded,
    /// The child service could not be started.
    LaunchFailed,
    /// A health check has been made.
    Probed(ProbeAttempt),
    /// The pause between two attempts has elapsed.
    PauseElapsed,
    /// The client surface was created.
    SurfaceCreated,
    /// The client surface could not be created.
    SurfaceFailed,
}

/// The child service to start: it is told the port to listen on.
#[derive(Clone, Copy, Debug, PartialEq, Eq, Structural)]
pub struct LaunchRequest {
    pub port: u16,
}

/// The client surface to create: a window of the given size that shows the
/// service on the given local port.
#[derive(Clone, Copy, Debug, PartialEq, Eq, Structural)]
pub struct SurfaceRequest {
    pub port: u16,
    pub width: u32,
    pub height: u32,
    pub centered: bool,
}

/// What the supervisor asks the host to do.
#[derive(Clone, Copy, Debug, PartialEq, Eq, Structural)]
pub enum Command {
    /// Start the child service and report `LaunchSucceeded` or `LaunchFailed`.
    Launch(LaunchRequest),
    /// Make health check number `attempt` against the local port `port` and
    /// report it as `Probed`.
    Probe { attempt: u32, port: u16 },
    /// Wait for `secs` seconds and report `PauseElapsed`.
    Pause { secs: u64 },
    /// Create the client surface and report `SurfaceCreated` or
    /// `SurfaceFailed`.
    CreateSurface(SurfaceRequest),
    /// The service is exposed: startup is complete.
    Succeed,
    /// Startup failed for good with the given error.
    Fail(SupervisorError),
}

/// A progress message that accompanies a transition. Advisory only.
#[derive(Clone, Copy, Debug, PartialEq, Eq, Structural)]
pub enum Diagnostic {
    /// The launch of the child service begins.
    Starting,
    /// The child service runs; probing begins.
    Launched,
    /// The service answered with a status that does not show it ready.
    UnhealthyResponse { status: u16, attempt: u32 },
    /// The service is still unreachable after `attempt` of at most
    /// `max_attempts` attempts.
    Waiting { attempt: u32, max_attempts: u32 },
    /// The service is ready after `attempts` attempts.
    Ready { attempts: u32 },
    /// The client surface has been created.
    SurfaceOpened,
}

/// The result of one transition.
#[derive(Clone, Copy, Debug, PartialEq, Eq)]
pub struct Reaction {
    /// The state after the event.
    pub next: SupervisorState,
    /// What the host does next; `None` where the event changed nothing.
    pub command: Option<Command>,
    /// The message to put out, if any.
    pub diagnostic: Option<Diagnostic>,
}

/// The launch that a policy asks for.
pub open spec fn launch_request(policy: ReadinessPolicy) -> LaunchRequest {
    LaunchRequest { port: policy.port }
}

/// The surface that a policy asks for: it shows the port that was probed.
pub open spec fn surface_request(policy: ReadinessPolicy) -> SurfaceRequest {
    SurfaceRequest {
        port: policy.port,
        width: SURFACE_WIDTH,
        height: SURFACE_HEIGHT,
        centered: true,
    }
}

/// The reaction to an event that the state does not wait for.
pub open spec fn unmoved(state: SupervisorState) -> Reaction {
    Reaction { next: state, command: None, diagnostic: None }
}

/// The budget test that precedes every attempt: once `made` attempts have
/// been made, the next one is issued unless `made` has reached the policy's
/// maximum, in which case the supervisor fails with a timeout.
pub open spec fn issue_attempt(
    policy: ReadinessPolicy,
    made: u32,
    diagnostic: Option<Diagnostic>,
) -> Reaction {
    if policy.exhausted(made) {
        let error = SupervisorError::ReadinessTimeout { max_attempts: policy.max_attempts };
        Reaction {
            next: SupervisorState::Failed { error },
            command: Some(Command::Fail(error)),
            diagnostic,
        }
    } else {
        let attempt = (made + 1) as u32;
        Reaction {
            next: SupervisorState::Probing { attempt },
            command: Some(Command::Probe { attempt, port: policy.port }),
            diagnostic,
        }
    }
}

/// The message that goes with a failed attempt: every unhealthy response is
/// reported, a transport failure only at the attempts the policy picks.
pub open spec fn failure_diagnostic(
    policy: ReadinessPolicy,
    attempt: u32,
    outcome: ProbeOutcome,
) -> Option<Diagnostic> {
    match outcome {
        ProbeOutcome::UnhealthyStatus(status) => Some(
            Diagnostic::UnhealthyResponse { status, attempt },
        ),
        ProbeOutcome::TransportFailure => if policy.reports_waiting(attempt) {
            Some(Diagnostic::Waiting { attempt, max_attempts: policy.max_attempts })
        } else {
            None
        },
        ProbeOutcome::Healthy => None,
    }
}

/// The classification of attempt number `attempt`: a healthy outcome ends the
/// loop and asks for the surface; any other outcome asks for the same pause.
pub open spec fn classify_attempt(
    policy: ReadinessPolicy,
    attempt: u32,
    outcome: ProbeOutcome,
) -> Reaction {
    if outcome is Healthy {
        Reaction {
            next: SupervisorState::Ready { attempts: attempt },
            command: Some(Command::CreateSurface(surface_request(policy))),
            diagnostic: Some(Diagnostic::Ready { attempts: attempt }),
        }
    } else {
        Reaction {
            next: SupervisorState::Pausing { attempt },
            command: Some(Command::Pause { secs: policy.delay_secs }),
            diagnostic: failure_diagnostic(policy, attempt, outcome),
        }
    }
}

/// The transition function of the supervisor.
pub open spec fn transition(
    policy: ReadinessPolicy,
    state: SupervisorState,
    event: Event,
) -> Reaction {
    match (state, event) {
        (SupervisorState::Idle, Event::Begin) => Reaction {
            next: SupervisorState::Launching,
            command: Some(Command::Launch(launch_request(policy))),
            diagnostic: Some(Diagnostic::Starting),
        },
        (SupervisorState::Launching, Event::LaunchSucceeded) => issue_attempt(
            policy,
            0,
            Some(Diagnostic::Launched),
        ),
        (SupervisorState::Launching, Event::LaunchFailed) => Reaction {
            next: SupervisorState::Failed { error: SupervisorError::LaunchFailure },
            command: Some(Command::Fail(SupervisorError::LaunchFailure)),
            diagnostic: None,
        },
        (SupervisorState::Probing { attempt }, Event::Probed(record)) => if record.attempt
            == attempt {
            classify_attempt(policy, attempt, record.outcome)
        } else {
            unmoved(state)
        },
        (SupervisorState::Pausing { attempt }, Event::PauseElapsed) => issue_attempt(
            policy,
            attempt,
            None,
        ),
        (SupervisorState::Ready { attempts }, Event::SurfaceCreated) => Reaction {
            next: SupervisorState::Exposed,
            command: Some(Command::Succeed),
            diagnostic: Some(Diagnostic::SurfaceOpened),
        },
        (SupervisorState::Ready { attempts }, Event::SurfaceFailed) => Reaction {
            next: SupervisorState::Failed { error: SupervisorError::SurfaceCreationFailure },
            command: Some(Command::Fail(SupervisorError::SurfaceCreationFailure)),
            diagnostic: None,
        },
        _ => unmoved(state),
    }
}

/// The states that a supervisor with the given policy can be in: attempt
/// numbers run from 1 to the policy's maximum, and a timeout names that
/// maximum.
pub open spec fn state_fits(policy: ReadinessPolicy, state: SupervisorState) -> bool {
    match state {
        SupervisorState::Probing { attempt } => 1 <= attempt <= policy.max_attempts,
        SupervisorState::Pausing { attempt } => 1 <= attempt <= policy.max_attempts,
        SupervisorState::Ready { attempts } => 1 <= attempts <= policy.max_attempts,
        SupervisorState::Failed { error: SupervisorError::ReadinessTimeout { max_attempts } } =>
            max_attempts == policy.max_attempts,
        _ => true,
    }
}

/// A supervisor: a policy, fixed for good, and the current state.
pub struct Supervisor {
    policy: ReadinessPolicy,
    state: SupervisorState,
}

/// The policy and state of a supervisor, as contracts see them.
pub struct SupervisorView {
    pub policy: ReadinessPolicy,
    pub state: SupervisorState,
}

impl View for Supervisor {
    type V = SupervisorView;

    closed spec fn view(&self) -> SupervisorView {
        SupervisorView { policy: self.policy, state: self.state }
    }
}

impl Supervisor {
    #[verifier::type_invariant]
    spec fn well_formed(&self) -> bool {
        state_fits(self.policy, self.state)
    }

    /// Makes a supervisor that has not started yet.
    pub fn new(policy: ReadinessPolicy) -> (supervisor: Supervisor)
        ensures
            supervisor@.policy == policy,
            supervisor@.state == SupervisorState::Idle,
    {
        Supervisor { policy, state: SupervisorState::Idle }
    }

    /// The policy that this supervisor was made with.
    pub fn policy(&self) -> (policy: ReadinessPolicy)
        ensures
            policy == self@.policy,
    {
        self.policy
    }

    /// The current state. It always fits the policy.
    pub fn state(&self) -> (state: SupervisorState)
        ensures
            state == self@.state,
            state_fits(self@.policy, state),
    {
        proof {
            use_type_invariant(self);
        }
        self.state
    }

    /// Whether the supervisor has reached `Exposed` or `Failed`.
    pub fn is_finished(&self) -> (finished: bool)
        ensures
            finished == (self@.state is Exposed || self@.state is Failed),
    {
        match self.state {
            SupervisorState::Exposed => true,
            SupervisorState::Failed { .. } => true,
            _ => false,
        }
    }

    /// Takes in an event: moves to the next state and says what the host does
    /// next. The policy stays as it is.
    pub fn handle(&mut self, event: Event) -> (reaction: Reaction)
        ensures
            reaction == transition(old(self)@.policy, old(self)@.state, event),
            final(self)@.policy == old(self)@.policy,
            final(self)@.state == reaction.next,
    {
        proof {
            use_type_invariant(&*self);
        }
        let reaction = react(&self.policy, self.state, event);
        self.state = reaction.next;
        reaction
    }
}

/// Computes one transition for a policy, a state and an event, without a
/// supervisor to hold them.
pub fn react(policy: &ReadinessPolicy, state: SupervisorState, event: Event) -> (reaction:
    Reaction)
    ensures
        reaction == transition(*policy, state, event),
        state_fits(*policy, state) ==> state_fits(*policy, reaction.next),
{
    match (state, event) {
        (SupervisorState::Idle, Event::Begin) => Reaction {
            next: SupervisorState::Launching,
            command: Some(Command::Launch(LaunchRequest { port: policy.port })),
            diagnostic: Some(Diagnostic::Starting),
        },
        (SupervisorState::Launching, Event::LaunchSucceeded) => next_attempt(
            policy,
            0,
            Some(Diagnostic::Launched),
        ),
        (SupervisorState::Launching, Event::LaunchFailed) => Reaction {
            next: SupervisorState::Failed { error: SupervisorError::LaunchFailure },
            command: Some(Command::Fail(SupervisorError::LaunchFailure)),
            diagnostic: None,
        },
        (SupervisorState::Probing { attempt }, Event::Probed(record)) => {
            if record.attempt == attempt {
                classify(policy, attempt, record.outcome)
            } else {
                Reaction { next: state, command: None, diagnostic: None }
            }
        },
        (SupervisorState::Pausing { attempt }, Event::PauseElapsed) => next_attempt(
            policy,
            attempt,
            None,
        ),
        (SupervisorState::Ready { .. }, Event::SurfaceCreated) => Reaction {
            next: SupervisorState::Exposed,
            command: Some(Command::Succeed),
            diagnostic: Some(Diagnostic::SurfaceOpened),
        },
        (SupervisorState::Ready { .. }, Event::SurfaceFailed) => Reaction {
            next: SupervisorState::Failed { error: SupervisorError::SurfaceCreationFailure },
            command: Some(Command::Fail(SupervisorError::SurfaceCreationFailure)),
            diagnostic: None,
        },
        _ => Reaction { next: state, command: None, diagnostic: None },
    }
}

/// Tests the budget and issues the attempt that follows `made` attempts.
fn next_attempt(policy: &ReadinessPolicy, made: u32, diagnostic: Option<Diagnostic>) -> (reaction:
    Reaction)
    ensures
        reaction == issue_attempt(*policy, made, diagnostic),
{
    if policy.is_exhausted(made) {
        let error = SupervisorError::ReadinessTimeout { max_attempts: policy.max_attempts };
        Reaction { next: SupervisorState::Failed { error }, command: Some(Command::Fail(error)), diagnostic }
    } else {
        let attempt: u32 = made + 1;
        Reaction {
            next: SupervisorState::Probing { attempt },
            command: Some(Command::Probe { attempt, port: policy.port }),
            diagnostic,
        }
    }
}

/// Classifies the outcome of attempt number `attempt`.
fn classify(policy: &ReadinessPolicy, attempt: u32, outcome: ProbeOutcome) -> (reaction: Reaction)
    ensures
        reaction == classify_attempt(*policy, attempt, outcome),
{
    match outcome {
        ProbeOutcome::Healthy => Reaction {
            next: SupervisorState::Ready { attempts: attempt },
            command: Some(
                Command::CreateSurface(
                    SurfaceRequest {
                        port: policy.port,
                        width: SURFACE_WIDTH,
                        height: SURFACE_HEIGHT,
                        centered: true,
                    },
                ),
            ),
            diagnostic: Some(Diagnostic::Ready { attempts: attempt }),
        },
        ProbeOutcome::UnhealthyStatus(status) => Reaction {
            next: SupervisorState::Pausing { attempt },
            command: Some(Command::Pause { secs: policy.delay_secs }),
            diagnostic: Some(Diagnostic::UnhealthyResponse { status, attempt }),
        },
        ProbeOutcome::TransportFailure => {
            let diagnostic = if policy.is_waiting_reported(attempt) {
                Some(Diagnostic::Waiting { attempt, max_attempts: policy.max_attempts })
            } else {
                None
            };
            Reaction {
                next: SupervisorState::Pausing { attempt },
                command: Some(Command::Pause { secs: policy.delay_secs }),
                diagnostic,
            }
        },
    }
}

} // verus!
