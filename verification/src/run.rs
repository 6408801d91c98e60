//! Whole runs of the supervisor against a host whose answers are known in
//! advance. This is the model over which the laws of the library are stated.

use crate::machine::{transition, Command, Diagnostic, Event, SupervisorState};
use crate::outcome::{ProbeAttempt, ProbeOutcome};
use crate::policy::ReadinessPolicy;
use vstd::prelude::*;

verus! {

/// What the world outside will answer: whether the launch works, what each
/// health check shows (`outcomes[i]` is the outcome of attempt `i + 1`), and
/// whether the surface can be created.
pub struct Script {
    pub launch_ok: bool,
    pub outcomes: Seq<ProbeOutcome>,
    pub surface_ok: bool,
}

/// The event by which a faithful host answers a command. `Succeed` and `Fail`
/// end the run and have no answer; neither has a health check beyond the end
/// of the script.
pub open spec fn answer(script: Script, command: Command) -> Option<Event> {
    match command {
        Command::Launch(_) => Some(
            if script.launch_ok {
                Event::LaunchSucceeded
            } else {
                Event::LaunchFailed
            },
        ),
        Command::Probe { attempt, port } => if 1 <= attempt <= script.outcomes.len() {
            Some(Event::Probed(ProbeAttempt { attempt, outcome: script.outcomes[attempt - 1] }))
        } else {
            None
        },
        Command::Pause { secs } => Some(Event::PauseElapsed),
        Command::CreateSurface(_) => Some(
            if script.surface_ok {
                Event::SurfaceCreated
            } else {
                Event::SurfaceFailed
            },
        ),
        Command::Succeed => None,
        Command::Fail(_) => None,
    }
}

/// A run so far: the state reached, every command issued and every message
/// put out, in order, and the event that the host reports next (`None` once
/// the run is over).
pub struct Run {
    pub state: SupervisorState,
    pub commands: Seq<Command>,
    pub diagnostics: Seq<Diagnostic>,
    pub pending: Option<Event>,
}

/// The run before anything has happened: the host is about to report `Begin`.
pub open spec fn start() -> Run {
    Run {
        state: SupervisorState::Idle,
        commands: Seq::empty(),
        diagnostics: Seq::empty(),
        pending: Some(Event::Begin),
    }
}

/// One step of a run: the supervisor takes in the pending event, and the host
/// answers the command that comes back. A run that is over stays as it is.
pub open spec fn advance(policy: ReadinessPolicy, script: Script, run: Run) -> Run {
    match run.pending {
        None => run,
        Some(event) => {
            let reaction = transition(policy, run.state, event);
            let diagnostics = match reaction.diagnostic {
                None => run.diagnostics,
                Some(diagnostic) => run.diagnostics.push(diagnostic),
            };
            match reaction.command {
                None => Run {
                    state: reaction.next,
                    commands: run.commands,
                    diagnostics,
                    pending: None,
                },
                Some(command) => Run {
                    state: reaction.next,
                    commands: run.commands.push(command),
                    diagnostics,
                    pending: answer(script, command),
                },
            }
        },
    }
}

/// The run after the supervisor has taken in `steps` events.
pub open spec fn drive(policy: ReadinessPolicy, script: Script, steps: nat) -> Run
    decreases steps,
{
    if steps == 0 {
        start()
    } else {
        advance(policy, script, drive(policy, script, (steps - 1) as nat))
    }
}

/// How many health checks a sequence of commands asks for.
pub open spec fn probes_in(commands: Seq<Command>) -> nat
    decreases commands.len(),
{
    if commands.len() == 0 {
        0
    } else {
        probes_in(commands.drop_last()) + if commands.last() is Probe {
            1nat
        } else {
            0nat
        }
    }
}

/// How many pauses a sequence of commands asks for.
pub open spec fn pauses_in(commands: Seq<Command>) -> nat
    decreases commands.len(),
{
    if commands.len() == 0 {
        0
    } else {
        pauses_in(commands.drop_last()) + if commands.last() is Pause {
            1nat
        } else {
            0nat
        }
    }
}

/// How many surface creations a sequence of commands asks for.
pub open spec fn surfaces_in(commands: Seq<Command>) -> nat
    decreases commands.len(),
{
    if commands.len() == 0 {
        0
    } else {
        surfaces_in(commands.drop_last()) + if commands.last() is CreateSurface {
            1nat
        } else {
            0nat
        }
    }
}

/// Appending a command raises the count of its own kind by one and leaves the
/// other counts as they are.
pub proof fn lemma_counts_after_push(commands: Seq<Command>, command: Command)
    ensures
        probes_in(commands.push(command)) == probes_in(commands) + if command is Probe {
            1nat
        } else {
            0nat
        },
        pauses_in(commands.push(command)) == pauses_in(commands) + if command is Pause {
            1nat
        } else {
            0nat
        },
        surfaces_in(commands.push(command)) == surfaces_in(commands) + if command
            is CreateSurface {
            1nat
        } else {
            0nat
        },
{
    assert(commands.push(command).drop_last() =~= commands);
}

/// The number of events that the supervisor has taken in once the result of
/// attempt `attempt` is in, if the launch worked and every earlier attempt
/// failed: `Begin`, the launch result, `attempt` results and the
/// `attempt - 1` pauses between them.
pub open spec fn steps_to_result(attempt: nat) -> nat {
    2 * attempt + 1
}

/// The largest number of events that any run under `policy` takes in: two for
/// the launch, `Begin` and its result, and two for each attempt that the
/// budget allows, its result and the pause after it.
pub open spec fn longest_run(policy: ReadinessPolicy) -> nat {
    2 + 2 * (policy.max_attempts as nat)
}

/// The whole run of the supervisor against a script.
pub open spec fn completed(policy: ReadinessPolicy, script: Script) -> Run {
    drive(policy, script, longest_run(policy))
}

} // verus!
