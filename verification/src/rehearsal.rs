//! Rehearsing a whole run: the supervisor is driven against answers that are
//! known in advance, with no host and no waiting.

use crate::laws::{law_every_run_ends, lemma_step_uses_budget, steps_left};
use crate::machine::{state_fits, Command, Diagnostic, Event, Supervisor, SupervisorState};
use crate::outcome::{ProbeAttempt, ProbeOutcome};
use crate::policy::ReadinessPolicy;
use crate::run::{advance, answer, completed, drive, Script};
use vstd::prelude::*;

verus! {

/// The record of a rehearsed run: the state in which it ended, and every
/// command and every message that the supervisor gave, in order.
#[derive(Debug, PartialEq, Eq)]
pub struct Rehearsal {
    pub state: SupervisorState,
    pub commands: Vec<Command>,
    pub diagnostics: Vec<Diagnostic>,
}

/// Answers a command as the script says.
fn scripted_answer(
    launch_ok: bool,
    outcomes: &Vec<ProbeOutcome>,
    surface_ok: bool,
    command: Command,
) -> (event: Option<Event>)
    ensures
        event == answer(Script { launch_ok, outcomes: outcomes@, surface_ok }, command),
{
    match command {
        Command::Launch(_) => Some(
            if launch_ok {
                Event::LaunchSucceeded
            } else {
                Event::LaunchFailed
            },
        ),
        Command::Probe { attempt, port } => {
            if 1 <= attempt && attempt as usize <= outcomes.len() {
                let outcome = outcomes[(attempt - 1) as usize];
                Some(Event::Probed(ProbeAttempt { attempt, outcome }))
            } else {
                None
            }
        },
        Command::Pause { secs } => Some(Event::PauseElapsed),
        Command::CreateSurface(_) => Some(
            if surface_ok {
                Event::SurfaceCreated
            } else {
                Event::SurfaceFailed
            },
        ),
        Command::Succeed => None,
        Command::Fail(_) => None,
    }
}

/// Runs a supervisor with the given policy to the end against a host that
/// answers as told: the launch works or not, health check number `i + 1` shows
/// `outcomes[i]`, and the surface can be created or not. Where the outcomes
/// run out before the supervisor is ready or has given up, the rehearsal ends
/// with the health check that has no answer.
pub fn rehearse(
    policy: ReadinessPolicy,
    launch_ok: bool,
    outcomes: &Vec<ProbeOutcome>,
    surface_ok: bool,
) -> (record: Rehearsal)
    ensures
        record.state == completed(
            policy,
            Script { launch_ok, outcomes: outcomes@, surface_ok },
        ).state,
        record.commands@ == completed(
            policy,
            Script { launch_ok, outcomes: outcomes@, surface_ok },
        ).commands,
        record.diagnostics@ == completed(
            policy,
            Script { launch_ok, outcomes: outcomes@, surface_ok },
        ).diagnostics,
{
    let ghost script = Script { launch_ok, outcomes: outcomes@, surface_ok };
    let mut supervisor = Supervisor::new(policy);
    let mut commands: Vec<Command> = Vec::new();
    let mut diagnostics: Vec<Diagnostic> = Vec::new();
    let mut pending = Some(Event::Begin);
    let ghost mut steps: nat = 0;
    while pending.is_some()
        invariant
            script == (Script { launch_ok, outcomes: outcomes@, surface_ok }),
            supervisor@.policy == policy,
            state_fits(policy, supervisor@.state),
            drive(policy, script, steps).state == supervisor@.state,
            drive(policy, script, steps).commands == commands@,
            drive(policy, script, steps).diagnostics == diagnostics@,
            drive(policy, script, steps).pending == pending,
        decreases steps_left(policy, supervisor@.state, pending),
    {
        let ghost before = drive(policy, script, steps);
        let event = pending.unwrap();
        let reaction = supervisor.handle(event);
        match reaction.diagnostic {
            None => {},
            Some(diagnostic) => {
                diagnostics.push(diagnostic);
            },
        }
        match reaction.command {
            None => {
                pending = None;
            },
            Some(command) => {
                commands.push(command);
                pending = scripted_answer(launch_ok, outcomes, surface_ok, command);
            },
        }
        proof {
            steps = steps + 1;
            lemma_step_uses_budget(policy, script, before);
            assert(drive(policy, script, steps) == advance(policy, script, before));
        }
    }
    proof {
        law_every_run_ends(policy, script);
    }
    Rehearsal { state: supervisor.state(), commands, diagnostics }
}

} // verus!
