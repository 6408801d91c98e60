//! The laws of the supervisor, proved over the transition function and over
//! whole runs against a scripted host.

use crate::machine::{
    launch_request, state_fits, surface_request, transition, unmoved, Command, Diagnostic, Event,
    SupervisorError, SupervisorState,
};
use crate::outcome::{ProbeAttempt, ProbeOutcome};
use crate::policy::ReadinessPolicy;
use crate::run::{
    advance, completed, drive, lemma_counts_after_push, longest_run, pauses_in, probes_in, start,
    steps_to_result, surfaces_in, Run, Script,
};
use vstd::prelude::*;

verus! {

/// The launch is asked for once: by `Begin` in the idle state and by nothing
/// else, and no transition leads back to the idle state.
pub proof fn law_single_launch(policy: ReadinessPolicy, state: SupervisorState, event: Event)
    ensures
        (transition(policy, state, event).command is Some && transition(
            policy,
            state,
            event,
        ).command->0 is Launch) <==> (state is Idle && event is Begin),
        state is Idle && event is Begin ==> transition(policy, state, event).command == Some(
            Command::Launch(launch_request(policy)),
        ),
        transition(policy, state, event).next is Idle ==> state is Idle && !(event is Begin),
{
}

/// Attempts are made one at a time and in order. A health check is asked for
/// only when the launch has worked, as attempt 1, or when the pause after a
/// failed attempt has elapsed, as the attempt that follows it; never while
/// another one is in flight. It is always against the policy's port.
pub proof fn law_one_attempt_at_a_time(
    policy: ReadinessPolicy,
    state: SupervisorState,
    event: Event,
)
    ensures
        transition(policy, state, event).command matches Some(Command::Probe { attempt, port })
            ==> {
            &&& port == policy.port
            &&& transition(policy, state, event).next == SupervisorState::Probing { attempt }
            &&& {
                ||| state is Launching && event is LaunchSucceeded && attempt == 1
                ||| state is Pausing && event is PauseElapsed && attempt == state->Pausing_attempt
                    + 1
            }
        },
{
}

/// A failed health check is never fatal by itself: whatever the kind of
/// failure and whatever the attempt, it leads to the pause after that attempt,
/// and the pause is the policy's delay. No other pause is ever asked for.
/// Under the standard policy the delay is one second.
pub proof fn law_pause_is_uniform(
    policy: ReadinessPolicy,
    state: SupervisorState,
    event: Event,
    attempt: u32,
    outcome: ProbeOutcome,
)
    ensures
        !(outcome is Healthy) ==> transition(
            policy,
            SupervisorState::Probing { attempt },
            Event::Probed(ProbeAttempt { attempt, outcome }),
        ).next == (SupervisorState::Pausing { attempt }),
        !(outcome is Healthy) ==> transition(
            policy,
            SupervisorState::Probing { attempt },
            Event::Probed(ProbeAttempt { attempt, outcome }),
        ).command == Some(Command::Pause { secs: policy.delay_secs }),
        transition(policy, state, event).command matches Some(Command::Pause { secs }) ==> secs
            == policy.delay_secs,
        ReadinessPolicy::standard_policy().delay_secs == 1,
{
}

/// A waiting message comes with a transition exactly when the health check
/// in flight ends in a transport failure at an attempt that the policy's
/// interval divides, and it names that attempt. An unhealthy response never
/// brings one. Under the standard policy the attempts are the multiples of 5.
pub proof fn law_waiting_every_interval(
    policy: ReadinessPolicy,
    state: SupervisorState,
    event: Event,
)
    ensures
        transition(policy, state, event).diagnostic is Some && transition(
            policy,
            state,
            event,
        ).diagnostic->0 is Waiting <==> exists|attempt: u32|
            {
                &&& state == SupervisorState::Probing { attempt }
                &&& event == Event::Probed(
                    ProbeAttempt { attempt, outcome: ProbeOutcome::TransportFailure },
                )
                &&& policy.reports_waiting(attempt)
            },
        forall|attempt: u32|
            state == (SupervisorState::Probing { attempt }) && event == Event::Probed(
                ProbeAttempt { attempt, outcome: ProbeOutcome::TransportFailure },
            ) && policy.reports_waiting(attempt) ==> transition(policy, state, event).diagnostic
                == Some(Diagnostic::Waiting { attempt, max_attempts: policy.max_attempts }),
        forall|attempt: u32|
            ReadinessPolicy::standard_policy().reports_waiting(attempt) <==> attempt % 5 == 0,
{
    let d = transition(policy, state, event).diagnostic;
    if d is Some && d->0 is Waiting {
        let attempt = state->Probing_attempt;
        assert(state == SupervisorState::Probing { attempt });
        assert(event == Event::Probed(
            ProbeAttempt { attempt, outcome: ProbeOutcome::TransportFailure },
        ));
        assert(policy.reports_waiting(attempt));
    }
}

/// A surface creation is asked for by exactly one kind of transition: the
/// one that takes the supervisor from probing to ready, on a healthy outcome
/// of the attempt in flight. So it is never asked for before readiness, never
/// twice, and never from a failed state; and it is for the policy's port.
pub proof fn law_surface_only_on_readiness(
    policy: ReadinessPolicy,
    state: SupervisorState,
    event: Event,
)
    ensures
        ({
            let reaction = transition(policy, state, event);
            &&& (reaction.command is Some && reaction.command->0 is CreateSurface) <==> (state
                is Probing && reaction.next is Ready)
            &&& (state is Probing && reaction.next is Ready) ==> {
                &&& event is Probed
                &&& event->Probed_0.outcome is Healthy
                &&& event->Probed_0.attempt == state->Probing_attempt
                &&& reaction.next->Ready_attempts == state->Probing_attempt
                &&& reaction.command == Some(Command::CreateSurface(surface_request(policy)))
            }
            &&& reaction.next is Ready ==> state is Probing || state is Ready
        }),
{
}

/// `Exposed` and `Failed` are terminal: no event moves the supervisor out of
/// them or draws a command or a message from it.
pub proof fn law_terminal_states_absorb(
    policy: ReadinessPolicy,
    state: SupervisorState,
    event: Event,
)
    requires
        state is Exposed || state is Failed,
    ensures
        transition(policy, state, event) == unmoved(state),
{
}

/// An upper bound on the number of events that a supervisor in `state` still
/// takes in before its run is over, given the event that is pending.
pub open spec fn steps_left(
    policy: ReadinessPolicy,
    state: SupervisorState,
    pending: Option<Event>,
) -> nat {
    if pending is None {
        0
    } else {
        match state {
            SupervisorState::Idle => longest_run(policy),
            SupervisorState::Launching => (longest_run(policy) - 1) as nat,
            SupervisorState::Probing { attempt } => if attempt <= policy.max_attempts {
                (2 * (policy.max_attempts - attempt) + 2) as nat
            } else {
                1
            },
            SupervisorState::Pausing { attempt } => if attempt <= policy.max_attempts {
                (2 * (policy.max_attempts - attempt) + 1) as nat
            } else {
                1
            },
            SupervisorState::Ready { .. } => 1,
            SupervisorState::Exposed => 1,
            SupervisorState::Failed { .. } => 1,
        }
    }
}

/// Every step of a run that is not over uses up at least one of the steps
/// left, and leaves a state that fits the policy.
pub proof fn lemma_step_uses_budget(policy: ReadinessPolicy, script: Script, run: Run)
    requires
        state_fits(policy, run.state),
        run.pending is Some,
    ensures
        state_fits(policy, advance(policy, script, run).state),
        steps_left(
            policy,
            advance(policy, script, run).state,
            advance(policy, script, run).pending,
        ) < steps_left(policy, run.state, run.pending),
{
}

/// At every step the state fits the policy, and a run that is not over has
/// used no more steps than the longest run has.
proof fn lemma_run_within_budget(policy: ReadinessPolicy, script: Script, n: nat)
    ensures
        state_fits(policy, drive(policy, script, n).state),
        drive(policy, script, n).pending is None || n + steps_left(
            policy,
            drive(policy, script, n).state,
            drive(policy, script, n).pending,
        ) <= longest_run(policy),
    decreases n,
{
    if n > 0 {
        lemma_run_within_budget(policy, script, (n - 1) as nat);
        let before = drive(policy, script, (n - 1) as nat);
        if before.pending is Some {
            lemma_step_uses_budget(policy, script, before);
        }
    }
}

/// In every state the pending event is the one that the state waits for: the
/// faithful answer to the last command. Only a health check beyond the end of
/// the script, and a run that has ended, have none.
pub open spec fn awaited(script: Script, run: Run) -> bool {
    match run.state {
        SupervisorState::Idle => run.pending == Some(Event::Begin),
        SupervisorState::Launching => run.pending == Some(
            if script.launch_ok {
                Event::LaunchSucceeded
            } else {
                Event::LaunchFailed
            },
        ),
        SupervisorState::Probing { attempt } => run.pending == if 1 <= attempt
            <= script.outcomes.len() {
            Some(Event::Probed(ProbeAttempt { attempt, outcome: script.outcomes[attempt - 1] }))
        } else {
            None
        },
        SupervisorState::Pausing { .. } => run.pending == Some(Event::PauseElapsed),
        SupervisorState::Ready { .. } => run.pending == Some(
            if script.surface_ok {
                Event::SurfaceCreated
            } else {
                Event::SurfaceFailed
            },
        ),
        SupervisorState::Exposed => run.pending is None,
        SupervisorState::Failed { .. } => run.pending is None,
    }
}

/// At every step of a run the pending event is the one awaited.
proof fn lemma_answers_in_turn(policy: ReadinessPolicy, script: Script, n: nat)
    ensures
        awaited(script, drive(policy, script, n)),
    decreases n,
{
    if n > 0 {
        lemma_answers_in_turn(policy, script, (n - 1) as nat);
    }
}

/// A run that is over stays as it is, whatever number of further steps.
pub proof fn lemma_finished_run_stays(policy: ReadinessPolicy, script: Script, end: nat, n: nat)
    requires
        drive(policy, script, end).pending is None,
        n >= end,
    ensures
        drive(policy, script, n) == drive(policy, script, end),
    decreases n,
{
    if n > end {
        lemma_finished_run_stays(policy, script, end, (n - 1) as nat);
    }
}

/// The wait is bounded: whatever the host answers, the run is over when the
/// supervisor has taken in as many events as the longest run has, which is
/// two for each attempt that the policy allows and two more. From the step at
/// which a run is over, it is the completed run. It ends exposed or failed,
/// unless the script holds no outcome for a health check that was asked for;
/// a script with an outcome for every attempt within the budget leaves no
/// health check unanswered.
pub proof fn law_every_run_ends(policy: ReadinessPolicy, script: Script)
    ensures
        completed(policy, script).pending is None,
        state_fits(policy, completed(policy, script).state),
        forall|n: nat|
            (#[trigger] drive(policy, script, n)).pending is None ==> drive(policy, script, n)
                == completed(policy, script),
        completed(policy, script).state is Exposed || completed(policy, script).state is Failed
            || (completed(policy, script).state is Probing && completed(
            policy,
            script,
        ).state->Probing_attempt > script.outcomes.len()),
        script.outcomes.len() >= policy.max_attempts ==> completed(policy, script).state
            is Exposed || completed(policy, script).state is Failed,
{
    let end = longest_run(policy);
    lemma_run_within_budget(policy, script, end);
    lemma_answers_in_turn(policy, script, end);
    assert forall|n: nat| (#[trigger] drive(policy, script, n)).pending is None implies drive(
        policy,
        script,
        n,
    ) == completed(policy, script) by {
        if n <= end {
            lemma_finished_run_stays(policy, script, n, end);
        } else {
            lemma_finished_run_stays(policy, script, end, n);
        }
    }
}

/// The states that lie behind readiness: ready itself, exposed, and failed for
/// want of a surface.
pub open spec fn has_been_ready(state: SupervisorState) -> bool {
    ||| state is Ready
    ||| state is Exposed
    ||| state == (SupervisorState::Failed { error: SupervisorError::SurfaceCreationFailure })
}

/// How the counts of a run follow from its state: as many probes have been
/// asked for as the attempt that the state names, a pause after each attempt
/// that failed, and a surface if and only if the supervisor has become ready.
pub open spec fn tallied(policy: ReadinessPolicy, run: Run) -> bool {
    &&& state_fits(policy, run.state)
    &&& surfaces_in(run.commands) == if has_been_ready(run.state) {
        1nat
    } else {
        0nat
    }
    &&& match run.state {
        SupervisorState::Idle => probes_in(run.commands) == 0 && pauses_in(run.commands) == 0,
        SupervisorState::Launching => probes_in(run.commands) == 0 && pauses_in(run.commands)
            == 0,
        SupervisorState::Probing { attempt } => probes_in(run.commands) == attempt && pauses_in(
            run.commands,
        ) == attempt - 1,
        SupervisorState::Pausing { attempt } => probes_in(run.commands) == attempt && pauses_in(
            run.commands,
        ) == attempt,
        SupervisorState::Ready { attempts } => probes_in(run.commands) == attempts && pauses_in(
            run.commands,
        ) == attempts - 1,
        SupervisorState::Exposed => probes_in(run.commands) <= policy.max_attempts && pauses_in(
            run.commands,
        ) <= probes_in(run.commands),
        SupervisorState::Failed { .. } => probes_in(run.commands) <= policy.max_attempts
            && pauses_in(run.commands) <= probes_in(run.commands),
    }
}

/// The counts of a run follow from its state at every step.
proof fn lemma_tally(policy: ReadinessPolicy, script: Script, n: nat)
    ensures
        tallied(policy, drive(policy, script, n)),
    decreases n,
{
    if n > 0 {
        lemma_tally(policy, script, (n - 1) as nat);
        let before = drive(policy, script, (n - 1) as nat);
        let after = drive(policy, script, n);
        assert(after == advance(policy, script, before));
        if after.commands != before.commands {
            lemma_counts_after_push(before.commands, after.commands.last());
        }
    }
}

/// The budget holds in every run, whatever the host answers: at no step have
/// more health checks been asked for than the policy allows attempts, nor
/// more pauses than health checks.
pub proof fn law_attempts_within_budget(policy: ReadinessPolicy, script: Script, n: nat)
    ensures
        probes_in(drive(policy, script, n).commands) <= policy.max_attempts,
        pauses_in(drive(policy, script, n).commands) <= probes_in(
            drive(policy, script, n).commands,
        ),
{
    lemma_tally(policy, script, n);
}

/// The surface comes with readiness and only once, whatever the host answers:
/// at every step of a run exactly one surface creation has been asked for if
/// the supervisor has become ready, and none otherwise. So none is asked for
/// before readiness, and none in a run that ends in a failed launch or a
/// timeout.
pub proof fn law_one_surface_after_readiness(policy: ReadinessPolicy, script: Script, n: nat)
    ensures
        has_been_ready(drive(policy, script, n).state) ==> surfaces_in(
            drive(policy, script, n).commands,
        ) == 1,
        !has_been_ready(drive(policy, script, n).state) ==> surfaces_in(
            drive(policy, script, n).commands,
        ) == 0,
{
    lemma_tally(policy, script, n);
}

/// A run in which readiness is still open: the supervisor has neither become
/// ready nor failed, and no surface has been asked for.
pub open spec fn undecided(run: Run) -> bool {
    &&& run.state is Idle || run.state is Launching || run.state is Probing
        || run.state is Pausing
    &&& surfaces_in(run.commands) == 0
}

/// While every health check so far has failed and the budget lasts, the run
/// alternates probe and pause: when `2 * a` events have been taken in, attempt
/// `a` is in flight, `a` probes and `a - 1` pauses have been asked for, and
/// readiness has been open all along.
proof fn lemma_attempt_in_flight(policy: ReadinessPolicy, script: Script, a: nat)
    requires
        script.launch_ok,
        1 <= a <= policy.max_attempts,
        a <= script.outcomes.len(),
        forall|i: int| 0 <= i < a - 1 ==> !(script.outcomes[i] is Healthy),
    ensures
        drive(policy, script, 2 * a).state == (SupervisorState::Probing { attempt: a as u32 }),
        drive(policy, script, 2 * a).pending == Some(
            Event::Probed(ProbeAttempt { attempt: a as u32, outcome: script.outcomes[a - 1] }),
        ),
        probes_in(drive(policy, script, 2 * a).commands) == a,
        pauses_in(drive(policy, script, 2 * a).commands) == a - 1,
        forall|n: nat|
            n <= 2 * a ==> undecided(#[trigger] drive(policy, script, n)) && probes_in(
                drive(policy, script, n).commands,
            ) <= a,
    decreases a,
{
    if a == 1 {
        let r0 = drive(policy, script, 0);
        let r1 = drive(policy, script, 1);
        let r2 = drive(policy, script, 2);
        assert(r0 == start());
        assert(r1 == advance(policy, script, r0));
        assert(r2 == advance(policy, script, r1));
        lemma_counts_after_push(r0.commands, r1.commands.last());
        lemma_counts_after_push(r1.commands, r2.commands.last());
    } else {
        let b = (a - 1) as nat;
        lemma_attempt_in_flight(policy, script, b);
        let r = drive(policy, script, 2 * b);
        let p = drive(policy, script, 2 * b + 1);
        let q = drive(policy, script, 2 * a);
        assert(p == advance(policy, script, r));
        assert(q == advance(policy, script, p));
        assert(!(script.outcomes[b - 1] is Healthy));
        lemma_counts_after_push(r.commands, p.commands.last());
        lemma_counts_after_push(p.commands, q.commands.last());
    }
}

/// If the launch works and the first healthy health check is attempt `k`,
/// within the budget, then the supervisor becomes ready at exactly attempt
/// `k`. Readiness stays open, and no surface is asked for, until the result
/// of that attempt is in. With that result the supervisor is ready after `k`
/// attempts and asks for the one surface, for the port that was probed. From
/// then on `k` probes, `k - 1` pauses and one surface creation have been asked
/// for and never more, and the run ends exposed or, where the host cannot
/// create the surface, failed for that reason.
pub proof fn law_ready_at_first_healthy_attempt(policy: ReadinessPolicy, script: Script, k: nat)
    requires
        script.launch_ok,
        1 <= k <= policy.max_attempts,
        k <= script.outcomes.len(),
        script.outcomes[k - 1] is Healthy,
        forall|i: int| 0 <= i < k - 1 ==> !(script.outcomes[i] is Healthy),
    ensures
        forall|n: nat| n < steps_to_result(k) ==> undecided(#[trigger] drive(policy, script, n)),
        drive(policy, script, steps_to_result(k)).state == (SupervisorState::Ready {
            attempts: k as u32,
        }),
        drive(policy, script, steps_to_result(k)).commands.last() == Command::CreateSurface(
            surface_request(policy),
        ),
        forall|n: nat|
            n >= steps_to_result(k) ==> probes_in((#[trigger] drive(policy, script, n)).commands)
                == k && pauses_in(drive(policy, script, n).commands) == k - 1 && surfaces_in(
                drive(policy, script, n).commands,
            ) == 1,
        completed(policy, script).state == if script.surface_ok {
            SupervisorState::Exposed
        } else {
            SupervisorState::Failed { error: SupervisorError::SurfaceCreationFailure }
        },
{
    lemma_attempt_in_flight(policy, script, k);
    let r = drive(policy, script, 2 * k);
    let ready = drive(policy, script, 2 * k + 1);
    let done = drive(policy, script, 2 * k + 2);
    assert(ready == advance(policy, script, r));
    assert(done == advance(policy, script, ready));
    lemma_counts_after_push(r.commands, ready.commands.last());
    lemma_counts_after_push(ready.commands, done.commands.last());
    assert(done.pending is None);
    assert forall|n: nat| n >= steps_to_result(k) implies probes_in(
        (#[trigger] drive(policy, script, n)).commands,
    ) == k && pauses_in(drive(policy, script, n).commands) == k - 1 && surfaces_in(
        drive(policy, script, n).commands,
    ) == 1 by {
        if n >= 2 * k + 2 {
            lemma_finished_run_stays(policy, script, 2 * k + 2, n);
        }
    }
    lemma_finished_run_stays(policy, script, 2 * k + 2, longest_run(policy));
}

/// If the launch works and none of the health checks within the budget is
/// healthy, then the supervisor fails with a timeout after exactly as many
/// attempts as the policy allows. Readiness stays open until the pause after
/// the last attempt has elapsed; then the run ends failed, with an error that
/// names the policy's maximum. In the whole run as many probes and as many
/// pauses are asked for as the policy allows attempts, and at no step has a
/// surface creation been asked for.
pub proof fn law_timeout_after_max_attempts(policy: ReadinessPolicy, script: Script)
    requires
        script.launch_ok,
        policy.max_attempts <= script.outcomes.len(),
        forall|i: int| 0 <= i < policy.max_attempts ==> !(script.outcomes[i] is Healthy),
    ensures
        forall|n: nat| n < longest_run(policy) ==> undecided(#[trigger] drive(policy, script, n)),
        completed(policy, script).state == (SupervisorState::Failed {
            error: SupervisorError::ReadinessTimeout { max_attempts: policy.max_attempts },
        }),
        completed(policy, script).commands.last() == Command::Fail(
            SupervisorError::ReadinessTimeout { max_attempts: policy.max_attempts },
        ),
        probes_in(completed(policy, script).commands) == policy.max_attempts,
        pauses_in(completed(policy, script).commands) == policy.max_attempts,
        forall|n: nat|
            probes_in((#[trigger] drive(policy, script, n)).commands) <= policy.max_attempts
                && surfaces_in(drive(policy, script, n).commands) == 0,
{
    let m = policy.max_attempts as nat;
    let end = longest_run(policy);
    if m == 0 {
        let r0 = drive(policy, script, 0);
        let r1 = drive(policy, script, 1);
        let r2 = drive(policy, script, 2);
        assert(r0 == start());
        assert(r1 == advance(policy, script, r0));
        assert(r2 == advance(policy, script, r1));
        lemma_counts_after_push(r0.commands, r1.commands.last());
        lemma_counts_after_push(r1.commands, r2.commands.last());
    } else {
        lemma_attempt_in_flight(policy, script, m);
        let r = drive(policy, script, 2 * m);
        let p = drive(policy, script, 2 * m + 1);
        let q = drive(policy, script, end);
        assert(p == advance(policy, script, r));
        assert(q == advance(policy, script, p));
        assert(!(script.outcomes[m - 1] is Healthy));
        lemma_counts_after_push(r.commands, p.commands.last());
        lemma_counts_after_push(p.commands, q.commands.last());
    }
    assert(drive(policy, script, end).pending is None);
    assert forall|n: nat|
        probes_in((#[trigger] drive(policy, script, n)).commands) <= policy.max_attempts
            && surfaces_in(drive(policy, script, n).commands) == 0 by {
        if n >= end {
            lemma_finished_run_stays(policy, script, end, n);
        }
    }
}

/// If the launch fails, the supervisor fails at once with `LaunchFailure`:
/// the whole run is the launch and the report of its failure, and at no step
/// has a health check, a pause or a surface creation been asked for.
pub proof fn law_launch_failure_short_circuits(policy: ReadinessPolicy, script: Script)
    requires
        !script.launch_ok,
    ensures
        completed(policy, script).state == (SupervisorState::Failed {
            error: SupervisorError::LaunchFailure,
        }),
        completed(policy, script).commands == seq![
            Command::Launch(launch_request(policy)),
            Command::Fail(SupervisorError::LaunchFailure),
        ],
        forall|n: nat|
            probes_in((#[trigger] drive(policy, script, n)).commands) == 0 && pauses_in(
                drive(policy, script, n).commands,
            ) == 0 && surfaces_in(drive(policy, script, n).commands) == 0,
{
    let r0 = drive(policy, script, 0);
    let r1 = drive(policy, script, 1);
    let r2 = drive(policy, script, 2);
    assert(r0 == start());
    assert(r1 == advance(policy, script, r0));
    assert(r2 == advance(policy, script, r1));
    lemma_counts_after_push(r0.commands, r1.commands.last());
    lemma_counts_after_push(r1.commands, r2.commands.last());
    assert(r2.commands =~= seq![
        Command::Launch(launch_request(policy)),
        Command::Fail(SupervisorError::LaunchFailure),
    ]);
    lemma_finished_run_stays(policy, script, 2, longest_run(policy));
    assert forall|n: nat|
        probes_in((#[trigger] drive(policy, script, n)).commands) == 0 && pauses_in(
            drive(policy, script, n).commands,
        ) == 0 && surfaces_in(drive(policy, script, n).commands) == 0 by {
        if n >= 2 {
            lemma_finished_run_stays(policy, script, 2, n);
        }
    }
}

} // verus!
