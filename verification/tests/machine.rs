use readiness_supervisor::{
    react, Command, Diagnostic, Event, LaunchRequest, ProbeAttempt, ProbeOutcome, Reaction,
    ReadinessPolicy, Supervisor, SupervisorError, SupervisorState, SurfaceRequest,
};

fn unmoved(state: SupervisorState) -> Reaction {
    Reaction { next: state, command: None, diagnostic: None }
}

fn all_events() -> Vec<Event> {
    vec![
        Event::Begin,
        Event::LaunchSucceeded,
        Event::LaunchFailed,
        Event::Probed(ProbeAttempt { attempt: 1, outcome: ProbeOutcome::Healthy }),
        Event::Probed(ProbeAttempt { attempt: 1, outcome: ProbeOutcome::UnhealthyStatus(500) }),
        Event::Probed(ProbeAttempt { attempt: 1, outcome: ProbeOutcome::TransportFailure }),
        Event::PauseElapsed,
        Event::SurfaceCreated,
        Event::SurfaceFailed,
    ]
}

#[test]
fn standard_policy_values() {
    let policy = ReadinessPolicy::standard();
    assert_eq!(policy.port, 4000);
    assert_eq!(policy.max_attempts, 60);
    assert_eq!(policy.delay_secs, 1);
    assert_eq!(policy.diagnostic_interval, 5);
    assert_eq!(ReadinessPolicy::default(), policy);
}

#[test]
fn budget_is_spent_at_the_maximum() {
    let policy = ReadinessPolicy::standard();
    assert!(!policy.is_exhausted(0));
    assert!(!policy.is_exhausted(59));
    assert!(policy.is_exhausted(60));
    assert!(policy.is_exhausted(61));
}

#[test]
fn waiting_is_reported_at_multiples_of_the_interval() {
    let policy = ReadinessPolicy::standard();
    for attempt in 1..=60u32 {
        assert_eq!(policy.is_waiting_reported(attempt), attempt % 5 == 0, "attempt {}", attempt);
    }
    let silent = ReadinessPolicy { diagnostic_interval: 0, ..policy };
    for attempt in 0..=60u32 {
        assert!(!silent.is_waiting_reported(attempt));
    }
}

#[test]
fn begin_asks_for_the_launch() {
    let policy = ReadinessPolicy::standard();
    let reaction = react(&policy, SupervisorState::Idle, Event::Begin);
    assert_eq!(
        reaction,
        Reaction {
            next: SupervisorState::Launching,
            command: Some(Command::Launch(LaunchRequest { port: 4000 })),
            diagnostic: Some(Diagnostic::Starting),
        }
    );
}

#[test]
fn launch_success_issues_attempt_one() {
    let policy = ReadinessPolicy::standard();
    let reaction = react(&policy, SupervisorState::Launching, Event::LaunchSucceeded);
    assert_eq!(
        reaction,
        Reaction {
            next: SupervisorState::Probing { attempt: 1 },
            command: Some(Command::Probe { attempt: 1, port: 4000 }),
            diagnostic: Some(Diagnostic::Launched),
        }
    );
}

#[test]
fn launch_failure_is_fatal() {
    let policy = ReadinessPolicy::standard();
    let reaction = react(&policy, SupervisorState::Launching, Event::LaunchFailed);
    assert_eq!(
        reaction,
        Reaction {
            next: SupervisorState::Failed { error: SupervisorError::LaunchFailure },
            command: Some(Command::Fail(SupervisorError::LaunchFailure)),
            diagnostic: None,
        }
    );
}

#[test]
fn healthy_outcome_asks_for_the_surface() {
    let policy = ReadinessPolicy::standard();
    let reaction = react(
        &policy,
        SupervisorState::Probing { attempt: 7 },
        Event::Probed(ProbeAttempt::from_status(7, 200)),
    );
    assert_eq!(
        reaction,
        Reaction {
            next: SupervisorState::Ready { attempts: 7 },
            command: Some(Command::CreateSurface(SurfaceRequest {
                port: 4000,
                width: 1400,
                height: 900,
                centered: true,
            })),
            diagnostic: Some(Diagnostic::Ready { attempts: 7 }),
        }
    );
}

#[test]
fn redirection_counts_as_healthy() {
    let policy = ReadinessPolicy::standard();
    let reaction = react(
        &policy,
        SupervisorState::Probing { attempt: 2 },
        Event::Probed(ProbeAttempt::from_status(2, 302)),
    );
    assert_eq!(reaction.next, SupervisorState::Ready { attempts: 2 });
}

#[test]
fn unhealthy_status_is_logged_and_retried() {
    let policy = ReadinessPolicy::standard();
    let reaction = react(
        &policy,
        SupervisorState::Probing { attempt: 3 },
        Event::Probed(ProbeAttempt::from_status(3, 503)),
    );
    assert_eq!(
        reaction,
        Reaction {
            next: SupervisorState::Pausing { attempt: 3 },
            command: Some(Command::Pause { secs: 1 }),
            diagnostic: Some(Diagnostic::UnhealthyResponse { status: 503, attempt: 3 }),
        }
    );
}

#[test]
fn transport_failure_is_silent_off_the_interval() {
    let policy = ReadinessPolicy::standard();
    let reaction = react(
        &policy,
        SupervisorState::Probing { attempt: 4 },
        Event::Probed(ProbeAttempt::transport_failure(4)),
    );
    assert_eq!(
        reaction,
        Reaction {
            next: SupervisorState::Pausing { attempt: 4 },
            command: Some(Command::Pause { secs: 1 }),
            diagnostic: None,
        }
    );
}

#[test]
fn transport_failure_is_reported_on_the_interval() {
    let policy = ReadinessPolicy::standard();
    let reaction = react(
        &policy,
        SupervisorState::Probing { attempt: 5 },
        Event::Probed(ProbeAttempt::transport_failure(5)),
    );
    assert_eq!(
        reaction,
        Reaction {
            next: SupervisorState::Pausing { attempt: 5 },
            command: Some(Command::Pause { secs: 1 }),
            diagnostic: Some(Diagnostic::Waiting { attempt: 5, max_attempts: 60 }),
        }
    );
}

#[test]
fn waiting_only_for_transport_failures_at_multiples_of_five() {
    let policy = ReadinessPolicy::standard();
    for attempt in 1..=60u32 {
        let state = SupervisorState::Probing { attempt };
        let refused = react(&policy, state, Event::Probed(ProbeAttempt::transport_failure(attempt)));
        let expected = if attempt % 5 == 0 {
            Some(Diagnostic::Waiting { attempt, max_attempts: 60 })
        } else {
            None
        };
        assert_eq!(refused.diagnostic, expected, "attempt {}", attempt);
        let unhealthy = react(&policy, state, Event::Probed(ProbeAttempt::from_status(attempt, 500)));
        assert_eq!(
            unhealthy.diagnostic,
            Some(Diagnostic::UnhealthyResponse { status: 500, attempt }),
            "attempt {}",
            attempt
        );
    }
}

#[test]
fn pause_is_the_same_for_both_kinds_of_failure() {
    let policy = ReadinessPolicy::standard();
    for attempt in 1..=60u32 {
        let state = SupervisorState::Probing { attempt };
        let refused = react(&policy, state, Event::Probed(ProbeAttempt::transport_failure(attempt)));
        let unhealthy = react(&policy, state, Event::Probed(ProbeAttempt::from_status(attempt, 404)));
        assert_eq!(refused.command, Some(Command::Pause { secs: 1 }));
        assert_eq!(unhealthy.command, Some(Command::Pause { secs: 1 }));
        assert_eq!(refused.next, SupervisorState::Pausing { attempt });
        assert_eq!(unhealthy.next, SupervisorState::Pausing { attempt });
    }
    let slow = ReadinessPolicy { delay_secs: 7, ..policy };
    let reaction = react(
        &slow,
        SupervisorState::Probing { attempt: 1 },
        Event::Probed(ProbeAttempt::transport_failure(1)),
    );
    assert_eq!(reaction.command, Some(Command::Pause { secs: 7 }));
}

#[test]
fn pause_elapsed_issues_the_next_attempt() {
    let policy = ReadinessPolicy::standard();
    let reaction = react(&policy, SupervisorState::Pausing { attempt: 59 }, Event::PauseElapsed);
    assert_eq!(
        reaction,
        Reaction {
            next: SupervisorState::Probing { attempt: 60 },
            command: Some(Command::Probe { attempt: 60, port: 4000 }),
            diagnostic: None,
        }
    );
}

#[test]
fn pause_after_the_last_attempt_ends_in_timeout() {
    let policy = ReadinessPolicy::standard();
    let error = SupervisorError::ReadinessTimeout { max_attempts: 60 };
    let reaction = react(&policy, SupervisorState::Pausing { attempt: 60 }, Event::PauseElapsed);
    assert_eq!(
        reaction,
        Reaction {
            next: SupervisorState::Failed { error },
            command: Some(Command::Fail(error)),
            diagnostic: None,
        }
    );
}

#[test]
fn surface_created_exposes_the_service() {
    let policy = ReadinessPolicy::standard();
    let reaction = react(&policy, SupervisorState::Ready { attempts: 3 }, Event::SurfaceCreated);
    assert_eq!(
        reaction,
        Reaction {
            next: SupervisorState::Exposed,
            command: Some(Command::Succeed),
            diagnostic: Some(Diagnostic::SurfaceOpened),
        }
    );
}

#[test]
fn surface_failure_is_fatal() {
    let policy = ReadinessPolicy::standard();
    let error = SupervisorError::SurfaceCreationFailure;
    let reaction = react(&policy, SupervisorState::Ready { attempts: 3 }, Event::SurfaceFailed);
    assert_eq!(
        reaction,
        Reaction {
            next: SupervisorState::Failed { error },
            command: Some(Command::Fail(error)),
            diagnostic: None,
        }
    );
}

#[test]
fn result_of_another_attempt_is_ignored() {
    let policy = ReadinessPolicy::standard();
    let state = SupervisorState::Probing { attempt: 3 };
    let stale = Event::Probed(ProbeAttempt::from_status(2, 200));
    assert_eq!(react(&policy, state, stale), unmoved(state));
    let early = Event::Probed(ProbeAttempt::from_status(4, 200));
    assert_eq!(react(&policy, state, early), unmoved(state));
}

#[test]
fn terminal_states_absorb_every_event() {
    let policy = ReadinessPolicy::standard();
    let terminal = vec![
        SupervisorState::Exposed,
        SupervisorState::Failed { error: SupervisorError::LaunchFailure },
        SupervisorState::Failed { error: SupervisorError::ReadinessTimeout { max_attempts: 60 } },
        SupervisorState::Failed { error: SupervisorError::SurfaceCreationFailure },
    ];
    for state in terminal {
        for event in all_events() {
            assert_eq!(react(&policy, state, event), unmoved(state));
        }
    }
}

#[test]
fn events_out_of_turn_change_nothing() {
    let policy = ReadinessPolicy::standard();
    let cases = vec![
        (SupervisorState::Idle, Event::LaunchSucceeded),
        (SupervisorState::Idle, Event::PauseElapsed),
        (SupervisorState::Idle, Event::SurfaceCreated),
        (SupervisorState::Launching, Event::Begin),
        (SupervisorState::Launching, Event::PauseElapsed),
        (SupervisorState::Probing { attempt: 1 }, Event::Begin),
        (SupervisorState::Probing { attempt: 1 }, Event::PauseElapsed),
        (SupervisorState::Probing { attempt: 1 }, Event::SurfaceCreated),
        (SupervisorState::Pausing { attempt: 1 }, Event::LaunchSucceeded),
        (SupervisorState::Pausing { attempt: 1 }, Event::SurfaceCreated),
        (SupervisorState::Ready { attempts: 1 }, Event::Begin),
        (SupervisorState::Ready { attempts: 1 }, Event::PauseElapsed),
    ];
    for (state, event) in cases {
        assert_eq!(react(&policy, state, event), unmoved(state));
    }
    let probed = Event::Probed(ProbeAttempt::from_status(1, 200));
    assert_eq!(
        react(&policy, SupervisorState::Pausing { attempt: 1 }, probed),
        unmoved(SupervisorState::Pausing { attempt: 1 })
    );
    assert_eq!(react(&policy, SupervisorState::Idle, probed), unmoved(SupervisorState::Idle));
}

#[test]
fn surface_is_asked_for_only_from_probing_on_a_healthy_outcome() {
    let policy = ReadinessPolicy::standard();
    let states = vec![
        SupervisorState::Idle,
        SupervisorState::Launching,
        SupervisorState::Probing { attempt: 1 },
        SupervisorState::Pausing { attempt: 1 },
        SupervisorState::Ready { attempts: 1 },
        SupervisorState::Exposed,
        SupervisorState::Failed { error: SupervisorError::LaunchFailure },
        SupervisorState::Failed { error: SupervisorError::ReadinessTimeout { max_attempts: 60 } },
    ];
    for state in states {
        for event in all_events() {
            let reaction = react(&policy, state, event);
            let asked = matches!(reaction.command, Some(Command::CreateSurface(_)));
            let healthy_in_flight = state == SupervisorState::Probing { attempt: 1 }
                && event == Event::Probed(ProbeAttempt { attempt: 1, outcome: ProbeOutcome::Healthy });
            assert_eq!(asked, healthy_in_flight, "{:?} {:?}", state, event);
        }
    }
}

#[test]
fn no_budget_means_no_attempt() {
    let policy = ReadinessPolicy { max_attempts: 0, ..ReadinessPolicy::standard() };
    let error = SupervisorError::ReadinessTimeout { max_attempts: 0 };
    let reaction = react(&policy, SupervisorState::Launching, Event::LaunchSucceeded);
    assert_eq!(
        reaction,
        Reaction {
            next: SupervisorState::Failed { error },
            command: Some(Command::Fail(error)),
            diagnostic: Some(Diagnostic::Launched),
        }
    );
}

#[test]
fn largest_budget_does_not_overflow() {
    let policy = ReadinessPolicy { max_attempts: u32::MAX, ..ReadinessPolicy::standard() };
    let reaction = react(&policy, SupervisorState::Pausing { attempt: u32::MAX - 1 }, Event::PauseElapsed);
    assert_eq!(reaction.next, SupervisorState::Probing { attempt: u32::MAX });
    let error = SupervisorError::ReadinessTimeout { max_attempts: u32::MAX };
    let reaction = react(&policy, SupervisorState::Pausing { attempt: u32::MAX }, Event::PauseElapsed);
    assert_eq!(reaction.next, SupervisorState::Failed { error });
}

#[test]
fn supervisor_starts_idle_and_keeps_its_policy() {
    let policy = ReadinessPolicy { port: 8080, max_attempts: 3, delay_secs: 2, diagnostic_interval: 2 };
    let mut supervisor = Supervisor::new(policy);
    assert_eq!(supervisor.state(), SupervisorState::Idle);
    assert_eq!(supervisor.policy(), policy);
    assert!(!supervisor.is_finished());
    let reaction = supervisor.handle(Event::Begin);
    assert_eq!(reaction.command, Some(Command::Launch(LaunchRequest { port: 8080 })));
    assert_eq!(supervisor.state(), SupervisorState::Launching);
    assert_eq!(supervisor.policy(), policy);
}

#[test]
fn supervisor_follows_the_transition_function() {
    let policy = ReadinessPolicy { port: 8080, max_attempts: 3, delay_secs: 2, diagnostic_interval: 2 };
    let events = vec![
        Event::Begin,
        Event::PauseElapsed,
        Event::LaunchSucceeded,
        Event::Probed(ProbeAttempt::transport_failure(1)),
        Event::PauseElapsed,
        Event::Probed(ProbeAttempt::transport_failure(1)),
        Event::Probed(ProbeAttempt::transport_failure(2)),
        Event::PauseElapsed,
        Event::Probed(ProbeAttempt::from_status(3, 204)),
        Event::SurfaceCreated,
        Event::Begin,
    ];
    let mut supervisor = Supervisor::new(policy);
    let mut state = SupervisorState::Idle;
    for event in events {
        let expected = react(&policy, state, event);
        let reaction = supervisor.handle(event);
        assert_eq!(reaction, expected);
        assert_eq!(supervisor.state(), expected.next);
        assert_eq!(supervisor.policy(), policy);
        state = expected.next;
    }
    assert_eq!(supervisor.state(), SupervisorState::Exposed);
    assert!(supervisor.is_finished());
}

#[test]
fn supervisor_is_finished_when_failed() {
    let mut supervisor = Supervisor::new(ReadinessPolicy::standard());
    supervisor.handle(Event::Begin);
    assert!(!supervisor.is_finished());
    supervisor.handle(Event::LaunchFailed);
    assert!(supervisor.is_finished());
    assert_eq!(
        supervisor.state(),
        SupervisorState::Failed { error: SupervisorError::LaunchFailure }
    );
}
