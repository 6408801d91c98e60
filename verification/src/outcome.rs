//! What a single health check showed.

use crate::status::{is_ready_status, signals_ready};
use vstd::prelude::*;

verus! {

/// The classified result of one health check. The supervisor goes by the
/// variant; [`ProbeOutcome::from_status`] picks the variant that a response
/// status stands for.
#[derive(Clone, Copy, Debug, PartialEq, Eq, Structural)]
pub enum ProbeOutcome {
    /// A response arrived and its status is in the success or redirection
    /// class.
    Healthy,
    /// A response arrived, with the given status outside both classes: the
    /// service is reachable but not ready.
    UnhealthyStatus(u16),
    /// No response arrived: connection refused, timeout, name resolution
    /// failure and the like.
    TransportFailure,
}

/// One numbered attempt of the probing loop together with what it showed.
/// Attempts are numbered from 1.
#[derive(Clone, Copy, Debug, PartialEq, Eq, Structural)]
pub struct ProbeAttempt {
    pub attempt: u32,
    pub outcome: ProbeOutcome,
}

/// The outcome that a response with status `code` stands for.
pub open spec fn classify_status(code: u16) -> ProbeOutcome {
    if signals_ready(code) {
        ProbeOutcome::Healthy
    } else {
        ProbeOutcome::UnhealthyStatus(code)
    }
}

impl ProbeOutcome {
    /// Classifies a response by its status code.
    pub fn from_status(code: u16) -> (outcome: ProbeOutcome)
        ensures
            outcome == classify_status(code),
    {
        if is_ready_status(code) {
            ProbeOutcome::Healthy
        } else {
            ProbeOutcome::UnhealthyStatus(code)
        }
    }

    /// Whether this outcome ends the probing loop with success.
    pub fn is_healthy(&self) -> (healthy: bool)
        ensures
            healthy == (*self is Healthy),
    {
        match self {
            ProbeOutcome::Healthy => true,
            _ => false,
        }
    }
}

impl ProbeAttempt {
    /// Records that attempt number `attempt` got a response with status `code`.
    pub fn from_status(attempt: u32, code: u16) -> (record: ProbeAttempt)
        ensures
            record == (ProbeAttempt { attempt, outcome: classify_status(code) }),
    {
        ProbeAttempt { attempt, outcome: ProbeOutcome::from_status(code) }
    }

    /// Records that attempt number `attempt` failed before any response.
    pub fn transport_failure(attempt: u32) -> (record: ProbeAttempt)
        ensures
            record == (ProbeAttempt { attempt, outcome: ProbeOutcome::TransportFailure }),
    {
        ProbeAttempt { attempt, outcome: ProbeOutcome::TransportFailure }
    }
}

} // verus!
