//! The configuration of the readiness gate.

use vstd::prelude::*;

verus! {

/// The port on which the supervised service listens by default.
pub const DEFAULT_PORT: u16 = 4000;

/// How many health checks are made before the service is given up.
pub const DEFAULT_MAX_ATTEMPTS: u32 = 60;

/// The pause after a failed health check, in seconds.
pub const DEFAULT_DELAY_SECS: u64 = 1;

/// Every how many attempts a transport failure is reported.
pub const DEFAULT_DIAGNOSTIC_INTERVAL: u32 = 5;

/// The retry policy of the readiness prober. A supervisor takes its policy
/// when it is made and never changes it.
#[derive(Clone, Copy, Debug, PartialEq, Eq, Structural)]
pub struct ReadinessPolicy {
    /// The local port of the service: it is launched with this port, probed
    /// on it and exposed on it.
    pub port: u16,
    /// The largest number of health checks that are made.
    pub max_attempts: u32,
    /// The pause after each failed health check, in seconds.
    pub delay_secs: u64,
    /// Transport failures are reported at the attempts whose number is a
    /// multiple of this interval; with 0 they are never reported.
    pub diagnostic_interval: u32,
}

impl ReadinessPolicy {
    /// The policy with the default port, 60 attempts, one second between
    /// attempts and a report at every fifth transport failure.
    pub open spec fn standard_policy() -> ReadinessPolicy {
        ReadinessPolicy {
            port: DEFAULT_PORT,
            max_attempts: DEFAULT_MAX_ATTEMPTS,
            delay_secs: DEFAULT_DELAY_SECS,
            diagnostic_interval: DEFAULT_DIAGNOSTIC_INTERVAL,
        }
    }

    /// Whether the budget is used up once `made` attempts have been made, so
    /// that no further attempt may be issued.
    pub open spec fn exhausted(self, made: u32) -> bool {
        made >= self.max_attempts
    }

    /// Whether a transport failure at attempt number `attempt` is reported.
    pub open spec fn reports_waiting(self, attempt: u32) -> bool {
        self.diagnostic_interval != 0 && attempt % self.diagnostic_interval == 0
    }

    /// Makes the standard policy.
    pub fn standard() -> (policy: ReadinessPolicy)
        ensures
            policy == Self::standard_policy(),
    {
        ReadinessPolicy {
            port: DEFAULT_PORT,
            max_attempts: DEFAULT_MAX_ATTEMPTS,
            delay_secs: DEFAULT_DELAY_SECS,
            diagnostic_interval: DEFAULT_DIAGNOSTIC_INTERVAL,
        }
    }

    /// Tests the attempt budget before a further attempt is issued.
    pub fn is_exhausted(&self, made: u32) -> (spent: bool)
        ensures
            spent == self.exhausted(made),
    {
        made >= self.max_attempts
    }

    /// Tests whether a transport failure at attempt `attempt` is due a report.
    pub fn is_waiting_reported(&self, attempt: u32) -> (due: bool)
        ensures
            due == self.reports_waiting(attempt),
    {
        self.diagnostic_interval != 0 && attempt % self.diagnostic_interval == 0
    }
}

impl Default for ReadinessPolicy {
    fn default() -> (policy: ReadinessPolicy)
        ensures
            policy == ReadinessPolicy::standard_policy(),
    {
        ReadinessPolicy::standard()
    }
}

} // verus!
