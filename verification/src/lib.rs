//! Backend-readiness supervision: the decisions behind launching one child
//! service, probing it until it answers healthily, and only then exposing it
//! through a client surface.
//!
//! The library performs no I/O. It is a state machine that a host drives: the
//! host hands in what happened and carries out what the machine asks for next.
//! The laws of that machine are proved in [`laws`], over the runs that
//! [`run`] defines.

pub mod laws;
pub mod machine;
pub mod outcome;
pub mod policy;
pub mod rehearsal;
pub mod run;
pub mod status;
pub mod text;

pub use crate::machine::{
    react, Command, Diagnostic, Event, LaunchRequest, Reaction, Supervisor, SupervisorError,
    SupervisorState, SurfaceRequest, SURFACE_HEIGHT, SURFACE_WIDTH,
};
pub use crate::outcome::{ProbeAttempt, ProbeOutcome};
pub use crate::policy::{
    ReadinessPolicy, DEFAULT_DELAY_SECS, DEFAULT_DIAGNOSTIC_INTERVAL, DEFAULT_MAX_ATTEMPTS,
    DEFAULT_PORT,
};
pub use crate::rehearsal::{rehearse, Rehearsal};
pub use crate::status::is_ready_status;
pub use crate::text::{append_decimal, service_url, EnvVar};
