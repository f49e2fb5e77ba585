//! The operator's health and readiness endpoints, and the settings it
//! reads at start-up.

use vstd::prelude::*;

use std::sync::atomic::{AtomicBool, Ordering};

use crate::text::{eq_ignore_ascii_case, parse_u16, parse_u16_spec, str_eq_ignore_ascii_case};

verus! {

/// Shared health state, set to ready once the controllers run.
pub struct HealthState {
    pub ready: AtomicBool,
}

impl HealthState {
    /// A state that is not ready yet: the flag starts `false`.
    ///
    /// The flag is an atomic shared between threads; vstd specifies
    /// `AtomicBool::new`, `load` and `store` without their values, so the
    /// contract states nothing of the flag.
    pub fn new() -> Self {
        HealthState { ready: AtomicBool::new(false) }
    }

    /// Marks the operator ready.
    pub fn set_ready(&self) {
        self.ready.store(true, Ordering::Relaxed);
    }

    /// Whether the operator has been marked ready (the flag's current value,
    /// which other threads may set at any time; the contract states nothing).
    pub fn is_ready(&self) -> bool {
        self.ready.load(Ordering::Relaxed)
    }
}

/// The answer of the readiness endpoint.
#[derive(Debug)]
pub struct ReadinessReply {
    pub status_code: u16,
    pub body: String,
}

/// `200 ready` once ready, `503 not ready` before.
pub fn readiness_reply(ready: bool) -> (r: ReadinessReply)
    ensures
        ready ==> r.status_code == 200 && r.body@ == "ready"@,
        !ready ==> r.status_code == 503 && r.body@ == "not ready"@,
{
    if ready {
        ReadinessReply { status_code: 200, body: String::from_str("ready") }
    } else {
        ReadinessReply { status_code: 503, body: String::from_str("not ready") }
    }
}

/// Whether the environment name selects production (JSON logs): the
/// value is `production` in any ASCII case.
pub fn is_production(env_value: &str) -> (b: bool)
    ensures
        b == eq_ignore_ascii_case(env_value@, "production"@),
{
    str_eq_ignore_ascii_case(env_value, "production")
}

/// The port of the health server: the configured value when it parses as
/// a port number, 8081 otherwise.
pub fn health_port(configured: &Option<String>) -> (port: u16)
    ensures
        port == (match *configured {
            Some(v) => match parse_u16_spec(v@) {
                Some(p) => p,
                None => 8081u16,
            },
            None => 8081u16,
        }),
{
    match configured {
        Some(v) => match parse_u16(v.as_str()) {
            Some(p) => p,
            None => 8081,
        },
        None => 8081,
    }
}

} // verus!
