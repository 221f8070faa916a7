//! The environment the service runs in, and what it sets.
use vstd::prelude::*;

verus! {

/// Where the service runs.
#[derive(Debug, Clone, Copy, PartialEq, Eq, Structural)]
pub enum Environment {
    Development,
    Production,
}

/// The default log level of an environment: `debug` in development, `info` in
/// production.
pub open spec fn spec_log_level(env: Environment) -> Seq<char> {
    match env {
        Environment::Development => "debug"@,
        Environment::Production => "info"@,
    }
}

/// The log level that the logger uses when none is configured.
pub fn log_level(env: Environment) -> (level: &'static str)
    ensures
        level@ == spec_log_level(env),
{
    match env {
        Environment::Development => "debug",
        Environment::Production => "info",
    }
}

} // verus!
