use vstd::prelude::*;

verus! {

/// Errors raised while validating configuration, before any watching starts.
#[derive(Clone, Copy, Debug, PartialEq, Eq, Structural)]
pub enum ConfigError {
    /// The configuration's format-version field holds an unrecognized value.
    UnsupportedVersion,
    /// A rule's command token list is empty.
    MissingCommand,
    /// A rule's glob pattern is not a glob the matcher accepts.
    InvalidPattern,
}

/// Errors raised by the process supervisor while replacing a rule's process.
#[derive(Clone, Copy, Debug, PartialEq, Eq, Structural)]
pub enum SupervisorError {
    /// Spawning the replacement process failed.
    Spawn,
    /// Killing or reaping the previous process failed.
    Termination,
}

} // verus!
