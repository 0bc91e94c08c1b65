//! A development-time file watcher that keeps one managed process per rule:
//! each rule binds a watched path, a glob pattern, and a command, and a
//! filesystem change matching the pattern replaces the rule's process,
//! with at most one live instance per rule at any time.

pub mod debounce;
pub mod errors;
pub mod glob;
pub mod rules;
pub mod supervisor;
pub mod watch;
