use vstd::prelude::*;

use crate::message::LogLevel;

verus! {

/// The build configuration the application runs under.
#[derive(Clone, Copy, Debug, PartialEq, Eq, Structural)]
pub enum DeploymentMode {
    Debug,
    Release,
}

/// What becomes of the server process's standard output and error.
#[derive(Clone, Copy, Debug, PartialEq, Eq, Structural)]
pub enum StreamPolicy {
    /// The child writes to the parent's own streams.
    Inherit,
    /// The child's output is discarded.
    Discard,
}

pub open spec fn stream_policy_spec(mode: DeploymentMode) -> StreamPolicy {
    match mode {
        DeploymentMode::Debug => StreamPolicy::Inherit,
        DeploymentMode::Release => StreamPolicy::Discard,
    }
}

/// Debug builds let the server's output through; release builds discard it.
pub fn stream_policy(mode: DeploymentMode) -> (r: StreamPolicy)
    ensures
        r == stream_policy_spec(mode),
{
    match mode {
        DeploymentMode::Debug => StreamPolicy::Inherit,
        DeploymentMode::Release => StreamPolicy::Discard,
    }
}

pub open spec fn log_filter_spec(mode: DeploymentMode) -> Option<LogLevel> {
    match mode {
        DeploymentMode::Debug => Some(LogLevel::Info),
        DeploymentMode::Release => None,
    }
}

/// The least severe level that the attached log sink records, or `None` where
/// no sink is attached: debug builds record informational lines and above.
pub fn log_filter(mode: DeploymentMode) -> (r: Option<LogLevel>)
    ensures
        r == log_filter_spec(mode),
{
    match mode {
        DeploymentMode::Debug => Some(LogLevel::Info),
        DeploymentMode::Release => None,
    }
}

} // verus!
