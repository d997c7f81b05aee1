//! Task delegation settings and the request and response of a delegated task.
use vstd::prelude::*;

verus! {

/// Standard maximum number of Task delegation hops.
pub const DEFAULT_MAX_DEPTH: u8 = 3;

/// Shared runtime settings for Task delegation.
///
/// `current_depth` starts at `0` for the root agent and grows by one for each
/// Task hop; a hop is allowed while the depth is below the maximum, so the
/// standard maximum of `3` allows three delegated hops.
#[derive(Debug, Clone, Copy, PartialEq, Eq)]
pub struct TaskSettings {
    max_depth: u8,
}

impl TaskSettings {
    /// The configured maximum number of hops.
    pub closed spec fn spec_max_depth(self) -> u8 {
        self.max_depth
    }

    /// Settings with the standard maximum depth.
    pub fn new() -> (s: Self)
        ensures
            s.spec_max_depth() == DEFAULT_MAX_DEPTH,
    {
        TaskSettings { max_depth: DEFAULT_MAX_DEPTH }
    }

    /// Settings with a custom maximum delegation depth; `0` disables
    /// delegation.
    pub fn with_max_depth(max_depth: u8) -> (s: Self)
        ensures
            s.spec_max_depth() == max_depth,
    {
        TaskSettings { max_depth }
    }

    /// The maximum number of Task delegation hops.
    pub fn max_depth(self) -> (d: u8)
        ensures
            d == self.spec_max_depth(),
    {
        self.max_depth
    }

    /// Whether another Task hop is allowed at `current_depth`.
    pub fn allows_delegation(self, current_depth: u8) -> (b: bool)
        ensures
            b == (current_depth < self.spec_max_depth()),
    {
        current_depth < self.max_depth
    }
}

impl Default for TaskSettings {
    fn default() -> (s: Self)
        ensures
            s.spec_max_depth() == DEFAULT_MAX_DEPTH,
    {
        TaskSettings { max_depth: DEFAULT_MAX_DEPTH }
    }
}

/// Input for task execution.
#[derive(Debug, Clone, PartialEq, Eq)]
pub struct TaskInput {
    /// Short description (3-5 words) of the task.
    pub description: String,
    /// The prompt for the agent to perform.
    pub prompt: String,
    /// The subagent type/name to invoke.
    pub subagent_type: String,
    /// The command the task was started from, if any.
    pub command: Option<String>,
}

#[verifier::external_type_specification]
#[verifier::external_body]
pub struct ExJsonValue(serde_json::Value);

/// Output from task execution.
#[derive(Debug, Clone)]
pub struct TaskOutput {
    /// The text summary returned by the agent.
    pub summary: String,
    /// Optional metadata from the execution.
    pub metadata: Option<serde_json::Value>,
}

impl TaskOutput {
    /// A task output holding just a summary.
    pub fn new(summary: String) -> (o: Self)
        ensures
            o.summary@ == summary@,
            o.metadata is None,
    {
        TaskOutput { summary, metadata: None }
    }

    /// Attaches metadata.
    pub fn with_metadata(self, metadata: serde_json::Value) -> (o: Self)
        ensures
            o.summary == self.summary,
            o.metadata == Some(metadata),
    {
        TaskOutput { summary: self.summary, metadata: Some(metadata) }
    }
}

} // verus!
