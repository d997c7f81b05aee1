//! Attaching the tool name to a tool-settings error raised while an agent is
//! assembled.
use crate::core_tools::error::ToolError;
use vstd::prelude::*;

verus! {

/// Errors raised while assembling an agent from its tool settings.
#[derive(Debug, Clone, PartialEq, Eq)]
pub enum AgentBuildError {
    /// A tool rejected its settings.
    ToolSettingsValidation { tool: &'static str, source: ToolError },
}

/// Conversion of a tool-settings result into an agent-build result.
pub trait ToolResultExt<T>: Sized {
    /// Keeps a success and wraps an error together with the tool's name.
    fn with_tool(self, tool: &'static str) -> (r: Result<T, AgentBuildError>);
}

impl<T> ToolResultExt<T> for Result<T, ToolError> {
    fn with_tool(self, tool: &'static str) -> (r: Result<T, AgentBuildError>)
        ensures
            match self {
                Ok(v) => r == Ok::<T, AgentBuildError>(v),
                Err(e) => r == Err::<T, AgentBuildError>(
                    AgentBuildError::ToolSettingsValidation { tool, source: e },
                ),
            },
    {
        match self {
            Ok(v) => Ok(v),
            Err(source) => Err(AgentBuildError::ToolSettingsValidation { tool, source }),
        }
    }
}

} // verus!
