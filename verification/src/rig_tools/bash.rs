//! Shell command tool: argument defaults, validation and output rendering.
use crate::core_tools::error::ToolOutput;
use crate::rig_tools::error::ToolError;
use crate::rig_tools::util::{longest_fitting_prefix, truncate_text, utf8_size};
use crate::text::{decimal, owned, push_decimal, push_signed_decimal, push_str, signed_decimal};
use vstd::prelude::*;

verus! {

/// Maximum output size in bytes before truncation (30KB).
pub const MAX_OUTPUT_BYTES: usize = 30720;

/// Default command timeout in milliseconds.
pub const DEFAULT_TIMEOUT_MS: u64 = 30000;

/// The default command timeout.
pub fn default_timeout() -> (r: u64)
    ensures
        r == DEFAULT_TIMEOUT_MS,
{
    DEFAULT_TIMEOUT_MS
}

/// Arguments for executing a shell command.
#[derive(Debug, Clone, PartialEq, Eq)]
pub struct BashArgs {
    /// The shell command to execute.
    pub command: String,
    /// Working directory for command execution.
    pub workdir: Option<String>,
    /// Command timeout in milliseconds (default: 30000).
    pub timeout_ms: u64,
}

/// Result of shell command execution.
#[derive(Debug, Clone, PartialEq, Eq)]
pub struct BashOutput {
    /// Exit code from the command (None if killed by timeout).
    pub exit_code: Option<i32>,
    /// Standard output from the command.
    pub stdout: String,
    /// Standard error output from the command.
    pub stderr: String,
}

/// Shell command execution tool.
#[derive(Debug, Clone, Default, PartialEq, Eq)]
pub struct BashTool {}

/// The text `truncate_text` keeps of `s` under a byte budget.
pub open spec fn kept_text(s: Seq<char>, max: nat, kept: Seq<char>) -> bool {
    if utf8_size(s) <= max {
        kept == s
    } else {
        exists|k: int| longest_fitting_prefix(s, max, k) && kept == s.take(k)
    }
}

/// The rendered result of a command.
pub open spec fn rig_bash_text(exit_code: Option<i32>, stdout: Seq<char>, stderr: Seq<char>) -> Seq<char> {
    let exit_display = match exit_code {
        Some(c) => signed_decimal(c as int),
        None => "killed"@,
    };
    "Exit code: "@ + exit_display + "\nstdout:\n"@ + stdout + "\nstderr:\n"@ + stderr
}

impl BashTool {
    /// Creates a new [`BashTool`] instance.
    pub fn new() -> (t: Self)
        ensures
            t == (BashTool {}),
    {
        BashTool {  }
    }

    /// Formats output for display, truncating stdout and stderr to the byte
    /// budget each.
    pub fn format_output(output: BashOutput) -> (o: ToolOutput)
        ensures
            exists|out: Seq<char>, err: Seq<char>|
                kept_text(output.stdout@, MAX_OUTPUT_BYTES as nat, out) && kept_text(
                    output.stderr@,
                    MAX_OUTPUT_BYTES as nat,
                    err,
                ) && o.content@ == rig_bash_text(output.exit_code, out, err),
            o.truncated == (utf8_size(output.stdout@) > MAX_OUTPUT_BYTES || utf8_size(
                output.stderr@,
            ) > MAX_OUTPUT_BYTES),
    {
        let (stdout, stdout_truncated) = truncate_text(output.stdout.as_str(), MAX_OUTPUT_BYTES);
        let (stderr, stderr_truncated) = truncate_text(output.stderr.as_str(), MAX_OUTPUT_BYTES);
        let truncated = stdout_truncated || stderr_truncated;
        let mut content = owned("Exit code: ");
        match output.exit_code {
            Some(c) => push_signed_decimal(&mut content, c),
            None => push_str(&mut content, "killed"),
        }
        push_str(&mut content, "\nstdout:\n");
        push_str(&mut content, stdout.as_str());
        push_str(&mut content, "\nstderr:\n");
        push_str(&mut content, stderr.as_str());
        assert(kept_text(output.stdout@, MAX_OUTPUT_BYTES as nat, stdout@));
        assert(kept_text(output.stderr@, MAX_OUTPUT_BYTES as nat, stderr@));
        assert(content@ =~= rig_bash_text(output.exit_code, stdout@, stderr@));
        if truncated {
            ToolOutput::truncated(content)
        } else {
            ToolOutput::new(content)
        }
    }
}

/// Checks the working directory before a command runs. `is_dir` is what the
/// file system reports for it.
pub fn check_workdir(workdir: Option<&str>, is_dir: bool) -> (r: Result<(), ToolError>)
    ensures
        workdir is None ==> r is Ok,
        workdir matches Some(d) ==> {
            &&& is_dir ==> r is Ok
            &&& !is_dir ==> (r matches Err(ToolError::InvalidPath(m)) && m@
                == "working directory does not exist: "@ + d@)
        },
{
    match workdir {
        None => Ok(()),
        Some(d) => {
            if is_dir {
                Ok(())
            } else {
                let mut m = owned("working directory does not exist: ");
                push_str(&mut m, d);
                Err(ToolError::InvalidPath(m))
            }
        },
    }
}

/// The error reported when a command exceeds its timeout.
pub fn timeout_error(timeout_ms: u64) -> (e: ToolError)
    ensures
        e matches ToolError::Timeout(m) && m@ == "command timed out after "@ + decimal(
            timeout_ms as nat,
        ) + "ms"@,
{
    let mut m = owned("command timed out after ");
    push_decimal(&mut m, timeout_ms);
    push_str(&mut m, "ms");
    ToolError::Timeout(m)
}


/// How running a command ended.
#[derive(Debug, Clone, PartialEq, Eq)]
pub enum RunOutcome {
    /// The process finished: its exit code (absent when a signal ended it)
    /// and its captured output bytes.
    Finished { exit_code: Option<i32>, stdout: Vec<u8>, stderr: Vec<u8> },
    /// The process could not be run; the rendered error.
    Failed(String),
    /// The timeout passed first.
    TimedOut,
}

/// The command result for how running it ended: decoded output (lossily
/// where not UTF-8), an execution error, or the timeout error.
pub fn finish_run(outcome: RunOutcome, timeout_ms: u64) -> (r: Result<BashOutput, ToolError>)
    ensures
        match outcome {
            RunOutcome::Finished { exit_code, stdout, stderr } => r matches Ok(o) && o.exit_code == exit_code
                && o.stdout@ == crate::utf8::lossy_utf8(stdout@) && o.stderr@ == crate::utf8::lossy_utf8(stderr@),
            RunOutcome::Failed(e) => r == Err::<BashOutput, ToolError>(ToolError::Execution(e)),
            RunOutcome::TimedOut => r matches Err(ToolError::Timeout(m)) && m@ == "command timed out after "@
                + decimal(timeout_ms as nat) + "ms"@,
        },
{
    match outcome {
        RunOutcome::Finished { exit_code, stdout, stderr } => Ok(BashOutput {
            exit_code,
            stdout: crate::utf8::from_utf8_lossy(stdout.as_slice()),
            stderr: crate::utf8::from_utf8_lossy(stderr.as_slice()),
        }),
        RunOutcome::Failed(e) => Err(ToolError::Execution(e)),
        RunOutcome::TimedOut => Err(timeout_error(timeout_ms)),
    }
}

} // verus!
