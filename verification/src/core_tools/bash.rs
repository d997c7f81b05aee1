//! Shell command requests, settings, and the rendering of their results.
//!
//! Running the process is done by the caller; this module decides which
//! command, directory and timeout to use, refuses invalid requests, and turns
//! captured output into the text the model sees.
use crate::core_tools::error::{ToolError, ToolOutput};
use crate::text::{
    decimal, has_suffix, owned, push_char, push_decimal, push_signed_decimal, push_str,
    signed_decimal, to_chars,
};
use crate::utf8::{from_utf8_lossy, string_from_utf8_or_lossy, utf8_text};
use vstd::prelude::*;

verus! {

/// Execution mode for bash commands.
#[derive(Debug, Clone, Copy, PartialEq, Eq, Default)]
pub enum BashExecutionMode {
    /// Run directly on the host.
    #[default]
    Host,
}

/// A bash request.
#[derive(Debug, Clone, PartialEq, Eq)]
pub struct BashRequest {
    /// The shell command to execute.
    pub command: String,
    /// Optional working directory.
    pub workdir: Option<String>,
    /// Timeout in milliseconds. If omitted, uses the tool's default timeout.
    pub timeout_ms: Option<u32>,
}

/// Runtime settings applied to bash requests.
#[derive(Debug, Clone, PartialEq, Eq)]
pub struct BashSettings {
    /// Default timeout when omitted from the request.
    pub default_timeout_ms: u32,
    /// Maximum allowed timeout.
    pub max_timeout_ms: u32,
    /// Default working directory when omitted from the request.
    pub default_workdir: Option<String>,
}

/// The command, working directory and timeout a request resolves to.
#[derive(Debug, Clone, PartialEq, Eq)]
pub struct BashInvocation {
    pub command: String,
    pub workdir: Option<String>,
    pub timeout_ms: u32,
}

/// Resolves a request against the settings: the request's working directory
/// and timeout win over the defaults.
pub fn resolve_invocation(request: BashRequest, settings: &BashSettings) -> (inv: BashInvocation)
    ensures
        inv.command == request.command,
        inv.workdir == (match request.workdir {
            Some(w) => Some(w),
            None => settings.default_workdir,
        }),
        inv.timeout_ms == (match request.timeout_ms {
            Some(t) => t,
            None => settings.default_timeout_ms,
        }),
{
    let workdir = match request.workdir {
        Some(w) => Some(w),
        None => match &settings.default_workdir {
            Some(d) => Some(d.clone()),
            None => None,
        },
    };
    let timeout_ms = match request.timeout_ms {
        Some(t) => t,
        None => settings.default_timeout_ms,
    };
    BashInvocation { command: request.command, workdir, timeout_ms }
}


/// Refuses a timeout of zero or one above the maximum, as command execution does
/// before starting a process.
pub fn validate_timeout(timeout_ms: u32, max_timeout_ms: u32) -> (r: Result<(), ToolError>)
    ensures
        timeout_ms == 0 ==> (r matches Err(ToolError::Validation { field: Some(f), message: m })
            && f@ == "timeout_ms"@ && m@ == "timeout_ms must be at least 1"@),
        timeout_ms > 0 && timeout_ms > max_timeout_ms ==> (r matches Err(
            ToolError::Validation { field: Some(f), message: m },
        ) && f@ == "timeout_ms"@ && m@ == "timeout_ms exceeds maximum allowed value of "@
            + decimal(max_timeout_ms as nat)),
        0 < timeout_ms <= max_timeout_ms ==> r is Ok,
{
    if timeout_ms == 0 {
        return Err(ToolError::validation_for("timeout_ms", owned("timeout_ms must be at least 1")));
    }
    if timeout_ms > max_timeout_ms {
        let mut m = owned("timeout_ms exceeds maximum allowed value of ");
        push_decimal(&mut m, max_timeout_ms as u64);
        return Err(ToolError::validation_for("timeout_ms", m));
    }
    Ok(())
}

/// Whether a Unix path is absolute.
pub open spec fn is_absolute(p: Seq<char>) -> bool {
    p.len() > 0 && p[0] == '/'
}

/// Checks a working directory: it must be absolute and name an existing
/// directory. `is_dir` and `exists` are what the file system reports for it.
pub fn validate_workdir(workdir: Option<&str>, is_dir: bool, exists: bool) -> (r: Result<(), ToolError>)
    ensures
        workdir is None ==> r is Ok,
        workdir matches Some(d) ==> {
            &&& !is_absolute(d@) ==> (r matches Err(ToolError::InvalidPath(m)) && m@
                == "working directory must be an absolute path: "@ + d@)
            &&& is_absolute(d@) && !is_dir && exists ==> (r matches Err(ToolError::InvalidPath(m))
                && m@ == "working directory is not a directory: "@ + d@)
            &&& is_absolute(d@) && !is_dir && !exists ==> (r matches Err(
                ToolError::InvalidPath(m),
            ) && m@ == "working directory does not exist: "@ + d@)
            &&& is_absolute(d@) && is_dir ==> r is Ok
        },
{
    match workdir {
        None => Ok(()),
        Some(dir) => {
            let v = to_chars(dir);
            if v.len() == 0 || v[0] != '/' {
                let mut m = owned("working directory must be an absolute path: ");
                push_str(&mut m, dir);
                return Err(ToolError::InvalidPath(m));
            }
            if !is_dir {
                let mut m = if exists {
                    owned("working directory is not a directory: ")
                } else {
                    owned("working directory does not exist: ")
                };
                push_str(&mut m, dir);
                return Err(ToolError::InvalidPath(m));
            }
            Ok(())
        },
    }
}

/// The error for a timed-out command: a plain timeout, or one that also
/// reports the failure to kill the process.
pub fn timeout_error_with_kill_failure(message: String, kill_error: Option<String>) -> (e: ToolError)
    ensures
        kill_error is None ==> e == ToolError::Timeout(message),
        kill_error matches Some(k) ==> e == (ToolError::TimeoutWithKillFailure {
            message,
            kill_error: k,
        }),
{
    match kill_error {
        Some(kill_error) => ToolError::TimeoutWithKillFailure { message, kill_error },
        None => ToolError::Timeout(message),
    }
}

/// The timeout message, followed by whatever output was captured before the
/// process was stopped.
pub open spec fn timeout_message_spec(timeout_ms: nat, stdout: Seq<char>, stderr: Seq<char>) -> Seq<char> {
    let head = "command timed out after "@ + decimal(timeout_ms) + "ms"@;
    let with_out = if stdout.len() > 0 {
        head + seq!['\n'] + stdout
    } else {
        head
    };
    if stderr.len() > 0 {
        let sep = if stdout.len() == 0 || !has_suffix(stdout, seq!['\n']) {
            seq!['\n']
        } else {
            Seq::<char>::empty()
        };
        with_out + sep + "[stderr]\n"@ + stderr
    } else {
        with_out
    }
}

/// Renders the timeout message with the buffered stdout and stderr bytes.
pub fn timeout_message_with_buffered_output(timeout_ms: u64, stdout_data: &[u8], stderr_data: &[u8]) -> (s: String)
    ensures
        s@ == timeout_message_spec(
            timeout_ms as nat,
            utf8_text(stdout_data@),
            utf8_text(stderr_data@),
        ),
{
    let stdout = from_utf8_lossy(stdout_data);
    let stderr = from_utf8_lossy(stderr_data);
    let out_chars = to_chars(stdout.as_str());
    let err_chars = to_chars(stderr.as_str());
    let mut message = owned("command timed out after ");
    push_decimal(&mut message, timeout_ms);
    push_str(&mut message, "ms");
    if out_chars.len() > 0 {
        push_char(&mut message, '\n');
        push_str(&mut message, stdout.as_str());
    }
    if err_chars.len() > 0 {
        let nl = ['\n'];
        let ends_nl = crate::text::ends_with(out_chars.as_slice(), nl.as_slice());
        proof {
            assert(nl@ == seq!['\n']);
        }
        if out_chars.len() == 0 || !ends_nl {
            push_char(&mut message, '\n');
        }
        push_str(&mut message, "[stderr]\n");
        push_str(&mut message, stderr.as_str());
    }
    message
}

/// Result of shell command execution.
#[derive(Debug, Clone, PartialEq, Eq)]
pub struct BashOutput {
    /// Exit code from the command (None if killed by timeout).
    pub exit_code: Option<i32>,
    /// Standard output from the command.
    pub stdout: String,
    /// Standard error output from the command.
    pub stderr: String,
}

/// The text shown for a command's output: stdout, then stderr under a
/// `[stderr]` label, then a non-zero exit code, separated by newlines.
pub open spec fn bash_output_text(stdout: Seq<char>, stderr: Seq<char>, exit_code: Option<i32>) -> Seq<char> {
    let a = stdout;
    let b = if stderr.len() > 0 {
        (if a.len() > 0 {
            a + seq!['\n']
        } else {
            a
        }) + "[stderr]\n"@ + stderr
    } else {
        a
    };
    match exit_code {
        Some(c) => if c != 0 {
            (if b.len() > 0 {
                b + seq!['\n']
            } else {
                b
            }) + "[exit code: "@ + signed_decimal(c as int) + "]"@
        } else {
            b
        },
        None => b,
    }
}

impl BashOutput {
    /// Formats the output for the model.
    pub fn format_output(&self) -> (o: ToolOutput)
        ensures
            o.content@ == bash_output_text(self.stdout@, self.stderr@, self.exit_code),
            !o.truncated,
    {
        let out_len = to_chars(self.stdout.as_str()).len();
        let err_len = to_chars(self.stderr.as_str()).len();
        let ghost a = self.stdout@;
        let ghost b = if self.stderr@.len() > 0 {
            (if a.len() > 0 {
                a + seq!['\n']
            } else {
                a
            }) + "[stderr]\n"@ + self.stderr@
        } else {
            a
        };
        let mut content = String::new();
        if out_len > 0 {
            push_str(&mut content, self.stdout.as_str());
        }
        assert(content@ == a);
        if err_len > 0 {
            if out_len > 0 {
                push_char(&mut content, '\n');
            }
            push_str(&mut content, "[stderr]\n");
            push_str(&mut content, self.stderr.as_str());
            proof {
                reveal_strlit("[stderr]\n");
            }
        }
        assert(content@ == b);
        let has_content = out_len > 0 || err_len > 0;
        assert(has_content == (b.len() > 0));
        if let Some(code) = self.exit_code {
            if code != 0 {
                if has_content {
                    push_char(&mut content, '\n');
                }
                push_str(&mut content, "[exit code: ");
                push_signed_decimal(&mut content, code);
                push_char(&mut content, ']');
                proof {
                    reveal_strlit("]");
                    assert("]"@ == seq![']']);
                }
            }
        }
        ToolOutput::new(content)
    }
}


/// First pause between polls of a running command, in milliseconds.
pub const INITIAL_POLL_INTERVAL_MS: u64 = 1;

/// Longest pause between polls of a running command, in milliseconds.
pub const MAX_POLL_INTERVAL_MS: u64 = 10;

/// The pause after `interval_ms`: doubled, capped at
/// [`MAX_POLL_INTERVAL_MS`].
pub fn next_poll_interval(interval_ms: u64) -> (r: u64)
    requires
        interval_ms <= MAX_POLL_INTERVAL_MS,
    ensures
        r == if 2 * interval_ms <= MAX_POLL_INTERVAL_MS {
            2 * interval_ms
        } else {
            MAX_POLL_INTERVAL_MS as int
        },
{
    let doubled = interval_ms * 2;
    if doubled <= MAX_POLL_INTERVAL_MS {
        doubled
    } else {
        MAX_POLL_INTERVAL_MS
    }
}

/// How long to sleep before the next poll: the pause, or the time left
/// before the timeout when that is shorter. `None` when the timeout has been
/// reached and the process must be killed.
pub fn poll_sleep_ms(elapsed_ms: u64, timeout_ms: u64, interval_ms: u64) -> (r: Option<u64>)
    ensures
        elapsed_ms >= timeout_ms ==> r is None,
        elapsed_ms < timeout_ms ==> r == Some(
            if (timeout_ms - elapsed_ms) as u64 <= interval_ms {
                (timeout_ms - elapsed_ms) as u64
            } else {
                interval_ms
            },
        ),
{
    if elapsed_ms >= timeout_ms {
        return None;
    }
    let remaining = timeout_ms - elapsed_ms;
    if remaining <= interval_ms {
        Some(remaining)
    } else {
        Some(interval_ms)
    }
}

/// How waiting for a command ended.
#[derive(Debug, Clone, PartialEq, Eq)]
pub enum WaitOutcome {
    /// The process exited; its exit code, absent when a signal ended it.
    Exited(Option<i32>),
    /// The timeout passed; the rendered failure to kill the process, if any.
    TimedOut { kill_error: Option<String> },
    /// Waiting failed; the rendered error.
    WaitError(String),
}

/// The result of a command from how waiting ended and the captured output:
/// the decoded output on exit, a timeout error carrying the buffered output
/// (and any failure to kill), or an execution error.
pub fn finish_wait(outcome: WaitOutcome, timeout_ms: u64, stdout_data: Vec<u8>, stderr_data: Vec<u8>) -> (r: Result<BashOutput, ToolError>)
    ensures
        match outcome {
            WaitOutcome::Exited(code) => r matches Ok(o) && o.exit_code == code && o.stdout@ == utf8_text(
                stdout_data@,
            ) && o.stderr@ == utf8_text(stderr_data@),
            WaitOutcome::TimedOut { kill_error } => {
                let m = timeout_message_spec(timeout_ms as nat, utf8_text(stdout_data@), utf8_text(stderr_data@));
                match kill_error {
                    None => r matches Err(ToolError::Timeout(t)) && t@ == m,
                    Some(k) => r matches Err(ToolError::TimeoutWithKillFailure { message, kill_error: ke })
                        && message@ == m && ke == k,
                }
            },
            WaitOutcome::WaitError(e) => r == Err::<BashOutput, ToolError>(ToolError::Execution(e)),
        },
{
    match outcome {
        WaitOutcome::Exited(code) => Ok(BashOutput {
            exit_code: code,
            stdout: string_from_utf8_or_lossy(stdout_data),
            stderr: string_from_utf8_or_lossy(stderr_data),
        }),
        WaitOutcome::TimedOut { kill_error } => {
            let message = timeout_message_with_buffered_output(
                timeout_ms,
                stdout_data.as_slice(),
                stderr_data.as_slice(),
            );
            Err(timeout_error_with_kill_failure(message, kill_error))
        },
        WaitOutcome::WaitError(e) => Err(ToolError::Execution(e)),
    }
}

} // verus!
