use reloaded_code::core_tools::bash::{
    finish_wait, next_poll_interval, poll_sleep_ms, resolve_invocation, timeout_message_with_buffered_output,
    validate_timeout, validate_workdir, BashOutput, BashRequest, BashSettings, WaitOutcome,
};
use reloaded_code::core_tools::edit::{check_edit_strings, edit_content, edit_message, EditError};
use reloaded_code::core_tools::error::{ToolError, ToolOutput};
use reloaded_code::core_tools::glob::{
    collect_glob_output, glob_walked_files, GlobEntry, GlobSettings, WalkedFile, MAX_RESULTS,
};
use reloaded_code::core_tools::task::{TaskOutput, TaskSettings, DEFAULT_MAX_DEPTH};
use reloaded_code::core_tools::webfetch::{
    categorize_request_error, check_content_length, check_size, check_status, content_type_or_default,
    finish_fetch, format_json, html_to_markdown, process_content, resolve_timeout, FetchBody,
    RequestFailure, WebFetchRequest, WebFetchSettings, DEFAULT_TIMEOUT_MS, MAX_RESPONSE_SIZE, MAX_TIMEOUT_MS,
    MIN_TIMEOUT_MS,
};
use reloaded_code::core_tools::workspace::choose_workspace_root;
use reloaded_code::core_tools::write::write_message;

fn entry(path: &str, secs: u64) -> GlobEntry {
    GlobEntry { path: path.to_string(), mtime_secs: secs, mtime_nanos: 0 }
}

#[test]
fn glob_settings_should_create_standard_defaults() {
    let settings = GlobSettings::new();
    assert_eq!(settings.limit(), MAX_RESULTS);
}

#[test]
fn glob_settings_should_reject_zero_limit() {
    assert!(GlobSettings::new().with_limit(0).is_err());
}

#[test]
fn task_settings_allow_delegation_only_below_max_depth() {
    let settings = TaskSettings::with_max_depth(3);

    assert!(settings.allows_delegation(0));
    assert!(settings.allows_delegation(2));
    assert!(!settings.allows_delegation(3));
}

#[test]
fn webfetch_settings_should_create_standard_defaults() {
    let settings = WebFetchSettings::new();
    assert_eq!(settings.default_timeout_ms(), DEFAULT_TIMEOUT_MS);
    assert_eq!(settings.max_timeout_ms(), MAX_TIMEOUT_MS);
    assert_eq!(settings.max_response_size(), MAX_RESPONSE_SIZE);
}

#[test]
fn webfetch_settings_should_reject_timeout_below_minimum() {
    let below_min = MIN_TIMEOUT_MS - 1;
    assert!(WebFetchSettings::new().with_default_timeout_ms(below_min).is_err());
    assert!(WebFetchSettings::new().with_max_timeout_ms(below_min).is_err());
}

#[test]
fn webfetch_settings_should_reject_default_timeout_above_max_timeout() {
    assert!(WebFetchSettings::new().with_timeouts(30_001, 30_000).is_err());
}

#[test]
fn webfetch_settings_should_reject_zero_max_response_size() {
    assert!(WebFetchSettings::new().with_max_response_size(0).is_err());
}

#[test]
fn mod_html_to_markdown_strips_scripts() {
    let html = "<p>Before</p><script>alert('xss')</script><p>After</p>";
    let result = html_to_markdown(html);
    assert!(!result.contains("alert"));
}

#[test]
fn format_json_prettifies() {
    let json = r#"{"a":1}"#;
    let result = format_json(json);
    assert!(result.contains("\"a\": 1"));
}

#[test]
fn mod_format_json_returns_original_on_invalid() {
    let invalid = "not json";
    assert_eq!(format_json(invalid), "not json");
}

#[test]
fn check_size_ok_for_small_content() {
    assert!(check_size(1000, "http://example.com", 5 * 1024 * 1024).is_ok());
}

#[test]
fn check_size_fails_for_large_content() {
    let max_size = 5 * 1024 * 1024;
    assert!(check_size(max_size + 1, "http://example.com", max_size).is_err());
}

#[test]
fn webfetch_timeout_rejection_messages() {
    let settings = WebFetchSettings::new();
    let err = settings.with_timeouts(30_001, 30_000).unwrap_err();
    assert_eq!(
        err,
        ToolError::Validation {
            field: Some("default_timeout_ms".to_string()),
            message: "default_timeout_ms (30001) must be <= max_timeout_ms (30000)".to_string(),
        }
    );
    let err = settings.with_max_response_size(0).unwrap_err();
    assert_eq!(
        err,
        ToolError::Validation {
            field: Some("max_response_size".to_string()),
            message: "max_response_size must be >= 1".to_string(),
        }
    );
}

#[test]
fn webfetch_request_timeout_is_checked() {
    let settings = WebFetchSettings::new().with_timeouts(10_000, 20_000).unwrap();
    let zero = WebFetchRequest { url: "http://x".to_string(), timeout_ms: Some(0) };
    assert_eq!(
        resolve_timeout(&zero, settings),
        Err(ToolError::Validation {
            field: Some("timeout_ms".to_string()),
            message: "timeout_ms must be at least 1".to_string(),
        })
    );
    let big = WebFetchRequest { url: "http://x".to_string(), timeout_ms: Some(21_000) };
    assert_eq!(
        resolve_timeout(&big, settings),
        Err(ToolError::Validation {
            field: Some("timeout_ms".to_string()),
            message: "timeout_ms exceeds maximum allowed value of 20000".to_string(),
        })
    );
    let none = WebFetchRequest { url: "http://x".to_string(), timeout_ms: None };
    assert_eq!(resolve_timeout(&none, settings), Ok(10_000));
}

#[test]
fn webfetch_response_checks() {
    assert!(check_status(200, "200 OK", "http://x").is_ok());
    assert_eq!(
        check_status(404, "404 Not Found", "http://x"),
        Err(ToolError::Http("HTTP 404 Not Found for http://x".to_string()))
    );
    assert_eq!(content_type_or_default(None), "text/plain");
    assert_eq!(check_content_length(Some(10), "u", 100), Ok(Some(10)));
    assert_eq!(
        check_content_length(Some(101), "u", 100),
        Err(ToolError::Http("Response too large: 101 bytes (max 100) for u".to_string()))
    );
    assert_eq!(check_content_length(None, "u", 100), Ok(None));
}

#[test]
fn webfetch_body_is_limited_chunk_by_chunk() {
    let mut body = FetchBody::new();
    assert!(body.accept_chunk(b"hello ", "u", 11).is_ok());
    assert!(body.accept_chunk(b"world", "u", 11).is_ok());
    assert_eq!(
        body.accept_chunk(b"!", "u", 11),
        Err(ToolError::Http("Response too large: 12 bytes (max 11) for u".to_string()))
    );
    assert_eq!(body.len(), 11);
    let out = finish_fetch(body, "text/plain".to_string());
    assert_eq!(out.content, "hello world");
    assert_eq!(out.byte_length, 11);
    assert_eq!(out.content_type, "text/plain");
}

#[test]
fn webfetch_processes_by_content_type() {
    assert_eq!(process_content("plain", "text/plain"), "plain");
    assert!(process_content(r#"{"k":2}"#, "application/json; charset=utf-8").contains("\"k\": 2"));
    let md = process_content("<h1>Title</h1>", "text/html");
    assert!(md.contains("Title"));
    assert!(!md.contains("<h1>"));
}

#[test]
fn webfetch_request_failures_are_categorized() {
    assert_eq!(
        categorize_request_error(RequestFailure::Timeout, "x", "http://u"),
        ToolError::Timeout("Request timed out for http://u".to_string())
    );
    assert_eq!(
        categorize_request_error(RequestFailure::Connect, "refused", "http://u"),
        ToolError::Http("Connection failed for http://u: refused".to_string())
    );
    assert_eq!(
        categorize_request_error(RequestFailure::Redirect, "x", "http://u"),
        ToolError::Http("Too many redirects for http://u".to_string())
    );
    assert_eq!(
        categorize_request_error(RequestFailure::Other, "boom", "http://u"),
        ToolError::Http("boom".to_string())
    );
}

#[test]
fn edit_single_replacement_succeeds() {
    let out = edit_content("hello world", "world", "there", false).unwrap();
    assert_eq!(out.new_content, "hello there");
    assert_eq!(out.replacements, 1);
    assert_eq!(edit_message(out.replacements), "Successfully replaced 1 occurrence(s)");
}

#[test]
fn edit_refuses_bad_requests() {
    assert_eq!(edit_content("abc", "", "x", false).unwrap_err(), EditError::EmptyOldString);
    assert_eq!(edit_content("abc", "b", "b", false).unwrap_err(), EditError::IdenticalStrings);
    assert_eq!(edit_content("abc", "z", "y", false).unwrap_err(), EditError::NotFound);
    assert_eq!(edit_content("aXbXc", "X", "Y", false).unwrap_err(), EditError::AmbiguousMatch);
}

#[test]
fn edit_replace_all_counts_occurrences() {
    let out = edit_content("aXbXc", "X", "YY", true).unwrap();
    assert_eq!(out.new_content, "aYYbYYc");
    assert_eq!(out.replacements, 2);
}

#[test]
fn edit_errors_become_validation_errors_on_old_string() {
    let t = EditError::NotFound.into_tool_error();
    assert_eq!(
        t,
        ToolError::Validation {
            field: Some("old_string".to_string()),
            message: "old_string not found in file content".to_string()
        }
    );
    let t = EditError::AmbiguousMatch.into_tool_error();
    assert_eq!(
        t.to_string(),
        "validation error: old_string found multiple times and requires more code context to uniquely identify the intended match"
    );
    let t = EditError::EmptyOldString.into_tool_error();
    assert!(matches!(t, ToolError::Validation { message, .. } if message == "old_string must not be empty"));
    let t = EditError::IdenticalStrings.into_tool_error();
    assert!(matches!(t, ToolError::Validation { message, .. } if message == "old_string and new_string must be different"));
    let io = ToolError::Io("disk full".to_string());
    assert_eq!(EditError::Tool(io.clone()).into_tool_error(), io);
}

#[test]
fn edit_single_replacement_can_be_undone() {
    let first = edit_content("one two three", "two", "2", false).unwrap();
    let back = edit_content(&first.new_content, "2", "two", false).unwrap();
    assert_eq!(back.new_content, "one two three");
}

#[test]
fn bash_invocation_prefers_request_values() {
    let settings = BashSettings {
        default_timeout_ms: 5000,
        max_timeout_ms: 10000,
        default_workdir: Some("/tmp".to_string()),
    };
    let inv = resolve_invocation(
        BashRequest { command: "ls".to_string(), workdir: None, timeout_ms: None },
        &settings,
    );
    assert_eq!(inv.timeout_ms, 5000);
    assert_eq!(inv.workdir.as_deref(), Some("/tmp"));
    let inv = resolve_invocation(
        BashRequest { command: "ls".to_string(), workdir: Some("/var".to_string()), timeout_ms: Some(7) },
        &settings,
    );
    assert_eq!(inv.timeout_ms, 7);
    assert_eq!(inv.workdir.as_deref(), Some("/var"));
}

#[test]
fn bash_timeout_and_workdir_are_validated() {
    assert!(validate_timeout(0, 100).is_err());
    assert!(validate_timeout(101, 100).is_err());
    assert!(validate_timeout(100, 100).is_ok());
    assert!(matches!(validate_workdir(Some("relative"), true, true), Err(ToolError::InvalidPath(_))));
    assert!(validate_workdir(Some("/tmp"), true, true).is_ok());
    assert!(validate_workdir(None, false, false).is_ok());
}

#[test]
fn bash_output_is_rendered() {
    let out = BashOutput { exit_code: Some(2), stdout: "out\n".to_string(), stderr: "err".to_string() };
    let rendered: ToolOutput = out.format_output();
    assert_eq!(rendered.content, "out\n\n[stderr]\nerr\n[exit code: 2]");
    let quiet = BashOutput { exit_code: Some(0), stdout: "hi".to_string(), stderr: String::new() };
    assert_eq!(quiet.format_output().content, "hi");
}

#[test]
fn bash_timeout_message_keeps_buffered_output() {
    let m = timeout_message_with_buffered_output(50, b"partial\n", b"warn");
    assert_eq!(m, "command timed out after 50ms\npartial\n[stderr]\nwarn");
}

#[test]
fn bash_wait_outcomes_map_to_results() {
    let ok = finish_wait(WaitOutcome::Exited(Some(0)), 100, b"hello".to_vec(), Vec::new()).unwrap();
    assert_eq!(ok.stdout, "hello");
    assert_eq!(ok.exit_code, Some(0));
    let timed = finish_wait(WaitOutcome::TimedOut { kill_error: None }, 100, Vec::new(), Vec::new());
    assert_eq!(timed, Err(ToolError::Timeout("command timed out after 100ms".to_string())));
    let kill = finish_wait(
        WaitOutcome::TimedOut { kill_error: Some("operation not permitted".to_string()) },
        100,
        Vec::new(),
        Vec::new(),
    );
    match kill {
        Err(ToolError::TimeoutWithKillFailure { message, kill_error }) => {
            assert_eq!(message, "command timed out after 100ms");
            assert_eq!(kill_error, "operation not permitted");
        }
        other => panic!("unexpected: {other:?}"),
    }
    let err = finish_wait(WaitOutcome::WaitError("boom".to_string()), 100, Vec::new(), Vec::new());
    assert_eq!(err, Err(ToolError::Execution("boom".to_string())));
}

#[test]
fn bash_poll_interval_backs_off() {
    assert_eq!(next_poll_interval(1), 2);
    assert_eq!(next_poll_interval(4), 8);
    assert_eq!(next_poll_interval(8), 10);
    assert_eq!(poll_sleep_ms(95, 100, 10), Some(5));
    assert_eq!(poll_sleep_ms(10, 100, 10), Some(10));
    assert_eq!(poll_sleep_ms(100, 100, 10), None);
}

#[test]
fn glob_output_is_newest_first_with_path_tiebreak() {
    let entries = vec![entry("b.rs", 1), entry("c.rs", 5), entry("a.rs", 1), entry("a/z.rs", 1)];
    let out = collect_glob_output(entries, Vec::new(), &GlobSettings::new());
    assert_eq!(out.files, vec!["c.rs", "a/z.rs", "a.rs", "b.rs"]);
    assert!(!out.truncated);
    assert!(!out.partial);
}

#[test]
fn glob_sets_truncated_flag_when_results_exceed_limit() {
    let settings = GlobSettings::new().with_limit(2).unwrap();
    let entries = vec![entry("a", 1), entry("b", 2), entry("c", 3)];
    let out = collect_glob_output(entries, vec!["walk error".to_string()], &settings);
    assert_eq!(out.files, vec!["c", "b"]);
    assert!(out.truncated);
    assert!(out.partial);
    assert_eq!(out.errors, vec!["walk error"]);
}

#[test]
fn glob_walked_files_filter_by_pattern_and_permission() {
    let walked = vec![
        WalkedFile { entry: entry("src/lib.rs", 2), allowed: true },
        WalkedFile { entry: entry("src/main.rs", 3), allowed: true },
        WalkedFile { entry: entry("Cargo.toml", 4), allowed: true },
        WalkedFile { entry: entry("secret.rs", 9), allowed: false },
        WalkedFile { entry: entry("", 9), allowed: true },
    ];
    let out = glob_walked_files("**/*.rs", walked, Vec::new(), &GlobSettings::new()).unwrap();
    assert_eq!(out.files, vec!["src/main.rs", "src/lib.rs"]);
}

#[test]
fn glob_walked_files_rejects_invalid_pattern() {
    let out = glob_walked_files("[invalid", Vec::new(), Vec::new(), &GlobSettings::new());
    assert!(matches!(out, Err(ToolError::InvalidPattern(_))));
}

#[test]
fn task_output_holds_summary() {
    let out = TaskOutput::new("done".to_string());
    assert_eq!(out.summary, "done");
    assert!(out.metadata.is_none());
    let out = out.with_metadata(serde_json::Value::Bool(true));
    assert_eq!(out.metadata, Some(serde_json::Value::Bool(true)));
    assert_eq!(TaskSettings::new().max_depth(), DEFAULT_MAX_DEPTH);
}

#[test]
fn write_message_counts_utf8_bytes() {
    assert_eq!(write_message("hello world", "/tmp/a.txt"), "Successfully wrote 11 bytes to /tmp/a.txt");
    assert_eq!(write_message("é", "/p"), "Successfully wrote 2 bytes to /p");
}

#[test]
fn workspace_root_prefers_closest_git_directory() {
    let ancestors = vec!["/a/b/c".to_string(), "/a/b".to_string(), "/a".to_string(), "/".to_string()];
    assert_eq!(choose_workspace_root(&ancestors, &vec![false, true, true, false]), "/a/b");
    assert_eq!(choose_workspace_root(&ancestors, &vec![false, false, false, false]), "/a/b/c");
}

#[test]
fn tool_error_renders_execution_and_kill_failure() {
    assert!(ToolError::Execution("command failed".to_string()).to_string().contains("execution error"));
    let e = ToolError::TimeoutWithKillFailure {
        message: "timed out".to_string(),
        kill_error: "operation not permitted".to_string(),
    };
    let s = e.to_string();
    assert!(s.contains("timed out"));
    assert!(s.contains("operation not permitted"));
}

#[test]
fn edit_strings_are_checked_before_reading() {
    assert_eq!(check_edit_strings("", "x"), Err(EditError::EmptyOldString));
    assert_eq!(check_edit_strings("a", "a"), Err(EditError::IdenticalStrings));
    assert_eq!(check_edit_strings("a", "b"), Ok(()));
}

#[test]
fn glob_settings_default_matches_new() {
    assert_eq!(GlobSettings::default(), GlobSettings::new());
    assert_eq!(GlobSettings::default().limit(), MAX_RESULTS);
}
