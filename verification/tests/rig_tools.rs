use reloaded_code::core_tools::glob::GlobEntry;
use reloaded_code::core_tools::webfetch::{format_json, html_to_markdown};
use reloaded_code::rig_tools::bash::{check_workdir, finish_run, BashOutput, BashTool, RunOutcome};
use reloaded_code::rig_tools::edit::{check_edit_args, rig_edit_content, EditError};
use reloaded_code::rig_tools::error::{validate_absolute_path, ToolError};
use reloaded_code::rig_tools::glob::GlobTool;
use reloaded_code::rig_tools::grep::{interpret_rg_output, parse_results, prepare_grep, render_grep_result, GrepArgs, GrepOutput};
use reloaded_code::rig_tools::read::{format_read_output, truncate_line};
use reloaded_code::rig_tools::task::{MockTaskExecutor, TaskArgs, TaskExecutor, TaskResult, TaskTool};
use reloaded_code::rig_tools::todo::{
    Todo, TodoPriority, TodoReadArgs, TodoReadTool, TodoState, TodoStatus, TodoWriteArgs, TodoWriteTool,
};
use reloaded_code::rig_tools::util::truncate_text;
use reloaded_code::core_tools::webfetch::RequestFailure;
use reloaded_code::rig_tools::webfetch::{categorize_request_failure, check_status, WebFetchTool};
use reloaded_code::rig_tools::write::{WriteTool, WriteToolArgs};

fn make_todo(id: &str, status: TodoStatus) -> Todo {
    Todo { id: id.to_string(), content: format!("Task {id}"), status, priority: TodoPriority::Medium }
}

fn task_args(description: &str, subagent_type: &str, session_id: Option<&str>) -> TaskArgs {
    TaskArgs {
        description: description.to_string(),
        prompt: "prompt".to_string(),
        subagent_type: subagent_type.to_string(),
        session_id: session_id.map(|s| s.to_string()),
    }
}

#[test]
fn parse_results_handles_basic_output() {
    let stdout = b"/tmp/a.rs\n/tmp/b.rs\n";
    let (files, truncated) = parse_results(stdout, 10);
    assert_eq!(files, vec!["/tmp/a.rs", "/tmp/b.rs"]);
    assert!(!truncated);
}

#[test]
fn parse_results_truncates_at_limit() {
    let stdout = b"/tmp/a.rs\n/tmp/b.rs\n/tmp/c.rs\n";
    let (files, truncated) = parse_results(stdout, 2);
    assert_eq!(files.len(), 2);
    assert!(truncated);
}

#[test]
fn parse_results_handles_empty_lines() {
    let stdout = b"/tmp/a.rs\n\n/tmp/b.rs\n";
    let (files, _) = parse_results(stdout, 10);
    assert_eq!(files, vec!["/tmp/a.rs", "/tmp/b.rs"]);
}

#[test]
fn parse_results_skips_invalid_utf8_lines() {
    let stdout = b"/tmp/a.rs\n\xff\xfe\n/tmp/b.rs";
    let (files, truncated) = parse_results(stdout, 10);
    assert_eq!(files, vec!["/tmp/a.rs", "/tmp/b.rs"]);
    assert!(!truncated);
}

#[test]
fn grep_validates_arguments_in_order() {
    let args = |pattern: &str, path: &str, limit: Option<usize>| GrepArgs {
        pattern: pattern.to_string(),
        path: path.to_string(),
        glob_filter: Some("  *.rs ".to_string()),
        limit,
    };
    assert!(matches!(prepare_grep(&args("x", "relative", None)), Err(ToolError::InvalidPath(_))));
    assert_eq!(
        prepare_grep(&args("   ", "/tmp", None)),
        Err(ToolError::InvalidPattern("pattern must not be empty".to_string()))
    );
    assert!(matches!(prepare_grep(&args("(", "/tmp", None)), Err(ToolError::Regex(_))));
    assert_eq!(
        prepare_grep(&args("x", "/tmp", Some(0))),
        Err(ToolError::InvalidPattern("limit must be greater than zero".to_string()))
    );
    let plan = prepare_grep(&args(" fn main ", "/tmp", Some(5000))).unwrap();
    assert_eq!(plan.pattern, "fn main");
    assert_eq!(plan.limit, 2000);
    assert_eq!(plan.glob_filter.as_deref(), Some("*.rs"));
}

#[test]
fn grep_interprets_rg_exit_codes() {
    let ok = interpret_rg_output(Some(0), b"/a\n/b\n", b"", 1).unwrap();
    assert_eq!(ok, GrepOutput { files: vec!["/a".to_string()], truncated: true });
    let none = interpret_rg_output(Some(1), b"", b"", 10).unwrap();
    assert!(none.files.is_empty());
    assert_eq!(
        interpret_rg_output(Some(2), b"", b"bad", 10),
        Err(ToolError::Execution("rg failed: bad".to_string()))
    );
    assert_eq!(render_grep_result(&none, 10), "No matches found.");
    assert_eq!(render_grep_result(&ok, 1), "/a\n\n(Results truncated at 1 files)");
}

#[test]
fn status_icons_are_correct() {
    assert_eq!(TodoStatus::Pending.icon(), "[ ]");
    assert_eq!(TodoStatus::InProgress.icon(), "[>]");
    assert_eq!(TodoStatus::Completed.icon(), "[x]");
    assert_eq!(TodoStatus::Cancelled.icon(), "[-]");
}

#[test]
fn write_and_read_todos() {
    let mut state = TodoState::new();
    let write_tool = TodoWriteTool::new();
    let read_tool = TodoReadTool::new();
    let todos = vec![
        make_todo("1", TodoStatus::Completed),
        make_todo("2", TodoStatus::InProgress),
        make_todo("3", TodoStatus::Pending),
    ];
    let result = write_tool.call(&mut state, TodoWriteArgs { todos }).unwrap();
    assert!(result.contains("3 task(s)"));
    let output = read_tool.call(&state, TodoReadArgs {}).unwrap();
    assert!(output.contains("[x]"));
    assert!(output.contains("[>]"));
    assert!(output.contains("[ ]"));
    assert_eq!(
        output,
        "Tasks (3 total):\n[x] (Medium) 1: Task 1\n[>] (Medium) 2: Task 2\n[ ] (Medium) 3: Task 3"
    );
}

#[test]
fn read_empty_list() {
    let state = TodoState::new();
    let output = TodoReadTool::new().call(&state, TodoReadArgs {}).unwrap();
    assert_eq!(output, "No tasks.");
}

#[test]
fn write_replaces_existing() {
    let mut state = TodoState::new();
    let write_tool = TodoWriteTool::new();
    write_tool.call(&mut state, TodoWriteArgs { todos: vec![make_todo("a", TodoStatus::Pending)] }).unwrap();
    write_tool.call(&mut state, TodoWriteArgs { todos: vec![make_todo("b", TodoStatus::Completed)] }).unwrap();
    let output = TodoReadTool::new().call(&state, TodoReadArgs {}).unwrap();
    assert!(!output.contains("Task a"));
    assert!(output.contains("Task b"));
}

#[test]
fn write_validates_empty_id() {
    let mut state = TodoState::new();
    let todo = Todo { id: "".to_string(), content: "Task".to_string(), status: TodoStatus::Pending, priority: TodoPriority::Low };
    let result = TodoWriteTool::new().call(&mut state, TodoWriteArgs { todos: vec![todo] });
    assert!(matches!(result, Err(ToolError::Validation(_))));
}

#[test]
fn write_validates_empty_content() {
    let mut state = TodoState::new();
    let todo = Todo { id: "1".to_string(), content: "  ".to_string(), status: TodoStatus::Pending, priority: TodoPriority::Low };
    let result = TodoWriteTool::new().call(&mut state, TodoWriteArgs { todos: vec![todo] });
    assert_eq!(result, Err(ToolError::Validation("todo content cannot be empty".to_string())));
}

#[test]
fn refused_write_keeps_previous_list() {
    let mut state = TodoState::new();
    let tool = TodoWriteTool::new();
    tool.call(&mut state, TodoWriteArgs { todos: vec![make_todo("a", TodoStatus::Pending)] }).unwrap();
    let bad = Todo { id: " ".to_string(), content: "x".to_string(), status: TodoStatus::Pending, priority: TodoPriority::High };
    assert!(tool.call(&mut state, TodoWriteArgs { todos: vec![bad] }).is_err());
    let output = TodoReadTool::new().call(&state, TodoReadArgs {}).unwrap();
    assert!(output.contains("Task a"));
}

#[test]
fn mock_executor_returns_default_response() {
    let mut executor = MockTaskExecutor::new();
    let result = executor.execute(&task_args("test task", "general", None)).unwrap();
    assert_eq!(result.description, "test task");
    assert_eq!(result.subagent_type, "general");
    assert!(result.session_id.starts_with("mock-session-"));
    assert_eq!(result.result, "Task 'test task' completed successfully by general agent.");
}

#[test]
fn mock_executor_uses_custom_response() {
    let mut executor = MockTaskExecutor::new();
    executor.set_response("custom task".to_string(), "Custom result!".to_string());
    let result = executor.execute(&task_args("custom task", "coder", None)).unwrap();
    assert_eq!(result.result, "Custom result!");
    executor.set_response("custom task".to_string(), "Second!".to_string());
    let result = executor.execute(&task_args("custom task", "coder", None)).unwrap();
    assert_eq!(result.result, "Second!");
}

#[test]
fn mock_executor_continues_session() {
    let mut executor = MockTaskExecutor::new();
    let result = executor.execute(&task_args("task", "general", Some("existing-session"))).unwrap();
    assert_eq!(result.session_id, "existing-session");
}

#[test]
fn session_ids_increment() {
    let mut executor = MockTaskExecutor::new();
    let args = task_args("task", "general", None);
    let r1 = executor.execute(&args).unwrap();
    let r2 = executor.execute(&args).unwrap();
    assert_eq!(r1.session_id, "mock-session-0");
    assert_eq!(r2.session_id, "mock-session-1");
}

#[test]
fn task_tool_calls_executor() {
    let mut tool = TaskTool::with_mock();
    let output = tool.call(task_args("analyze code", "coder", None)).unwrap();
    assert!(output.contains("Task: analyze code"));
    assert!(output.contains("Agent: coder"));
    assert!(output.contains("Status: completed"));
}

#[test]
fn task_tool_with_custom_mock_response() {
    let mut tool = TaskTool::with_mock();
    tool.mock_executor().set_response("special task".to_string(), "Special output!".to_string());
    let output = tool.call(task_args("special task", "general", None)).unwrap();
    assert!(output.contains("Special output!"));
}

#[test]
fn task_result_format_is_exact() {
    let r = TaskResult {
        description: "d".to_string(),
        subagent_type: "a".to_string(),
        session_id: "s".to_string(),
        result: "r".to_string(),
    };
    assert_eq!(r.format(), "Task: d\nAgent: a\nSession: s\nStatus: completed\n\nResult: r");
}

#[test]
fn tool_error_displays_io_error() {
    let err = ToolError::Io("file not found".to_string());
    assert!(err.to_string().contains("I/O error"));
}

#[test]
fn tool_error_displays_invalid_path() {
    let err = ToolError::InvalidPath("not absolute".into());
    assert!(err.to_string().contains("invalid path"));
}

#[test]
fn tool_error_from_glob_pattern_error() {
    let err = GlobTool::glob_files("[invalid", "/tmp", true, Vec::new()).unwrap_err();
    assert!(matches!(err, ToolError::InvalidPattern(_)));
}

#[test]
fn glob_rejects_relative_path() {
    let result = GlobTool::glob_files("*.rs", "relative/path", true, Vec::new());
    assert!(matches!(result, Err(ToolError::InvalidPath(_))));
}

#[test]
fn glob_rejects_nonexistent_directory() {
    let result = GlobTool::glob_files("*.rs", "/nonexistent/path/that/does/not/exist", false, Vec::new());
    assert!(result.is_err());
}

#[test]
fn glob_handles_invalid_pattern() {
    let result = GlobTool::glob_files("[invalid", "/tmp", true, Vec::new());
    assert!(matches!(result, Err(ToolError::InvalidPattern(_))));
}

#[test]
fn glob_sorts_by_mtime_with_walk_order_ties() {
    let walked = vec![
        GlobEntry { path: "src/lib.rs".to_string(), mtime_secs: 1, mtime_nanos: 0 },
        GlobEntry { path: "src/main.rs".to_string(), mtime_secs: 2, mtime_nanos: 0 },
        GlobEntry { path: "tests/test.rs".to_string(), mtime_secs: 1, mtime_nanos: 0 },
        GlobEntry { path: "Cargo.toml".to_string(), mtime_secs: 3, mtime_nanos: 0 },
    ];
    let result = GlobTool::glob_files("**/*.rs", "/tmp", true, walked).unwrap();
    assert_eq!(result.files, vec!["src/main.rs", "src/lib.rs", "tests/test.rs"]);
    assert!(!result.truncated);
}

#[test]
fn webfetch_html_to_markdown_strips_scripts() {
    let html = "<p>Before</p><script>alert('xss')</script><p>After</p>";
    let result = html_to_markdown(html);
    assert!(result.contains("Before"));
    assert!(result.contains("After"));
    assert!(!result.contains("alert"));
    assert!(!result.contains("<script>"));
}

#[test]
fn html_to_markdown_converts_structure() {
    let html = "<html><body><h1>Title</h1><p>Content</p></body></html>";
    let result = html_to_markdown(html);
    assert!(result.contains("Title"));
    assert!(result.contains("Content"));
    assert!(!result.contains("<h1>"));
    assert!(!result.contains("<p>"));
}

#[test]
fn html_to_markdown_decodes_entities() {
    let html = "<p>Tom &amp; Jerry &lt;3</p>";
    let result = html_to_markdown(html);
    assert!(result.contains("Tom & Jerry <3"));
}

#[test]
fn format_json_prettifies_valid_json() {
    let json = r#"{"a":1,"b":2}"#;
    let result = format_json(json);
    assert!(result.contains("\"a\": 1"));
    assert!(result.contains("\"b\": 2"));
}

#[test]
fn webfetch_format_json_returns_original_on_invalid() {
    let invalid = "not json";
    let result = format_json(invalid);
    assert_eq!(result, "not json");
}

#[test]
fn webfetch_renders_and_truncates() {
    let out = WebFetchTool::render("http://u", "text/plain", b"Hello, world!".to_vec());
    assert_eq!(out, "URL: http://u\nContent-Type: text/plain\nLength: 13 bytes\n\nHello, world!");
    let big = vec![b'a'; 102_401];
    let out = WebFetchTool::render("http://u", "text/plain", big);
    assert!(out.ends_with("\n\n[Content truncated]"));
    assert!(WebFetchTool::check_content_length(Some(6_000_000)).is_err());
    assert!(WebFetchTool::check_content_length(Some(10)).is_ok());
}

#[test]
fn bash_output_is_truncated_per_stream() {
    let out = BashTool::format_output(BashOutput { exit_code: None, stdout: "x".repeat(40_000), stderr: "e".to_string() });
    assert!(out.truncated);
    assert!(out.content.starts_with("Exit code: killed\nstdout:\n"));
    let out = BashTool::format_output(BashOutput { exit_code: Some(0), stdout: "hello\n".to_string(), stderr: String::new() });
    assert_eq!(out.content, "Exit code: 0\nstdout:\nhello\n\nstderr:\n");
    assert!(!out.truncated);
}

#[test]
fn bash_run_outcomes() {
    let ok = finish_run(RunOutcome::Finished { exit_code: Some(3), stdout: b"a".to_vec(), stderr: b"b".to_vec() }, 10).unwrap();
    assert_eq!(ok.exit_code, Some(3));
    assert_eq!(ok.stdout, "a");
    assert_eq!(finish_run(RunOutcome::TimedOut, 100), Err(ToolError::Timeout("command timed out after 100ms".to_string())));
    assert!(matches!(check_workdir(Some("/nope"), false), Err(ToolError::InvalidPath(_))));
}

#[test]
fn edit_tool_reports_ambiguity_with_count() {
    assert_eq!(rig_edit_content("a a a", "a", "b", false), Err(EditError::AmbiguousMatch(3)));
    assert_eq!(rig_edit_content("a a a", "a", "b", true), Ok(("b b b".to_string(), 3)));
    assert_eq!(check_edit_args("", "x"), Err(EditError::EmptyOldString));
}

#[test]
fn read_output_is_numbered() {
    let out = format_read_output(b"one\ntwo\nthree\n", 2, 1).unwrap();
    assert!(out.content.contains("two"));
    assert!(!out.content.contains("one"));
    let (line, cut) = truncate_line("abcdef", 3);
    assert_eq!(line, "abc");
    assert!(cut);
}

#[test]
fn truncate_text_keeps_whole_characters() {
    let (s, cut) = truncate_text("héllo", 2);
    assert_eq!(s, "h");
    assert!(cut);
    let (s, cut) = truncate_text("hi", 10);
    assert_eq!(s, "hi");
    assert!(!cut);
}

#[test]
fn write_tool_checks_path_and_confirms() {
    let args = WriteToolArgs { file_path: "/tmp/x.txt".to_string(), content: "hello world".to_string() };
    assert!(WriteTool::check_args(&args).is_ok());
    assert!(WriteTool::success_message(&args).contains("11 bytes"));
    let rel = WriteToolArgs { file_path: "x.txt".to_string(), content: String::new() };
    assert_eq!(WriteTool::check_args(&rel), Err(ToolError::InvalidPath("path must be absolute: x.txt".to_string())));
    assert!(validate_absolute_path("/abs").is_ok());
}

#[test]
fn rig_request_failures_are_categorized() {
    let url = "http://example.test/x";
    assert_eq!(
        categorize_request_failure(RequestFailure::Timeout, "boom", url),
        ToolError::Timeout("Request timed out for http://example.test/x".to_string())
    );
    assert_eq!(
        categorize_request_failure(RequestFailure::Connect, "refused", url),
        ToolError::Http("Connection failed for http://example.test/x: refused".to_string())
    );
    assert_eq!(
        categorize_request_failure(RequestFailure::Redirect, "loop", url),
        ToolError::Http("Too many redirects for http://example.test/x".to_string())
    );
    assert_eq!(categorize_request_failure(RequestFailure::Other, "odd", url), ToolError::Http("odd".to_string()));
}

#[test]
fn rig_status_check_refuses_non_success() {
    assert!(check_status(200, "200 OK", "u").is_ok());
    assert!(check_status(204, "204 No Content", "u").is_ok());
    assert_eq!(check_status(404, "404 Not Found", "u"), Err(ToolError::Http("HTTP 404 Not Found for u".to_string())));
}

#[test]
fn rig_edit_errors_render_their_text() {
    assert_eq!(EditError::EmptyOldString.to_string(), "old_string must not be empty");
    assert_eq!(EditError::IdenticalStrings.to_string(), "old_string and new_string must be different");
    assert_eq!(EditError::NotFound.to_string(), "old_string not found in file content");
    assert_eq!(
        EditError::AmbiguousMatch(3).to_string(),
        "oldString found 3 times and requires more code context to uniquely identify the intended match"
    );
    let t = ToolError::InvalidPath("x".to_string());
    assert_eq!(EditError::Tool(t.clone()).to_string(), t.to_string());
}
