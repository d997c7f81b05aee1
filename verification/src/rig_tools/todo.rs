//! A session-scoped todo list that an agent writes whole and reads back as a
//! rendered listing.
use crate::rig_tools::error::ToolError;
use crate::text::{decimal, is_blank, is_whitespace, is_ws, owned, push_decimal, push_str, trim, trim_end};
use vstd::prelude::*;

verus! {

/// Task status.
#[derive(Debug, Clone, Copy, PartialEq, Eq, Structural)]
pub enum TodoStatus {
    /// Not yet started.
    Pending,
    /// Currently being worked on.
    InProgress,
    /// Successfully finished.
    Completed,
    /// Abandoned or no longer relevant.
    Cancelled,
}

/// The status indicator icon.
pub open spec fn icon_spec(s: TodoStatus) -> Seq<char> {
    match s {
        TodoStatus::Pending => "[ ]"@,
        TodoStatus::InProgress => "[>]"@,
        TodoStatus::Completed => "[x]"@,
        TodoStatus::Cancelled => "[-]"@,
    }
}

impl TodoStatus {
    /// Returns the status indicator icon.
    pub fn icon(self) -> (s: &'static str)
        ensures
            s@ == icon_spec(self),
    {
        match self {
            TodoStatus::Pending => "[ ]",
            TodoStatus::InProgress => "[>]",
            TodoStatus::Completed => "[x]",
            TodoStatus::Cancelled => "[-]",
        }
    }
}

/// Task priority level.
#[derive(Debug, Clone, Copy, PartialEq, Eq, Structural)]
pub enum TodoPriority {
    /// Urgent, should be addressed first.
    High,
    /// Normal priority.
    Medium,
    /// Can be deferred.
    Low,
}

/// The priority's name as its debug rendering shows it.
pub open spec fn priority_name(p: TodoPriority) -> Seq<char> {
    match p {
        TodoPriority::High => "High"@,
        TodoPriority::Medium => "Medium"@,
        TodoPriority::Low => "Low"@,
    }
}

fn priority_label(p: TodoPriority) -> (s: &'static str)
    ensures
        s@ == priority_name(p),
{
    match p {
        TodoPriority::High => "High",
        TodoPriority::Medium => "Medium",
        TodoPriority::Low => "Low",
    }
}

/// A single task item.
#[derive(Debug, Clone, PartialEq, Eq)]
pub struct Todo {
    /// Unique identifier for the task.
    pub id: String,
    /// Task description.
    pub content: String,
    /// Current status.
    pub status: TodoStatus,
    /// Priority level.
    pub priority: TodoPriority,
}

/// Arguments for [`TodoWriteTool`]: the complete updated list.
#[derive(Debug, Clone, PartialEq, Eq)]
pub struct TodoWriteArgs {
    pub todos: Vec<Todo>,
}

/// Arguments for [`TodoReadTool`] (none).
#[derive(Debug, Clone, Copy, PartialEq, Eq)]
pub struct TodoReadArgs {}

/// The shared todo list.
#[derive(Debug)]
pub struct TodoState {
    todos: Vec<Todo>,
}

/// What is wrong with a todo, if anything: a blank id, else blank content.
pub open spec fn todo_problem(t: Todo) -> Option<Seq<char>> {
    if trim(t.id@).len() == 0 {
        Some("todo id cannot be empty"@)
    } else if trim(t.content@).len() == 0 {
        Some("todo content cannot be empty"@)
    } else {
        None
    }
}

/// The problem of the first todo that has one.
pub open spec fn first_problem(todos: Seq<Todo>) -> Option<Seq<char>>
    decreases todos.len(),
{
    if todos.len() == 0 {
        None
    } else {
        match first_problem(todos.drop_last()) {
            Some(p) => Some(p),
            None => todo_problem(todos.last()),
        }
    }
}

/// One listing line (without its line break).
pub open spec fn todo_line(t: Todo) -> Seq<char> {
    icon_spec(t.status) + " ("@ + priority_name(t.priority) + ") "@ + t.id@ + ": "@ + t.content@
}

/// The listing lines, each followed by a line break.
pub open spec fn todo_lines(todos: Seq<Todo>) -> Seq<char>
    decreases todos.len(),
{
    if todos.len() == 0 {
        Seq::empty()
    } else {
        todo_lines(todos.drop_last()) + todo_line(todos.last()) + seq!['\n']
    }
}

/// The rendered list: a notice when empty, else a header and one line per
/// task, without trailing whitespace.
pub open spec fn listing(todos: Seq<Todo>) -> Seq<char> {
    if todos.len() == 0 {
        "No tasks."@
    } else {
        trim_end("Tasks ("@ + decimal(todos.len()) + " total):\n"@ + todo_lines(todos))
    }
}

/// The confirmation for a written list of `n` tasks.
pub open spec fn updated_message(n: nat) -> Seq<char> {
    "Updated todo list with "@ + decimal(n) + " task(s)."@
}

proof fn lemma_trim_end_take(s: Seq<char>, j: int)
    requires
        0 < j <= s.len(),
        is_ws(s[j - 1]),
    ensures
        trim_end(s.take(j)) == trim_end(s.take(j - 1)),
{
    assert(s.take(j).drop_last() =~= s.take(j - 1));
}

/// The length of `s` without its trailing whitespace.
fn trimmed_end_len(s: &Vec<char>) -> (n: usize)
    ensures
        n <= s@.len(),
        s@.take(n as int) == trim_end(s@),
{
    let mut j = s.len();
    assert(s@.take(j as int) =~= s@);
    while j > 0 && is_whitespace(s[j - 1])
        invariant
            j <= s@.len(),
            trim_end(s@.take(j as int)) == trim_end(s@),
        decreases j,
    {
        proof {
            lemma_trim_end_take(s@, j as int);
        }
        j = j - 1;
    }
    proof {
        let t = s@.take(j as int);
        if j > 0 {
            assert(t.last() == s@[j - 1]);
        }
        assert(trim_end(t) == t);
    }
    j
}

impl TodoState {
    /// The tasks currently held.
    pub closed spec fn todos(&self) -> Seq<Todo> {
        self.todos@
    }

    /// Creates an empty todo list.
    pub fn new() -> (s: Self)
        ensures
            s.todos() == Seq::<Todo>::empty(),
    {
        TodoState { todos: Vec::new() }
    }

    /// Replaces the whole list after checking that every task has a non-blank
    /// id and content; on a refusal the list is left as it was.
    pub fn write(&mut self, args: TodoWriteArgs) -> (r: Result<String, ToolError>)
        ensures
            match first_problem(args.todos@) {
                Some(p) => r matches Err(ToolError::Validation(m)) && m@ == p && final(self).todos()
                    == old(self).todos(),
                None => r matches Ok(m) && m@ == updated_message(args.todos@.len())
                    && final(self).todos() == args.todos@,
            },
    {
        let n = args.todos.len();
        let mut i: usize = 0;
        while i < n
            invariant
                n == args.todos@.len(),
                i <= n,
                first_problem(args.todos@.take(i as int)) is None,
            decreases n - i,
        {
            let t = &args.todos[i];
            proof {
                assert(args.todos@.take(i + 1).drop_last() =~= args.todos@.take(i as int));
                assert(args.todos@.take(i + 1).last() == args.todos@[i as int]);
                lemma_first_problem_prefix(args.todos@, i + 1);
            }
            if is_blank(t.id.as_str()) {
                proof {
                    lemma_first_problem_extends(args.todos@, i + 1);
                }
                return Err(ToolError::Validation(owned("todo id cannot be empty")));
            }
            if is_blank(t.content.as_str()) {
                proof {
                    lemma_first_problem_extends(args.todos@, i + 1);
                }
                return Err(ToolError::Validation(owned("todo content cannot be empty")));
            }
            i = i + 1;
        }
        assert(args.todos@.take(n as int) =~= args.todos@);
        let mut m = owned("Updated todo list with ");
        push_decimal(&mut m, n as u64);
        push_str(&mut m, " task(s).");
        self.todos = args.todos;
        Ok(m)
    }

    /// Renders the list: a header with the count and one line per task.
    pub fn read(&self) -> (s: String)
        ensures
            s@ == listing(self.todos()),
    {
        let n = self.todos.len();
        if n == 0 {
            return owned("No tasks.");
        }
        let mut out = owned("Tasks (");
        push_decimal(&mut out, n as u64);
        push_str(&mut out, " total):\n");
        let ghost header = out@;
        let mut i: usize = 0;
        while i < n
            invariant
                n == self.todos@.len(),
                i <= n,
                out@ == header + todo_lines(self.todos@.take(i as int)),
            decreases n - i,
        {
            let t = &self.todos[i];
            let ghost before = out@;
            push_str(&mut out, t.status.icon());
            push_str(&mut out, " (");
            push_str(&mut out, priority_label(t.priority));
            push_str(&mut out, ") ");
            push_str(&mut out, t.id.as_str());
            push_str(&mut out, ": ");
            push_str(&mut out, t.content.as_str());
            let nl = owned("\n");
            proof {
                reveal_strlit("\n");
            }
            push_str(&mut out, nl.as_str());
            proof {
                let s = self.todos@.take(i + 1);
                assert(s.drop_last() =~= self.todos@.take(i as int));
                assert(s.last() == self.todos@[i as int]);
                assert(out@ =~= header + todo_lines(s));
            }
            i = i + 1;
        }
        assert(self.todos@.take(n as int) =~= self.todos@);
        let chars = crate::text::to_chars(out.as_str());
        let len = trimmed_end_len(&chars);
        let kept = crate::text::from_chars(vstd::slice::slice_subrange(chars.as_slice(), 0, len));
        kept
    }
}

proof fn lemma_first_problem_extends(s: Seq<Todo>, k: int)
    requires
        0 <= k <= s.len(),
        first_problem(s.take(k)) is Some,
    ensures
        first_problem(s) == first_problem(s.take(k)),
    decreases s.len(),
{
    if k == s.len() {
        assert(s.take(k) =~= s);
    } else {
        assert(s.drop_last().take(k) =~= s.take(k));
        lemma_first_problem_extends(s.drop_last(), k);
    }
}

proof fn lemma_first_problem_prefix(s: Seq<Todo>, k: int)
    requires
        0 < k <= s.len(),
    ensures
        first_problem(s.take(k)) == match first_problem(s.take(k - 1)) {
            Some(p) => Some(p),
            None => todo_problem(s[k - 1]),
        },
{
    assert(s.take(k).drop_last() =~= s.take(k - 1));
}

/// Tool that replaces the todo list.
#[derive(Debug, Clone, Copy, PartialEq, Eq)]
pub struct TodoWriteTool;

/// Tool that reads the todo list.
#[derive(Debug, Clone, Copy, PartialEq, Eq)]
pub struct TodoReadTool;

impl TodoWriteTool {
    /// Creates the write tool.
    pub fn new() -> (t: Self) {
        TodoWriteTool
    }

    /// Replaces the list held by `state`.
    pub fn call(&self, state: &mut TodoState, args: TodoWriteArgs) -> (r: Result<String, ToolError>)
        ensures
            match first_problem(args.todos@) {
                Some(p) => r matches Err(ToolError::Validation(m)) && m@ == p && final(state).todos()
                    == old(state).todos(),
                None => r matches Ok(m) && m@ == updated_message(args.todos@.len())
                    && final(state).todos() == args.todos@,
            },
    {
        state.write(args)
    }
}

impl TodoReadTool {
    /// Creates the read tool.
    pub fn new() -> (t: Self) {
        TodoReadTool
    }

    /// Renders the list held by `state`.
    pub fn call(&self, state: &TodoState, args: TodoReadArgs) -> (r: Result<String, ToolError>)
        ensures
            r matches Ok(s) && s@ == listing(state.todos()),
    {
        Ok(state.read())
    }
}

} // verus!
