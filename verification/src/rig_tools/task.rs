//! Task delegation: the arguments of a sub-agent request, the rendering of its
//! result, and a scripted executor that answers without a model.
use crate::rig_tools::error::ToolError;
use crate::text::{concat2, decimal, owned, push_decimal, push_str, str_eq};
use vstd::prelude::*;

verus! {

/// Input arguments for the task tool.
#[derive(Debug, Clone, PartialEq, Eq)]
pub struct TaskArgs {
    /// Short 3-5 word task description.
    pub description: String,
    /// Detailed instructions for the sub-agent.
    pub prompt: String,
    /// Type of agent to use (e.g. `"general"`, `"coder"`).
    pub subagent_type: String,
    /// Existing session to continue.
    pub session_id: Option<String>,
}

/// Result of a task execution.
#[derive(Debug, Clone, PartialEq, Eq)]
pub struct TaskResult {
    /// The task description.
    pub description: String,
    /// The agent type used.
    pub subagent_type: String,
    /// Session ID (new or continued).
    pub session_id: String,
    /// Result message from the agent.
    pub result: String,
}

/// The tool-output text of a task result.
pub open spec fn task_text(r: TaskResult) -> Seq<char> {
    "Task: "@ + r.description@ + "\nAgent: "@ + r.subagent_type@ + "\nSession: "@ + r.session_id@
        + "\nStatus: completed\n\nResult: "@ + r.result@
}

impl TaskResult {
    /// Formats the result for tool output.
    pub fn format(&self) -> (s: String)
        ensures
            s@ == task_text(*self),
    {
        let mut s = concat2("Task: ", self.description.as_str());
        push_str(&mut s, "\nAgent: ");
        push_str(&mut s, self.subagent_type.as_str());
        push_str(&mut s, "\nSession: ");
        push_str(&mut s, self.session_id.as_str());
        push_str(&mut s, "\nStatus: completed\n\nResult: ");
        push_str(&mut s, self.result.as_str());
        s
    }
}

/// Executes delegated tasks; implemented by real sub-agent runners and by
/// [`MockTaskExecutor`].
pub trait TaskExecutor: Sized {
    /// Whether an executor in state `self` may answer `r` for `args`, ending
    /// in state `post`. An executor that states nothing more allows every
    /// answer.
    open spec fn execute_post(&self, args: TaskArgs, post: Self, r: Result<TaskResult, ToolError>) -> bool {
        true
    }

    /// Executes a task with the given arguments.
    fn execute(&mut self, args: &TaskArgs) -> (r: Result<TaskResult, ToolError>)
        ensures
            old(self).execute_post(*args, *final(self), r),
    ;
}

/// The response table as a map: later entries override earlier ones.
pub open spec fn entries_map(s: Seq<(String, String)>) -> Map<Seq<char>, Seq<char>>
    decreases s.len(),
{
    if s.len() == 0 {
        Map::empty()
    } else {
        entries_map(s.drop_last()).insert(s.last().0@, s.last().1@)
    }
}

/// No description occurs twice in the response table.
pub open spec fn distinct_keys(s: Seq<(String, String)>) -> bool {
    forall|i: int, j: int| 0 <= i < j < s.len() ==> s[i].0@ != s[j].0@
}

proof fn lemma_entries_lookup(s: Seq<(String, String)>, k: Seq<char>)
    requires
        distinct_keys(s),
    ensures
        entries_map(s).dom().contains(k) <==> exists|i: int| 0 <= i < s.len() && s[i].0@ == k,
        forall|i: int| 0 <= i < s.len() && s[i].0@ == k ==> entries_map(s)[k] == s[i].1@,
    decreases s.len(),
{
    if s.len() > 0 {
        let p = s.drop_last();
        assert(distinct_keys(p));
        lemma_entries_lookup(p, k);
        if s.last().0@ != k {
            assert forall|i: int| 0 <= i < s.len() && s[i].0@ == k implies 0 <= i < p.len()
                && p[i].0@ == k by {}
            if exists|i: int| 0 <= i < s.len() && s[i].0@ == k {
                let i = choose|i: int| 0 <= i < s.len() && s[i].0@ == k;
                assert(p[i].0@ == k);
            }
        } else {
            assert(s[s.len() - 1].0@ == k);
        }
    }
}

proof fn lemma_entries_update(s: Seq<(String, String)>, i: int, e: (String, String))
    requires
        distinct_keys(s),
        0 <= i < s.len(),
        s[i].0@ == e.0@,
    ensures
        entries_map(s.update(i, e)) =~= entries_map(s).insert(e.0@, e.1@),
        distinct_keys(s.update(i, e)),
    decreases s.len(),
{
    let t = s.update(i, e);
    let p = s.drop_last();
    if i == s.len() - 1 {
        assert(t.drop_last() =~= p);
    } else {
        assert(t.drop_last() =~= p.update(i, e));
        assert(distinct_keys(p));
        lemma_entries_update(p, i, e);
        assert(s.last().0@ != e.0@);
    }
}

/// A task executor that answers from a table of canned responses and numbers
/// new sessions `mock-session-0`, `mock-session-1`, and so on.
#[derive(Debug)]
pub struct MockTaskExecutor {
    responses: Vec<(String, String)>,
    session_counter: u64,
}

impl MockTaskExecutor {
    /// The table invariant: each description appears once.
    #[verifier::type_invariant]
    spec fn wf(&self) -> bool {
        distinct_keys(self.responses@)
    }

    /// The canned responses, by task description.
    pub closed spec fn responses(&self) -> Map<Seq<char>, Seq<char>> {
        entries_map(self.responses@)
    }

    /// The number the next new session gets.
    pub closed spec fn counter(&self) -> u64 {
        self.session_counter
    }

    /// Creates an executor with no canned responses whose first session is
    /// `mock-session-0`.
    pub fn new() -> (m: Self)
        ensures
            m.responses() == Map::<Seq<char>, Seq<char>>::empty(),
            m.counter() == 0,
    {
        MockTaskExecutor { responses: Vec::new(), session_counter: 0 }
    }

    /// Sets the response given for tasks with this description, replacing any
    /// earlier one.
    pub fn set_response(&mut self, description: String, response: String)
        ensures
            final(self).responses() == old(self).responses().insert(description@, response@),
            final(self).counter() == old(self).counter(),
    {
        proof {
            use_type_invariant(&*self);
        }
        let mut table: Vec<(String, String)> = Vec::new();
        std::mem::swap(&mut table, &mut self.responses);
        let ghost s = table@;
        let n = table.len();
        let mut i: usize = 0;
        let mut found = false;
        while i < n
            invariant_except_break
                !found,
            invariant
                n == table@.len(),
                table@ == s,
                i <= n,
                distinct_keys(s),
                forall|j: int| 0 <= j < i ==> s[j].0@ != description@,
            ensures
                found ==> i < n && s[i as int].0@ == description@,
                !found ==> i == n,
            decreases n - i,
        {
            if str_eq(table[i].0.as_str(), &description) {
                found = true;
                break;
            }
            i = i + 1;
        }
        if found {
            let e = (description, response);
            proof {
                lemma_entries_update(s, i as int, e);
            }
            table.set(i, e);
        } else {
            table.push((description, response));
            proof {
                assert(table@.drop_last() =~= s);
                assert(distinct_keys(table@)) by {
                    assert forall|a: int, b: int| 0 <= a < b < table@.len() implies table@[a].0@
                        != table@[b].0@ by {
                        if b == n {
                            assert(s[a].0@ != description@);
                        }
                    }
                }
            }
        }
        self.responses = table;
    }

    /// The response for a description, if one was set.
    fn lookup(&self, description: &str) -> (r: Option<String>)
        ensures
            match r {
                Some(v) => self.responses().dom().contains(description@) && self.responses()[description@]
                    == v@,
                None => !self.responses().dom().contains(description@),
            },
    {
        proof {
            use_type_invariant(self);
            lemma_entries_lookup(self.responses@, description@);
        }
        let ghost table = self.responses@;
        let mut i: usize = 0;
        while i < self.responses.len()
            invariant
                i <= self.responses@.len(),
                forall|j: int| 0 <= j < i ==> self.responses@[j].0@ != description@,
            decreases self.responses@.len() - i,
        {
            if str_eq(self.responses[i].0.as_str(), description) {
                proof {
                    use_type_invariant(self);
                    lemma_entries_lookup(self.responses@, description@);
                }
                return Some(self.responses[i].1.clone());
            }
            i = i + 1;
        }
        None
    }

    /// Hands out the next session id and advances the counter (wrapping).
    fn next_session_id(&mut self) -> (s: String)
        ensures
            s@ == session_name(old(self).counter()),
            final(self).counter() == old(self).counter().wrapping_add(1),
            final(self).responses@ == old(self).responses@,
    {
        proof {
            use_type_invariant(&*self);
        }
        let id = self.session_counter;
        self.session_counter = self.session_counter.wrapping_add(1);
        let mut s = owned("mock-session-");
        push_decimal(&mut s, id);
        s
    }
}

/// The name of the session numbered `n`.
pub open spec fn session_name(n: u64) -> Seq<char> {
    "mock-session-"@ + decimal(n as nat)
}

/// The response given when no canned one was set.
pub open spec fn default_response(description: Seq<char>, agent: Seq<char>) -> Seq<char> {
    "Task '"@ + description + "' completed successfully by "@ + agent + " agent."@
}

/// What the mock executor returns for `args` given its responses and counter.
pub open spec fn mock_result_spec(
    responses: Map<Seq<char>, Seq<char>>,
    counter: u64,
    args: TaskArgs,
    r: TaskResult,
) -> bool {
    &&& r.description@ == args.description@
    &&& r.subagent_type@ == args.subagent_type@
    &&& r.session_id@ == match args.session_id {
        Some(s) => s@,
        None => session_name(counter),
    }
    &&& r.result@ == if responses.dom().contains(args.description@) {
        responses[args.description@]
    } else {
        default_response(args.description@, args.subagent_type@)
    }
}

impl TaskExecutor for MockTaskExecutor {
    /// The canned or default answer for the description, the given or next
    /// numbered session, and the counter advanced when a session was opened.
    open spec fn execute_post(&self, args: TaskArgs, post: Self, r: Result<TaskResult, ToolError>) -> bool {
        &&& r matches Ok(t) && mock_result_spec(self.responses(), self.counter(), args, t)
        &&& post.responses() == self.responses()
        &&& post.counter() == match args.session_id {
            Some(_) => self.counter(),
            None => self.counter().wrapping_add(1),
        }
    }

    /// Answers with the canned response for the description, or the default
    /// one; continues the given session or opens the next numbered one.
    fn execute(&mut self, args: &TaskArgs) -> (r: Result<TaskResult, ToolError>)
        ensures
            r matches Ok(t) && mock_result_spec(
                old(self).responses(),
                old(self).counter(),
                *args,
                t,
            ),
            final(self).responses() == old(self).responses(),
            final(self).counter() == match args.session_id {
                Some(_) => old(self).counter(),
                None => old(self).counter().wrapping_add(1),
            },
    {
        let session_id = match &args.session_id {
            Some(s) => s.clone(),
            None => self.next_session_id(),
        };
        proof {
            use_type_invariant(&*self);
        }
        let result = match self.lookup(args.description.as_str()) {
            Some(v) => v,
            None => {
                let mut m = concat2("Task '", args.description.as_str());
                push_str(&mut m, "' completed successfully by ");
                push_str(&mut m, args.subagent_type.as_str());
                push_str(&mut m, " agent.");
                m
            },
        };
        Ok(TaskResult {
            description: args.description.clone(),
            subagent_type: args.subagent_type.clone(),
            session_id,
            result,
        })
    }
}


/// Tool for launching sub-agents through a [`TaskExecutor`].
pub struct TaskTool<E: TaskExecutor> {
    executor: E,
}

impl TaskTool<MockTaskExecutor> {
    /// Creates a task tool backed by a fresh [`MockTaskExecutor`].
    pub fn with_mock() -> (t: Self)
        ensures
            t.executor().responses() == Map::<Seq<char>, Seq<char>>::empty(),
            t.executor().counter() == 0,
    {
        TaskTool { executor: MockTaskExecutor::new() }
    }

    /// The mock executor, for setting responses.
    pub fn mock_executor(&mut self) -> (m: &mut MockTaskExecutor)
        ensures
            *m == old(self).executor(),
            final(self).executor() == *final(m),
    {
        &mut self.executor
    }
}

impl<E: TaskExecutor> TaskTool<E> {
    /// The executor this tool delegates to.
    pub closed spec fn executor(&self) -> E {
        self.executor
    }

    /// Creates a task tool with the given executor.
    pub fn new(executor: E) -> (t: Self)
        ensures
            t.executor() == executor,
    {
        TaskTool { executor }
    }

    /// Runs the task through the executor, handing it `args` unchanged, and
    /// renders its result; the executor's error is passed on unchanged.
    pub fn call(&mut self, args: TaskArgs) -> (r: Result<String, ToolError>)
        ensures
            exists|x: Result<TaskResult, ToolError>|
                #[trigger] old(self).executor().execute_post(args, final(self).executor(), x) && match x {
                    Ok(t) => r matches Ok(s) && s@ == task_text(t),
                    Err(e) => r == Err::<String, ToolError>(e),
                },
    {
        let x = self.executor.execute(&args);
        let r = match x {
            Ok(t) => Ok(t.format()),
            Err(e) => Err(e),
        };
        assert(old(self).executor().execute_post(args, self.executor(), x));
        r
    }
}

/// A response set for a description is what the mock executor answers for a
/// task with that description.
pub proof fn lemma_set_response_then_execute(
    responses: Map<Seq<char>, Seq<char>>,
    description: Seq<char>,
    response: Seq<char>,
    counter: u64,
    args: TaskArgs,
    t: TaskResult,
)
    requires
        args.description@ == description,
        mock_result_spec(responses.insert(description, response), counter, args, t),
    ensures
        t.result@ == response,
{
}

/// Two tasks without a session, run one after the other, open consecutively
/// numbered sessions.
pub proof fn lemma_session_ids_increment(
    responses: Map<Seq<char>, Seq<char>>,
    counter: u64,
    args: TaskArgs,
    first: TaskResult,
    second: TaskResult,
)
    requires
        args.session_id is None,
        counter < u64::MAX,
        mock_result_spec(responses, counter, args, first),
        mock_result_spec(responses, counter.wrapping_add(1), args, second),
    ensures
        first.session_id@ == session_name(counter),
        second.session_id@ == session_name((counter + 1) as u64),
{
}

} // verus!
