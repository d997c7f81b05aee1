//! Custom tools supplied by the embedding application, and the adapter that
//! runs them for the agent runtime.
use crate::core_tools::error::{ToolError, ToolOutput};
use crate::serdesai::convert::{output_return_spec, serdes_error_spec, to_serdes_result, SerdesToolError, ToolReturn};
use crate::text::owned;
use vstd::prelude::*;

verus! {

/// Where a file path argument may point.
#[derive(Debug, Clone, Copy, PartialEq, Eq, Structural)]
pub enum PathMode {
    /// Any absolute path.
    Absolute,
    /// Paths within the allowed roots.
    Allowed,
}

/// The system-prompt guidance a tool contributes.
#[derive(Debug, Clone, Copy, PartialEq, Eq)]
pub enum ToolPrompt {
    /// Fixed guidance text.
    Static(&'static str),
    /// The Task tool's guidance.
    Task,
    /// The glob tool's guidance for its path mode.
    Glob { path_mode: PathMode },
}

/// The context a custom tool call runs in.
#[derive(Debug, Clone, PartialEq, Eq, Default)]
pub struct ToolRunContext {
    /// The model making the call.
    pub model_name: Option<String>,
    /// The agent run.
    pub run_id: Option<String>,
    /// The model's id for this tool call.
    pub tool_call_id: Option<String>,
}

impl ToolRunContext {
    /// An empty context.
    pub fn new() -> (c: Self)
        ensures
            c.model_name is None && c.run_id is None && c.tool_call_id is None,
    {
        ToolRunContext { model_name: None, run_id: None, tool_call_id: None }
    }

    /// Sets the model name.
    pub fn with_model_name(self, name: &str) -> (c: Self)
        ensures
            c.model_name matches Some(n) && n@ == name@,
            c.run_id == self.run_id && c.tool_call_id == self.tool_call_id,
    {
        ToolRunContext { model_name: Some(owned(name)), ..self }
    }

    /// Sets the run id.
    pub fn with_run_id(self, id: &str) -> (c: Self)
        ensures
            c.run_id matches Some(n) && n@ == id@,
            c.model_name == self.model_name && c.tool_call_id == self.tool_call_id,
    {
        ToolRunContext { run_id: Some(owned(id)), ..self }
    }

    /// Sets the tool call id.
    pub fn with_tool_call_id(self, id: &str) -> (c: Self)
        ensures
            c.tool_call_id matches Some(n) && n@ == id@,
            c.model_name == self.model_name && c.run_id == self.run_id,
    {
        ToolRunContext { tool_call_id: Some(owned(id)), ..self }
    }
}

/// A tool supplied by the embedding application.
pub trait CustomTool {
    /// Whether `s` is the tool's name. A tool that states nothing more allows
    /// every name.
    open spec fn name_post(&self, s: Seq<char>) -> bool {
        true
    }

    /// Whether `p` is the tool's guidance. A tool that states nothing more
    /// allows every guidance.
    open spec fn context_post(&self, p: ToolPrompt) -> bool {
        true
    }

    /// Whether the tool may answer `r` when run with `ctx` and `args`. A tool
    /// that states nothing more allows every answer.
    open spec fn call_post(&self, ctx: ToolRunContext, args: serde_json::Value, r: Result<ToolOutput, ToolError>) -> bool {
        true
    }

    /// The tool's name.
    fn name(&self) -> (s: &'static str)
        ensures
            self.name_post(s@),
    ;

    /// The guidance the tool contributes to the system prompt.
    fn context(&self) -> (p: ToolPrompt)
        ensures
            self.context_post(p),
    ;

    /// Runs the tool on JSON arguments.
    fn call(&self, ctx: ToolRunContext, args: serde_json::Value) -> (r: Result<ToolOutput, ToolError>)
        ensures
            self.call_post(ctx, args, r),
    ;
}

/// `r` is the runtime's form of the tool result `res` of the tool `name`.
pub open spec fn converted(name: Seq<char>, res: Result<ToolOutput, ToolError>, r: Result<ToolReturn, SerdesToolError>) -> bool {
    match res {
        Ok(o) => r == Ok::<ToolReturn, SerdesToolError>(output_return_spec(o)),
        Err(e) => r matches Err(se) && serdes_error_spec(name, e, se),
    }
}

/// Runs a custom tool for the agent runtime.
pub struct CustomToolAdapter<T: CustomTool> {
    inner: T,
}

impl<T: CustomTool> CustomToolAdapter<T> {
    /// The wrapped tool.
    pub closed spec fn inner(&self) -> T {
        self.inner
    }

    /// Wraps a custom tool.
    pub fn new(inner: T) -> (a: Self)
        ensures
            a.inner() == inner,
    {
        CustomToolAdapter { inner }
    }

    /// The wrapped tool's name.
    pub fn name(&self) -> (s: &'static str)
        ensures
            self.inner().name_post(s@),
    {
        self.inner.name()
    }

    /// The wrapped tool's guidance.
    pub fn context(&self) -> (p: ToolPrompt)
        ensures
            self.inner().context_post(p),
    {
        self.inner.context()
    }

    /// Runs the wrapped tool and converts its result for the runtime, naming
    /// the tool in validation errors.
    pub fn call(&self, ctx: ToolRunContext, args: serde_json::Value) -> (r: Result<ToolReturn, SerdesToolError>)
        ensures
            exists|name: Seq<char>, res: Result<ToolOutput, ToolError>|
                #![trigger self.inner().name_post(name), self.inner().call_post(ctx, args, res)]
                self.inner().name_post(name) && self.inner().call_post(ctx, args, res) && converted(
                    name,
                    res,
                    r,
                ),
    {
        let ghost c = ctx;
        let ghost a = args;
        let name = self.inner.name();
        let res = self.inner.call(ctx, args);
        let r = to_serdes_result(name, res);
        assert(self.inner().name_post(name@) && self.inner().call_post(c, a, res) && converted(name@, res, r));
        r
    }
}


/// A custom tool that always answers with the same text.
#[derive(Debug, Clone, Copy, PartialEq, Eq)]
pub struct SerdesTestTool {
    pub name: &'static str,
    pub prompt: &'static str,
    pub response: &'static str,
}

impl CustomTool for SerdesTestTool {
    open spec fn name_post(&self, s: Seq<char>) -> bool {
        s == self.name@
    }

    open spec fn context_post(&self, p: ToolPrompt) -> bool {
        p == ToolPrompt::Static(self.prompt)
    }

    open spec fn call_post(&self, ctx: ToolRunContext, args: serde_json::Value, r: Result<ToolOutput, ToolError>) -> bool {
        r matches Ok(o) && o.content@ == self.response@ && !o.truncated
    }

    fn name(&self) -> (s: &'static str)
        ensures
            s == self.name,
    {
        self.name
    }

    fn context(&self) -> (p: ToolPrompt)
        ensures
            p == ToolPrompt::Static(self.prompt),
    {
        ToolPrompt::Static(self.prompt)
    }

    fn call(&self, ctx: ToolRunContext, args: serde_json::Value) -> (r: Result<ToolOutput, ToolError>)
        ensures
            r matches Ok(o) && o.content@ == self.response@ && !o.truncated,
    {
        Ok(ToolOutput::new(owned(self.response)))
    }
}

/// Makes [`SerdesTestTool`]s with a fixed name, guidance and answer.
#[derive(Debug, Clone, Copy, PartialEq, Eq)]
pub struct SerdesTestFactory {
    pub name: &'static str,
    pub prompt: &'static str,
    pub response: &'static str,
}

impl SerdesTestFactory {
    /// A factory for tools with this name, guidance and answer.
    pub fn new(name: &'static str, prompt: &'static str, response: &'static str) -> (f: Self)
        ensures
            f.name == name && f.prompt == prompt && f.response == response,
    {
        SerdesTestFactory { name, prompt, response }
    }

    /// The tools' name.
    pub fn name(&self) -> (s: &'static str)
        ensures
            s == self.name,
    {
        self.name
    }

    /// The tools' guidance.
    pub fn context(&self) -> (p: ToolPrompt)
        ensures
            p == ToolPrompt::Static(self.prompt),
    {
        ToolPrompt::Static(self.prompt)
    }

    /// Makes a tool.
    pub fn create(&self) -> (t: SerdesTestTool)
        ensures
            t.name == self.name && t.prompt == self.prompt && t.response == self.response,
    {
        SerdesTestTool { name: self.name, prompt: self.prompt, response: self.response }
    }
}

} // verus!
