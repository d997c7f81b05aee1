//! The scripted behaviour of the test model that first calls a tool and then
//! answers with the tool's results, and the wrapper that gives a model the
//! name it reports.
use crate::text::{concat2, join, join_strings, owned, push_str, views};
use vstd::prelude::*;

verus! {

/// A model wrapped so that it can be streamed, together with the name it
/// reports. The name starts as the inner model's own name.
#[derive(Debug, Clone)]
pub struct Streamed<T> {
    inner: T,
    name: String,
}

impl<T> Streamed<T> {
    /// The wrapped model.
    pub closed spec fn inner_model(&self) -> T {
        self.inner
    }

    /// The name the wrapper reports.
    pub closed spec fn model_name(&self) -> Seq<char> {
        self.name@
    }

    /// Wraps `inner`, which reports itself as `inner_name`.
    pub fn new(inner: T, inner_name: &str) -> (s: Self)
        ensures
            s.inner_model() == inner,
            s.model_name() == inner_name@,
    {
        Streamed { inner, name: owned(inner_name) }
    }

    /// Replaces the reported name, keeping the wrapped model.
    pub fn with_name(self, name: &str) -> (s: Self)
        ensures
            s.inner_model() == self.inner_model(),
            s.model_name() == name@,
    {
        Streamed { inner: self.inner, name: owned(name) }
    }

    /// The name the wrapper reports.
    pub fn name(&self) -> (s: &str)
        ensures
            s@ == self.model_name(),
    {
        self.name.as_str()
    }

    /// The wrapped model.
    pub fn inner(&self) -> (r: &T)
        ensures
            *r == self.inner_model(),
    {
        &self.inner
    }
}

/// What the scripted model answers.
#[derive(Debug, Clone, PartialEq, Eq)]
pub enum ScriptedReply {
    /// Final text.
    Text(String),
    /// An announcement text followed by a call of the named tool.
    ToolCall { announcement: String, tool_name: String },
}

/// The scripted answer: before any tool result it announces and calls the
/// tool; afterwards it answers with the fallback text followed by the tool
/// results, one per line, after a blank line.
pub open spec fn scripted_reply_spec(
    has_tool_return: bool,
    tool_results: Seq<Seq<char>>,
    tool_name: Seq<char>,
    fallback_text: Seq<char>,
    r: ScriptedReply,
) -> bool {
    if has_tool_return {
        let joined = join(tool_results, seq!['\n']);
        r matches ScriptedReply::Text(t) && t@ == if joined.len() == 0 {
            fallback_text
        } else {
            fallback_text + "\n\n"@ + joined
        }
    } else {
        r matches ScriptedReply::ToolCall { announcement, tool_name: n } && announcement@ == "Calling "@
            + tool_name + "..."@ && n@ == tool_name
    }
}

/// Decides the scripted model's answer from whether the conversation holds a
/// tool result and the texts of those results.
pub fn scripted_reply(has_tool_return: bool, tool_results: &Vec<String>, tool_name: &str, fallback_text: &str) -> (r: ScriptedReply)
    ensures
        scripted_reply_spec(has_tool_return, views(tool_results@), tool_name@, fallback_text@, r),
{
    if has_tool_return {
        let nl = owned("\n");
        proof {
            reveal_strlit("\n");
            assert(nl@ =~= seq!['\n']);
        }
        let joined = join_strings(tool_results, nl.as_str());
        if joined.as_str().is_empty() {
            ScriptedReply::Text(owned(fallback_text))
        } else {
            let mut t = concat2(fallback_text, "\n\n");
            push_str(&mut t, joined.as_str());
            ScriptedReply::Text(t)
        }
    } else {
        let mut a = concat2("Calling ", tool_name);
        push_str(&mut a, "...");
        ScriptedReply::ToolCall { announcement: a, tool_name: owned(tool_name) }
    }
}

} // verus!
