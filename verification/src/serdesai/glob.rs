//! Rendering glob results for the model.
use crate::core_tools::glob::GlobOutput;
use crate::serdesai::convert::ToolReturn;
use crate::text::{join, join_strings, owned, views};
use vstd::prelude::*;

verus! {

/// The text given when nothing matched.
pub open spec fn no_files_text() -> Seq<char> {
    "No files found matching the pattern."@
}

/// The listing of matched files: one per line, or the no-match notice.
pub open spec fn content_spec(files: Seq<Seq<char>>) -> Seq<char> {
    if files.len() == 0 {
        no_files_text()
    } else {
        join(files, seq!['\n'])
    }
}

/// Lists the matched files one per line, or says that nothing matched.
pub fn output_content(files: &Vec<String>) -> (s: String)
    ensures
        s@ == content_spec(views(files@)),
{
    if files.len() == 0 {
        owned("No files found matching the pattern.")
    } else {
        let nl = owned("\n");
        proof {
            assert(nl@ == seq!['\n']) by {
                reveal_strlit("\n");
            }
        }
        join_strings(files, nl.as_str())
    }
}

/// The return for a glob output: a JSON object with the errors when the walk
/// was partial, the truncated JSON object when results were cut, plain text
/// otherwise.
pub open spec fn glob_return_spec(o: GlobOutput, r: ToolReturn) -> bool {
    let content = content_spec(views(o.files@));
    if o.partial {
        r matches ToolReturn::PartialJson { content: c, errors, truncated } && c@ == content
            && errors == o.errors && truncated == o.truncated
    } else if o.truncated {
        r matches ToolReturn::TruncatedJson { content: c } && c@ == content
    } else {
        r matches ToolReturn::Text(c) && c@ == content
    }
}

/// Converts a glob output into the return handed to the model.
pub fn glob_output_to_return(output: GlobOutput) -> (r: ToolReturn)
    ensures
        glob_return_spec(output, r),
{
    let content = output_content(&output.files);
    if output.partial {
        return ToolReturn::PartialJson {
            content,
            errors: output.errors,
            truncated: output.truncated,
        };
    }
    if output.truncated {
        ToolReturn::TruncatedJson { content }
    } else {
        ToolReturn::Text(content)
    }
}

} // verus!
