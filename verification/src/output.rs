//! The text of the messages about single repositories. Styling and writing
//! them to the terminal is done by the caller.

use vstd::prelude::*;

use crate::text::str_concat3;

verus! {

/// The message about repository `repo`: `<repo>: <message>`.
pub open spec fn spec_repo_message(repo: Seq<char>, message: Seq<char>) -> Seq<char> {
    repo + ": "@ + message
}

/// The message about repository `repo`: `<repo>: <message>`.
pub fn repo_message(repo: &str, message: &str) -> (r: String)
    ensures
        r@ == spec_repo_message(repo@, message@),
{
    str_concat3(repo, ": ", message)
}

} // verus!
