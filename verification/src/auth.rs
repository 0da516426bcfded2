//! The token that authenticates forge API requests, and how it is read from
//! the output of the configured token command. Running the command is done
//! by the caller.

use vstd::prelude::*;

use crate::text::{str_concat, find_first_char, first_index_of, substring};

verus! {

/// A secret API token.
pub struct AuthToken(String);

impl View for AuthToken {
    type V = Seq<char>;

    closed spec fn view(&self) -> Seq<char> {
        self.0@
    }
}

impl Clone for AuthToken {
    fn clone(&self) -> (r: Self)
        ensures
            r@ == self@,
    {
        AuthToken(self.0.clone())
    }
}

impl AuthToken {
    pub fn new(token: String) -> (r: Self)
        ensures
            r@ == token@,
    {
        Self(token)
    }

    /// The token's text.
    pub fn access(&self) -> (r: &str)
        ensures
            r@ == self@,
    {
        self.0.as_str()
    }
}

/// `s` up to its first newline, or all of `s` when it has none.
pub open spec fn first_line(s: Seq<char>) -> Seq<char> {
    match first_index_of(s, '\n') {
        Some(i) => s.subrange(0, i),
        None => s,
    }
}

/// What the token command's output gives: the error message, or the token.
/// A command that failed is an error, reported with its output on stderr
/// where it wrote any. Of a command that succeeded, any output on stderr is
/// an error, and so is an empty stdout. The token is the first line of
/// stdout.
pub open spec fn token_outcome(success: bool, stdout: Seq<char>, stderr: Seq<char>) -> Result<Seq<char>, Seq<char>> {
    if !success && stderr.len() > 0 {
        Err("Token command failed: "@ + stderr)
    } else if !success {
        Err("Token command failed."@)
    } else if stderr.len() > 0 {
        Err("Token command produced stderr: "@ + stderr)
    } else if stdout.len() == 0 {
        Err("Token command did not produce output"@)
    } else {
        Ok(first_line(stdout))
    }
}

/// The token that a run of the token command gave, from whether it
/// succeeded and what it wrote to stdout and stderr.
pub fn token_from_command_output(success: bool, stdout: String, stderr: String) -> (r: Result<AuthToken, String>)
    ensures
        match token_outcome(success, stdout@, stderr@) {
            Ok(t) => r matches Ok(token) && token@ == t,
            Err(e) => r matches Err(m) && m@ == e,
        },
{
    if !success {
        if stderr.unicode_len() > 0 {
            return Err(str_concat("Token command failed: ", stderr.as_str()));
        }
        return Err("Token command failed.".to_owned());
    }
    if stderr.unicode_len() > 0 {
        return Err(str_concat("Token command produced stderr: ", stderr.as_str()));
    }
    if stdout.unicode_len() == 0 {
        return Err("Token command did not produce output".to_owned());
    }
    let token = match find_first_char(stdout.as_str(), '\n') {
        Some(i) => substring(stdout.as_str(), 0, i),
        None => stdout,
    };
    Ok(AuthToken(token))
}

/// The token never holds a newline: it is one line of the output.
pub proof fn law_token_is_one_line(success: bool, stdout: Seq<char>, stderr: Seq<char>)
    ensures
        token_outcome(success, stdout, stderr) matches Ok(t) ==> !t.contains('\n'),
{
    crate::text::lemma_first_index_of_spec(stdout, '\n');
    if token_outcome(success, stdout, stderr) is Ok {
        let t = first_line(stdout);
        if t.contains('\n') {
            let k = choose|k: int| 0 <= k < t.len() && t[k] == '\n';
            assert(stdout[k] == '\n');
        }
    }
}

} // verus!
