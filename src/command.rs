use vstd::prelude::*;

use crate::error::{Error, ParseError};

verus! {

/// The words a Unix shell would make of a command line, without any
/// expansion; `None` when a quote is left open.
pub uninterp spec fn shell_split(s: Seq<char>) -> Option<Seq<Seq<char>>>;

pub open spec fn words_of(v: Seq<String>) -> Seq<Seq<char>> {
    v.map_values(|w: String| w@)
}

/// Relies on shell_words::split: splits a command line into words the way a
/// Unix shell does, without expansions, and fails on an unclosed quote. The
/// outcome depends on the text alone, and an empty text has no words.
#[verifier::external_body]
fn split_words(s: &str) -> (r: Option<Vec<String>>)
    ensures
        r is Some <==> shell_split(s@) is Some,
        r is Some ==> shell_split(s@) == Some(words_of(r->Some_0@)),
        s@.len() == 0 ==> r is Some && r->Some_0@.len() == 0,
{
    shell_words::split(s).ok()
}

/// How a command runs on the agent.
#[derive(Clone, Copy, Debug, PartialEq, Eq, Structural)]
pub enum Execute {
    /// Wait for the command and return its output.
    Blocked,
    /// Start the command and return at once.
    Detached,
}

impl Default for Execute {
    fn default() -> (r: Execute)
        ensures
            r == Execute::Blocked,
    {
        Execute::Blocked
    }
}

/// The program (the first word) and its arguments (the rest); `None` when
/// there are no words.
pub fn program_and_args(words: Vec<String>) -> (r: Option<(String, Vec<String>)>)
    ensures
        words@.len() == 0 <==> r is None,
        r matches Some(p) ==> p.0@ == words@[0]@ && words_of(p.1@) == words_of(words@).skip(1),
{
    let mut words = words;
    if words.len() == 0 {
        return None;
    }
    let ghost all = words@;
    let program = words.remove(0);
    assert(words_of(words@) =~= words_of(all).skip(1));
    Some((program, words))
}

/// Splits a command line into the program and its arguments. A line with an
/// unclosed quote, or with no words at all, is a command parse error.
pub fn split_command(line: &str) -> (r: Result<(String, Vec<String>), Error>)
    ensures
        match shell_split(line@) {
            None => r == Err::<(String, Vec<String>), Error>(Error::Parse(ParseError::Command)),
            Some(words) => if words.len() == 0 {
                r == Err::<(String, Vec<String>), Error>(Error::Parse(ParseError::Command))
            } else {
                r matches Ok(p) && p.0@ == words[0] && words_of(p.1@) == words.skip(1)
            },
        },
        line@.len() == 0 ==> r == Err::<(String, Vec<String>), Error>(
            Error::Parse(ParseError::Command),
        ),
{
    match split_words(line) {
        None => Err(Error::Parse(ParseError::Command)),
        Some(words) => {
            let ghost w = words@;
            match program_and_args(words) {
                None => Err(Error::Parse(ParseError::Command)),
                Some(p) => {
                    assert(words_of(w)[0] == w[0]@);
                    Ok(p)
                },
            }
        },
    }
}

} // verus!
