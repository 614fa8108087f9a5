//! From a raw input line to a parsed command. The line is split into words by
//! `shell_words::split`, which removes quotes and escapes the way a POSIX
//! shell does; its result is taken as given.

use crate::command::{Invocation, ReceivedCommand};
use vstd::prelude::*;

verus! {

#[verifier::external_type_specification]
#[verifier::external_body]
pub struct ExShellWordsParseError(shell_words::ParseError);

/// The words that `shell_words::split` finds in a line, or `None` where it
/// reports an error (the line ends inside a quotation).
pub uninterp spec fn shell_words_of(line: Seq<char>) -> Option<Seq<Seq<char>>>;

/// `shell_words::split` reads the characters of its argument from left to
/// right, keeps no state between calls and looks at nothing else. It returns
/// the words it found, or its one error value if the text ends inside a
/// quotation. The contract claims no more than that: the outcome is a fixed
/// function of the characters, `Ok` with the words that `shell_words_of`
/// names, and `Err` exactly where `shell_words_of` is `None`. Which words a
/// line has is not stated.
pub assume_specification[ shell_words::split ](
    s: &str,
) -> (words: Result<Vec<String>, shell_words::ParseError>)
    ensures
        match words {
            Ok(found) => shell_words_of(s@) == Some(found.deep_view()),
            Err(_) => shell_words_of(s@) is None,
        },
;

/// Why a line could not be split into words.
#[derive(Debug, Clone, Copy, PartialEq, Eq, Structural)]
pub enum SyntaxError {
    /// A quotation was opened and the line ended before it was closed.
    MissingClosingQuote,
}

impl SyntaxError {
    /// The diagnostic for the user.
    pub fn message(&self) -> (text: String)
        ensures
            text@ == "syntax error: missing closing quote"@,
    {
        "syntax error: missing closing quote".to_owned()
    }
}

/// Splits a line into words and reads them as a command. A line without words
/// gives `Ok(None)`; a line whose quoting is broken gives the error.
pub fn get_the_structured_command(
    terminal_command: &String,
) -> (parsed: Result<Option<ReceivedCommand>, SyntaxError>)
    ensures
        match shell_words_of(terminal_command@) {
            Some(words) => parsed matches Ok(found) && if words.len() == 0 {
                found is None
            } else {
                found matches Some(command) && command@ == Invocation::of_words(words)
            },
            None => parsed == Err::<Option<ReceivedCommand>, SyntaxError>(
                SyntaxError::MissingClosingQuote,
            ),
        },
{
    match shell_words::split(terminal_command.as_str()) {
        Ok(words) => Ok(ReceivedCommand::from_words(words)),
        Err(_) => Err(SyntaxError::MissingClosingQuote),
    }
}

} // verus!
