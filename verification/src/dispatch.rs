//! The dispatcher: from a line of input to its outcome. Handling a line takes
//! three steps. `read_input` parses the line and settles at once what needs
//! no command (the end of the input, a line without words, broken quoting).
//! `paths_to_probe` names the paths whose status the command depends on, so
//! that the platform can look them up. `dispatch` routes the command to its
//! handler.

use crate::builtins::{
    cd_failure, cd_outcome, echo_output, external_outcome, handle_cd_command,
    handle_echo_command, handle_pwd_command, handle_type_command, handle_unknown_command,
    home_expanded, pwd_output, substitute_home_for_home_path, type_output,
};
use crate::command::{Invocation, ReceivedCommand, ShellAvailableCommands};
use crate::files::{status_in, FileStatus, FileTable};
use crate::outcome::{Effect, EffectView, Outcome, OutcomeView};
use crate::parse::{get_the_structured_command, shell_words_of, SyntaxError};
use crate::resolve::{candidate_paths, candidates_for, lemma_first_runnable_reads_candidates};
use crate::text::joined;
use vstd::prelude::*;

verus! {

/// What the platform knows when a command is handled: the values of the
/// variables `PATH` and `HOME`, each absent if unset, and the working
/// directory, absent if it cannot be told.
#[derive(Debug, PartialEq, Eq)]
pub struct Environment {
    pub path: Option<String>,
    pub home: Option<String>,
    pub working_directory: Option<String>,
}

/// The content of an `Environment`.
pub struct EnvironmentView {
    pub path: Option<Seq<char>>,
    pub home: Option<Seq<char>>,
    pub working_directory: Option<Seq<char>>,
}

impl View for Environment {
    type V = EnvironmentView;

    open spec fn view(&self) -> EnvironmentView {
        EnvironmentView {
            path: self.path.deep_view(),
            home: self.home.deep_view(),
            working_directory: self.working_directory.deep_view(),
        }
    }
}

/// What a line of input turned out to be.
#[derive(Debug)]
pub enum Reading {
    /// Nothing to dispatch: the outcome is known already.
    Settled(Outcome),
    /// A command, to be dispatched.
    Command(ReceivedCommand),
}

/// The complaint about a builtin that was called without the argument it
/// needs.
pub open spec fn missing_argument(builtin: Seq<char>) -> Seq<char> {
    builtin + ": missing argument\n"@
}

/// The complaint about a line whose quoting is broken.
pub open spec fn syntax_complaint() -> Seq<char> {
    "syntax error: missing closing quote"@ + "\n"@
}

/// The paths on whose status the outcome of a command depends: the places
/// where an external program, or the name given to `type`, may be found, and
/// the directory that `cd` is to enter.
pub open spec fn probes(invocation: Invocation, environment: EnvironmentView) -> Seq<Seq<char>> {
    match invocation.command {
        ShellAvailableCommands::Type => if invocation.arguments.len() >= 1
            && ShellAvailableCommands::classify(invocation.arguments[0]) is UnknownCommand {
            candidate_paths(invocation.arguments[0], environment.path)
        } else {
            Seq::empty()
        },
        ShellAvailableCommands::Cd => if invocation.arguments.len() >= 1 {
            match home_expanded(invocation.arguments[0], environment.home) {
                Some(target) => seq![target],
                None => Seq::empty(),
            }
        } else {
            Seq::empty()
        },
        ShellAvailableCommands::UnknownCommand => candidate_paths(
            invocation.raw_command,
            environment.path,
        ),
        _ => Seq::empty(),
    }
}

/// The outcome of a command.
pub open spec fn dispatched(
    invocation: Invocation,
    environment: EnvironmentView,
    files: Map<Seq<char>, FileStatus>,
) -> OutcomeView {
    match invocation.command {
        ShellAvailableCommands::Exit => OutcomeView::does(EffectView::Exit),
        ShellAvailableCommands::Echo => OutcomeView::says(echo_output(invocation.arguments)),
        ShellAvailableCommands::Type => if invocation.arguments.len() == 0 {
            OutcomeView::says(missing_argument("type"@))
        } else {
            OutcomeView::says(type_output(invocation.arguments[0], environment.path, files))
        },
        ShellAvailableCommands::Pwd => OutcomeView::says(pwd_output(environment.working_directory)),
        ShellAvailableCommands::Cd => if invocation.arguments.len() == 0 {
            OutcomeView::says(missing_argument("cd"@))
        } else {
            cd_outcome(invocation.arguments[0], environment.home, files)
        },
        ShellAvailableCommands::UnknownCommand => external_outcome(
            invocation.raw_command,
            invocation.arguments,
            environment.path,
            files,
        ),
    }
}

/// `echo` prints its arguments joined by single spaces: a line whose words are
/// `echo` and then `tokens` is answered with the tokens, one space between
/// each two, and a newline, whatever the environment and the file system.
pub proof fn lemma_echo_prints_its_arguments(
    tokens: Seq<Seq<char>>,
    environment: EnvironmentView,
    files: Map<Seq<char>, FileStatus>,
)
    ensures
        dispatched(Invocation::of_words(seq!["echo"@] + tokens), environment, files)
            == OutcomeView::says(joined(tokens, " "@) + "\n"@),
{
    let words = seq!["echo"@] + tokens;
    ShellAvailableCommands::lemma_classify_exact(words[0]);
    assert(words.skip(1) == tokens);
}

/// A `cd` that fails changes nothing. Where the argument, after expansion,
/// names no directory, the outcome is the complaint about that path and no
/// effect: the platform is not asked to change the working directory. A `pwd`
/// that follows in the same environment prints the directory as it was.
pub proof fn lemma_failed_cd_changes_nothing(
    invocation: Invocation,
    environment: EnvironmentView,
    files: Map<Seq<char>, FileStatus>,
    following: Invocation,
    later: Map<Seq<char>, FileStatus>,
)
    requires
        invocation.command is Cd,
        invocation.arguments.len() >= 1,
        home_expanded(invocation.arguments[0], environment.home) matches Some(target)
            ==> !(status_in(files, target) is Directory),
        following.command is Pwd,
    ensures
        dispatched(invocation, environment, files) == OutcomeView::says(
            cd_failure(
                match home_expanded(invocation.arguments[0], environment.home) {
                    Some(target) => target,
                    None => invocation.arguments[0],
                },
            ),
        ),
        dispatched(invocation, environment, files).effect is Nothing,
        dispatched(following, environment, later) == OutcomeView::says(
            pwd_output(environment.working_directory),
        ),
{
}

/// The outcome of a command depends on the file system only through the
/// paths that `probes` names: two file systems that give each of those paths
/// the same status give the same outcome.
pub proof fn lemma_dispatch_reads_probes(
    invocation: Invocation,
    environment: EnvironmentView,
    files: Map<Seq<char>, FileStatus>,
    others: Map<Seq<char>, FileStatus>,
)
    requires
        forall|index: int|
            0 <= index < probes(invocation, environment).len() ==> status_in(
                files,
                #[trigger] probes(invocation, environment)[index],
            ) == status_in(others, probes(invocation, environment)[index]),
    ensures
        dispatched(invocation, environment, files) == dispatched(invocation, environment, others),
{
    let paths = probes(invocation, environment);
    match invocation.command {
        ShellAvailableCommands::Type => {
            if invocation.arguments.len() >= 1 && ShellAvailableCommands::classify(
                invocation.arguments[0],
            ) is UnknownCommand {
                lemma_first_runnable_reads_candidates(paths, files, others);
            }
        },
        ShellAvailableCommands::Cd => {
            if invocation.arguments.len() >= 1 {
                match home_expanded(invocation.arguments[0], environment.home) {
                    Some(target) => {
                        assert(paths[0] == target);
                    },
                    None => {},
                }
            }
        },
        ShellAvailableCommands::UnknownCommand => {
            lemma_first_runnable_reads_candidates(paths, files, others);
        },
        _ => {},
    }
}

/// The complaint about `builtin` called without the argument it needs.
fn complain_of_missing_argument(builtin: &str) -> (output: String)
    ensures
        output@ == missing_argument(builtin@),
{
    let mut output = builtin.to_owned();
    output.append(": missing argument\n");
    output
}

/// The text that asks for the next line.
pub fn prompt() -> (text: String)
    ensures
        text@ == "$ "@,
{
    "$ ".to_owned()
}

/// Settles a parsed line: an error becomes a complaint, a line without words
/// an outcome without text or effect, and a command is handed on.
pub fn read_parsed(parsed: Result<Option<ReceivedCommand>, SyntaxError>) -> (reading: Reading)
    ensures
        match parsed {
            Ok(Some(command)) => reading matches Reading::Command(handed) && handed@ == command@,
            Ok(None) => reading matches Reading::Settled(outcome) && outcome@ == OutcomeView::does(
                EffectView::Nothing,
            ),
            Err(_) => reading matches Reading::Settled(outcome) && outcome@ == OutcomeView::says(
                syntax_complaint(),
            ),
        },
{
    match parsed {
        Ok(Some(command)) => Reading::Command(command),
        Ok(None) => Reading::Settled(Outcome::does(Effect::Nothing)),
        Err(error) => {
            let mut output = error.message();
            output.append("\n");
            Reading::Settled(Outcome::says(output))
        },
    }
}

/// Reads what came from the input: a line, or `None` at its end.
pub fn read_input(input: Option<&String>) -> (reading: Reading)
    ensures
        match input {
            None => reading matches Reading::Settled(outcome) && outcome@ == OutcomeView::does(
                EffectView::Exit,
            ),
            Some(line) => match shell_words_of(line@) {
                None => reading matches Reading::Settled(outcome) && outcome@
                    == OutcomeView::says(syntax_complaint()),
                Some(words) => if words.len() == 0 {
                    reading matches Reading::Settled(outcome) && outcome@ == OutcomeView::does(
                        EffectView::Nothing,
                    )
                } else {
                    reading matches Reading::Command(command) && command@ == Invocation::of_words(
                        words,
                    )
                },
            },
        },
{
    match input {
        Some(line) => read_parsed(get_the_structured_command(line)),
        None => Reading::Settled(Outcome::does(Effect::Exit)),
    }
}

/// The paths whose status has to be in the file table when `command` is
/// dispatched.
pub fn paths_to_probe(command: &ReceivedCommand, environment: &Environment) -> (paths: Vec<String>)
    ensures
        paths.deep_view() == probes(command@, environment@),
{
    let arguments = command.arguments();
    match command.command() {
        ShellAvailableCommands::Type => {
            if arguments.len() >= 1 {
                match ShellAvailableCommands::from_name(arguments[0].as_str()) {
                    ShellAvailableCommands::UnknownCommand => {
                        return candidates_for(arguments[0].as_str(), environment.path.as_ref());
                    },
                    _ => {},
                }
            }
        },
        ShellAvailableCommands::Cd => {
            if arguments.len() >= 1 {
                match substitute_home_for_home_path(
                    arguments[0].clone(),
                    environment.home.as_ref(),
                ) {
                    Some(target) => {
                        let mut paths: Vec<String> = Vec::new();
                        paths.push(target);
                        return paths;
                    },
                    None => {},
                }
            }
        },
        ShellAvailableCommands::UnknownCommand => {
            return candidates_for(command.raw_command().as_str(), environment.path.as_ref());
        },
        _ => {},
    }
    Vec::new()
}

/// Routes `command` to its handler. `files` stands for the file system; a
/// path that it holds no fact about counts as missing.
pub fn dispatch(
    command: ReceivedCommand,
    environment: &Environment,
    files: &FileTable,
) -> (outcome: Outcome)
    ensures
        outcome@ == dispatched(command@, environment@, files@),
{
    match command.command() {
        ShellAvailableCommands::Exit => Outcome::does(Effect::Exit),
        ShellAvailableCommands::Echo => Outcome::says(handle_echo_command(command)),
        ShellAvailableCommands::Type => {
            if command.arguments().len() == 0 {
                Outcome::says(complain_of_missing_argument("type"))
            } else {
                Outcome::says(handle_type_command(command, environment.path.as_ref(), files))
            }
        },
        ShellAvailableCommands::Pwd => Outcome::says(
            handle_pwd_command(environment.working_directory.as_ref()),
        ),
        ShellAvailableCommands::Cd => {
            if command.arguments().len() == 0 {
                Outcome::says(complain_of_missing_argument("cd"))
            } else {
                handle_cd_command(command, environment.home.as_ref(), files)
            }
        },
        ShellAvailableCommands::UnknownCommand => handle_unknown_command(
            command,
            environment.path.as_ref(),
            files,
        ),
    }
}

} // verus!
