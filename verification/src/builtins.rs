//! The handlers of the builtins and of external commands. Each is a function
//! of the command and of what the platform supplied: the values of the
//! environment variables and a table of file facts.

use crate::command::{ReceivedCommand, ShellAvailableCommands};
use crate::files::{status_in, FileStatus, FileTable};
use crate::outcome::{Effect, EffectView, Outcome, OutcomeView};
use crate::resolve::{candidate_paths, lemma_nothing_to_run, resolve, search_for_command_in_path};
use crate::text::{cut_at, join_words, joined, lemma_cut_of_joined};
use vstd::prelude::*;

verus! {

/// What `echo` prints: its arguments with one space between each two, and a
/// newline.
pub open spec fn echo_output(arguments: Seq<Seq<char>>) -> Seq<char> {
    joined(arguments, " "@) + "\n"@
}

/// What `type` prints for a name that is no builtin: where the name was found,
/// or that it was not.
pub open spec fn unknown_type_output(
    name: Seq<char>,
    path: Option<Seq<char>>,
    files: Map<Seq<char>, FileStatus>,
) -> Seq<char> {
    match resolve(name, path, files) {
        Some(found) => name + " is "@ + found + "\n"@,
        None => name + ": not found\n"@,
    }
}

/// What `type` prints for a name.
pub open spec fn type_output(
    name: Seq<char>,
    path: Option<Seq<char>>,
    files: Map<Seq<char>, FileStatus>,
) -> Seq<char> {
    if ShellAvailableCommands::classify(name) is UnknownCommand {
        unknown_type_output(name, path, files)
    } else {
        name + " is a shell builtin\n"@
    }
}

/// What `pwd` prints: the working directory, or a diagnostic where the
/// platform could not tell it.
pub open spec fn pwd_output(working_directory: Option<Seq<char>>) -> Seq<char> {
    match working_directory {
        Some(directory) => directory + "\n"@,
        None => "pwd: the working directory is not known\n"@,
    }
}

/// A path with a leading `~` replaced by the home directory. Any other path
/// stands for itself. Without a home directory a path that begins with `~`
/// stands for nothing.
pub open spec fn home_expanded(path: Seq<char>, home: Option<Seq<char>>) -> Option<Seq<char>> {
    if path.len() > 0 && path[0] == '~' {
        match home {
            Some(directory) => Some(directory + path.skip(1)),
            None => None,
        }
    } else {
        Some(path)
    }
}

/// The complaint of `cd` about a path that names no directory.
pub open spec fn cd_failure(path: Seq<char>) -> Seq<char> {
    "cd: "@ + path + ": No such file or directory\n"@
}

/// What `cd` with `argument` amounts to: the directory is changed, without a
/// word, if the expanded argument names a directory; else nothing changes and
/// the complaint is printed.
pub open spec fn cd_outcome(
    argument: Seq<char>,
    home: Option<Seq<char>>,
    files: Map<Seq<char>, FileStatus>,
) -> OutcomeView {
    match home_expanded(argument, home) {
        Some(target) => if status_in(files, target) is Directory {
            OutcomeView::does(EffectView::ChangeDirectory(target))
        } else {
            OutcomeView::says(cd_failure(target))
        },
        None => OutcomeView::says(cd_failure(argument)),
    }
}

/// What a command that is no builtin amounts to: the program is run under the
/// name that was typed if that name resolves; else a complaint is printed.
pub open spec fn external_outcome(
    name: Seq<char>,
    arguments: Seq<Seq<char>>,
    path: Option<Seq<char>>,
    files: Map<Seq<char>, FileStatus>,
) -> OutcomeView {
    match resolve(name, path, files) {
        Some(_) => OutcomeView::does(EffectView::Run { program: name, arguments }),
        None => OutcomeView::says(name + ": command not found\n"@),
    }
}

/// What `echo` prints can be read back: where there is an argument and none
/// holds a space, the printed line without its newline, cut at the spaces,
/// is the list of arguments.
pub proof fn lemma_echo_output_reads_back(arguments: Seq<Seq<char>>)
    requires
        arguments.len() >= 1,
        forall|i: int| 0 <= i < arguments.len() ==> !(#[trigger] arguments[i]).contains(' '),
    ensures
        echo_output(arguments).last() == '\n',
        cut_at(echo_output(arguments).drop_last(), ' ') == arguments,
{
    reveal_strlit(" ");
    reveal_strlit("\n");
    assert(" "@ == seq![' ']);
    assert(echo_output(arguments).drop_last() == joined(arguments, " "@));
    lemma_cut_of_joined(arguments, ' ');
}

/// A name that is no builtin and that cannot be run in any of the places
/// where it is looked for is reported by `type` as not found. So it is with a
/// file of that name that has no execute bit.
pub proof fn lemma_type_reports_not_found(
    name: Seq<char>,
    path: Option<Seq<char>>,
    files: Map<Seq<char>, FileStatus>,
)
    requires
        !ShellAvailableCommands::is_builtin_name(name),
        forall|index: int|
            0 <= index < candidate_paths(name, path).len() ==> !status_in(
                files,
                #[trigger] candidate_paths(name, path)[index],
            ).runnable(),
    ensures
        type_output(name, path, files) == name + ": not found\n"@,
{
    ShellAvailableCommands::lemma_classify_exact(name);
    lemma_nothing_to_run(name, path, files);
}

/// The text that `echo` prints.
pub fn handle_echo_command(command: ReceivedCommand) -> (output: String)
    ensures
        output@ == echo_output(command@.arguments),
{
    let mut output = join_words(command.arguments(), " ");
    output.append("\n");
    output
}

/// The text that `pwd` prints.
pub fn handle_pwd_command(working_directory: Option<&String>) -> (output: String)
    ensures
        output@ == pwd_output(working_directory.deep_view()),
{
    match working_directory {
        Some(directory) => {
            let mut output = directory.clone();
            output.append("\n");
            output
        },
        None => "pwd: the working directory is not known\n".to_owned(),
    }
}

/// The text that `type` prints for the first argument of `command`, which is
/// no builtin.
pub fn handle_unknown_command_for_type(
    command: ReceivedCommand,
    path: Option<&String>,
    files: &FileTable,
) -> (output: String)
    requires
        command@.arguments.len() >= 1,
    ensures
        output@ == unknown_type_output(command@.arguments[0], path.deep_view(), files@),
{
    let name = &command.arguments()[0];
    let mut output = name.clone();
    match search_for_command_in_path(name, path, files) {
        Some(found) => {
            output.append(" is ");
            output.append(found.as_str());
            output.append("\n");
        },
        None => {
            output.append(": not found\n");
        },
    }
    output
}

/// The text that `type` prints for the first argument of `command`.
pub fn handle_type_command(
    command: ReceivedCommand,
    path: Option<&String>,
    files: &FileTable,
) -> (output: String)
    requires
        command@.arguments.len() >= 1,
    ensures
        output@ == type_output(command@.arguments[0], path.deep_view(), files@),
{
    match ShellAvailableCommands::from_name(command.arguments()[0].as_str()) {
        ShellAvailableCommands::UnknownCommand => handle_unknown_command_for_type(
            command,
            path,
            files,
        ),
        _ => {
            let mut output = command.arguments()[0].clone();
            output.append(" is a shell builtin\n");
            output
        },
    }
}

/// Replaces a leading `~` in `path` by the home directory. The result is
/// `None` where there is a `~` to replace and no home directory.
pub fn substitute_home_for_home_path(
    path: String,
    home: Option<&String>,
) -> (expanded: Option<String>)
    ensures
        expanded.deep_view() == home_expanded(path@, home.deep_view()),
{
    let length: usize = path.as_str().unicode_len();
    if length > 0 && path.as_str().get_char(0) == '~' {
        match home {
            Some(directory) => {
                let mut expanded = directory.clone();
                expanded.append(path.as_str().substring_char(1, length));
                proof {
                    assert(path@.subrange(1, length as int) == path@.skip(1));
                }
                Some(expanded)
            },
            None => None,
        }
    } else {
        Some(path)
    }
}

/// Handles `cd` with the first argument of `command` as the directory to
/// enter. The directory is changed only if `files` knows the expanded path as
/// a directory.
pub fn handle_cd_command(
    command: ReceivedCommand,
    home: Option<&String>,
    files: &FileTable,
) -> (outcome: Outcome)
    requires
        command@.arguments.len() >= 1,
    ensures
        outcome@ == cd_outcome(command@.arguments[0], home.deep_view(), files@),
{
    let argument = &command.arguments()[0];
    let mut output = "cd: ".to_owned();
    match substitute_home_for_home_path(argument.clone(), home) {
        Some(new_directory) => {
            if files.status_of(new_directory.as_str()).is_directory() {
                return Outcome::does(Effect::ChangeDirectory(new_directory));
            }
            output.append(new_directory.as_str());
        },
        None => {
            output.append(argument.as_str());
        },
    }
    output.append(": No such file or directory\n");
    Outcome::says(output)
}

/// Handles a command that is no builtin: it is to be run under the name that
/// was typed, with its arguments, if the name resolves to a program.
pub fn handle_unknown_command(
    command: ReceivedCommand,
    path: Option<&String>,
    files: &FileTable,
) -> (outcome: Outcome)
    ensures
        outcome@ == external_outcome(
            command@.raw_command,
            command@.arguments,
            path.deep_view(),
            files@,
        ),
{
    match search_for_command_in_path(command.raw_command(), path, files) {
        Some(_) => {
            let (program, arguments) = command.into_parts();
            Outcome::does(Effect::Run { program, arguments })
        },
        None => {
            let mut output = command.raw_command().clone();
            output.append(": command not found\n");
            Outcome::says(output)
        },
    }
}

} // verus!
