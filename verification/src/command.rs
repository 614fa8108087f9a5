//! Command names and parsed command lines.

use crate::text::same_text;
use vstd::prelude::*;

verus! {

/// What the first word of a command line names: one of the five builtins, or
/// anything else.
#[derive(Debug, Clone, Copy, PartialEq, Eq, Structural)]
pub enum ShellAvailableCommands {
    Exit,
    Echo,
    Type,
    Pwd,
    Cd,
    UnknownCommand,
}

impl ShellAvailableCommands {
    /// The tag of a command name. The comparison is exact and case-sensitive.
    pub open spec fn classify(name: Seq<char>) -> Self {
        if name == "exit"@ {
            ShellAvailableCommands::Exit
        } else if name == "echo"@ {
            ShellAvailableCommands::Echo
        } else if name == "type"@ {
            ShellAvailableCommands::Type
        } else if name == "pwd"@ {
            ShellAvailableCommands::Pwd
        } else if name == "cd"@ {
            ShellAvailableCommands::Cd
        } else {
            ShellAvailableCommands::UnknownCommand
        }
    }

    /// Whether `name` is the name of a builtin.
    pub open spec fn is_builtin_name(name: Seq<char>) -> bool {
        name == "exit"@ || name == "echo"@ || name == "type"@ || name == "pwd"@ || name == "cd"@
    }

    /// Classifies a command name.
    pub fn from_string(command: String) -> (tag: Self)
        ensures
            tag == Self::classify(command@),
            tag is UnknownCommand <==> !Self::is_builtin_name(command@),
    {
        proof {
            Self::lemma_classify_exact(command@);
        }
        Self::from_name(command.as_str())
    }

    /// Classifies a command name held in a string slice.
    pub fn from_name(name: &str) -> (tag: Self)
        ensures
            tag == Self::classify(name@),
    {
        if same_text(name, "exit") {
            ShellAvailableCommands::Exit
        } else if same_text(name, "echo") {
            ShellAvailableCommands::Echo
        } else if same_text(name, "type") {
            ShellAvailableCommands::Type
        } else if same_text(name, "pwd") {
            ShellAvailableCommands::Pwd
        } else if same_text(name, "cd") {
            ShellAvailableCommands::Cd
        } else {
            ShellAvailableCommands::UnknownCommand
        }
    }

    /// Every name has exactly one tag: each builtin tag belongs to its one
    /// name, and `UnknownCommand` to all names that are none of the five.
    pub proof fn lemma_classify_exact(name: Seq<char>)
        ensures
            Self::classify(name) is Exit <==> name == "exit"@,
            Self::classify(name) is Echo <==> name == "echo"@,
            Self::classify(name) is Type <==> name == "type"@,
            Self::classify(name) is Pwd <==> name == "pwd"@,
            Self::classify(name) is Cd <==> name == "cd"@,
            Self::classify(name) is UnknownCommand <==> !Self::is_builtin_name(name),
    {
        reveal_strlit("exit");
        reveal_strlit("echo");
        reveal_strlit("type");
        reveal_strlit("pwd");
        reveal_strlit("cd");
        assert("exit"@.len() == 4 && "exit"@[1] == 'x');
        assert("echo"@.len() == 4 && "echo"@[1] == 'c');
        assert("type"@.len() == 4 && "type"@[1] == 'y');
        assert("pwd"@.len() == 3);
        assert("cd"@.len() == 2);
    }
}

/// The content of a parsed command line: the tag of its first word, that
/// word as it was typed, and the words after it.
pub struct Invocation {
    pub command: ShellAvailableCommands,
    pub raw_command: Seq<char>,
    pub arguments: Seq<Seq<char>>,
}

impl Invocation {
    /// The invocation that a non-empty list of words stands for.
    pub open spec fn of_words(words: Seq<Seq<char>>) -> Invocation
        recommends
            words.len() >= 1,
    {
        Invocation {
            command: ShellAvailableCommands::classify(words[0]),
            raw_command: words[0],
            arguments: words.skip(1),
        }
    }

    /// The tag is the one that belongs to the name.
    pub open spec fn well_formed(self) -> bool {
        self.command == ShellAvailableCommands::classify(self.raw_command)
    }
}

/// A parsed command line: the name that was typed, its tag, and the words
/// after the name as arguments. The tag always is the classification of the
/// name.
#[derive(Debug)]
pub struct ReceivedCommand {
    command: ShellAvailableCommands,
    arguments: Vec<String>,
    raw_command: String,
}

impl View for ReceivedCommand {
    type V = Invocation;

    closed spec fn view(&self) -> Invocation {
        Invocation {
            command: self.command,
            raw_command: self.raw_command@,
            arguments: self.arguments.deep_view(),
        }
    }
}

impl ReceivedCommand {
    #[verifier::type_invariant]
    spec fn tag_matches_name(self) -> bool {
        self.command == ShellAvailableCommands::classify(self.raw_command@)
    }

    /// The command with the given name and arguments.
    pub fn new(raw_command: String, arguments: Vec<String>) -> (parsed: Self)
        ensures
            parsed@ == (Invocation {
                command: ShellAvailableCommands::classify(raw_command@),
                raw_command: raw_command@,
                arguments: arguments.deep_view(),
            }),
    {
        let command = ShellAvailableCommands::from_name(raw_command.as_str());
        ReceivedCommand { command, arguments, raw_command }
    }

    /// Takes the first of `words` as the command name and the others as its
    /// arguments. Without a first word there is no command.
    pub fn from_words(words: Vec<String>) -> (parsed: Option<Self>)
        ensures
            words.len() == 0 ==> parsed is None,
            words.len() > 0 ==> parsed is Some && parsed->0@ == Invocation::of_words(
                words.deep_view(),
            ),
    {
        let mut words = words;
        if words.len() == 0 {
            None
        } else {
            let ghost all = words.deep_view();
            let raw_command = words.remove(0);
            proof {
                assert(words.deep_view() == all.skip(1));
            }
            Some(ReceivedCommand::new(raw_command, words))
        }
    }

    /// The tag of the command name.
    pub fn command(&self) -> (tag: ShellAvailableCommands)
        ensures
            tag == self@.command,
            self@.well_formed(),
    {
        proof {
            use_type_invariant(self);
        }
        self.command
    }

    /// The command name as it was typed.
    pub fn raw_command(&self) -> (name: &String)
        ensures
            name@ == self@.raw_command,
    {
        &self.raw_command
    }

    /// The words after the command name.
    pub fn arguments(&self) -> (arguments: &Vec<String>)
        ensures
            arguments.deep_view() == self@.arguments,
    {
        &self.arguments
    }

    /// Gives up the command for its name and its arguments.
    pub fn into_parts(self) -> (parts: (String, Vec<String>))
        ensures
            parts.0@ == self@.raw_command,
            parts.1.deep_view() == self@.arguments,
    {
        (self.raw_command, self.arguments)
    }
}

} // verus!
