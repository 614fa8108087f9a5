//! What handling a command amounts to: text for the user and, possibly, work
//! that only the platform can do.

use vstd::prelude::*;

verus! {

/// What the platform has to do once a command has been handled.
#[derive(Debug, PartialEq, Eq)]
pub enum Effect {
    /// Nothing: go on with the next line.
    Nothing,
    /// Stop reading lines.
    Exit,
    /// Make the given directory the working directory.
    ChangeDirectory(String),
    /// Run `program` with `arguments`, wait for it, and relay what it prints.
    Run { program: String, arguments: Vec<String> },
}

/// The content of an `Effect`.
pub enum EffectView {
    Nothing,
    Exit,
    ChangeDirectory(Seq<char>),
    Run { program: Seq<char>, arguments: Seq<Seq<char>> },
}

impl View for Effect {
    type V = EffectView;

    open spec fn view(&self) -> EffectView {
        match self {
            Effect::Nothing => EffectView::Nothing,
            Effect::Exit => EffectView::Exit,
            Effect::ChangeDirectory(directory) => EffectView::ChangeDirectory(directory@),
            Effect::Run { program, arguments } => EffectView::Run {
                program: program@,
                arguments: arguments.deep_view(),
            },
        }
    }
}

/// The result of handling one command: `output` is printed as it stands (it
/// ends in a newline unless it is empty), then `effect` is carried out.
#[derive(Debug, PartialEq, Eq)]
pub struct Outcome {
    pub output: String,
    pub effect: Effect,
}

/// The content of an `Outcome`.
pub struct OutcomeView {
    pub output: Seq<char>,
    pub effect: EffectView,
}

impl View for Outcome {
    type V = OutcomeView;

    open spec fn view(&self) -> OutcomeView {
        OutcomeView { output: self.output@, effect: self.effect@ }
    }
}

impl OutcomeView {
    /// Text for the user and nothing else.
    pub open spec fn says(output: Seq<char>) -> OutcomeView {
        OutcomeView { output, effect: EffectView::Nothing }
    }

    /// An effect without any text.
    pub open spec fn does(effect: EffectView) -> OutcomeView {
        OutcomeView { output: Seq::empty(), effect }
    }
}

impl Outcome {
    /// Text for the user and nothing else.
    pub fn says(output: String) -> (outcome: Outcome)
        ensures
            outcome@ == OutcomeView::says(output@),
    {
        Outcome { output, effect: Effect::Nothing }
    }

    /// An effect without any text.
    pub fn does(effect: Effect) -> (outcome: Outcome)
        ensures
            outcome@ == OutcomeView::does(effect@),
    {
        Outcome { output: String::new(), effect }
    }
}

} // verus!
