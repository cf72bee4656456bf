//! External commands as values: what to run, and how a run ended.

use vstd::prelude::*;
use vstd::string::*;
use crate::text::{append_one_line, one_line};

verus! {

/// The texts of a list of strings.
pub open spec fn texts(items: Seq<String>) -> Seq<Seq<char>> {
    Seq::new(items.len(), |i: int| items[i]@)
}

/// A program to run with its arguments.
#[derive(Debug, PartialEq, Eq)]
pub struct Command {
    pub program: String,
    pub args: Vec<String>,
}

/// A command as a plain value.
pub struct CommandView {
    pub program: Seq<char>,
    pub args: Seq<Seq<char>>,
}

impl View for Command {
    type V = CommandView;

    open spec fn view(&self) -> CommandView {
        CommandView { program: self.program@, args: texts(self.args@) }
    }
}

/// How the run of one external command ended.
#[derive(Debug, PartialEq, Eq)]
pub enum StepOutcome {
    /// The command ran and reported success.
    Succeeded,
    /// The command ran and reported failure; `stderr` is what it wrote there.
    Failed { stderr: String },
    /// The command could not be run at all.
    TransportError { message: String },
    /// The command did not end within its time limit.
    TimedOut,
}

/// The end of a run as a plain value.
pub enum StepOutcomeView {
    Succeeded,
    Failed { stderr: Seq<char> },
    TransportError { message: Seq<char> },
    TimedOut,
}

impl View for StepOutcome {
    type V = StepOutcomeView;

    open spec fn view(&self) -> StepOutcomeView {
        match self {
            StepOutcome::Succeeded => StepOutcomeView::Succeeded,
            StepOutcome::Failed { stderr } => StepOutcomeView::Failed { stderr: stderr@ },
            StepOutcome::TransportError { message } => StepOutcomeView::TransportError {
                message: message@,
            },
            StepOutcome::TimedOut => StepOutcomeView::TimedOut,
        }
    }
}

/// The views of a list of outcomes.
pub open spec fn outcome_views(items: Seq<StepOutcome>) -> Seq<StepOutcomeView> {
    Seq::new(items.len(), |i: int| items[i]@)
}

/// What is said of a run that did not succeed, after the name of its step.
/// What the command or the system wrote is put on one line.
pub open spec fn failure_suffix(outcome: StepOutcomeView) -> Seq<char> {
    match outcome {
        StepOutcomeView::Succeeded => Seq::<char>::empty(),
        StepOutcomeView::Failed { stderr } => " failed: "@ + one_line(stderr),
        StepOutcomeView::TransportError { message } => " could not be run: "@ + one_line(message),
        StepOutcomeView::TimedOut => " timed out"@,
    }
}

impl StepOutcome {
    /// Whether the command ran and reported success.
    pub fn succeeded(&self) -> (ok: bool)
        ensures
            ok == (self@ is Succeeded),
    {
        match self {
            StepOutcome::Succeeded => true,
            _ => false,
        }
    }

    /// Appends to `text` what is said of this run where it did not succeed.
    pub fn append_failure(&self, text: &mut String)
        ensures
            final(text)@ == old(text)@ + failure_suffix(self@),
    {
        match self {
            StepOutcome::Succeeded => {
                assert(text@ + Seq::<char>::empty() =~= text@);
            },
            StepOutcome::Failed { stderr } => {
                text.append(" failed: ");
                append_one_line(text, stderr.as_str());
                assert(text@ =~= old(text)@ + (" failed: "@ + one_line(stderr@)));
            },
            StepOutcome::TransportError { message } => {
                text.append(" could not be run: ");
                append_one_line(text, message.as_str());
                assert(text@ =~= old(text)@ + (" could not be run: "@ + one_line(message@)));
            },
            StepOutcome::TimedOut => {
                text.append(" timed out");
            },
        }
    }
}

} // verus!
