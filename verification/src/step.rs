//! What a manager is told when the action it asked for has been carried out.
//!
//! A manager never acts itself. It names the next action; the caller carries
//! it out and reports the outcome; the manager answers with the action after
//! that. Each manager says which outcomes answer which of its actions.

use crate::model::{BuildInfo, BuildInfoView};
use vstd::prelude::*;

verus! {

/// The exit code of a process that did not end successfully; `None` when a
/// signal ended it.
pub type ExitCode = Option<i32>;

/// The outcome of one action.
#[derive(Debug)]
pub enum Outcome {
    /// The action was carried out.
    Succeeded,
    /// The answer to a question about a path.
    Exists(bool),
    /// A file operation or a request to a peer failed.
    Failed,
    /// What was read is not what was expected there.
    Invalid,
    /// The process could not be started or waited for.
    SpawnFailed,
    /// The process did not take its input.
    StdinFailed,
    /// The process ran and ended unsuccessfully.
    Exited(ExitCode),
    /// The text that was read or that a process printed.
    Text(String),
    /// The build record that was read or fetched.
    Info(BuildInfo),
}

/// An [`Outcome`] with its texts as sequences of characters.
pub enum OutcomeView {
    Succeeded,
    Exists(bool),
    Failed,
    Invalid,
    SpawnFailed,
    StdinFailed,
    Exited(ExitCode),
    Text(Seq<char>),
    Info(BuildInfoView),
}

impl View for Outcome {
    type V = OutcomeView;

    open spec fn view(&self) -> OutcomeView {
        match self {
            Outcome::Succeeded => OutcomeView::Succeeded,
            Outcome::Exists(b) => OutcomeView::Exists(*b),
            Outcome::Failed => OutcomeView::Failed,
            Outcome::Invalid => OutcomeView::Invalid,
            Outcome::SpawnFailed => OutcomeView::SpawnFailed,
            Outcome::StdinFailed => OutcomeView::StdinFailed,
            Outcome::Exited(code) => OutcomeView::Exited(*code),
            Outcome::Text(t) => OutcomeView::Text(t@),
            Outcome::Info(i) => OutcomeView::Info(i@),
        }
    }
}

impl OutcomeView {
    /// An outcome of an action that changes a file or asks a peer for
    /// something that is not handed back.
    pub open spec fn of_operation(self) -> bool {
        self is Succeeded || self is Failed
    }

    /// An outcome of a question about a path.
    pub open spec fn of_check(self) -> bool {
        self is Exists
    }

    /// An outcome of running a process to its end.
    pub open spec fn of_process(self) -> bool {
        self is Succeeded || self is SpawnFailed || self is Exited
    }

    /// An outcome of running a process that is fed its input.
    pub open spec fn of_fed_process(self) -> bool {
        self is Succeeded || self is SpawnFailed || self is StdinFailed || self is Exited
    }

    /// An outcome of running a process whose output is read as text.
    pub open spec fn of_captured_process(self) -> bool {
        self is Text || self is SpawnFailed || self is Exited || self is Invalid
    }

    /// An outcome of reading a build record from a file.
    pub open spec fn of_record_read(self) -> bool {
        self is Info || self is Failed || self is Invalid
    }

    /// An outcome of fetching text from a peer.
    pub open spec fn of_text_fetch(self) -> bool {
        self is Text || self is Failed
    }
}

impl Outcome {
    pub fn of_operation(&self) -> (r: bool)
        ensures
            r == self@.of_operation(),
    {
        match self {
            Outcome::Succeeded | Outcome::Failed => true,
            _ => false,
        }
    }

    pub fn of_check(&self) -> (r: bool)
        ensures
            r == self@.of_check(),
    {
        match self {
            Outcome::Exists(_) => true,
            _ => false,
        }
    }

    pub fn of_process(&self) -> (r: bool)
        ensures
            r == self@.of_process(),
    {
        match self {
            Outcome::Succeeded | Outcome::SpawnFailed | Outcome::Exited(_) => true,
            _ => false,
        }
    }

    pub fn of_fed_process(&self) -> (r: bool)
        ensures
            r == self@.of_fed_process(),
    {
        match self {
            Outcome::Succeeded | Outcome::SpawnFailed | Outcome::StdinFailed | Outcome::Exited(
                _,
            ) => true,
            _ => false,
        }
    }

    pub fn of_captured_process(&self) -> (r: bool)
        ensures
            r == self@.of_captured_process(),
    {
        match self {
            Outcome::Text(_) | Outcome::SpawnFailed | Outcome::Exited(_) | Outcome::Invalid => true,
            _ => false,
        }
    }

    pub fn of_record_read(&self) -> (r: bool)
        ensures
            r == self@.of_record_read(),
    {
        match self {
            Outcome::Info(_) | Outcome::Failed | Outcome::Invalid => true,
            _ => false,
        }
    }

    pub fn of_text_fetch(&self) -> (r: bool)
        ensures
            r == self@.of_text_fetch(),
    {
        match self {
            Outcome::Text(_) | Outcome::Failed => true,
            _ => false,
        }
    }
}

} // verus!
