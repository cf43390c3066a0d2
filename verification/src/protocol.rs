//! The words that a caller and a bridge exchange: what is asked, what is to
//! be done, what was observed, and what is answered.

use crate::invoke::{ProcessOutput, ProcessOutputView};
use crate::locate::{Candidate, CandidateView};
use crate::normalize::{result_view, text_view, ScanResult, ScanResultView};
use vstd::prelude::*;

verus! {

/// What a caller asks of the tool.
#[derive(Debug, PartialEq, Eq)]
pub enum Request {
    /// Scan the project at `path` and decode what the tool prints; fix what
    /// is found where `auto_fix` is set.
    Scan { path: String, auto_fix: bool },
    /// Scan the project at `path` and hand on the tool's report as it is.
    Report { path: String },
    /// Fix what is found in the project at `path`.
    Fix { path: String },
    /// Ask the tool for its version.
    Version,
    /// Find out whether the tool can be run at all.
    Availability,
}

/// The mathematical value of a [`Request`].
pub ghost enum RequestView {
    Scan { path: Seq<char>, auto_fix: bool },
    Report { path: Seq<char> },
    Fix { path: Seq<char> },
    Version,
    Availability,
}

impl View for Request {
    type V = RequestView;

    open spec fn view(&self) -> RequestView {
        match self {
            Request::Scan { path, auto_fix } => RequestView::Scan {
                path: path@,
                auto_fix: *auto_fix,
            },
            Request::Report { path } => RequestView::Report { path: path@ },
            Request::Fix { path } => RequestView::Fix { path: path@ },
            Request::Version => RequestView::Version,
            Request::Availability => RequestView::Availability,
        }
    }
}

/// The answer to a request.
#[derive(Debug, PartialEq, Eq)]
pub enum Reply {
    /// To a scan or a fix: the structured result, or an error message.
    Scan(Result<ScanResult, String>),
    /// To a report or a version query: the text, or an error message.
    Text(Result<String, String>),
    /// To an availability check.
    Available(bool),
}

/// The mathematical value of a [`Reply`].
pub ghost enum ReplyView {
    Scan(Result<ScanResultView, Seq<char>>),
    Text(Result<Seq<char>, Seq<char>>),
    Available(bool),
}

impl View for Reply {
    type V = ReplyView;

    open spec fn view(&self) -> ReplyView {
        match self {
            Reply::Scan(outcome) => ReplyView::Scan(result_view(*outcome)),
            Reply::Text(outcome) => ReplyView::Text(text_view(*outcome)),
            Reply::Available(available) => ReplyView::Available(*available),
        }
    }
}

/// What the bridge asks to be done.
#[derive(Debug, PartialEq, Eq)]
pub enum Action {
    /// Find out whether the candidate exists on disk.
    Probe { candidate: Candidate },
    /// Run the program with the arguments, wait for it to exit, and capture
    /// both output streams in full.
    Execute { program: Candidate, arguments: Vec<String> },
}

/// The mathematical value of an [`Action`].
pub ghost enum ActionView {
    Probe { candidate: CandidateView },
    Execute { program: CandidateView, arguments: Seq<Seq<char>> },
}

impl View for Action {
    type V = ActionView;

    open spec fn view(&self) -> ActionView {
        match self {
            Action::Probe { candidate } => ActionView::Probe { candidate: candidate@ },
            Action::Execute { program, arguments } => ActionView::Execute {
                program: program@,
                arguments: arguments.deep_view(),
            },
        }
    }
}

/// What an action observed.
#[derive(Debug, PartialEq, Eq)]
pub enum Event {
    /// The candidate exists on disk, or does not.
    Probed { exists: bool },
    /// The program ran and exited.
    Exited { output: ProcessOutput },
    /// The program could not be started; `error` is the system's description.
    SpawnFailed { error: String },
}

/// The mathematical value of an [`Event`].
pub ghost enum EventView {
    Probed { exists: bool },
    Exited { output: ProcessOutputView },
    SpawnFailed { error: Seq<char> },
}

impl View for Event {
    type V = EventView;

    open spec fn view(&self) -> EventView {
        match self {
            Event::Probed { exists } => EventView::Probed { exists: *exists },
            Event::Exited { output } => EventView::Exited { output: output@ },
            Event::SpawnFailed { error } => EventView::SpawnFailed { error: error@ },
        }
    }
}

} // verus!
