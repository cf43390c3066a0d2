//! A request to the tool, carried out step by step.
//!
//! A [`Bridge`] answers one request. It never touches the machine: each
//! [`Step`] names the action to perform, and [`Bridge::step`] is told what the
//! action observed. What it asks for and what it answers is proved to be what
//! the rules in [`crate::model`] say.

use crate::invoke::{
    check_arguments, execution_failure_message, fix_arguments, version_arguments,
    version_failure_message, OutputFormat, ProcessOutput,
};
use crate::locate::{candidate_list, candidates, discover_candidates, get_cli_path, Candidate};
use crate::model::{
    advance, answer, approach, arguments_for, begin, failure_reply, settled, spawn_failure,
    waiting, BridgeState, Stage, StepView,
};
use crate::normalize::{normalize_fix, normalize_report, normalize_scan, version_text};
use crate::protocol::{Action, Event, Reply, Request};
use std::path::PathBuf;
use vstd::prelude::*;

verus! {

/// A request on its way to an answer.
#[derive(Debug)]
pub struct Bridge {
    request: Request,
    candidates: Vec<Candidate>,
    cursor: usize,
    stage: Stage,
}

/// Where a request stands: waiting for an action, or answered.
#[derive(Debug)]
pub enum Step {
    /// Perform `action` and hand what it observed to [`Bridge::step`].
    Next { bridge: Bridge, action: Action },
    /// The request is answered.
    Done { reply: Reply },
}

impl View for Bridge {
    type V = BridgeState;

    closed spec fn view(&self) -> BridgeState {
        BridgeState {
            request: self.request@,
            candidates: self.candidates.deep_view(),
            cursor: self.cursor as int,
            stage: self.stage,
        }
    }
}

impl View for Step {
    type V = StepView;

    open spec fn view(&self) -> StepView {
        match self {
            Step::Next { bridge, action } => StepView::Next { state: bridge@, action: action@ },
            Step::Done { reply } => StepView::Done { reply: reply@ },
        }
    }
}

/// Builds the arguments with which the tool is run for a request.
fn request_arguments(request: &Request) -> (arguments: Vec<String>)
    ensures
        arguments.deep_view() == arguments_for(request@),
{
    match request {
        Request::Scan { path, auto_fix } => check_arguments(
            path.as_str(),
            OutputFormat::Json,
            *auto_fix,
        ),
        Request::Report { path } => check_arguments(path.as_str(), OutputFormat::Markdown, false),
        Request::Fix { path } => fix_arguments(path.as_str()),
        Request::Version => version_arguments(),
        Request::Availability => version_arguments(),
    }
}

/// Builds the reply to a request that ends with an error message.
fn fail(request: &Request, message: String) -> (reply: Reply)
    ensures
        reply@ == failure_reply(request@, message@),
{
    match request {
        Request::Scan { .. } => Reply::Scan(Err(message)),
        Request::Fix { .. } => Reply::Scan(Err(message)),
        Request::Report { .. } => Reply::Text(Err(message)),
        Request::Version => Reply::Text(Err(message)),
        Request::Availability => Reply::Available(false),
    }
}

/// Builds the reply that a finished run of the tool comes to.
fn reply_to(request: &Request, output: ProcessOutput) -> (reply: Reply)
    ensures
        reply@ == answer(request@, output@),
{
    match request {
        Request::Scan { .. } => Reply::Scan(
            normalize_scan(output.success, output.stdout, output.stderr),
        ),
        Request::Report { .. } => Reply::Text(
            normalize_report(output.success, output.stdout, output.stderr),
        ),
        Request::Fix { .. } => Reply::Scan(
            Ok(normalize_fix(output.success, output.stdout, output.stderr)),
        ),
        Request::Version => Reply::Text(Ok(version_text(output.stdout.as_str()))),
        Request::Availability => Reply::Available(true),
    }
}

/// Builds the reply where the tool could not be started for the request.
fn reply_to_spawn_failure(request: &Request, error: &str) -> (reply: Reply)
    ensures
        reply@ == spawn_failure(request@, error@),
{
    match request {
        Request::Version => fail(request, version_failure_message(error)),
        _ => fail(request, execution_failure_message(error)),
    }
}

impl Bridge {
    #[verifier::type_invariant]
    spec fn valid(&self) -> bool {
        self@.wf()
    }

    /// Waits at the candidate at `cursor` for what `stage` names.
    fn wait(request: Request, candidates: Vec<Candidate>, cursor: usize, stage: Stage) -> (step:
        Step)
        requires
            cursor < candidates.len(),
            stage is Probing ==> !(candidates[cursor as int]@ is Command),
            stage is Running ==> !(request is Availability),
        ensures
            step@ == waiting(
                BridgeState {
                    request: request@,
                    candidates: candidates.deep_view(),
                    cursor: cursor as int,
                    stage,
                },
            ),
    {
        let current = candidates[cursor].clone();
        let action = match stage {
            Stage::Probing => Action::Probe { candidate: current },
            Stage::Checking => Action::Execute {
                program: current,
                arguments: version_arguments(),
            },
            Stage::Running => Action::Execute {
                program: current,
                arguments: request_arguments(&request),
            },
        };
        Step::Next { bridge: Bridge { request, candidates, cursor, stage }, action }
    }

    /// Ends discovery: `found` is the candidate at `cursor` where it passed
    /// its health check, and `None` where the candidates ran out.
    fn settle(
        request: Request,
        candidates: Vec<Candidate>,
        cursor: usize,
        found: Option<Candidate>,
    ) -> (step: Step)
        requires
            found is Some ==> cursor < candidates.len(),
        ensures
            step@ == settled(request@, candidates.deep_view(), cursor as int, found is Some),
    {
        match request {
            Request::Availability => Step::Done { reply: Reply::Available(found.is_some()) },
            _ => match get_cli_path(found) {
                Ok(_) => Bridge::wait(request, candidates, cursor, Stage::Running),
                Err(message) => Step::Done { reply: fail(&request, message) },
            },
        }
    }

    /// Takes up the candidate at `cursor`.
    fn approach(request: Request, candidates: Vec<Candidate>, cursor: usize) -> (step: Step)
        requires
            cursor <= candidates.len(),
        ensures
            step@ == approach(request@, candidates.deep_view(), cursor as int),
    {
        if cursor >= candidates.len() {
            Bridge::settle(request, candidates, cursor, None)
        } else if candidates[cursor].is_command() {
            Bridge::wait(request, candidates, cursor, Stage::Checking)
        } else {
            Bridge::wait(request, candidates, cursor, Stage::Probing)
        }
    }

    /// Begins a request, for a home directory that is known or not.
    pub fn begin(request: Request, home: Option<PathBuf>) -> (step: Step)
        ensures
            step@ == begin(request@, home),
    {
        Bridge::approach(request, candidates(home), 0)
    }

    /// Begins a request for the user who runs the process, whatever their
    /// home directory is.
    pub fn start(request: Request) -> (step: Step)
        ensures
            exists|home: Option<PathBuf>| step@ == begin(request@, home),
    {
        let list = discover_candidates();
        proof {
            let home = choose|home: Option<PathBuf>| list.deep_view() == candidate_list(home);
            assert(approach(request@, list.deep_view(), 0) == begin(request@, home));
        }
        Bridge::approach(request, list, 0)
    }

    /// Takes in what the awaited action observed.
    pub fn step(self, event: Event) -> (step: Step)
        ensures
            step@ == advance(self@, event@),
    {
        proof {
            use_type_invariant(&self);
            assert(self.cursor < self.candidates.len());
        }
        let Bridge { request, candidates, cursor, stage } = self;
        match stage {
            Stage::Probing => match event {
                Event::Probed { exists } => if exists {
                    Bridge::wait(request, candidates, cursor, Stage::Checking)
                } else {
                    Bridge::approach(request, candidates, cursor + 1)
                },
                _ => Bridge::wait(request, candidates, cursor, Stage::Probing),
            },
            Stage::Checking => match event {
                Event::Exited { output } => if output.success {
                    let found = candidates[cursor].clone();
                    Bridge::settle(request, candidates, cursor, Some(found))
                } else {
                    Bridge::approach(request, candidates, cursor + 1)
                },
                Event::SpawnFailed { .. } => Bridge::approach(request, candidates, cursor + 1),
                Event::Probed { .. } => Bridge::wait(request, candidates, cursor, Stage::Checking),
            },
            Stage::Running => match event {
                Event::Exited { output } => Step::Done { reply: reply_to(&request, output) },
                Event::SpawnFailed { error } => Step::Done {
                    reply: reply_to_spawn_failure(&request, error.as_str()),
                },
                Event::Probed { .. } => Bridge::wait(request, candidates, cursor, Stage::Running),
            },
        }
    }
}

} // verus!
