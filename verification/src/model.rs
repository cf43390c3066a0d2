//! The rules by which a request is carried out, as a state machine over
//! mathematical values.
//!
//! First the candidates are tried in order. One that is a path is asked for
//! on disk and passed over where it is missing; the command name is tried
//! without asking. A candidate that is tried gets a health check, a version
//! query of which only the exit status counts, and the first one that passes
//! is the tool. Then the tool is run once for the request, and what the run
//! left behind becomes the reply.

use crate::invoke::{
    check_template, execution_failure, fix_template, version_failure, version_template,
    OutputFormat, ProcessOutputView,
};
use crate::locate::{candidate_list, not_found, CandidateView};
use crate::normalize::{
    report_outcome, scan_failure, scan_outcome, selected_output, structured_result,
};
use crate::json::parsed_json;
use crate::protocol::{ActionView, EventView, ReplyView, RequestView};
use crate::summary::summary_is_well_formed;
use crate::text::trimmed;
use std::path::PathBuf;
use vstd::prelude::*;

verus! {

/// What a bridge is waiting for.
#[derive(Debug, Clone, Copy, PartialEq, Eq)]
pub enum Stage {
    /// Whether the current candidate exists on disk.
    Probing,
    /// The health check of the current candidate.
    Checking,
    /// The run of the tool, which is the current candidate, for the request.
    Running,
}

/// The state of a bridge: the request, the candidates, the one that is being
/// tried or run, and what is awaited.
pub ghost struct BridgeState {
    pub request: RequestView,
    pub candidates: Seq<CandidateView>,
    pub cursor: int,
    pub stage: Stage,
}

impl BridgeState {
    /// The cursor names a candidate, the command name is never asked for on
    /// disk, and nothing is run for an availability check.
    pub open spec fn wf(self) -> bool {
        &&& 0 <= self.cursor < self.candidates.len()
        &&& self.stage is Probing ==> !(self.current() is Command)
        &&& self.stage is Running ==> !(self.request is Availability)
    }

    /// The candidate that is being tried or run.
    pub open spec fn current(self) -> CandidateView {
        self.candidates[self.cursor]
    }
}

/// Where a request stands: waiting for an action, or answered.
pub ghost enum StepView {
    Next { state: BridgeState, action: ActionView },
    Done { reply: ReplyView },
}

/// The arguments with which the tool is run for a request.
pub open spec fn arguments_for(request: RequestView) -> Seq<Seq<char>> {
    match request {
        RequestView::Scan { path, auto_fix } => check_template(path, OutputFormat::Json, auto_fix),
        RequestView::Report { path } => check_template(path, OutputFormat::Markdown, false),
        RequestView::Fix { path } => fix_template(path),
        RequestView::Version => version_template(),
        RequestView::Availability => version_template(),
    }
}

/// The action that a state waits for.
pub open spec fn pending(state: BridgeState) -> ActionView {
    match state.stage {
        Stage::Probing => ActionView::Probe { candidate: state.current() },
        Stage::Checking => ActionView::Execute {
            program: state.current(),
            arguments: version_template(),
        },
        Stage::Running => ActionView::Execute {
            program: state.current(),
            arguments: arguments_for(state.request),
        },
    }
}

/// The step that waits in `state`.
pub open spec fn waiting(state: BridgeState) -> StepView {
    StepView::Next { state, action: pending(state) }
}

/// The reply to a request that ends with an error message. An availability
/// check knows no error: it is answered with `false`.
pub open spec fn failure_reply(request: RequestView, message: Seq<char>) -> ReplyView {
    match request {
        RequestView::Scan { .. } => ReplyView::Scan(Err(message)),
        RequestView::Fix { .. } => ReplyView::Scan(Err(message)),
        RequestView::Report { .. } => ReplyView::Text(Err(message)),
        RequestView::Version => ReplyView::Text(Err(message)),
        RequestView::Availability => ReplyView::Available(false),
    }
}

/// The step after discovery: `found` says whether the candidate at `cursor`
/// passed its health check or the candidates ran out. An availability check
/// is answered at once. Any other request runs the tool that was found, or
/// ends with the message that none was.
pub open spec fn settled(
    request: RequestView,
    candidates: Seq<CandidateView>,
    cursor: int,
    found: bool,
) -> StepView {
    if request is Availability {
        StepView::Done { reply: ReplyView::Available(found) }
    } else if found {
        waiting(BridgeState { request, candidates, cursor, stage: Stage::Running })
    } else {
        StepView::Done { reply: failure_reply(request, not_found()) }
    }
}

/// The step that takes up the candidate at `cursor`: a path is asked for on
/// disk, the command name goes to its health check, and past the last
/// candidate discovery is over with nothing found.
pub open spec fn approach(
    request: RequestView,
    candidates: Seq<CandidateView>,
    cursor: int,
) -> StepView {
    if cursor >= candidates.len() {
        settled(request, candidates, cursor, false)
    } else if candidates[cursor] is Command {
        waiting(BridgeState { request, candidates, cursor, stage: Stage::Checking })
    } else {
        waiting(BridgeState { request, candidates, cursor, stage: Stage::Probing })
    }
}

/// The reply that a finished run of the tool comes to.
pub open spec fn answer(request: RequestView, output: ProcessOutputView) -> ReplyView {
    match request {
        RequestView::Scan { .. } => ReplyView::Scan(
            scan_outcome(output.success, output.stdout, output.stderr),
        ),
        RequestView::Report { .. } => ReplyView::Text(
            report_outcome(output.success, output.stdout, output.stderr),
        ),
        RequestView::Fix { .. } => ReplyView::Scan(
            Ok(structured_result(output.success, output.stdout, output.stderr)),
        ),
        RequestView::Version => ReplyView::Text(Ok(trimmed(output.stdout))),
        RequestView::Availability => ReplyView::Available(true),
    }
}

/// The reply where the tool could not be started for the request.
pub open spec fn spawn_failure(request: RequestView, error: Seq<char>) -> ReplyView {
    match request {
        RequestView::Version => failure_reply(request, version_failure(error)),
        _ => failure_reply(request, execution_failure(error)),
    }
}

/// The first step of a request, for a home directory that is known or not.
pub open spec fn begin(request: RequestView, home: Option<PathBuf>) -> StepView {
    approach(request, candidate_list(home), 0)
}

/// The step that follows when the action that `state` waits for observed
/// `event`. An observation of another kind than the one awaited changes
/// nothing: the same action is asked for again.
pub open spec fn advance(state: BridgeState, event: EventView) -> StepView {
    match (state.stage, event) {
        (Stage::Probing, EventView::Probed { exists }) => if exists {
            waiting(BridgeState { stage: Stage::Checking, ..state })
        } else {
            approach(state.request, state.candidates, state.cursor + 1)
        },
        (Stage::Checking, EventView::Exited { output }) => if output.success {
            settled(state.request, state.candidates, state.cursor, true)
        } else {
            approach(state.request, state.candidates, state.cursor + 1)
        },
        (Stage::Checking, EventView::SpawnFailed { .. }) => approach(
            state.request,
            state.candidates,
            state.cursor + 1,
        ),
        (Stage::Running, EventView::Exited { output }) => StepView::Done {
            reply: answer(state.request, output),
        },
        (Stage::Running, EventView::SpawnFailed { error }) => StepView::Done {
            reply: spawn_failure(state.request, error),
        },
        _ => waiting(state),
    }
}

/// Whether a reply is of the kind that the request is answered with.
pub open spec fn fits(request: RequestView, reply: ReplyView) -> bool {
    match request {
        RequestView::Scan { .. } => reply is Scan,
        RequestView::Fix { .. } => reply is Scan,
        RequestView::Report { .. } => reply is Text,
        RequestView::Version => reply is Text,
        RequestView::Availability => reply is Available,
    }
}

/// Whether `event` is of the kind that `state` waits for.
pub open spec fn awaited(state: BridgeState, event: EventView) -> bool {
    match state.stage {
        Stage::Probing => event is Probed,
        Stage::Checking => !(event is Probed),
        Stage::Running => !(event is Probed),
    }
}

/// A bound on the observations that `state` still waits for before the
/// request is answered.
pub open spec fn steps_left(state: BridgeState) -> int {
    match state.stage {
        Stage::Probing => 2 * (state.candidates.len() - state.cursor) + 2,
        Stage::Checking => 2 * (state.candidates.len() - state.cursor) + 1,
        Stage::Running => 1,
    }
}

/// Whether a step keeps to the rules for the request: a state that waits is
/// well formed, for that request and those candidates, and asks for its
/// pending action; a reply is of the kind that the request is answered with.
pub open spec fn sound(step: StepView, request: RequestView, candidates: Seq<CandidateView>) -> bool {
    match step {
        StepView::Next { state, action } => {
            &&& state.wf()
            &&& state.request == request
            &&& state.candidates == candidates
            &&& action == pending(state)
        },
        StepView::Done { reply } => fits(request, reply),
    }
}

/// A request begins with a step that keeps to the rules, and it begins by
/// waiting: there is always a candidate to try.
pub proof fn begin_is_sound(request: RequestView, home: Option<PathBuf>)
    ensures
        sound(begin(request, home), request, candidate_list(home)),
        begin(request, home) matches StepView::Next { state, .. } && state.cursor == 0 && !(
        state.stage is Running),
{
}

/// Whatever is observed, the step that follows keeps to the rules.
pub proof fn advance_is_sound(state: BridgeState, event: EventView)
    requires
        state.wf(),
    ensures
        sound(advance(state, event), state.request, state.candidates),
{
}

/// Every observation of the awaited kind brings the answer closer, so a
/// request is answered after a bounded number of them: two for each
/// candidate and one for the run.
pub proof fn advance_makes_progress(state: BridgeState, event: EventView)
    requires
        state.wf(),
        awaited(state, event),
    ensures
        1 <= steps_left(state) <= 2 * state.candidates.len() + 2,
        advance(state, event) matches StepView::Next { state: next, .. } ==> steps_left(next)
            < steps_left(state),
{
}

/// An observation of another kind than the awaited one changes nothing.
pub proof fn advance_ignores_the_unexpected(state: BridgeState, event: EventView)
    requires
        !awaited(state, event),
    ensures
        advance(state, event) == waiting(state),
{
}

/// A plain scan whose run exited with a failure and printed nothing on
/// standard output is answered with an error, which carries standard error.
pub proof fn failed_scan_without_output_is_an_error(state: BridgeState, output: ProcessOutputView)
    requires
        state.stage is Running,
        state.request is Scan || state.request is Report,
        !output.success,
        output.stdout.len() == 0,
    ensures
        advance(state, EventView::Exited { output }) == (StepView::Done {
            reply: failure_reply(state.request, scan_failure(output.stderr)),
        }),
{
}

/// A fix request whose tool ran is answered with a result whatever the run
/// left behind: its exit status, and standard output, or standard error where
/// standard output is empty.
pub proof fn fix_is_answered_with_a_result(state: BridgeState, output: ProcessOutputView)
    requires
        state.stage is Running,
        state.request is Fix,
    ensures
        advance(state, EventView::Exited { output }) matches StepView::Done {
            reply: ReplyView::Scan(Ok(result)),
        } && result.success == output.success && result.output == selected_output(
            output.stdout,
            output.stderr,
        ),
{
}

/// No count is negative in the summary of any result that a run is answered
/// with.
pub proof fn answered_summary_is_well_formed(request: RequestView, output: ProcessOutputView)
    ensures
        answer(request, output) matches ReplyView::Scan(Ok(result)) ==> (result.summary matches Some(
            summary,
        ) ==> summary.wf()),
{
    summary_is_well_formed(parsed_json(selected_output(output.stdout, output.stderr)));
}

/// A version query whose tool ran is answered with the trimmed standard
/// output, whatever the exit status.
pub proof fn version_is_answered_with_trimmed_output(state: BridgeState, output: ProcessOutputView)
    requires
        state.stage is Running,
        state.request is Version,
    ensures
        advance(state, EventView::Exited { output }) == (StepView::Done {
            reply: ReplyView::Text(Ok(trimmed(output.stdout))),
        }),
{
}

} // verus!
