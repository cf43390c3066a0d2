//! What discovery comes to: the first candidate that can be used.
//!
//! The rules in [`crate::model`] say what follows each single observation.
//! Here the observations of a whole discovery are held against one picture of
//! the machine, and the bridge is shown to run the first candidate that this
//! picture lets it use, and no other.

use crate::locate::{candidate_list, not_found, CandidateView};
use crate::model::{
    advance, answer, begin, begin_is_sound, failure_reply, spawn_failure, BridgeState, Stage,
    StepView,
};
use crate::protocol::{EventView, ReplyView, RequestView};
use std::path::PathBuf;
use vstd::prelude::*;

verus! {

/// A picture of the machine during one discovery: what asking for each
/// candidate, by its place in the list, would observe.
pub ghost struct Machine {
    /// The candidates that exist on disk.
    pub present: Set<int>,
    /// The candidates that start and exit successfully on a version query.
    pub healthy: Set<int>,
}

/// Whether the candidate at `place` can be used: it is tried, as one that
/// exists on disk or as the command name, and it passes its health check.
pub open spec fn usable(candidates: Seq<CandidateView>, machine: Machine, place: int) -> bool {
    &&& candidates[place] is Command || machine.present.contains(place)
    &&& machine.healthy.contains(place)
}

/// The place of the first candidate from `from` on that can be used.
pub open spec fn first_usable(candidates: Seq<CandidateView>, machine: Machine, from: int) -> Option<
    int,
>
    decreases candidates.len() - from,
{
    if from >= candidates.len() {
        None
    } else if usable(candidates, machine, from) {
        Some(from)
    } else {
        first_usable(candidates, machine, from + 1)
    }
}

/// Whether `event` is what the action that `state` waits for observes on
/// `machine`. The run of the tool for the request may end in any way.
pub open spec fn agrees(state: BridgeState, event: EventView, machine: Machine) -> bool {
    match state.stage {
        Stage::Probing => event == (EventView::Probed {
            exists: machine.present.contains(state.cursor),
        }),
        Stage::Checking => match event {
            EventView::Exited { output } => output.success == machine.healthy.contains(
                state.cursor,
            ),
            EventView::SpawnFailed { .. } => !machine.healthy.contains(state.cursor),
            EventView::Probed { .. } => false,
        },
        Stage::Running => !(event is Probed),
    }
}

/// The place at which discovery, as far as it has come in `state`, will end
/// on `machine`; `None` where it will find nothing.
pub open spec fn goal(state: BridgeState, machine: Machine) -> Option<int> {
    match state.stage {
        Stage::Probing => first_usable(state.candidates, machine, state.cursor),
        Stage::Checking => if machine.healthy.contains(state.cursor) {
            Some(state.cursor)
        } else {
            first_usable(state.candidates, machine, state.cursor + 1)
        },
        Stage::Running => Some(state.cursor),
    }
}

/// The reply that ends a request whose tool was run, given the last
/// observation.
pub open spec fn closing(request: RequestView, last: EventView) -> ReplyView {
    match last {
        EventView::Exited { output } => answer(request, output),
        EventView::SpawnFailed { error } => spawn_failure(request, error),
        EventView::Probed { .. } => failure_reply(request, not_found()),
    }
}

/// Whether `step` is where a request may stand whose discovery ends at
/// `target` and whose last observation, if any was made, is `last`.
///
/// A state that waits is well formed and heads for the target; once it runs
/// the tool, the tool is the target. An availability check is answered with
/// whether there is a target. Any other request is answered with the message
/// that the tool was not found where there is no target, and otherwise with
/// what the run of the target came to.
pub open spec fn on_course(
    step: StepView,
    request: RequestView,
    machine: Machine,
    target: Option<int>,
    last: Option<EventView>,
) -> bool {
    match step {
        StepView::Next { state, .. } => {
            &&& state.wf()
            &&& state.request == request
            &&& goal(state, machine) == target
        },
        StepView::Done { reply } => {
            if request is Availability {
                reply == ReplyView::Available(target is Some)
            } else if target is None {
                reply == failure_reply(request, not_found())
            } else {
                last matches Some(event) && reply == closing(request, event)
            }
        },
    }
}

/// The step at which a request stands after `events` were observed one after
/// the other, from `step` on. What is observed after the answer is not taken
/// in.
pub open spec fn run(step: StepView, events: Seq<EventView>) -> StepView
    decreases events.len(),
{
    if events.len() == 0 {
        step
    } else {
        match step {
            StepView::Next { state, .. } => run(advance(state, events[0]), events.drop_first()),
            StepView::Done { .. } => step,
        }
    }
}

/// Whether each of `events` is what the step before it waits for observes on
/// `machine`, from `step` on, and none comes after the answer.
pub open spec fn faithful(step: StepView, events: Seq<EventView>, machine: Machine) -> bool
    decreases events.len(),
{
    events.len() > 0 ==> match step {
        StepView::Next { state, .. } => agrees(state, events[0], machine) && faithful(
            advance(state, events[0]),
            events.drop_first(),
            machine,
        ),
        StepView::Done { .. } => false,
    }
}

/// Discovery begins by heading for the first candidate that can be used.
pub proof fn begin_heads_for_first_usable(
    request: RequestView,
    home: Option<PathBuf>,
    machine: Machine,
)
    ensures
        on_course(
            begin(request, home),
            request,
            machine,
            first_usable(candidate_list(home), machine, 0),
            None,
        ),
{
    begin_is_sound(request, home);
}

/// One observation that agrees with the machine keeps a request on course:
/// candidates that cannot be used are passed over, the first that can be used
/// is run, and none is tried after it.
pub proof fn advance_stays_on_course(state: BridgeState, event: EventView, machine: Machine)
    requires
        state.wf(),
        agrees(state, event, machine),
    ensures
        on_course(
            advance(state, event),
            state.request,
            machine,
            goal(state, machine),
            Some(event),
        ),
{
}

/// However far a request has come, observations that agree with the machine
/// keep it on course.
pub proof fn run_stays_on_course(
    step: StepView,
    events: Seq<EventView>,
    request: RequestView,
    machine: Machine,
    target: Option<int>,
    last: Option<EventView>,
)
    requires
        on_course(step, request, machine, target, last),
        faithful(step, events, machine),
    ensures
        on_course(
            run(step, events),
            request,
            machine,
            target,
            if events.len() > 0 {
                Some(events.last())
            } else {
                last
            },
        ),
    decreases events.len(),
{
    if events.len() > 0 {
        match step {
            StepView::Next { state, .. } => {
                let rest = events.drop_first();
                advance_stays_on_course(state, events[0], machine);
                run_stays_on_course(
                    advance(state, events[0]),
                    rest,
                    request,
                    machine,
                    target,
                    Some(events[0]),
                );
                if rest.len() > 0 {
                    assert(rest.last() == events.last());
                }
            },
            StepView::Done { .. } => {},
        }
    }
}

/// A request whose observations agree with the machine runs the first
/// candidate that can be used there, and no other. Where none can be used it
/// runs nothing: an availability check is answered with `false`, and any
/// other request with the message that the tool was not found.
pub proof fn discovery_finds_first_usable(
    request: RequestView,
    home: Option<PathBuf>,
    events: Seq<EventView>,
    machine: Machine,
)
    requires
        faithful(begin(request, home), events, machine),
    ensures
        on_course(
            run(begin(request, home), events),
            request,
            machine,
            first_usable(candidate_list(home), machine, 0),
            if events.len() > 0 {
                Some(events.last())
            } else {
                None
            },
        ),
{
    begin_heads_for_first_usable(request, home, machine);
    run_stays_on_course(
        begin(request, home),
        events,
        request,
        machine,
        first_usable(candidate_list(home), machine, 0),
        None,
    );
}

} // verus!
