//! The lifecycle controller's reaction to control-bus events.
//!
//! Once the graph is playing, the controller consumes asynchronous
//! control-bus events until it observes a terminal one: end-of-stream
//! (normal completion) or an error (abnormal completion).  Every other
//! event kind is discarded and the loop goes on.  On the first terminal
//! event the graph is driven back to the `Null` run state — the only
//! teardown path.

use vstd::prelude::*;
use vstd::string::StringExecFns;
use crate::graph::{PipelineGraph, RunState};

verus! {

/// An asynchronous message delivered on the graph's control bus.  Only
/// end-of-stream and errors matter to the controller; everything else is
/// `Other` and is ignored.
pub enum ControlEvent {
    EndOfStream,
    Error { source: String, message: String, debug: String },
    Other,
}

/// How a run ended: normally on end-of-stream, or abnormally on an
/// engine error, keeping the error's origin and detail for the log.
pub enum RunOutcome {
    Completed,
    Failed { source: String, message: String, debug: String },
}

/// A terminal event ends the bus read loop.
pub open spec fn is_terminal(e: ControlEvent) -> bool {
    e is EndOfStream || e is Error
}

/// The outcome the controller derives from one event: `None` for events
/// that are discarded, `Some` for the terminal ones, carrying the error
/// detail through unchanged.
pub open spec fn outcome_matches(e: ControlEvent, r: Option<RunOutcome>) -> bool {
    match e {
        ControlEvent::EndOfStream => r == Some(RunOutcome::Completed),
        ControlEvent::Error { source, message, debug } => r matches Some(
            RunOutcome::Failed { source: s, message: m, debug: d },
        ) && s@ == source@ && m@ == message@ && d@ == debug@,
        ControlEvent::Other => r is None,
    }
}

/// Decides what one control-bus event means: end-of-stream completes the
/// run, an error fails it with its origin and detail, and any other
/// event is discarded.
pub fn handle_event(e: &ControlEvent) -> (r: Option<RunOutcome>)
    ensures
        outcome_matches(*e, r),
        r is Some <==> is_terminal(*e),
{
    match e {
        ControlEvent::EndOfStream => Some(RunOutcome::Completed),
        ControlEvent::Error { source, message, debug } => Some(
            RunOutcome::Failed {
                source: source.clone(),
                message: message.clone(),
                debug: debug.clone(),
            },
        ),
        ControlEvent::Other => None,
    }
}

/// Consumes bus events in order until the first terminal one, then tears
/// the graph down to `Null` and reports how many events were read and
/// how the run ended.  Without a terminal event the loop never stops the
/// graph (on a live bus it would block forever; on a finite record it
/// reads everything and reports no outcome).
#[verifier::loop_isolation(false)]
pub fn drive_to_completion(g: &mut PipelineGraph, events: &Vec<ControlEvent>) -> (r: (
    usize,
    Option<RunOutcome>,
))
    ensures
        r.1 matches Some(outcome) ==> {
            &&& 0 < r.0 <= events@.len()
            &&& is_terminal(events@[r.0 - 1])
            &&& outcome_matches(events@[r.0 - 1], Some(outcome))
            &&& forall|j: int| 0 <= j < r.0 - 1 ==> !is_terminal(events@[j])
            &&& final(g).state == RunState::Null
            &&& final(g).nodes@ == old(g).nodes@
            &&& final(g).links@ == old(g).links@
            &&& final(g).ports@ == old(g).ports@
            &&& final(g).pad_links@ == old(g).pad_links@
        },
        r.1 is None ==> {
            &&& r.0 == events@.len()
            &&& forall|j: int| 0 <= j < events@.len() ==> !is_terminal(events@[j])
            &&& *final(g) == *old(g)
        },
{
    let mut i: usize = 0;
    while i < events.len()
        invariant
            i <= events@.len(),
            forall|j: int| 0 <= j < i ==> !is_terminal(events@[j]),
            *g == *old(g),
        decreases events@.len() - i,
    {
        let e = &events[i];
        match handle_event(e) {
            Some(outcome) => {
                let stop = g.set_state(RunState::Null);
                proof {
                    assert(stop is Ok);
                }
                return (i + 1, Some(outcome));
            },
            None => {},
        }
        i = i + 1;
    }
    (i, None)
}

/// Renders an outcome as the controller's log line.  A failed run's line
/// always names the originating node's path, so the origin of an error
/// is never lost.
impl RunOutcome {
    pub fn describe(&self) -> (r: String)
        ensures
            *self is Completed ==> r@ == "End of stream"@,
            *self matches RunOutcome::Failed { source, message, debug } ==> r@ == "Error from "@
                + source@ + ": "@ + message@ + " ("@ + debug@ + ")"@,
    {
        match self {
            RunOutcome::Completed => "End of stream".to_owned(),
            RunOutcome::Failed { source, message, debug } => {
                let mut r = "Error from ".to_owned();
                r.append(source.as_str());
                r.append(": ");
                r.append(message.as_str());
                r.append(" (");
                r.append(debug.as_str());
                r.append(")");
                r
            },
        }
    }
}

/// One sequence occurs inside another.
pub open spec fn contains_seq(hay: Seq<char>, needle: Seq<char>) -> bool {
    exists|i: int|
        0 <= i && i + needle.len() <= hay.len() && #[trigger] hay.subrange(i, i + needle.len())
            == needle
}

/// Law: the log line of a failed run contains the originating node's
/// path.
pub proof fn lemma_failure_log_names_source(o: RunOutcome, line: Seq<char>)
    requires
        o matches RunOutcome::Failed { source, message, debug } && line == "Error from "@
            + source@ + ": "@ + message@ + " ("@ + debug@ + ")"@,
    ensures
        o matches RunOutcome::Failed { source, .. } ==> contains_seq(line, source@),
{
    reveal_strlit("Error from ");
    reveal_strlit(": ");
    reveal_strlit(" (");
    reveal_strlit(")");
    if let RunOutcome::Failed { source, message, debug } = o {
        let prefix = "Error from "@;
        assert(line.subrange(
            prefix.len() as int,
            prefix.len() + source@.len() as int,
        ) =~= source@);
    }
}

} // verus!
