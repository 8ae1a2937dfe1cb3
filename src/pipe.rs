//! The decisions of the loop that drains a running child's two output streams
//! while waiting for it to exit.
//!
//! The driver reads whichever of standard output, standard error and the
//! child's exit comes first, hands it to [`step`] as an event, and performs the
//! action it gets back. A stream that is absent, or has reached its end, is
//! never read again: the driver treats it as a source that never yields. The
//! outcome is reported only once the child has exited and both streams have
//! ended, so every line the child wrote is logged before it.
use vstd::prelude::*;

use crate::classify::{classify_line, line_errored, line_severity, line_text, ClassifiedLine, Origin};
use crate::cmd::{exit_outcome, exit_result, CommandError};

verus! {

/// What the driver knows of a running command.
#[derive(Debug, Clone, Copy)]
pub struct RunState {
    pub stdout_open: bool,
    pub stderr_open: bool,
    /// The exit code, once the child has exited (`None` inside when the
    /// platform could not report it).
    pub exit: Option<Option<i32>>,
    /// A line has opened a Java exception report. This is recorded only: the
    /// outcome still goes by the exit code alone.
    pub errored: bool,
}

/// One thing that happened to a running command.
#[derive(Debug)]
pub enum RunEvent {
    Line(Origin, String),
    /// The stream has reached its end.
    Closed(Origin),
    Exited(Option<i32>),
    /// Reading a stream, or waiting for the child, failed.
    Failed(std::io::Error),
}

/// What the driver does next.
#[derive(Debug)]
pub enum RunAction {
    /// Log the line at its severity, then wait for the next event.
    Log(Origin, ClassifiedLine),
    Wait,
    /// Stop, and report this outcome.
    Finish(Result<(), CommandError>),
}

impl RunState {
    pub open spec fn is_open(self, o: Origin) -> bool {
        match o {
            Origin::Stdout => self.stdout_open,
            Origin::Stderr => self.stderr_open,
        }
    }

    /// The child has exited and both of its streams have ended.
    pub open spec fn drained(self) -> bool {
        self.exit is Some && !self.stdout_open && !self.stderr_open
    }

    pub open spec fn closing(self, o: Origin) -> RunState {
        match o {
            Origin::Stdout => RunState { stdout_open: false, ..self },
            Origin::Stderr => RunState { stderr_open: false, ..self },
        }
    }

    /// The state right after spawning: a stream that was not captured counts
    /// as ended.
    pub fn new(stdout_present: bool, stderr_present: bool) -> (r: RunState)
        ensures
            r.stdout_open == stdout_present,
            r.stderr_open == stderr_present,
            r.exit is None,
            !r.errored,
    {
        RunState { stdout_open: stdout_present, stderr_open: stderr_present, exit: None, errored: false }
    }
}

/// The next state after `event`, whatever the action.
pub open spec fn next_state(state: RunState, event: RunEvent) -> RunState {
    match event {
        RunEvent::Line(_, text) => RunState { errored: state.errored || line_errored(text@), ..state },
        RunEvent::Closed(o) => state.closing(o),
        RunEvent::Exited(code) => RunState { exit: Some(code), ..state },
        RunEvent::Failed(_) => state,
    }
}

/// Whether the step that takes `state` to `next_state(state, event)` stops
/// the loop.
pub open spec fn finishes(state: RunState, event: RunEvent) -> bool {
    match event {
        RunEvent::Line(_, _) => false,
        RunEvent::Failed(_) => true,
        _ => next_state(state, event).drained(),
    }
}

/// Answers one event: a line is classified and logged; an end of stream or the
/// exit is recorded, and once the child has exited with both streams ended the
/// exit code decides the outcome; a failure ends the run with `IO`.
pub fn step(state: RunState, event: RunEvent) -> (r: (RunState, RunAction))
    ensures
        r.0 == next_state(state, event),
        r.1 is Finish <==> finishes(state, event),
        match event {
            RunEvent::Line(o, text) => match r.1 {
                RunAction::Log(p, line) => {
                    &&& p == o
                    &&& line.severity == line_severity(text@)
                    &&& line.text@ == line_text(text@)
                    &&& line.errored == line_errored(text@)
                },
                _ => false,
            },
            RunEvent::Failed(e) => r.1 == RunAction::Finish(Err(CommandError::IO(e))),
            _ => match r.1 {
                RunAction::Finish(outcome) => outcome == exit_result(r.0.exit->0),
                RunAction::Wait => true,
                _ => false,
            },
        },
{
    match event {
        RunEvent::Line(o, text) => {
            let line = classify_line(text.as_str());
            let next = RunState { errored: state.errored || line.errored, ..state };
            (next, RunAction::Log(o, line))
        },
        RunEvent::Failed(e) => (state, RunAction::Finish(Err(CommandError::IO(e)))),
        RunEvent::Closed(o) => {
            let next = match o {
                Origin::Stdout => RunState { stdout_open: false, ..state },
                Origin::Stderr => RunState { stderr_open: false, ..state },
            };
            settle(next)
        },
        RunEvent::Exited(code) => settle(RunState { exit: Some(code), ..state }),
    }
}

/// Finishes with the exit code's outcome once `state` is drained; waits
/// otherwise.
fn settle(state: RunState) -> (r: (RunState, RunAction))
    ensures
        r.0 == state,
        state.drained() ==> r.1 == RunAction::Finish(exit_result(state.exit->0)),
        !state.drained() ==> r.1 is Wait,
{
    match state.exit {
        Some(code) => if !state.stdout_open && !state.stderr_open {
            (state, RunAction::Finish(exit_outcome(code)))
        } else {
            (state, RunAction::Wait)
        },
        None => (state, RunAction::Wait),
    }
}


/// The state reached from `start` by answering `events` in order.
pub open spec fn replay(start: RunState, events: Seq<RunEvent>) -> RunState
    decreases events.len(),
{
    if events.len() == 0 {
        start
    } else {
        next_state(replay(start, events.drop_last()), events.last())
    }
}

pub open spec fn closes(event: RunEvent, o: Origin) -> bool {
    match event {
        RunEvent::Closed(p) => p == o,
        _ => false,
    }
}

proof fn lemma_closed_seen(start: RunState, events: Seq<RunEvent>, o: Origin)
    requires
        start.is_open(o),
        !replay(start, events).is_open(o),
    ensures
        exists|i: int| 0 <= i < events.len() && closes(#[trigger] events[i], o),
    decreases events.len(),
{
    let prev = replay(start, events.drop_last());
    if prev.is_open(o) {
        assert(closes(events[events.len() - 1], o));
    } else {
        lemma_closed_seen(start, events.drop_last(), o);
        let i = choose|i: int| 0 <= i < events.len() - 1 && closes(#[trigger] events.drop_last()[i], o);
        assert(events[i] == events.drop_last()[i]);
    }
}

proof fn lemma_exit_seen(start: RunState, events: Seq<RunEvent>)
    requires
        start.exit is None,
        replay(start, events).exit is Some,
    ensures
        exists|i: int| 0 <= i < events.len() && #[trigger] events[i] is Exited,
    decreases events.len(),
{
    let prev = replay(start, events.drop_last());
    if prev.exit is None {
        assert(events[events.len() - 1] is Exited);
    } else {
        lemma_exit_seen(start, events.drop_last());
        let i = choose|i: int| 0 <= i < events.len() - 1 && #[trigger] events.drop_last()[i] is Exited;
        assert(events[i] == events.drop_last()[i]);
    }
}

/// A run finishes with the exit code's outcome only after the child has
/// exited and each captured stream has reached its end: when answering `last`
/// after `events` finishes a run that started with the given streams, and
/// `last` is no failure, the events hold the exit and the end of each
/// captured stream, so no line of either stream was left unread.
pub proof fn lemma_outcome_after_drain(
    stdout_present: bool,
    stderr_present: bool,
    events: Seq<RunEvent>,
    last: RunEvent,
)
    requires
        finishes(
            replay(
                RunState { stdout_open: stdout_present, stderr_open: stderr_present, exit: None, errored: false },
                events,
            ),
            last,
        ),
        !(last is Failed),
    ensures
        exists|i: int| 0 <= i < events.push(last).len() && #[trigger] events.push(last)[i] is Exited,
        stdout_present ==> exists|i: int|
            0 <= i < events.push(last).len() && closes(#[trigger] events.push(last)[i], Origin::Stdout),
        stderr_present ==> exists|i: int|
            0 <= i < events.push(last).len() && closes(#[trigger] events.push(last)[i], Origin::Stderr),
{
    let start = RunState {
        stdout_open: stdout_present,
        stderr_open: stderr_present,
        exit: None,
        errored: false,
    };
    let all = events.push(last);
    assert(all.drop_last() =~= events);
    assert(replay(start, all).drained());
    lemma_exit_seen(start, all);
    if stdout_present {
        lemma_closed_seen(start, all, Origin::Stdout);
    }
    if stderr_present {
        lemma_closed_seen(start, all, Origin::Stderr);
    }
}

} // verus!
