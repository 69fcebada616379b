use vstd::prelude::*;

use crate::counter::{counter_after_event, exit_after_event, App};
use crate::event::{Event, KeyCode, KeyEventKind};
use crate::greeting::{greeting_exit_after_event, Greeting};

verus! {

/// What one attempt to submit a frame to the terminal did: either the frame
/// was flushed, or the underlying write failed.
#[derive(Clone, Copy, Debug, PartialEq, Eq, Structural)]
pub enum DrawOutcome {
    Drawn,
    WriteFailed,
}

/// What one blocking poll for input did: either an event arrived, or the
/// underlying read failed.
#[derive(Clone, Copy, Debug, PartialEq, Eq, Structural)]
pub enum PollOutcome {
    Received(Event),
    ReadFailed,
}

/// Everything the terminal contributes to one loop iteration: the outcome of
/// the render and, if the render succeeded, the outcome of the poll.
#[derive(Clone, Copy, Debug, PartialEq, Eq, Structural)]
pub struct StepInput {
    pub draw: DrawOutcome,
    pub poll: PollOutcome,
}

/// How a run of the application loop ended.  `StillRunning` means the given
/// terminal outcomes were used up while the loop would have kept going: the
/// real loop would now be blocked waiting for the next event.
#[derive(Clone, Copy, Debug, PartialEq, Eq, Structural)]
pub enum LoopEnd {
    CleanExit,
    IoFailure,
    StillRunning,
}

/// The observable trace of one run of the application loop: how many renders
/// were attempted, how many polls were made, how often the exclusive terminal
/// claim was released, and how the run ended.
#[derive(Clone, Copy, Debug, PartialEq, Eq, Structural)]
pub struct LoopTrace {
    pub renders: usize,
    pub polls: usize,
    pub releases: usize,
    pub end: LoopEnd,
}

/// The trace of the counter loop as the model sees it, together with the
/// final application state.
pub struct LoopModel {
    pub counter: u8,
    pub exit_requested: bool,
    pub renders: nat,
    pub polls: nat,
    pub end: LoopEnd,
}

/// The counter application loop as a function of the terminal's contribution:
/// while exit has not been requested, render, then poll, then dispatch the
/// event; an I/O failure ends the run at once.  Renders count attempts, so a
/// failed render is counted before the run ends.
pub open spec fn counter_loop_model(
    counter: u8,
    exit_requested: bool,
    inputs: Seq<StepInput>,
) -> LoopModel
    decreases inputs.len(),
{
    if exit_requested {
        LoopModel { counter, exit_requested, renders: 0, polls: 0, end: LoopEnd::CleanExit }
    } else if inputs.len() == 0 {
        LoopModel { counter, exit_requested, renders: 0, polls: 0, end: LoopEnd::StillRunning }
    } else if inputs[0].draw == DrawOutcome::WriteFailed {
        LoopModel { counter, exit_requested, renders: 1, polls: 0, end: LoopEnd::IoFailure }
    } else {
        match inputs[0].poll {
            PollOutcome::ReadFailed => LoopModel {
                counter,
                exit_requested,
                renders: 1,
                polls: 1,
                end: LoopEnd::IoFailure,
            },
            PollOutcome::Received(event) => {
                let rest = counter_loop_model(
                    counter_after_event(counter, event),
                    exit_after_event(exit_requested, event),
                    inputs.skip(1),
                );
                LoopModel {
                    counter: rest.counter,
                    exit_requested: rest.exit_requested,
                    renders: rest.renders + 1,
                    polls: rest.polls + 1,
                    end: rest.end,
                }
            },
        }
    }
}

/// Run the counter application loop against a script of terminal outcomes.
///
/// This is the loop itself, with the two terminal primitives replaced by
/// their scripted outcomes: each iteration consumes one render outcome and,
/// if the render succeeded, one poll outcome.  The trace always records
/// exactly one release of the terminal claim: the claim is scoped, so it is
/// given back exactly once on every path, clean exit, I/O failure or not.
pub fn run_counter_loop(app: &mut App, inputs: &Vec<StepInput>) -> (trace: LoopTrace)
    ensures
        ({
            let m = counter_loop_model(
                old(app).spec_counter(),
                old(app).spec_exit_requested(),
                inputs@,
            );
            &&& final(app).spec_counter() == m.counter
            &&& final(app).spec_exit_requested() == m.exit_requested
            &&& trace.renders == m.renders
            &&& trace.polls == m.polls
            &&& trace.end == m.end
            &&& trace.releases == 1
        }),
{
    let ghost m = counter_loop_model(
        old(app).spec_counter(),
        old(app).spec_exit_requested(),
        inputs@,
    );
    let mut renders: usize = 0;
    let mut polls: usize = 0;
    let mut i: usize = 0;
    proof {
        assert(inputs@.skip(0) =~= inputs@);
    }
    loop
        invariant
            i <= inputs@.len(),
            renders == i,
            polls == i,
            ({
                let rest = counter_loop_model(
                    app.spec_counter(),
                    app.spec_exit_requested(),
                    inputs@.skip(i as int),
                );
                &&& m.counter == rest.counter
                &&& m.exit_requested == rest.exit_requested
                &&& m.renders == i + rest.renders
                &&& m.polls == i + rest.polls
                &&& m.end == rest.end
            }),
            m == counter_loop_model(
                old(app).spec_counter(),
                old(app).spec_exit_requested(),
                inputs@,
            ),
        decreases inputs@.len() - i,
    {
        if app.exit_requested() {
            return LoopTrace { renders, polls, releases: 1, end: LoopEnd::CleanExit };
        }
        if i == inputs.len() {
            return LoopTrace { renders, polls, releases: 1, end: LoopEnd::StillRunning };
        }
        proof {
            assert(inputs@.skip(i as int)[0] == inputs@[i as int]);
        }
        let input = inputs[i];
        renders = renders + 1;
        match input.draw {
            DrawOutcome::WriteFailed => {
                return LoopTrace { renders, polls, releases: 1, end: LoopEnd::IoFailure };
            },
            DrawOutcome::Drawn => {},
        }
        polls = polls + 1;
        match input.poll {
            PollOutcome::ReadFailed => {
                return LoopTrace { renders, polls, releases: 1, end: LoopEnd::IoFailure };
            },
            PollOutcome::Received(event) => {
                app.handle_event(event);
            },
        }
        proof {
            assert(inputs@.skip(i as int).skip(1) =~= inputs@.skip(i as int + 1));
        }
        i = i + 1;
    }
}

/// The trace of the greeting loop as the model sees it, together with the
/// final application state.
pub struct GreetingLoopModel {
    pub exit_requested: bool,
    pub renders: nat,
    pub polls: nat,
    pub end: LoopEnd,
}

/// The greeting application loop as a function of the terminal's
/// contribution; the same shape as the counter loop, over a state that is
/// nothing but the exit flag.
pub open spec fn greeting_loop_model(exit_requested: bool, inputs: Seq<StepInput>) -> GreetingLoopModel
    decreases inputs.len(),
{
    if exit_requested {
        GreetingLoopModel { exit_requested, renders: 0, polls: 0, end: LoopEnd::CleanExit }
    } else if inputs.len() == 0 {
        GreetingLoopModel { exit_requested, renders: 0, polls: 0, end: LoopEnd::StillRunning }
    } else if inputs[0].draw == DrawOutcome::WriteFailed {
        GreetingLoopModel { exit_requested, renders: 1, polls: 0, end: LoopEnd::IoFailure }
    } else {
        match inputs[0].poll {
            PollOutcome::ReadFailed => GreetingLoopModel {
                exit_requested,
                renders: 1,
                polls: 1,
                end: LoopEnd::IoFailure,
            },
            PollOutcome::Received(event) => {
                let rest = greeting_loop_model(
                    greeting_exit_after_event(exit_requested, event),
                    inputs.skip(1),
                );
                GreetingLoopModel {
                    exit_requested: rest.exit_requested,
                    renders: rest.renders + 1,
                    polls: rest.polls + 1,
                    end: rest.end,
                }
            },
        }
    }
}

/// Run the greeting application loop against a script of terminal outcomes;
/// see `run_counter_loop`.  The trace records exactly one release of the
/// terminal claim on every path.
pub fn run_greeting_loop(app: &mut Greeting, inputs: &Vec<StepInput>) -> (trace: LoopTrace)
    ensures
        ({
            let m = greeting_loop_model(old(app).spec_exit_requested(), inputs@);
            &&& final(app).spec_exit_requested() == m.exit_requested
            &&& trace.renders == m.renders
            &&& trace.polls == m.polls
            &&& trace.end == m.end
            &&& trace.releases == 1
        }),
{
    let ghost m = greeting_loop_model(old(app).spec_exit_requested(), inputs@);
    let mut renders: usize = 0;
    let mut polls: usize = 0;
    let mut i: usize = 0;
    proof {
        assert(inputs@.skip(0) =~= inputs@);
    }
    loop
        invariant
            i <= inputs@.len(),
            renders == i,
            polls == i,
            ({
                let rest = greeting_loop_model(
                    app.spec_exit_requested(),
                    inputs@.skip(i as int),
                );
                &&& m.exit_requested == rest.exit_requested
                &&& m.renders == i + rest.renders
                &&& m.polls == i + rest.polls
                &&& m.end == rest.end
            }),
            m == greeting_loop_model(old(app).spec_exit_requested(), inputs@),
        decreases inputs@.len() - i,
    {
        if app.exit_requested() {
            return LoopTrace { renders, polls, releases: 1, end: LoopEnd::CleanExit };
        }
        if i == inputs.len() {
            return LoopTrace { renders, polls, releases: 1, end: LoopEnd::StillRunning };
        }
        proof {
            assert(inputs@.skip(i as int)[0] == inputs@[i as int]);
        }
        let input = inputs[i];
        renders = renders + 1;
        match input.draw {
            DrawOutcome::WriteFailed => {
                return LoopTrace { renders, polls, releases: 1, end: LoopEnd::IoFailure };
            },
            DrawOutcome::Drawn => {},
        }
        polls = polls + 1;
        match input.poll {
            PollOutcome::ReadFailed => {
                return LoopTrace { renders, polls, releases: 1, end: LoopEnd::IoFailure };
            },
            PollOutcome::Received(event) => {
                app.handle_event(event);
            },
        }
        proof {
            assert(inputs@.skip(i as int).skip(1) =~= inputs@.skip(i as int + 1));
        }
        i = i + 1;
    }
}

} // verus!
