use vstd::prelude::*;

use crate::app_loop::{
    counter_loop_model, greeting_loop_model, DrawOutcome, LoopEnd, PollOutcome, StepInput,
};
use crate::counter::{
    counter_after_event, counter_after_key, exit_after_event, exit_after_key,
    recognized_counter_key,
};
use crate::event::{key_press, Event, KeyCode, KeyEvent, KeyEventKind};
use crate::greeting::{greeting_exit_after_event, recognized_greeting_key};

verus! {

/// The counter after dispatching a whole sequence of events, one at a time.
pub open spec fn counter_after_events(counter: u8, events: Seq<Event>) -> u8
    decreases events.len(),
{
    if events.len() == 0 {
        counter
    } else {
        counter_after_events(counter_after_event(counter, events[0]), events.skip(1))
    }
}

/// Law: the counter saturates.  Under any sequence of dispatched events it
/// stays within 0..=255; an increment at 255 yields 255 and a decrement at 0
/// yields 0.
pub proof fn lemma_counter_saturates(counter: u8, events: Seq<Event>)
    ensures
        0 <= counter_after_events(counter, events) <= 255,
        counter_after_key(255, KeyCode::Right) == 255,
        counter_after_key(255, KeyCode::Char('+')) == 255,
        counter_after_key(0, KeyCode::Left) == 0,
        counter_after_key(0, KeyCode::Char('-')) == 0,
{
}

/// Law: dispatching the quit key from any state requests exit, and a loop
/// continued from there performs no further renders or polls and ends
/// cleanly, whatever the terminal would have contributed next.
pub proof fn lemma_quit_key_stops_counter_loop(
    counter: u8,
    exit_requested: bool,
    inputs: Seq<StepInput>,
)
    ensures
        exit_after_event(exit_requested, key_press(KeyCode::Char('q'))),
        ({
            let c = counter_after_event(counter, key_press(KeyCode::Char('q')));
            let e = exit_after_event(exit_requested, key_press(KeyCode::Char('q')));
            let m = counter_loop_model(c, e, inputs);
            &&& m.counter == c
            &&& m.renders == 0
            &&& m.polls == 0
            &&& m.end == LoopEnd::CleanExit
        }),
{
}

/// Law: dispatching any quit key of the greeting application from any state
/// requests exit, and a loop continued from there performs no further
/// renders or polls and ends cleanly.
pub proof fn lemma_quit_key_stops_greeting_loop(
    exit_requested: bool,
    code: KeyCode,
    inputs: Seq<StepInput>,
)
    requires
        recognized_greeting_key(code),
    ensures
        greeting_exit_after_event(exit_requested, key_press(code)),
        ({
            let e = greeting_exit_after_event(exit_requested, key_press(code));
            let m = greeting_loop_model(e, inputs);
            &&& m.renders == 0
            &&& m.polls == 0
            &&& m.end == LoopEnd::CleanExit
        }),
{
}

/// Law: key events that are not of press kind never change the counter or
/// the exit flag, in either application.
pub proof fn lemma_non_press_is_ignored(counter: u8, exit_requested: bool, key: KeyEvent)
    requires
        key.kind != KeyEventKind::Press,
    ensures
        counter_after_event(counter, Event::Key(key)) == counter,
        exit_after_event(exit_requested, Event::Key(key)) == exit_requested,
        greeting_exit_after_event(exit_requested, Event::Key(key)) == exit_requested,
{
}

/// Law: a key code the counter application does not recognise leaves both
/// the counter and the exit flag unchanged, and the loop goes on: after a
/// successful render and a poll that delivers such a key press, the rest of
/// the run is exactly the run from the unchanged state on the remaining
/// script, with one more render and one more poll in the trace.
pub proof fn lemma_unrecognized_key_continues_counter_loop(
    counter: u8,
    exit_requested: bool,
    code: KeyCode,
    inputs: Seq<StepInput>,
)
    requires
        !recognized_counter_key(code),
        !exit_requested,
        inputs.len() > 0,
        inputs[0] == (StepInput {
            draw: DrawOutcome::Drawn,
            poll: PollOutcome::Received(key_press(code)),
        }),
    ensures
        counter_after_key(counter, code) == counter,
        exit_after_key(exit_requested, code) == exit_requested,
        ({
            let m = counter_loop_model(counter, exit_requested, inputs);
            let rest = counter_loop_model(counter, exit_requested, inputs.skip(1));
            &&& m.counter == rest.counter
            &&& m.exit_requested == rest.exit_requested
            &&& m.renders == rest.renders + 1
            &&& m.polls == rest.polls + 1
            &&& m.end == rest.end
        }),
{
}

/// Law: a key code the greeting application does not recognise leaves the
/// exit flag unchanged and the loop goes on in the same way.
pub proof fn lemma_unrecognized_key_continues_greeting_loop(
    exit_requested: bool,
    code: KeyCode,
    inputs: Seq<StepInput>,
)
    requires
        !recognized_greeting_key(code),
        !exit_requested,
        inputs.len() > 0,
        inputs[0] == (StepInput {
            draw: DrawOutcome::Drawn,
            poll: PollOutcome::Received(key_press(code)),
        }),
    ensures
        ({
            let m = greeting_loop_model(exit_requested, inputs);
            let rest = greeting_loop_model(exit_requested, inputs.skip(1));
            &&& m.exit_requested == rest.exit_requested
            &&& m.renders == rest.renders + 1
            &&& m.polls == rest.polls + 1
            &&& m.end == rest.end
        }),
{
}

/// Law: the exit flag is monotonic.  Once exit has been requested, no event
/// resets it, in either application.
pub proof fn lemma_exit_is_monotonic(event: Event)
    ensures
        exit_after_event(true, event),
        greeting_exit_after_event(true, event),
{
}

} // verus!
