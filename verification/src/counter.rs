use vstd::prelude::*;

use crate::event::{Event, KeyCode, KeyEvent, KeyEventKind};

verus! {

/// The state of the counter application: a saturating eight-bit counter and
/// the exit flag.  The flag starts out false and, once set by the quit key,
/// is never reset.
#[derive(Debug)]
pub struct App {
    exit_requested: bool,
    counter: u8,
}

/// Addition that clamps at the greatest `u8` value instead of wrapping.
pub open spec fn saturating_add_u8(c: u8, n: u8) -> u8 {
    if c + n > 255 {
        255u8
    } else {
        (c + n) as u8
    }
}

/// Subtraction that clamps at zero instead of wrapping.
pub open spec fn saturating_sub_u8(c: u8, n: u8) -> u8 {
    if c - n < 0 {
        0u8
    } else {
        (c - n) as u8
    }
}

/// The counter after dispatching one recognised-or-not key code:
/// the left arrow and `-` decrement, the right arrow and `+` increment,
/// both saturating; every other code leaves the counter alone.
pub open spec fn counter_after_key(counter: u8, code: KeyCode) -> u8 {
    match code {
        KeyCode::Left | KeyCode::Char('-') => saturating_sub_u8(counter, 1),
        KeyCode::Right | KeyCode::Char('+') => saturating_add_u8(counter, 1),
        _ => counter,
    }
}

/// The exit flag after dispatching one key code: `q` requests exit, nothing
/// else does, and a flag already set stays set.
pub open spec fn exit_after_key(exit_requested: bool, code: KeyCode) -> bool {
    exit_requested || code == KeyCode::Char('q')
}

/// The counter after one input event: only a key event of press kind is
/// dispatched; repeats, releases and non-key events leave the counter alone.
pub open spec fn counter_after_event(counter: u8, event: Event) -> u8 {
    match event {
        Event::Key(k) => if k.kind == KeyEventKind::Press {
            counter_after_key(counter, k.code)
        } else {
            counter
        },
        Event::Other => counter,
    }
}

/// The exit flag after one input event, filtered the same way.
pub open spec fn exit_after_event(exit_requested: bool, event: Event) -> bool {
    match event {
        Event::Key(k) => if k.kind == KeyEventKind::Press {
            exit_after_key(exit_requested, k.code)
        } else {
            exit_requested
        },
        Event::Other => exit_requested,
    }
}

/// The key codes that the counter application recognises.
pub open spec fn recognized_counter_key(code: KeyCode) -> bool {
    ||| code == KeyCode::Char('q')
    ||| code == KeyCode::Char('-')
    ||| code == KeyCode::Char('+')
    ||| code == KeyCode::Left
    ||| code == KeyCode::Right
}

impl App {
    /// The current counter value.
    pub closed spec fn spec_counter(&self) -> u8 {
        self.counter
    }

    /// Whether the quit key has been dispatched.
    pub closed spec fn spec_exit_requested(&self) -> bool {
        self.exit_requested
    }

    /// The current counter value.
    pub fn counter(&self) -> (c: u8)
        ensures
            c == self.spec_counter(),
    {
        self.counter
    }

    /// Whether the application has been asked to exit.
    pub fn exit_requested(&self) -> (e: bool)
        ensures
            e == self.spec_exit_requested(),
    {
        self.exit_requested
    }

    /// Request exit; the counter is untouched.
    pub fn exit(&mut self)
        ensures
            final(self).spec_exit_requested(),
            final(self).spec_counter() == old(self).spec_counter(),
    {
        self.exit_requested = true;
    }

    /// Add `n` to the counter, saturating at the greatest `u8` value.
    pub fn increment_counter(&mut self, n: u8)
        ensures
            final(self).spec_counter() == saturating_add_u8(old(self).spec_counter(), n),
            final(self).spec_exit_requested() == old(self).spec_exit_requested(),
    {
        self.counter = u8::saturating_add(self.counter, n);
    }

    /// Subtract `n` from the counter, saturating at zero.
    pub fn decrement_counter(&mut self, n: u8)
        ensures
            final(self).spec_counter() == saturating_sub_u8(old(self).spec_counter(), n),
            final(self).spec_exit_requested() == old(self).spec_exit_requested(),
    {
        self.counter = u8::saturating_sub(self.counter, n);
    }

    /// Dispatch one key code: quit, decrement, increment, or nothing.
    pub fn handle_key_event(&mut self, key_event: KeyEvent)
        ensures
            final(self).spec_counter() == counter_after_key(
                old(self).spec_counter(),
                key_event.code,
            ),
            final(self).spec_exit_requested() == exit_after_key(
                old(self).spec_exit_requested(),
                key_event.code,
            ),
    {
        match key_event.code {
            KeyCode::Char('q') => self.exit(),
            KeyCode::Left | KeyCode::Char('-') => self.decrement_counter(1),
            KeyCode::Right | KeyCode::Char('+') => self.increment_counter(1),
            _ => {},
        }
    }

    /// Dispatch one input event: a key event of press kind is handled, every
    /// other event is ignored.
    pub fn handle_event(&mut self, event: Event)
        ensures
            final(self).spec_counter() == counter_after_event(old(self).spec_counter(), event),
            final(self).spec_exit_requested() == exit_after_event(
                old(self).spec_exit_requested(),
                event,
            ),
    {
        match event {
            Event::Key(key_event) => {
                if key_event.kind == KeyEventKind::Press {
                    self.handle_key_event(key_event);
                }
            },
            Event::Other => {},
        }
    }
}

impl Default for App {
    /// A fresh application: counter at zero, exit not requested.
    fn default() -> (app: App)
        ensures
            app.spec_counter() == 0,
            !app.spec_exit_requested(),
    {
        App { exit_requested: false, counter: 0 }
    }
}

} // verus!
