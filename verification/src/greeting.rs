use vstd::prelude::*;

use crate::event::{Event, KeyCode, KeyEvent, KeyEventKind};

verus! {

/// The state of the greeting application: nothing but the exit flag.  The
/// flag starts out false and, once set by a quit key, is never reset.
#[derive(Debug)]
pub struct Greeting {
    exit_requested: bool,
}

/// The exit flag after dispatching one key code: `q`, `Q` and the escape key
/// request exit, nothing else does, and a flag already set stays set.
pub open spec fn greeting_exit_after_key(exit_requested: bool, code: KeyCode) -> bool {
    ||| exit_requested
    ||| code == KeyCode::Char('q')
    ||| code == KeyCode::Char('Q')
    ||| code == KeyCode::Esc
}

/// The exit flag after one input event: only a key event of press kind is
/// dispatched; repeats, releases and non-key events change nothing.
pub open spec fn greeting_exit_after_event(exit_requested: bool, event: Event) -> bool {
    match event {
        Event::Key(k) => if k.kind == KeyEventKind::Press {
            greeting_exit_after_key(exit_requested, k.code)
        } else {
            exit_requested
        },
        Event::Other => exit_requested,
    }
}

/// The key codes that the greeting application recognises.
pub open spec fn recognized_greeting_key(code: KeyCode) -> bool {
    ||| code == KeyCode::Char('q')
    ||| code == KeyCode::Char('Q')
    ||| code == KeyCode::Esc
}

impl Greeting {
    /// Whether a quit key has been dispatched.
    pub closed spec fn spec_exit_requested(&self) -> bool {
        self.exit_requested
    }

    /// Whether the application has been asked to exit.
    pub fn exit_requested(&self) -> (e: bool)
        ensures
            e == self.spec_exit_requested(),
    {
        self.exit_requested
    }

    /// Request exit.
    pub fn exit(&mut self)
        ensures
            final(self).spec_exit_requested(),
    {
        self.exit_requested = true;
    }

    /// Dispatch one key code: a quit key requests exit, anything else is a
    /// no-op.
    pub fn handle_key_event(&mut self, key_event: KeyEvent)
        ensures
            final(self).spec_exit_requested() == greeting_exit_after_key(
                old(self).spec_exit_requested(),
                key_event.code,
            ),
    {
        match key_event.code {
            KeyCode::Char('q') | KeyCode::Char('Q') | KeyCode::Esc => self.exit(),
            _ => {},
        }
    }

    /// Dispatch one input event: a key event of press kind is handled, every
    /// other event is ignored.
    pub fn handle_event(&mut self, event: Event)
        ensures
            final(self).spec_exit_requested() == greeting_exit_after_event(
                old(self).spec_exit_requested(),
                event,
            ),
    {
        match event {
            Event::Key(key_event) => {
                if key_event.kind == KeyEventKind::Press {
                    self.handle_key_event(key_event);
                }
            },
            Event::Other => {},
        }
    }
}

impl Default for Greeting {
    /// A fresh greeting application: exit not requested.
    fn default() -> (app: Greeting)
        ensures
            !app.spec_exit_requested(),
    {
        Greeting { exit_requested: false }
    }
}

} // verus!
