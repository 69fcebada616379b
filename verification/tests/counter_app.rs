use counter_tui::counter::App;
use counter_tui::event::{Event, KeyCode, KeyEvent, KeyEventKind};

fn press(code: KeyCode) -> Event {
    Event::Key(KeyEvent { code, kind: KeyEventKind::Press })
}

#[test]
fn default_state_is_zero_and_running() {
    let app = App::default();
    assert_eq!(app.counter(), 0);
    assert!(!app.exit_requested());
}

#[test]
fn right_arrow_increments() {
    let mut app = App::default();
    app.handle_event(press(KeyCode::Right));
    app.handle_event(press(KeyCode::Right));
    app.handle_event(press(KeyCode::Right));
    assert_eq!(app.counter(), 3);
    assert!(!app.exit_requested());
}

#[test]
fn plus_and_minus_keys_count_too() {
    let mut app = App::default();
    app.handle_event(press(KeyCode::Char('+')));
    app.handle_event(press(KeyCode::Char('+')));
    app.handle_event(press(KeyCode::Char('-')));
    assert_eq!(app.counter(), 1);
}

#[test]
fn increment_saturates_at_255() {
    let mut app = App::default();
    app.increment_counter(255);
    assert_eq!(app.counter(), 255);
    app.increment_counter(1);
    assert_eq!(app.counter(), 255);
    app.handle_event(press(KeyCode::Right));
    assert_eq!(app.counter(), 255);
}

#[test]
fn decrement_saturates_at_zero() {
    let mut app = App::default();
    app.handle_event(press(KeyCode::Left));
    assert_eq!(app.counter(), 0);
    app.increment_counter(2);
    app.decrement_counter(5);
    assert_eq!(app.counter(), 0);
}

#[test]
fn quit_key_requests_exit() {
    let mut app = App::default();
    app.handle_event(press(KeyCode::Right));
    app.handle_event(press(KeyCode::Char('q')));
    assert!(app.exit_requested());
    assert_eq!(app.counter(), 1);
}

#[test]
fn exit_method_requests_exit() {
    let mut app = App::default();
    app.exit();
    assert!(app.exit_requested());
    assert_eq!(app.counter(), 0);
}

#[test]
fn release_and_repeat_mutate_nothing() {
    let mut app = App::default();
    app.handle_event(Event::Key(KeyEvent { code: KeyCode::Right, kind: KeyEventKind::Release }));
    app.handle_event(Event::Key(KeyEvent { code: KeyCode::Right, kind: KeyEventKind::Repeat }));
    app.handle_event(Event::Key(KeyEvent {
        code: KeyCode::Char('q'),
        kind: KeyEventKind::Release,
    }));
    assert_eq!(app.counter(), 0);
    assert!(!app.exit_requested());
}

#[test]
fn unrecognized_keys_are_noops() {
    let mut app = App::default();
    app.increment_counter(7);
    app.handle_event(press(KeyCode::Char('a')));
    app.handle_event(press(KeyCode::Char('Q')));
    app.handle_event(press(KeyCode::Esc));
    app.handle_event(press(KeyCode::Other));
    app.handle_event(Event::Other);
    assert_eq!(app.counter(), 7);
    assert!(!app.exit_requested());
}
