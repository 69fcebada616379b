use counter_tui::app_loop::{run_counter_loop, run_greeting_loop, DrawOutcome, LoopEnd, PollOutcome, StepInput};
use counter_tui::counter::App;
use counter_tui::event::{Event, KeyCode, KeyEvent, KeyEventKind};
use counter_tui::greeting::Greeting;
use counter_tui::render::value_string;
use ratatui::buffer::Buffer;
use ratatui::layout::Rect;

fn press(code: KeyCode) -> StepInput {
    StepInput {
        draw: DrawOutcome::Drawn,
        poll: PollOutcome::Received(Event::Key(KeyEvent { code, kind: KeyEventKind::Press })),
    }
}

#[test]
fn counter_scenario_three_up_five_down_quit() {
    let mut app = App::default();

    let ups = vec![press(KeyCode::Right), press(KeyCode::Right), press(KeyCode::Right)];
    let trace = run_counter_loop(&mut app, &ups);
    assert_eq!(trace.end, LoopEnd::StillRunning);
    assert_eq!(trace.renders, 3);
    assert_eq!(trace.polls, 3);
    assert_eq!(trace.releases, 1);
    assert_eq!(app.counter(), 3);
    assert_eq!(value_string(app.counter()), "Value: 3");
    let area = Rect::new(0, 0, 40, 5);
    let mut buf = Buffer::empty(area);
    app.render(area, &mut buf);
    let shown: String = buf.content.iter().map(|c| c.symbol()).collect();
    assert!(shown.contains("Value: 3"));

    let downs = vec![
        press(KeyCode::Left),
        press(KeyCode::Left),
        press(KeyCode::Left),
        press(KeyCode::Left),
        press(KeyCode::Left),
    ];
    let trace = run_counter_loop(&mut app, &downs);
    assert_eq!(trace.end, LoopEnd::StillRunning);
    assert_eq!(app.counter(), 0);
    assert_eq!(value_string(app.counter()), "Value: 0");

    let quit = vec![press(KeyCode::Char('q'))];
    let trace = run_counter_loop(&mut app, &quit);
    assert_eq!(trace.end, LoopEnd::CleanExit);
    assert_eq!(trace.renders, 1);
    assert_eq!(trace.polls, 1);
    assert_eq!(trace.releases, 1);
    assert!(app.exit_requested());
}

#[test]
fn exited_app_renders_and_polls_no_further() {
    let mut app = App::default();
    app.handle_event(Event::Key(KeyEvent { code: KeyCode::Char('q'), kind: KeyEventKind::Press }));
    assert!(app.exit_requested());

    let inputs = vec![press(KeyCode::Right), press(KeyCode::Right)];
    let trace = run_counter_loop(&mut app, &inputs);
    assert_eq!(trace.end, LoopEnd::CleanExit);
    assert_eq!(trace.renders, 0);
    assert_eq!(trace.polls, 0);
    assert_eq!(trace.releases, 1);
    assert_eq!(app.counter(), 0);
}

#[test]
fn write_failure_on_second_render_releases_once() {
    let mut app = App::default();
    let inputs = vec![
        press(KeyCode::Right),
        StepInput { draw: DrawOutcome::WriteFailed, poll: PollOutcome::ReadFailed },
    ];
    let trace = run_counter_loop(&mut app, &inputs);
    assert_eq!(trace.end, LoopEnd::IoFailure);
    assert_eq!(trace.renders, 2);
    assert_eq!(trace.polls, 1);
    assert_eq!(trace.releases, 1);
    assert_eq!(app.counter(), 1);
}

#[test]
fn read_failure_ends_the_loop_and_releases_once() {
    let mut app = App::default();
    let inputs = vec![StepInput { draw: DrawOutcome::Drawn, poll: PollOutcome::ReadFailed }];
    let trace = run_counter_loop(&mut app, &inputs);
    assert_eq!(trace.end, LoopEnd::IoFailure);
    assert_eq!(trace.renders, 1);
    assert_eq!(trace.polls, 1);
    assert_eq!(trace.releases, 1);
}

#[test]
fn greeting_scenario_unrelated_key_then_escape() {
    let mut app = Greeting::default();

    let unrelated = vec![press(KeyCode::Char('a'))];
    let trace = run_greeting_loop(&mut app, &unrelated);
    assert_eq!(trace.end, LoopEnd::StillRunning);
    assert_eq!(trace.renders, 1);
    assert_eq!(trace.polls, 1);
    assert!(!app.exit_requested());

    let escape = vec![press(KeyCode::Esc)];
    let trace = run_greeting_loop(&mut app, &escape);
    assert_eq!(trace.end, LoopEnd::CleanExit);
    assert_eq!(trace.renders, 1);
    assert_eq!(trace.polls, 1);
    assert_eq!(trace.releases, 1);
    assert!(app.exit_requested());
}

#[test]
fn greeting_quits_on_q_and_uppercase_q() {
    let mut app = Greeting::default();
    let trace = run_greeting_loop(&mut app, &vec![press(KeyCode::Char('q'))]);
    assert_eq!(trace.end, LoopEnd::CleanExit);
    assert!(app.exit_requested());

    let mut app = Greeting::default();
    let trace = run_greeting_loop(&mut app, &vec![press(KeyCode::Char('Q'))]);
    assert_eq!(trace.end, LoopEnd::CleanExit);
    assert!(app.exit_requested());
}

#[test]
fn greeting_release_does_not_quit() {
    let mut app = Greeting::default();
    let inputs = vec![StepInput {
        draw: DrawOutcome::Drawn,
        poll: PollOutcome::Received(Event::Key(KeyEvent {
            code: KeyCode::Esc,
            kind: KeyEventKind::Release,
        })),
    }];
    let trace = run_greeting_loop(&mut app, &inputs);
    assert_eq!(trace.end, LoopEnd::StillRunning);
    assert!(!app.exit_requested());
}

#[test]
fn loop_stops_at_first_quit_in_script() {
    let mut app = App::default();
    let inputs = vec![
        press(KeyCode::Right),
        press(KeyCode::Char('q')),
        press(KeyCode::Right),
        press(KeyCode::Right),
    ];
    let trace = run_counter_loop(&mut app, &inputs);
    assert_eq!(trace.end, LoopEnd::CleanExit);
    assert_eq!(trace.renders, 2);
    assert_eq!(trace.polls, 2);
    assert_eq!(app.counter(), 1);
}
