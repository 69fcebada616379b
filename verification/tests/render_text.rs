use counter_tui::counter::App;
use counter_tui::greeting::Greeting;
use counter_tui::render::{
    decimal_string, greeting_text, instruction_spans, title_span, value_spans, value_string,
    SpanStyle,
};

use ratatui::buffer::Buffer;
use ratatui::layout::Rect;

#[test]
fn decimal_strings_are_exact() {
    assert_eq!(decimal_string(0), "0");
    assert_eq!(decimal_string(9), "9");
    assert_eq!(decimal_string(10), "10");
    assert_eq!(decimal_string(42), "42");
    assert_eq!(decimal_string(99), "99");
    assert_eq!(decimal_string(100), "100");
    assert_eq!(decimal_string(255), "255");
}

#[test]
fn value_strings_are_exact() {
    assert_eq!(value_string(0), "Value: 0");
    assert_eq!(value_string(3), "Value: 3");
    assert_eq!(value_string(255), "Value: 255");
}

#[test]
fn title_is_the_tutorial_title() {
    let title = title_span();
    assert_eq!(title.text, " Counter App Tutorial ");
    assert_eq!(title.style, SpanStyle::Bold);
}

#[test]
fn instructions_list_the_three_bindings() {
    let spans = instruction_spans();
    let joined: String = spans.iter().map(|s| s.text.as_str()).collect();
    assert_eq!(joined, " Decrement <Left> ·  Increment <Right> ·  Quit <Q>");
    assert_eq!(spans.len(), 8);
    assert_eq!(spans[1].text, "<Left>");
    assert_eq!(spans[1].style, SpanStyle::LightBlue);
    assert_eq!(spans[4].text, "<Right>");
    assert_eq!(spans[7].text, "<Q>");
    assert_eq!(spans[7].style, SpanStyle::Blue);
}

#[test]
fn value_spans_carry_the_counter_in_yellow() {
    let spans = value_spans(17);
    assert_eq!(spans.len(), 2);
    assert_eq!(spans[0].text, "Value: ");
    assert_eq!(spans[0].style, SpanStyle::Plain);
    assert_eq!(spans[1].text, "17");
    assert_eq!(spans[1].style, SpanStyle::Yellow);
}

#[test]
fn greeting_text_is_exact() {
    assert_eq!(greeting_text(), "Hello! Press q, Q or Esc to quit.");
}

fn buffer_rows(buf: &Buffer) -> String {
    let width = buf.area.width as usize;
    let mut rows = String::new();
    for (i, cell) in buf.content.iter().enumerate() {
        if i > 0 && i % width == 0 {
            rows.push('\n');
        }
        rows.push_str(cell.symbol());
    }
    rows
}

#[test]
fn counter_frame_paints_title_value_and_bindings() {
    let area = Rect::new(0, 0, 60, 7);
    let mut buf = Buffer::empty(area);
    let app = App::default();
    app.render(area, &mut buf);
    let rows = buffer_rows(&buf);
    assert!(rows.contains(" Counter App Tutorial "));
    assert!(rows.contains("Value: 0"));
    assert!(rows.contains("<Left>"));
    assert!(rows.contains("<Right>"));
    assert!(rows.contains("<Q>"));
}

#[test]
fn rendering_clips_to_a_small_buffer() {
    let buffer_area = Rect::new(0, 0, 10, 2);
    let mut buf = Buffer::empty(buffer_area);
    let app = App::default();
    app.render(Rect::new(0, 0, 40, 5), &mut buf);

    let mut buf = Buffer::empty(buffer_area);
    let greeting = Greeting::default();
    greeting.render(Rect::new(0, 0, 40, 5), &mut buf);
}

#[test]
fn rendering_is_deterministic() {
    let area = Rect::new(0, 0, 40, 6);
    let mut first = Buffer::empty(area);
    let mut second = Buffer::empty(area);
    let mut app = App::default();
    app.increment_counter(42);
    app.render(area, &mut first);
    app.render(area, &mut second);
    assert_eq!(first, second);

    let mut first = Buffer::empty(area);
    let mut second = Buffer::empty(area);
    let greeting = Greeting::default();
    greeting.render(area, &mut first);
    greeting.render(area, &mut second);
    assert_eq!(first, second);
}

#[test]
fn rendering_leaves_cells_outside_the_area_alone() {
    let buffer_area = Rect::new(0, 0, 20, 5);
    let mut buf = Buffer::empty(buffer_area);
    buf[(15, 4)].set_symbol("X");
    let app = App::default();
    app.render(Rect::new(0, 0, 10, 3), &mut buf);
    assert_eq!(buf[(15, 4)].symbol(), "X");
}

#[test]
fn greeting_frame_paints_the_greeting() {
    let area = Rect::new(0, 0, 60, 3);
    let mut buf = Buffer::empty(area);
    let app = Greeting::default();
    app.render(area, &mut buf);
    let rows = buffer_rows(&buf);
    assert!(rows.contains("Hello! Press q, Q or Esc to quit."));
}
