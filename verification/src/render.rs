use vstd::prelude::*;

use crate::counter::App;
use crate::greeting::Greeting;
use ratatui::style::{Color, Modifier, Style};
use ratatui::text::Span;

verus! {

/// The styles the two applications put on their text, as plain data.
#[derive(Clone, Copy, Debug, PartialEq, Eq, Structural)]
pub enum SpanStyle {
    Plain,
    Bold,
    LightBlue,
    Blue,
    Dim,
    Yellow,
}

/// One run of styled text, as plain data: what the applications decide to
/// show, before any terminal library touches it.
#[derive(Clone, Debug)]
pub struct TextSpan {
    pub text: String,
    pub style: SpanStyle,
}

/// The character for one decimal digit.
pub open spec fn digit_char(d: int) -> char {
    if d == 0 {
        '0'
    } else if d == 1 {
        '1'
    } else if d == 2 {
        '2'
    } else if d == 3 {
        '3'
    } else if d == 4 {
        '4'
    } else if d == 5 {
        '5'
    } else if d == 6 {
        '6'
    } else if d == 7 {
        '7'
    } else if d == 8 {
        '8'
    } else {
        '9'
    }
}

/// The decimal rendering, without leading zeroes, of a counter value; a
/// counter fits in three digits.
pub open spec fn decimal_digits(n: int) -> Seq<char> {
    if n < 10 {
        seq![digit_char(n)]
    } else if n < 100 {
        seq![digit_char(n / 10), digit_char(n % 10)]
    } else {
        seq![digit_char(n / 100), digit_char((n / 10) % 10), digit_char(n % 10)]
    }
}

/// The text of the body line of the counter frame.
pub open spec fn value_text(counter: u8) -> Seq<char> {
    "Value: "@ + decimal_digits(counter as int)
}

/// One decimal digit as a string slice.
fn digit_str(d: u8) -> (r: &'static str)
    requires
        d < 10,
    ensures
        r@ == seq![digit_char(d as int)],
{
    proof {
        reveal_strlit("0");
        reveal_strlit("1");
        reveal_strlit("2");
        reveal_strlit("3");
        reveal_strlit("4");
        reveal_strlit("5");
        reveal_strlit("6");
        reveal_strlit("7");
        reveal_strlit("8");
        reveal_strlit("9");
    }
    let r: &'static str = match d {
        0 => "0",
        1 => "1",
        2 => "2",
        3 => "3",
        4 => "4",
        5 => "5",
        6 => "6",
        7 => "7",
        8 => "8",
        _ => "9",
    };
    proof {
        assert(r@ =~= seq![digit_char(d as int)]);
    }
    r
}

/// The counter value in decimal, without leading zeroes.
pub fn decimal_string(n: u8) -> (s: String)
    ensures
        s@ == decimal_digits(n as int),
{
    let mut s = String::new();
    if n >= 100 {
        s.append(digit_str(n / 100));
    }
    if n >= 10 {
        s.append(digit_str((n / 10) % 10));
    }
    s.append(digit_str(n % 10));
    proof {
        assert(s@ =~= decimal_digits(n as int));
    }
    s
}

/// The body line of the counter frame, exactly `Value: ` followed by the
/// counter in decimal.
pub fn value_string(counter: u8) -> (s: String)
    ensures
        s@ == value_text(counter),
{
    let mut s = "Value: ".to_owned();
    let d = decimal_string(counter);
    s.append(d.as_str());
    s
}

/// The title line of the counter frame: one bold span.
pub fn title_span() -> (s: TextSpan)
    ensures
        s.text@ == " Counter App Tutorial "@,
        s.style == SpanStyle::Bold,
{
    TextSpan { text: " Counter App Tutorial ".to_owned(), style: SpanStyle::Bold }
}

/// The instructions line of the counter frame: the three key bindings,
/// highlighted keys, dim separators.
pub fn instruction_spans() -> (v: Vec<TextSpan>)
    ensures
        v@.len() == 8,
        v@[0].text@ == " Decrement "@ && v@[0].style == SpanStyle::Plain,
        v@[1].text@ == "<Left>"@ && v@[1].style == SpanStyle::LightBlue,
        v@[2].text@ == " · "@ && v@[2].style == SpanStyle::Dim,
        v@[3].text@ == " Increment "@ && v@[3].style == SpanStyle::Plain,
        v@[4].text@ == "<Right>"@ && v@[4].style == SpanStyle::LightBlue,
        v@[5].text@ == " · "@ && v@[5].style == SpanStyle::Dim,
        v@[6].text@ == " Quit "@ && v@[6].style == SpanStyle::Plain,
        v@[7].text@ == "<Q>"@ && v@[7].style == SpanStyle::Blue,
{
    let mut v: Vec<TextSpan> = Vec::new();
    v.push(TextSpan { text: " Decrement ".to_owned(), style: SpanStyle::Plain });
    v.push(TextSpan { text: "<Left>".to_owned(), style: SpanStyle::LightBlue });
    v.push(TextSpan { text: " · ".to_owned(), style: SpanStyle::Dim });
    v.push(TextSpan { text: " Increment ".to_owned(), style: SpanStyle::Plain });
    v.push(TextSpan { text: "<Right>".to_owned(), style: SpanStyle::LightBlue });
    v.push(TextSpan { text: " · ".to_owned(), style: SpanStyle::Dim });
    v.push(TextSpan { text: " Quit ".to_owned(), style: SpanStyle::Plain });
    v.push(TextSpan { text: "<Q>".to_owned(), style: SpanStyle::Blue });
    v
}

/// The body line of the counter frame as spans: a plain label and the
/// counter value in yellow.
pub fn value_spans(counter: u8) -> (v: Vec<TextSpan>)
    ensures
        v@.len() == 2,
        v@[0].text@ == "Value: "@ && v@[0].style == SpanStyle::Plain,
        v@[1].text@ == decimal_digits(counter as int) && v@[1].style == SpanStyle::Yellow,
{
    let mut v: Vec<TextSpan> = Vec::new();
    v.push(TextSpan { text: "Value: ".to_owned(), style: SpanStyle::Plain });
    v.push(TextSpan { text: decimal_string(counter), style: SpanStyle::Yellow });
    v
}

/// The text of the greeting frame.
pub open spec fn greeting_line() -> Seq<char> {
    "Hello! Press q, Q or Esc to quit."@
}

/// The one line of text the greeting application shows.
pub fn greeting_text() -> (s: String)
    ensures
        s@ == greeting_line(),
{
    "Hello! Press q, Q or Esc to quit.".to_owned()
}

/// The number that stands for one of the span styles in the named paint
/// results below; the map is one to one.
pub open spec fn style_code(style: SpanStyle) -> int {
    match style {
        SpanStyle::Plain => 0,
        SpanStyle::Bold => 1,
        SpanStyle::LightBlue => 2,
        SpanStyle::Blue => 3,
        SpanStyle::Dim => 4,
        SpanStyle::Yellow => 5,
    }
}

/// The text and style code of each plain-data span of a line, in order.
pub open spec fn text_span_datas(spans: Seq<TextSpan>) -> Seq<(Seq<char>, int)> {
    spans.map_values(|s: TextSpan| (s.text@, style_code(s.style)))
}

/// The data of the title line of the counter frame.
pub open spec fn title_data() -> Seq<(Seq<char>, int)> {
    seq![(" Counter App Tutorial "@, style_code(SpanStyle::Bold))]
}

/// The data of the instructions line of the counter frame.
pub open spec fn instructions_data() -> Seq<(Seq<char>, int)> {
    seq![
        (" Decrement "@, style_code(SpanStyle::Plain)),
        ("<Left>"@, style_code(SpanStyle::LightBlue)),
        (" · "@, style_code(SpanStyle::Dim)),
        (" Increment "@, style_code(SpanStyle::Plain)),
        ("<Right>"@, style_code(SpanStyle::LightBlue)),
        (" · "@, style_code(SpanStyle::Dim)),
        (" Quit "@, style_code(SpanStyle::Plain)),
        ("<Q>"@, style_code(SpanStyle::Blue)),
    ]
}

/// The data of the body line of the counter frame.
pub open spec fn value_data(counter: u8) -> Seq<(Seq<char>, int)> {
    seq![
        ("Value: "@, style_code(SpanStyle::Plain)),
        (decimal_digits(counter as int), style_code(SpanStyle::Yellow)),
    ]
}

#[verifier::external_type_specification]
pub struct ExRect(ratatui::layout::Rect);

/// Whether the cell at column `x`, row `y` lies inside the rectangle.
pub open spec fn cell_in(area: ratatui::layout::Rect, x: u16, y: u16) -> bool {
    &&& area.x <= x < area.x + area.width
    &&& area.y <= y < area.y + area.height
}

#[verifier::external_type_specification]
#[verifier::external_body]
pub struct ExBuffer(ratatui::buffer::Buffer);

#[verifier::external_type_specification]
#[verifier::external_body]
pub struct ExSpan<'a>(Span<'a>);

/// The symbol in one cell of a ratatui buffer.
pub uninterp spec fn buffer_cell(buf: ratatui::buffer::Buffer, x: u16, y: u16) -> Seq<char>;

/// The text a ratatui span carries.
pub uninterp spec fn span_text(span: Span<'static>) -> Seq<char>;

/// The style a ratatui span carries, as a code; the spans built here carry
/// `style_code` of their plain-data style.
pub uninterp spec fn span_style_code(span: Span<'static>) -> int;

/// The text and style code of each ratatui span of a line, in order.
pub open spec fn span_datas(spans: Seq<Span<'static>>) -> Seq<(Seq<char>, int)> {
    spans.map_values(|s: Span<'static>| (span_text(s), span_style_code(s)))
}

/// What ratatui's paint of the bordered counter frame leaves in a buffer: a
/// function of the three lines' data, the target rectangle and the buffer as
/// it was.
pub uninterp spec fn bordered_paint(
    title: Seq<(Seq<char>, int)>,
    instructions: Seq<(Seq<char>, int)>,
    body: Seq<(Seq<char>, int)>,
    area: ratatui::layout::Rect,
    prior: ratatui::buffer::Buffer,
) -> ratatui::buffer::Buffer;

/// What ratatui's paint of the filled greeting frame leaves in a buffer: a
/// function of the text, the target rectangle and the buffer as it was.
pub uninterp spec fn filled_paint(
    text: Seq<char>,
    area: ratatui::layout::Rect,
    prior: ratatui::buffer::Buffer,
) -> ratatui::buffer::Buffer;

/// Relies on ratatui's `Span::styled`, a plain constructor: builds one span
/// carrying exactly the given text, with the colour or modifier that stands
/// for the given style; the result's named text and style code are the
/// given ones.
#[verifier::external_body]
fn styled_span(span: &TextSpan) -> (r: Span<'static>)
    ensures
        span_text(r) == span.text@,
        span_style_code(r) == style_code(span.style),
{
    let style = match span.style {
        SpanStyle::Plain => Style::new(),
        SpanStyle::Bold => Style::new().add_modifier(Modifier::BOLD),
        SpanStyle::LightBlue => Style::new().fg(Color::LightBlue),
        SpanStyle::Blue => Style::new().fg(Color::Blue),
        SpanStyle::Dim => Style::new().add_modifier(Modifier::DIM),
        SpanStyle::Yellow => Style::new().fg(Color::Yellow),
    };
    Span::styled(span.text.clone(), style)
}

/// Relies on ratatui's `Block` and `Paragraph`: paints the body spans as one
/// centered line inside a bordered box with the thick border set, the title
/// spans centered on the top border and the instruction spans centered on
/// the bottom border.  The target is first clipped to the buffer's own area,
/// as ratatui's `Block` clips, so the call cannot index outside the buffer
/// and every cell outside the given rectangle keeps its symbol.  The lines
/// must be short: ratatui sums a centered title's display width in `u16`
/// before any size check, so an absurdly long line would overflow there;
/// the bounds keep every line's width far below that.
#[verifier::external_body]
fn draw_bordered_paragraph(
    title: Vec<Span<'static>>,
    instructions: Vec<Span<'static>>,
    body: Vec<Span<'static>>,
    area: ratatui::layout::Rect,
    buf: &mut ratatui::buffer::Buffer,
)
    requires
        title@.len() <= 16,
        instructions@.len() <= 16,
        body@.len() <= 16,
        forall|i: int| 0 <= i < title@.len() ==> span_text(#[trigger] title@[i]).len() <= 64,
        forall|i: int|
            0 <= i < instructions@.len() ==> span_text(#[trigger] instructions@[i]).len() <= 64,
        forall|i: int| 0 <= i < body@.len() ==> span_text(#[trigger] body@[i]).len() <= 64,
    ensures
        *final(buf) == bordered_paint(
            span_datas(title@),
            span_datas(instructions@),
            span_datas(body@),
            area,
            *old(buf),
        ),
        forall|x: u16, y: u16|
            !cell_in(area, x, y) ==> #[trigger] buffer_cell(*final(buf), x, y) == buffer_cell(
                *old(buf),
                x,
                y,
            ),
{
    let area = area.intersection(buf.area);
    if area.is_empty() {
        return;
    }
    let block = ratatui::widgets::Block::bordered()
        .title(ratatui::text::Line::from(title).centered())
        .title_bottom(ratatui::text::Line::from(instructions).centered())
        .border_set(ratatui::symbols::border::THICK);
    let text = ratatui::text::Text::from(vec![ratatui::text::Line::from(body)]);
    let paragraph = ratatui::widgets::Paragraph::new(text).centered().block(block);
    ratatui::widgets::Widget::render(paragraph, area, buf);
}

/// Relies on ratatui's `Paragraph`: paints the text white on a solid blue
/// background.  The target is first clipped to the buffer's own area, so the
/// call cannot index outside the buffer and every cell outside the given
/// rectangle keeps its symbol.  The text must be short: ratatui accumulates
/// a line's display width in `u16` while composing it, so a text wider than
/// the widest possible area would overflow there; the bound keeps the
/// line's width far below that.
#[verifier::external_body]
fn draw_filled_paragraph(text: String, area: ratatui::layout::Rect, buf: &mut ratatui::buffer::Buffer)
    requires
        text@.len() <= 1024,
    ensures
        *final(buf) == filled_paint(text@, area, *old(buf)),
        forall|x: u16, y: u16|
            !cell_in(area, x, y) ==> #[trigger] buffer_cell(*final(buf), x, y) == buffer_cell(
                *old(buf),
                x,
                y,
            ),
{
    let area = area.intersection(buf.area);
    if area.is_empty() {
        return;
    }
    let style = ratatui::style::Style::new().fg(ratatui::style::Color::White).bg(
        ratatui::style::Color::Blue,
    );
    let paragraph = ratatui::widgets::Paragraph::new(text).style(style);
    ratatui::widgets::Widget::render(paragraph, area, buf);
}

/// Turn the plain-data spans into ratatui spans, one for one, keeping each
/// span's text and style.
fn styled_spans(spans: &Vec<TextSpan>) -> (out: Vec<Span<'static>>)
    ensures
        span_datas(out@) == text_span_datas(spans@),
{
    let mut out: Vec<Span<'static>> = Vec::new();
    let mut i: usize = 0;
    while i < spans.len()
        invariant
            i <= spans@.len(),
            out@.len() == i,
            forall|j: int|
                0 <= j < i ==> span_text(#[trigger] out@[j]) == spans@[j].text@
                    && span_style_code(out@[j]) == style_code(spans@[j].style),
        decreases spans@.len() - i,
    {
        out.push(styled_span(&spans[i]));
        i = i + 1;
    }
    proof {
        assert(span_datas(out@) =~= text_span_datas(spans@));
    }
    out
}

impl App {
    /// Paint the counter frame into the buffer: a bordered box over `area`,
    /// the title centered on its top border, the key bindings centered on
    /// its bottom border, and the `Value:` line centered in the body.  The
    /// buffer afterwards is the named bordered paint of exactly the title,
    /// instruction and value data, so painting the same state into the same
    /// area of equal buffers gives equal buffers; cells outside `area` keep
    /// their symbols.
    pub fn render(&self, area: ratatui::layout::Rect, buf: &mut ratatui::buffer::Buffer)
        ensures
            *final(buf) == bordered_paint(
                title_data(),
                instructions_data(),
                value_data(self.spec_counter()),
                area,
                *old(buf),
            ),
            forall|x: u16, y: u16|
                !cell_in(area, x, y) ==> #[trigger] buffer_cell(*final(buf), x, y) == buffer_cell(
                    *old(buf),
                    x,
                    y,
                ),
    {
        let mut title: Vec<TextSpan> = Vec::new();
        title.push(title_span());
        let instructions = instruction_spans();
        let body = value_spans(self.counter());
        proof {
            assert(text_span_datas(title@) =~= title_data());
            assert(text_span_datas(instructions@) =~= instructions_data());
            assert(text_span_datas(body@) =~= value_data(self.spec_counter()));
        }
        let title_line = styled_spans(&title);
        let instruction_line = styled_spans(&instructions);
        let body_line = styled_spans(&body);
        proof {
            reveal_strlit(" Counter App Tutorial ");
            reveal_strlit(" Decrement ");
            reveal_strlit("<Left>");
            reveal_strlit(" · ");
            reveal_strlit(" Increment ");
            reveal_strlit("<Right>");
            reveal_strlit(" Quit ");
            reveal_strlit("<Q>");
            reveal_strlit("Value: ");
            assert forall|i: int|
                0 <= i < title_line@.len() implies span_text(#[trigger] title_line@[i]).len()
                <= 64 by {
                assert(span_datas(title_line@)[i] == title_data()[i]);
            }
            assert forall|i: int|
                0 <= i < instruction_line@.len() implies span_text(
                #[trigger] instruction_line@[i],
            ).len() <= 64 by {
                assert(span_datas(instruction_line@)[i] == instructions_data()[i]);
            }
            assert forall|i: int|
                0 <= i < body_line@.len() implies span_text(#[trigger] body_line@[i]).len()
                <= 64 by {
                assert(span_datas(body_line@)[i] == value_data(self.spec_counter())[i]);
            }
        }
        draw_bordered_paragraph(title_line, instruction_line, body_line, area, buf);
    }
}

impl Greeting {
    /// Paint the greeting frame into the buffer: the greeting line on a
    /// solid background over `area`, with no border.  The buffer afterwards
    /// is the named filled paint of exactly the greeting text; cells outside
    /// `area` keep their symbols.
    pub fn render(&self, area: ratatui::layout::Rect, buf: &mut ratatui::buffer::Buffer)
        ensures
            *final(buf) == filled_paint(greeting_line(), area, *old(buf)),
            forall|x: u16, y: u16|
                !cell_in(area, x, y) ==> #[trigger] buffer_cell(*final(buf), x, y) == buffer_cell(
                    *old(buf),
                    x,
                    y,
                ),
    {
        let text = greeting_text();
        proof {
            reveal_strlit("Hello! Press q, Q or Esc to quit.");
        }
        draw_filled_paragraph(text, area, buf);
    }
}

} // verus!
