//! Coloured text: what a screen is made of before it is drawn.

use vstd::prelude::*;

verus! {

/// A colour: one of the palette, or one given by its parts.
#[derive(Clone, Copy, Debug, PartialEq, Eq, Structural)]
pub enum Color {
    Background,
    Accent,
    Success,
    Error,
    Warning,
    Info,
    Text,
    Dim,
    Rgb(u8, u8, u8),
}

/// The red, green and blue parts of a colour.
pub open spec fn color_parts(color: Color) -> (u8, u8, u8) {
    match color {
        Color::Background => (10, 10, 26),
        Color::Accent => (123, 104, 238),
        Color::Success => (74, 222, 128),
        Color::Error => (248, 113, 113),
        Color::Warning => (251, 191, 36),
        Color::Info => (0, 229, 255),
        Color::Text => (224, 224, 224),
        Color::Dim => (102, 102, 102),
        Color::Rgb(r, g, b) => (r, g, b),
    }
}

impl Color {
    /// The red, green and blue parts of a colour.
    pub fn parts(self) -> (r: (u8, u8, u8))
        ensures
            r == color_parts(self),
    {
        match self {
            Color::Background => (10, 10, 26),
            Color::Accent => (123, 104, 238),
            Color::Success => (74, 222, 128),
            Color::Error => (248, 113, 113),
            Color::Warning => (251, 191, 36),
            Color::Info => (0, 229, 255),
            Color::Text => (224, 224, 224),
            Color::Dim => (102, 102, 102),
            Color::Rgb(r, g, b) => (r, g, b),
        }
    }
}

/// How a piece of text is drawn.
#[derive(Clone, Copy, Debug, PartialEq, Eq, Structural)]
pub struct Style {
    pub fg: Option<Color>,
    pub bg: Option<Color>,
    pub bold: bool,
    pub underlined: bool,
}

impl Style {
    /// No colour at all.
    #[verifier::allow_in_spec]
    pub fn plain() -> Style
        returns
            (Style { fg: None, bg: None, bold: false, underlined: false }),
    {
        Style { fg: None, bg: None, bold: false, underlined: false }
    }

    /// Text in a colour.
    #[verifier::allow_in_spec]
    pub fn fg(color: Color) -> Style
        returns
            (Style { fg: Some(color), bg: None, bold: false, underlined: false }),
    {
        Style { fg: Some(color), bg: None, bold: false, underlined: false }
    }

    /// Bold text in a colour.
    #[verifier::allow_in_spec]
    pub fn bold(color: Color) -> Style
        returns
            (Style { fg: Some(color), bg: None, bold: true, underlined: false }),
    {
        Style { fg: Some(color), bg: None, bold: true, underlined: false }
    }

    /// Bold text in a colour on a ground of another.
    #[verifier::allow_in_spec]
    pub fn badge(color: Color, ground: Color) -> Style
        returns
            (Style { fg: Some(color), bg: Some(ground), bold: true, underlined: false }),
    {
        Style { fg: Some(color), bg: Some(ground), bold: true, underlined: false }
    }

    /// Bold and underlined text in a colour.
    #[verifier::allow_in_spec]
    pub fn marked(color: Color) -> Style
        returns
            (Style { fg: Some(color), bg: None, bold: true, underlined: true }),
    {
        Style { fg: Some(color), bg: None, bold: true, underlined: true }
    }

    /// Text in a colour on a ground of another.
    #[verifier::allow_in_spec]
    pub fn on(color: Color, ground: Color) -> Style
        returns
            (Style { fg: Some(color), bg: Some(ground), bold: false, underlined: false }),
    {
        Style { fg: Some(color), bg: Some(ground), bold: false, underlined: false }
    }
}

/// A piece of text in one style.
pub struct Span {
    pub text: String,
    pub style: Style,
}

/// The model of a [`Span`].
pub struct SpanView {
    pub text: Seq<char>,
    pub style: Style,
}

impl View for Span {
    type V = SpanView;

    open spec fn view(&self) -> SpanView {
        SpanView { text: self.text@, style: self.style }
    }
}

/// The model of a span with a text and a style.
pub open spec fn piece(text: Seq<char>, style: Style) -> SpanView {
    SpanView { text, style }
}

/// A line of text.
pub struct Line {
    pub spans: Vec<Span>,
}

impl View for Line {
    type V = Seq<SpanView>;

    open spec fn view(&self) -> Seq<SpanView> {
        self.spans@.map_values(|s: Span| s@)
    }
}

/// The models of the lines of a page.
pub open spec fn page(lines: Seq<Line>) -> Seq<Seq<SpanView>> {
    lines.map_values(|l: Line| l@)
}

/// A line of one piece of text.
pub open spec fn single_line(text: Seq<char>, style: Style) -> Seq<SpanView> {
    seq![piece(text, style)]
}

impl Line {
    /// A line without text.
    pub fn empty() -> (r: Line)
        ensures
            r@ == Seq::<SpanView>::empty(),
    {
        let r = Line { spans: Vec::new() };
        assert(r@ =~= Seq::<SpanView>::empty());
        r
    }

    /// A line of one piece of text.
    pub fn of(text: &str, style: Style) -> (r: Line)
        ensures
            r@ == single_line(text@, style),
    {
        let mut r = Line::empty();
        r.push(text, style);
        assert(r@ =~= single_line(text@, style));
        r
    }

    /// A line of two pieces of text.
    pub fn two(a: &str, first: Style, b: &str, second: Style) -> (r: Line)
        ensures
            r@ == seq![piece(a@, first), piece(b@, second)],
    {
        let mut r = Line::of(a, first);
        r.push(b, second);
        assert(r@ =~= seq![piece(a@, first), piece(b@, second)]);
        r
    }

    /// A line of three pieces of text.
    pub fn three(a: &str, first: Style, b: &str, second: Style, c: &str, third: Style) -> (r: Line)
        ensures
            r@ == seq![piece(a@, first), piece(b@, second), piece(c@, third)],
    {
        let mut r = Line::two(a, first, b, second);
        r.push(c, third);
        assert(r@ =~= seq![piece(a@, first), piece(b@, second), piece(c@, third)]);
        r
    }

    /// Adds a piece of text at the end of the line.
    pub fn push(&mut self, text: &str, style: Style)
        ensures
            final(self)@ == old(self)@.push(piece(text@, style)),
    {
        let ghost before = self.spans@;
        self.spans.push(Span { text: text.to_owned(), style });
        assert(self@ =~= before.map_values(|s: Span| s@).push(piece(text@, style)));
    }
}

/// Adds a line at the end of a page.
pub fn push_line(lines: &mut Vec<Line>, line: Line)
    ensures
        page(final(lines)@) == page(old(lines)@).push(line@),
{
    let ghost before = lines@;
    lines.push(line);
    assert(page(lines@) =~= page(before).push(line@));
}

/// Adds lines at the end of a page.
pub fn append_lines(lines: &mut Vec<Line>, more: Vec<Line>)
    ensures
        page(final(lines)@) == page(old(lines)@) + page(more@),
{
    let ghost before = lines@;
    let ghost added = more@;
    let mut rest = more;
    lines.append(&mut rest);
    assert(page(lines@) =~= page(before) + page(added));
}

/// A page without lines.
pub fn no_lines() -> (r: Vec<Line>)
    ensures
        page(r@) == Seq::<Seq<SpanView>>::empty(),
{
    let r: Vec<Line> = Vec::new();
    assert(page(r@) =~= Seq::<Seq<SpanView>>::empty());
    r
}

// ---------------------------------------------------------------------------
// Panels
// ---------------------------------------------------------------------------

/// How the lines of a panel run.
#[derive(Clone, Copy, Debug, PartialEq, Eq, Structural)]
pub enum Flow {
    /// Cut off at the edge.
    Cut,
    /// Broken at the edge, and scrolled down by a number of rows.
    Wrapped { scroll: u16 },
    /// One item per line.
    List,
}

/// A box with a border, titles on it and lines in it.
pub struct Panel {
    pub title: Line,
    pub footer: Line,
    pub border: Color,
    pub ground: Color,
    /// The style of text that has none of its own.
    pub base: Style,
    pub lines: Vec<Line>,
    pub flow: Flow,
}

/// The model of a [`Panel`].
#[verifier::ext_equal]
pub struct PanelView {
    pub title: Seq<SpanView>,
    pub footer: Seq<SpanView>,
    pub border: Color,
    pub ground: Color,
    pub base: Style,
    pub lines: Seq<Seq<SpanView>>,
    pub flow: Flow,
}

impl View for Panel {
    type V = PanelView;

    open spec fn view(&self) -> PanelView {
        PanelView {
            title: self.title@,
            footer: self.footer@,
            border: self.border,
            ground: self.ground,
            base: self.base,
            lines: page(self.lines@),
            flow: self.flow,
        }
    }
}

/// A panel on the common ground with a title.
pub open spec fn framed(
    title: Seq<SpanView>,
    border: Color,
    lines: Seq<Seq<SpanView>>,
    flow: Flow,
) -> PanelView {
    PanelView {
        title,
        footer: seq![],
        border,
        ground: Color::Background,
        base: Style::plain(),
        lines,
        flow,
    }
}

/// The title of a panel in bold text.
pub open spec fn heading(title: Seq<char>) -> Seq<SpanView> {
    single_line(title, Style::bold(Color::Text))
}

impl Panel {
    /// A panel on the common ground with a title.
    pub fn framed(title: Line, border: Color, lines: Vec<Line>, flow: Flow) -> (r: Panel)
        ensures
            r@ == framed(title@, border, page(lines@), flow),
    {
        Panel {
            title,
            footer: Line::empty(),
            border,
            ground: Color::Background,
            base: Style::plain(),
            lines,
            flow,
        }
    }

    /// A panel on the common ground with a title in bold text.
    pub fn titled(title: &str, border: Color, lines: Vec<Line>, flow: Flow) -> (r: Panel)
        ensures
            r@ == framed(heading(title@), border, page(lines@), flow),
    {
        Panel::framed(Line::of(title, Style::bold(Color::Text)), border, lines, flow)
    }
}

} // verus!
