//! The help overlay.

use crate::screen::layout::Area;
use crate::style::{
    append_lines, framed, no_lines, page, piece, push_line, single_line, Color, Flow, Line, Panel,
    PanelView, SpanView, Style,
};
use vstd::prelude::*;

verus! {

// ---------------------------------------------------------------------------
// Kinds of lines
// ---------------------------------------------------------------------------

/// The head of a section.
pub open spec fn section(title: Seq<char>) -> Seq<SpanView> {
    single_line(title, Style::bold(Color::Info))
}

/// A line of explanation.
pub open spec fn remark(text: Seq<char>) -> Seq<SpanView> {
    single_line(text, Style::fg(Color::Dim))
}

/// A name and what it stands for.
pub open spec fn entry(name: Seq<char>, gloss: Seq<char>) -> Seq<SpanView> {
    seq![piece(name, Style::fg(Color::Text)), piece(gloss, Style::fg(Color::Dim))]
}

/// A command, its argument and what it does.
pub open spec fn usage(verb: Seq<char>, argument: Seq<char>, gloss: Seq<char>) -> Seq<SpanView> {
    seq![
        piece(verb, Style::fg(Color::Text)),
        piece(argument, Style::fg(Color::Text)),
        piece(gloss, Style::fg(Color::Dim)),
    ]
}

/// A key and what it does.
pub open spec fn hotkey(key: Seq<char>, gloss: Seq<char>) -> Seq<SpanView> {
    seq![piece(key, Style::bold(Color::Accent)), piece(gloss, Style::fg(Color::Dim))]
}

/// Two keys and what they do.
pub open spec fn hotkeys(first: Seq<char>, second: Seq<char>, gloss: Seq<char>) -> Seq<SpanView> {
    seq![
        piece(first, Style::bold(Color::Accent)),
        piece(" / "@, Style::fg(Color::Dim)),
        piece(second, Style::bold(Color::Accent)),
        piece(gloss, Style::fg(Color::Dim)),
    ]
}

/// The keys that leave the dashboard.
pub open spec fn quit_line() -> Seq<SpanView> {
    seq![
        piece("   q"@, Style::bold(Color::Accent)),
        piece(" / "@, Style::fg(Color::Dim)),
        piece("Esc"@, Style::bold(Color::Accent)),
        piece(" / "@, Style::fg(Color::Dim)),
        piece("Ctrl+C"@, Style::bold(Color::Accent)),
        piece("    Quit (q/Esc only when input is empty)"@, Style::fg(Color::Dim)),
    ]
}

/// Three kinds of subjects, each behind a dot in its colour.
pub open spec fn legend(
    first: Color,
    first_name: Seq<char>,
    second: Color,
    second_name: Seq<char>,
    third: Color,
    third_name: Seq<char>,
) -> Seq<SpanView> {
    seq![
        piece("   \u{25cf}"@, Style::fg(first)),
        piece(first_name, Style::fg(Color::Text)),
        piece("\u{25cf}"@, Style::fg(second)),
        piece(second_name, Style::fg(Color::Text)),
        piece("\u{25cf}"@, Style::fg(third)),
        piece(third_name, Style::fg(Color::Text)),
    ]
}

fn write_section(title: &str) -> (r: Line)
    ensures
        r@ == section(title@),
{
    Line::of(title, Style::bold(Color::Info))
}

fn write_entry(name: &str, gloss: &str) -> (r: Line)
    ensures
        r@ == entry(name@, gloss@),
{
    Line::two(name, Style::fg(Color::Text), gloss, Style::fg(Color::Dim))
}

fn write_usage(verb: &str, argument: &str, gloss: &str) -> (r: Line)
    ensures
        r@ == usage(verb@, argument@, gloss@),
{
    Line::three(
        verb,
        Style::fg(Color::Text),
        argument,
        Style::fg(Color::Text),
        gloss,
        Style::fg(Color::Dim),
    )
}

fn write_hotkey(key: &str, gloss: &str) -> (r: Line)
    ensures
        r@ == hotkey(key@, gloss@),
{
    Line::two(key, Style::bold(Color::Accent), gloss, Style::fg(Color::Dim))
}

fn write_hotkeys(first: &str, second: &str, gloss: &str) -> (r: Line)
    ensures
        r@ == hotkeys(first@, second@, gloss@),
{
    let mut r = Line::three(
        first,
        Style::bold(Color::Accent),
        " / ",
        Style::fg(Color::Dim),
        second,
        Style::bold(Color::Accent),
    );
    r.push(gloss, Style::fg(Color::Dim));
    assert(r@ =~= hotkeys(first@, second@, gloss@));
    r
}

fn write_quit() -> (r: Line)
    ensures
        r@ == quit_line(),
{
    let mut r = write_hotkeys("   q", "Esc", " / ");
    r.push("Ctrl+C", Style::bold(Color::Accent));
    r.push("    Quit (q/Esc only when input is empty)", Style::fg(Color::Dim));
    assert(r@ =~= quit_line());
    r
}

fn write_legend(
    first: Color,
    first_name: &str,
    second: Color,
    second_name: &str,
    third: Color,
    third_name: &str,
) -> (r: Line)
    ensures
        r@ == legend(first, first_name@, second, second_name@, third, third_name@),
{
    let mut r = Line::two("   \u{25cf}", Style::fg(first), first_name, Style::fg(Color::Text));
    r.push("\u{25cf}", Style::fg(second));
    r.push(second_name, Style::fg(Color::Text));
    r.push("\u{25cf}", Style::fg(third));
    r.push(third_name, Style::fg(Color::Text));
    assert(r@ =~= legend(first, first_name@, second, second_name@, third, third_name@));
    r
}

// ---------------------------------------------------------------------------
// Sections
// ---------------------------------------------------------------------------

/// The title of the overlay.
pub open spec fn help_opening() -> Seq<Seq<SpanView>> {
    seq![
        single_line(" Kannaka TUI \u{b7} v0.5.8"@, Style::bold(Color::Accent)),
        seq![],
    ]
}

fn write_opening() -> (r: Vec<Line>)
    ensures
        page(r@) == help_opening(),
{
    let mut r = no_lines();
    push_line(&mut r, Line::of(" Kannaka TUI \u{b7} v0.5.8", Style::bold(Color::Accent)));
    push_line(&mut r, Line::empty());
    assert(page(r@) =~= help_opening());
    r
}

/// The tabs.
pub open spec fn help_tabs() -> Seq<Seq<SpanView>> {
    seq![
        section(" Tabs"@),
        entry("   Memory        "@, "Command history + recent resonant memories"@),
        entry("   Status        "@, "Live \u{3a6} / \u{39e} / order-parameter gauges"@),
        entry(
            "   Bus           "@,
            "Live NATS pulse \u{2014} every QUEEN/KANNAKA/RADIO/KAX/EYE event"@,
        ),
        entry("   Constellation "@, "Canvas plot of every swarm agent on the unit circle"@),
        entry("   Dreams        "@, "Non-blocking dream trigger + KANNAKA.dreams history"@),
        entry("   Chat          "@, "Persistent chat with HRM-loaded agent (default tab)"@),
        seq![],
    ]
}

fn write_tabs() -> (r: Vec<Line>)
    ensures
        page(r@) == help_tabs(),
{
    let mut r = no_lines();
    push_line(&mut r, write_section(" Tabs"));
    push_line(
        &mut r,
        write_entry("   Memory        ", "Command history + recent resonant memories"),
    );
    push_line(
        &mut r,
        write_entry("   Status        ", "Live \u{3a6} / \u{39e} / order-parameter gauges"),
    );
    push_line(
        &mut r,
        write_entry(
            "   Bus           ",
            "Live NATS pulse \u{2014} every QUEEN/KANNAKA/RADIO/KAX/EYE event",
        ),
    );
    push_line(
        &mut r,
        write_entry("   Constellation ", "Canvas plot of every swarm agent on the unit circle"),
    );
    push_line(
        &mut r,
        write_entry("   Dreams        ", "Non-blocking dream trigger + KANNAKA.dreams history"),
    );
    push_line(
        &mut r,
        write_entry("   Chat          ", "Persistent chat with HRM-loaded agent (default tab)"),
    );
    push_line(&mut r, Line::empty());
    assert(page(r@) =~= help_tabs());
    r
}

/// The keys that work on every tab.
pub open spec fn help_navigation() -> Seq<Seq<SpanView>> {
    seq![
        section(" Navigation"@),
        hotkeys("   Tab"@, "Shift+Tab"@, "   Switch tabs"@),
        hotkeys("   Up"@, "Down"@, "           Command history"@),
        hotkeys("   PgUp"@, "PgDown"@, "       Scroll messages"@),
        hotkey("   F1"@, "                  Toggle help"@),
        quit_line(),
        seq![],
    ]
}

fn write_navigation() -> (r: Vec<Line>)
    ensures
        page(r@) == help_navigation(),
{
    let mut r = no_lines();
    push_line(&mut r, write_section(" Navigation"));
    push_line(&mut r, write_hotkeys("   Tab", "Shift+Tab", "   Switch tabs"));
    push_line(&mut r, write_hotkeys("   Up", "Down", "           Command history"));
    push_line(&mut r, write_hotkeys("   PgUp", "PgDown", "       Scroll messages"));
    push_line(&mut r, write_hotkey("   F1", "                  Toggle help"));
    push_line(&mut r, write_quit());
    push_line(&mut r, Line::empty());
    assert(page(r@) =~= help_navigation());
    r
}

/// The hotkeys of the dreams tab.
pub open spec fn help_dreams() -> Seq<Seq<SpanView>> {
    seq![
        section(" Dreams tab hotkeys (when input is empty)"@),
        hotkey("   d"@, "   Deep dream \u{2014} full consolidation cycle (~30s)"@),
        hotkey("   l"@, "   Lite dream \u{2014} quick pass"@),
        seq![],
    ]
}

fn write_dreams() -> (r: Vec<Line>)
    ensures
        page(r@) == help_dreams(),
{
    let mut r = no_lines();
    push_line(&mut r, write_section(" Dreams tab hotkeys (when input is empty)"));
    push_line(
        &mut r,
        write_hotkey("   d", "   Deep dream \u{2014} full consolidation cycle (~30s)"),
    );
    push_line(&mut r, write_hotkey("   l", "   Lite dream \u{2014} quick pass"));
    push_line(&mut r, Line::empty());
    assert(page(r@) =~= help_dreams());
    r
}

/// The slash commands of the chat tab.
pub open spec fn help_plugins() -> Seq<Seq<SpanView>> {
    seq![
        section(" Chat tab plugin slash commands"@),
        hotkey("   /code <prompt>"@, "   exec kannaka-code (Rust agentic CLI)"@),
        hotkey("   /topus <prompt>"@, "  exec kannaktopus (multi-LLM orchestrator)"@),
        remark("   plugin stdout streams inline into chat as it runs"@),
        seq![],
    ]
}

fn write_plugins() -> (r: Vec<Line>)
    ensures
        page(r@) == help_plugins(),
{
    let mut r = no_lines();
    push_line(&mut r, write_section(" Chat tab plugin slash commands"));
    push_line(
        &mut r,
        write_hotkey("   /code <prompt>", "   exec kannaka-code (Rust agentic CLI)"),
    );
    push_line(
        &mut r,
        write_hotkey("   /topus <prompt>", "  exec kannaktopus (multi-LLM orchestrator)"),
    );
    push_line(
        &mut r,
        Line::of("   plugin stdout streams inline into chat as it runs", Style::fg(Color::Dim)),
    );
    push_line(&mut r, Line::empty());
    assert(page(r@) =~= help_plugins());
    r
}

/// The colours of the subjects on the bus.
pub open spec fn help_colors() -> Seq<Seq<SpanView>> {
    seq![
        section(" Bus subject colors"@),
        legend(
            Color::Accent,
            " KANNAKA.*     "@,
            Color::Rgb(255, 100, 200),
            " RADIO.*     "@,
            Color::Rgb(100, 200, 255),
            " KAX.*"@,
        ),
        legend(
            Color::Rgb(255, 200, 100),
            " EYE.*         "@,
            Color::Rgb(180, 140, 255),
            " QUEEN.*     "@,
            Color::Dim,
            " QUEEN.phase.*"@,
        ),
        seq![],
    ]
}

fn write_colors() -> (r: Vec<Line>)
    ensures
        page(r@) == help_colors(),
{
    let mut r = no_lines();
    push_line(&mut r, write_section(" Bus subject colors"));
    push_line(
        &mut r,
        write_legend(
            Color::Accent,
            " KANNAKA.*     ",
            Color::Rgb(255, 100, 200),
            " RADIO.*     ",
            Color::Rgb(100, 200, 255),
            " KAX.*",
        ),
    );
    push_line(
        &mut r,
        write_legend(
            Color::Rgb(255, 200, 100),
            " EYE.*         ",
            Color::Rgb(180, 140, 255),
            " QUEEN.*     ",
            Color::Dim,
            " QUEEN.phase.*",
        ),
    );
    push_line(&mut r, Line::empty());
    assert(page(r@) =~= help_colors());
    r
}

/// The command language, and how to close the overlay.
pub open spec fn help_commands() -> Seq<Seq<SpanView>> {
    seq![
        section(" Command bar (Memory + Chat tabs)"@),
        usage("   remember "@, "\"text\"        "@, "Store a memory"@),
        usage("   recall "@, "\"query\"         "@, "Resonance search (top-k 5)"@),
        usage("   search "@, "\"query\"         "@, "Literal text search"@),
        usage("   forget "@, "<id>            "@, "Delete a memory"@),
        entry("   dream"@, "                  Run consolidation (non-blocking)"@),
        usage("   ask "@, "\"question\"         "@, "One-shot LLM with HRM recall"@),
        usage("   hear "@, "<file-or-url>     "@, "Absorb audio (mp3/wav/flac/stream)"@),
        remark("   anything else \u{2192} routed to chat (agent picks tools)"@),
        seq![],
        remark(" Press any key to close"@),
    ]
}

fn write_commands() -> (r: Vec<Line>)
    ensures
        page(r@) == help_commands(),
{
    let mut r = no_lines();
    push_line(&mut r, write_section(" Command bar (Memory + Chat tabs)"));
    push_line(&mut r, write_usage("   remember ", "\"text\"        ", "Store a memory"));
    push_line(
        &mut r,
        write_usage("   recall ", "\"query\"         ", "Resonance search (top-k 5)"),
    );
    push_line(&mut r, write_usage("   search ", "\"query\"         ", "Literal text search"));
    push_line(&mut r, write_usage("   forget ", "<id>            ", "Delete a memory"));
    push_line(
        &mut r,
        write_entry("   dream", "                  Run consolidation (non-blocking)"),
    );
    push_line(
        &mut r,
        write_usage("   ask ", "\"question\"         ", "One-shot LLM with HRM recall"),
    );
    push_line(
        &mut r,
        write_usage("   hear ", "<file-or-url>     ", "Absorb audio (mp3/wav/flac/stream)"),
    );
    push_line(
        &mut r,
        Line::of("   anything else \u{2192} routed to chat (agent picks tools)", Style::fg(Color::Dim)),
    );
    push_line(&mut r, Line::empty());
    push_line(&mut r, Line::of(" Press any key to close", Style::fg(Color::Dim)));
    assert(page(r@) =~= help_commands());
    r
}

/// The lines of the overlay.
pub open spec fn help_lines() -> Seq<Seq<SpanView>> {
    help_opening() + help_tabs() + help_navigation() + help_dreams() + help_plugins()
        + help_colors() + help_commands()
}

/// The overlay.
pub open spec fn help_panel() -> PanelView {
    PanelView {
        ground: Color::Rgb(15, 15, 30),
        ..framed(
            single_line(" Help \u{b7} F1 to close "@, Style::bold(Color::Accent)),
            Color::Accent,
            help_lines(),
            Flow::Wrapped { scroll: 0 },
        )
    }
}

/// Writes the overlay.
pub fn render_help_overlay() -> (r: Panel)
    ensures
        r@ == help_panel(),
{
    let mut lines = write_opening();
    append_lines(&mut lines, write_tabs());
    append_lines(&mut lines, write_navigation());
    append_lines(&mut lines, write_dreams());
    append_lines(&mut lines, write_plugins());
    append_lines(&mut lines, write_colors());
    append_lines(&mut lines, write_commands());
    let mut r = Panel::framed(
        Line::of(" Help \u{b7} F1 to close ", Style::bold(Color::Accent)),
        Color::Accent,
        lines,
        Flow::Wrapped { scroll: 0 },
    );
    r.ground = Color::Rgb(15, 15, 30);
    r
}

// ---------------------------------------------------------------------------
// Place
// ---------------------------------------------------------------------------

/// The length of the overlay along one side of the screen: what it would like
/// to have, but two cells from the edges at least.
pub open spec fn overlay_length(wanted: int, side: u16) -> int {
    if side < 4 {
        0
    } else if wanted <= side - 4 {
        wanted
    } else {
        side - 4
    }
}

/// The area of the overlay: in the middle of a screen of a size.
pub open spec fn overlay_area(width: u16, height: u16) -> Area {
    let w = overlay_length(78, width);
    let h = overlay_length(46, height);
    Area {
        x: ((width - w) / 2) as u16,
        y: ((height - h) / 2) as u16,
        width: w as u16,
        height: h as u16,
    }
}

fn side_length(wanted: u16, side: u16) -> (r: u16)
    ensures
        r == overlay_length(wanted as int, side),
        r <= side,
{
    let room: u16 = if side < 4 { 0 } else { side - 4 };
    if wanted <= room {
        wanted
    } else {
        room
    }
}

/// Places the overlay on the screen.
pub fn help_area(screen: Area) -> (r: Area)
    ensures
        r == overlay_area(screen.width, screen.height),
{
    let width: u16 = side_length(78, screen.width);
    let height: u16 = side_length(46, screen.height);
    Area {
        x: (screen.width - width) / 2,
        y: (screen.height - height) / 2,
        width,
        height,
    }
}

/// On a screen that is large enough, the overlay has a row for each of its
/// lines.
pub proof fn law_help_has_room(width: u16, height: u16)
    requires
        height >= 50,
    ensures
        help_lines().len() + 2 <= overlay_area(width, height).height,
{
}

/// The overlay lies on the screen, two cells from each edge where the screen
/// is that large.
pub proof fn law_overlay_fits(width: u16, height: u16)
    ensures
        ({
            let a = overlay_area(width, height);
            &&& a.x + a.width <= width
            &&& a.y + a.height <= height
            &&& width >= 4 ==> a.x >= 2 && a.x + a.width + 2 <= width
            &&& height >= 4 ==> a.y >= 2 && a.y + a.height + 2 <= height
        }),
{
}

/// The overlay is as large as it would like to be where the screen has room,
/// and else leaves two cells at each edge; it stands in the middle, to within
/// a cell.
pub proof fn law_overlay_stands_in_the_middle(width: u16, height: u16)
    ensures
        ({
            let a = overlay_area(width, height);
            let right = width - a.x - a.width;
            let below = height - a.y - a.height;
            &&& width >= 82 ==> a.width == 78
            &&& 4 <= width < 82 ==> a.width == width - 4
            &&& height >= 50 ==> a.height == 46
            &&& 4 <= height < 50 ==> a.height == height - 4
            &&& width < 4 ==> a.width == 0
            &&& height < 4 ==> a.height == 0
            &&& a.x <= right <= a.x + 1
            &&& a.y <= below <= a.y + 1
        }),
{
}

} // verus!
