//! Where things stand on the screen.

use ratatui::layout::{Constraint, Direction, Layout, Rect};
use vstd::prelude::*;

verus! {

/// A rectangle of character cells.
#[derive(Clone, Copy, Debug, PartialEq, Eq, Structural)]
pub struct Area {
    pub x: u16,
    pub y: u16,
    pub width: u16,
    pub height: u16,
}

/// How an area is cut up.
#[derive(Clone, Copy, Debug, PartialEq, Eq, Structural)]
pub enum Axis {
    /// Into parts side by side.
    Across,
    /// Into parts one below the other.
    Down,
}

/// What a part of an area asks for along the axis.
#[derive(Clone, Copy, Debug, PartialEq, Eq, Structural)]
pub enum Part {
    /// So many cells.
    Length(u16),
    /// So many cells at least, and all that is left over.
    Min(u16),
    /// So many hundredths.
    Percentage(u16),
}

/// A plan by which an area is cut up.
pub struct Plan {
    pub axis: Axis,
    pub parts: Vec<Part>,
}

/// Where an area begins along an axis.
pub open spec fn start_of(area: Area, axis: Axis) -> int {
    match axis {
        Axis::Across => area.x as int,
        Axis::Down => area.y as int,
    }
}

/// How many cells an area has along an axis.
pub open spec fn extent_of(area: Area, axis: Axis) -> int {
    match axis {
        Axis::Across => area.width as int,
        Axis::Down => area.height as int,
    }
}

/// Where an area ends along an axis.
pub open spec fn end_of(area: Area, axis: Axis) -> int {
    start_of(area, axis) + extent_of(area, axis)
}

/// Whether a part spans an area across the axis.
pub open spec fn spans(part: Area, area: Area, axis: Axis) -> bool {
    match axis {
        Axis::Across => part.y == area.y && part.height == area.height,
        Axis::Down => part.x == area.x && part.width == area.width,
    }
}

/// Whether a part lies in an area along the axis.
pub open spec fn lies_in(part: Area, area: Area, axis: Axis) -> bool {
    start_of(area, axis) <= start_of(part, axis) && end_of(part, axis) <= end_of(area, axis)
}

/// Whether parts follow each other from the start of an area, without a gap
/// and without an overlap.
pub open spec fn in_a_row(r: Seq<Area>, area: Area, axis: Axis) -> bool {
    forall|i: int|
        #![trigger r[i]]
        0 <= i < r.len() ==> start_of(r[i], axis) == if i == 0 {
            start_of(area, axis)
        } else {
            end_of(r[i - 1], axis)
        }
}

/// Whether parts follow each other from the start of an area, to within the
/// cell that an edge may fall on either side of.
pub open spec fn about_in_a_row(r: Seq<Area>, area: Area, axis: Axis) -> bool {
    forall|i: int|
        #![trigger r[i]]
        0 <= i < r.len() ==> if i == 0 {
            start_of(r[i], axis) == start_of(area, axis)
        } else {
            end_of(r[i - 1], axis) - 1 <= start_of(r[i], axis) <= end_of(r[i - 1], axis) + 1
        }
}

/// Whether no part asks for hundredths.
pub open spec fn no_shares(parts: Seq<Part>) -> bool {
    forall|i: int| 0 <= i < parts.len() ==> !(#[trigger] parts[i] is Percentage)
}

/// Whether every part asks for hundredths.
pub open spec fn only_shares(parts: Seq<Part>) -> bool {
    forall|i: int| 0 <= i < parts.len() ==> #[trigger] parts[i] is Percentage
}

/// The cells that parts ask for, but for hundredths.
pub open spec fn asked(parts: Seq<Part>) -> nat
    decreases parts.len(),
{
    if parts.len() == 0 {
        0
    } else {
        asked(parts.drop_last()) + match parts.last() {
            Part::Length(n) => n as nat,
            Part::Min(n) => n as nat,
            Part::Percentage(_) => 0,
        }
    }
}

/// The hundredths that parts ask for.
pub open spec fn shares(parts: Seq<Part>) -> nat
    decreases parts.len(),
{
    if parts.len() == 0 {
        0
    } else {
        shares(parts.drop_last()) + match parts.last() {
            Part::Percentage(n) => n as nat,
            _ => 0,
        }
    }
}

/// Whether the edges of parts are whole numbers of cells, or fractions of a
/// cell that round alike on both sides: either no part asks for hundredths, or
/// all do and there are enough. The number of parts bounds the fractions.
pub open spec fn regular(parts: Seq<Part>) -> bool {
    parts.len() < 100 && (no_shares(parts) || (only_shares(parts) && shares(parts) <= 100))
}

/// Whether a part has what it asks for: a length exactly, a minimum at least
/// (up to the largest number that is taken for one).
pub open spec fn granted(part: Area, axis: Axis, wish: Part) -> bool {
    match wish {
        Part::Length(n) => extent_of(part, axis) == n,
        Part::Min(n) => n <= 32767 ==> extent_of(part, axis) >= n,
        Part::Percentage(_) => true,
    }
}

/// Whether a part is the only one that asks for a minimum, all others asking
/// for lengths.
pub open spec fn lone_min(parts: Seq<Part>, k: int) -> bool {
    &&& 0 <= k < parts.len() && parts[k] is Min
    &&& forall|i: int| 0 <= i < parts.len() && i != k ==> #[trigger] parts[i] is Length
}

/// How many cells a lone minimum has where there are fewer than are asked for:
/// what it asks for, as far as there is that much.
pub open spec fn min_in_need(n: u16, extent: int) -> int {
    if n <= extent {
        n as int
    } else {
        extent
    }
}

/// Where a part ends that has, with those before it, so many hundredths: at
/// the nearest cell, the later one where two are equally near.
pub open spec fn share_end(area: Area, axis: Axis, hundredths: nat) -> int {
    start_of(area, axis) + (hundredths * extent_of(area, axis) + 50) / 100
}

/// What is certain of an area cut up into parts. Each part spans the area
/// across the axis and lies in it, and they stand in a row: regular parts
/// exactly, others to within a cell where an edge is rounded. Where they ask
/// for no more cells than there are, each has what it asks for; where they ask
/// for more, a lone minimum is served before the lengths. With a minimum among
/// them they fill the area. Hundredths are shared out to the nearest cell.
pub open spec fn laid_out(r: Seq<Area>, area: Area, axis: Axis, parts: Seq<Part>) -> bool {
    let on_grid = regular(parts) && end_of(area, axis) <= u16::MAX;
    &&& r.len() == parts.len()
    &&& forall|i: int|
        0 <= i < r.len() ==> spans(#[trigger] r[i], area, axis) && lies_in(r[i], area, axis)
    &&& about_in_a_row(r, area, axis)
    &&& regular(parts) ==> in_a_row(r, area, axis)
    &&& on_grid && no_shares(parts) && asked(parts) <= extent_of(area, axis) ==> forall|i: int|
        0 <= i < r.len() ==> granted(#[trigger] r[i], axis, parts[i])
    &&& on_grid && no_shares(parts) && (exists|i: int|
        0 <= i < parts.len() && #[trigger] parts[i] is Min) ==> end_of(r.last(), axis) == end_of(
        area,
        axis,
    )
    &&& on_grid && asked(parts) > extent_of(area, axis) ==> forall|k: int|
        #![trigger r[k]]
        lone_min(parts, k) && parts[k]->Min_0 <= 32767 ==> extent_of(r[k], axis) == min_in_need(
            parts[k]->Min_0,
            extent_of(area, axis),
        )
    &&& on_grid && only_shares(parts) ==> forall|i: int|
        0 <= i < r.len() ==> end_of(#[trigger] r[i], axis) == share_end(
            area,
            axis,
            shares(parts.subrange(0, i + 1)),
        )
}

/// Cuts an area up with `ratatui::layout::Layout::split`, without a margin,
/// without spacing and flush with the start: one part for each that is asked
/// for, in their order. Its solver keeps every edge in the area, keeps the
/// parts together before anything else, then grants minima, then lengths, then
/// hundredths, and lets minima grow into what is left. Which of several lengths
/// or of several minima give way where they ask for more than there is, and how
/// several minima share what is left, is not stated.
#[verifier::external_body]
fn split_area(area: Area, axis: Axis, parts: &Vec<Part>) -> (r: Vec<Area>)
    ensures
        laid_out(r@, area, axis, parts@),
{
    let direction = match axis {
        Axis::Across => Direction::Horizontal,
        Axis::Down => Direction::Vertical,
    };
    let constraints = parts.iter().map(|p| match p {
        Part::Length(n) => Constraint::Length(*n),
        Part::Min(n) => Constraint::Min(*n),
        Part::Percentage(n) => Constraint::Percentage(*n),
    });
    let Area { x, y, width, height } = area;
    let rect = Rect { x, y, width, height };
    let rects = Layout::new(direction, constraints).split(rect);
    rects.iter().map(|r| Area { x: r.x, y: r.y, width: r.width, height: r.height }).collect()
}

impl Plan {
    /// Cuts an area up by the plan.
    pub fn split(&self, area: Area) -> (r: Vec<Area>)
        ensures
            laid_out(r@, area, self.axis, self.parts@),
    {
        split_area(area, self.axis, &self.parts)
    }
}

/// The parts of the screen: header, tab bar, open tab, input bar.
pub open spec fn screen_parts() -> Seq<Part> {
    seq![Part::Length(3), Part::Length(3), Part::Min(8), Part::Length(3)]
}

/// The parts of the gauges: phi, xi, the order parameter, and what is left.
pub open spec fn gauge_parts() -> Seq<Part> {
    seq![Part::Length(3), Part::Length(3), Part::Length(3), Part::Min(1)]
}

/// The parts of a tab, and how they stand, where it has several: the command
/// log and the memories; the gauges and the counts; the plot and the list; the
/// local dream, the reports and the hotkeys.
pub open spec fn tab_parts(tab: usize) -> Option<(Axis, Seq<Part>)> {
    if tab == 0 {
        Some((Axis::Across, seq![Part::Percentage(60), Part::Percentage(40)]))
    } else if tab == 1 {
        Some((Axis::Across, seq![Part::Percentage(55), Part::Percentage(45)]))
    } else if tab == 3 {
        Some((Axis::Across, seq![Part::Percentage(65), Part::Percentage(35)]))
    } else if tab == 4 {
        Some((Axis::Down, seq![Part::Length(5), Part::Min(6), Part::Length(3)]))
    } else {
        None
    }
}

/// The plan of the screen.
pub fn screen_plan() -> (r: Plan)
    ensures
        r.axis == Axis::Down,
        r.parts@ == screen_parts(),
{
    Plan {
        axis: Axis::Down,
        parts: vec![Part::Length(3), Part::Length(3), Part::Min(8), Part::Length(3)],
    }
}

/// The plan of the gauges.
pub fn gauges_plan() -> (r: Plan)
    ensures
        r.axis == Axis::Down,
        r.parts@ == gauge_parts(),
{
    Plan {
        axis: Axis::Down,
        parts: vec![Part::Length(3), Part::Length(3), Part::Length(3), Part::Min(1)],
    }
}

/// The plan of a tab, where it has several parts.
pub fn tab_plan(tab: usize) -> (r: Option<Plan>)
    ensures
        match r {
            Some(plan) => tab_parts(tab) == Some((plan.axis, plan.parts@)),
            None => tab_parts(tab) is None,
        },
{
    match tab {
        0 => Some(
            Plan { axis: Axis::Across, parts: vec![Part::Percentage(60), Part::Percentage(40)] },
        ),
        1 => Some(
            Plan { axis: Axis::Across, parts: vec![Part::Percentage(55), Part::Percentage(45)] },
        ),
        3 => Some(
            Plan { axis: Axis::Across, parts: vec![Part::Percentage(65), Part::Percentage(35)] },
        ),
        4 => Some(
            Plan {
                axis: Axis::Down,
                parts: vec![Part::Length(5), Part::Min(6), Part::Length(3)],
            },
        ),
        _ => None,
    }
}

proof fn lemma_screen_asks()
    ensures
        asked(screen_parts()) == 17,
        no_shares(screen_parts()),
{
    let parts = screen_parts();
    reveal_with_fuel(asked, 5);
    assert(parts.drop_last() =~= seq![Part::Length(3), Part::Length(3), Part::Min(8)]);
    assert(parts.drop_last().drop_last() =~= seq![Part::Length(3), Part::Length(3)]);
    assert(parts.drop_last().drop_last().drop_last() =~= seq![Part::Length(3)]);
    assert(parts.drop_last().drop_last().drop_last().drop_last() =~= seq![]);
}

/// On a screen with enough rows, header and tab bar take three rows each at
/// the top, the input bar takes three at the bottom, and the open tab has all
/// that lie between.
pub proof fn law_screen_rows(r: Seq<Area>, area: Area)
    requires
        laid_out(r, area, Axis::Down, screen_parts()),
        area.height >= 17,
        area.y + area.height <= u16::MAX,
    ensures
        r.len() == 4,
        r[0] == (Area { height: 3, ..area }),
        r[1] == (Area { y: (area.y + 3) as u16, height: 3, ..area }),
        r[2] == (Area { y: (area.y + 6) as u16, height: (area.height - 9) as u16, ..area }),
        r[3] == (Area { y: (area.y + area.height - 3) as u16, height: 3, ..area }),
{
    let parts = screen_parts();
    lemma_screen_asks();
    assert(parts[2] is Min);
    assert(start_of(r[0], Axis::Down) == area.y);
    assert(start_of(r[1], Axis::Down) == end_of(r[0], Axis::Down));
    assert(start_of(r[2], Axis::Down) == end_of(r[1], Axis::Down));
    assert(start_of(r[3], Axis::Down) == end_of(r[2], Axis::Down));
    assert(granted(r[0], Axis::Down, parts[0]));
    assert(granted(r[1], Axis::Down, parts[1]));
    assert(granted(r[3], Axis::Down, parts[3]));
    assert(spans(r[0], area, Axis::Down));
    assert(spans(r[1], area, Axis::Down));
    assert(spans(r[2], area, Axis::Down));
    assert(spans(r[3], area, Axis::Down));
    assert(end_of(r.last(), Axis::Down) == end_of(area, Axis::Down));
}

/// On a screen with too few rows the open tab comes first: it has its eight
/// rows, or all that there are.
pub proof fn law_open_tab_comes_first(r: Seq<Area>, area: Area)
    requires
        laid_out(r, area, Axis::Down, screen_parts()),
        area.height < 17,
        area.y + area.height <= u16::MAX,
    ensures
        r.len() == 4,
        r[2].height == min_in_need(8, area.height as int),
{
    let parts = screen_parts();
    lemma_screen_asks();
    assert(lone_min(parts, 2));
    assert(extent_of(r[2], Axis::Down) == r[2].height);
}

/// Two parts that share an area in hundredths divide it between them: the
/// first has its share to the nearest cell, the second all the rest.
pub proof fn law_two_shares_divide(r: Seq<Area>, area: Area, axis: Axis, first: u16, second: u16)
    requires
        laid_out(r, area, axis, seq![Part::Percentage(first), Part::Percentage(second)]),
        first + second == 100,
        end_of(area, axis) <= u16::MAX,
    ensures
        r.len() == 2,
        start_of(r[0], axis) == start_of(area, axis),
        extent_of(r[0], axis) == (first * extent_of(area, axis) + 50) / 100,
        start_of(r[1], axis) == end_of(r[0], axis),
        end_of(r[1], axis) == end_of(area, axis),
{
    let parts = seq![Part::Percentage(first), Part::Percentage(second)];
    reveal_with_fuel(shares, 3);
    let one = seq![Part::Percentage(first)];
    assert(parts.drop_last() =~= one);
    assert(one.drop_last() =~= seq![]);
    assert(parts.subrange(0, 1) =~= one);
    assert(parts.subrange(0, 2) =~= parts);
    assert(shares(one) == first);
    assert(shares(parts) == 100);
    assert(end_of(r[0], axis) == share_end(area, axis, shares(parts.subrange(0, 1))));
    assert(end_of(r[1], axis) == share_end(area, axis, shares(parts.subrange(0, 2))));
    assert(start_of(r[0], axis) == start_of(area, axis));
    assert(start_of(r[1], axis) == end_of(r[0], axis));
}

/// On the status tab each of the three gauges has three rows, one below the
/// other from the top.
pub proof fn law_gauge_rows(r: Seq<Area>, area: Area)
    requires
        laid_out(r, area, Axis::Down, gauge_parts()),
        area.height >= 10,
        area.y + area.height <= u16::MAX,
    ensures
        r.len() == 4,
        r[0] == (Area { height: 3, ..area }),
        r[1] == (Area { y: (area.y + 3) as u16, height: 3, ..area }),
        r[2] == (Area { y: (area.y + 6) as u16, height: 3, ..area }),
{
    let parts = gauge_parts();
    reveal_with_fuel(asked, 5);
    assert(parts.drop_last() =~= seq![Part::Length(3), Part::Length(3), Part::Length(3)]);
    assert(parts.drop_last().drop_last() =~= seq![Part::Length(3), Part::Length(3)]);
    assert(parts.drop_last().drop_last().drop_last() =~= seq![Part::Length(3)]);
    assert(parts.drop_last().drop_last().drop_last().drop_last() =~= seq![]);
    assert(asked(parts) == 10);
    assert(start_of(r[0], Axis::Down) == area.y);
    assert(start_of(r[1], Axis::Down) == end_of(r[0], Axis::Down));
    assert(start_of(r[2], Axis::Down) == end_of(r[1], Axis::Down));
    assert(granted(r[0], Axis::Down, parts[0]));
    assert(granted(r[1], Axis::Down, parts[1]));
    assert(granted(r[2], Axis::Down, parts[2]));
    assert(spans(r[0], area, Axis::Down));
    assert(spans(r[1], area, Axis::Down));
    assert(spans(r[2], area, Axis::Down));
}

/// On the dreams tab the local dream has five rows at the top, the hotkeys
/// have three at the bottom, and the reports have all that lie between.
pub proof fn law_dreams_rows(r: Seq<Area>, area: Area)
    requires
        tab_parts(4) is Some,
        laid_out(r, area, (tab_parts(4)->0).0, (tab_parts(4)->0).1),
        area.height >= 14,
        area.y + area.height <= u16::MAX,
    ensures
        r.len() == 3,
        r[0] == (Area { height: 5, ..area }),
        r[1] == (Area { y: (area.y + 5) as u16, height: (area.height - 8) as u16, ..area }),
        r[2] == (Area { y: (area.y + area.height - 3) as u16, height: 3, ..area }),
{
    let parts = (tab_parts(4)->0).1;
    reveal_with_fuel(asked, 4);
    assert(parts.drop_last() =~= seq![Part::Length(5), Part::Min(6)]);
    assert(parts.drop_last().drop_last() =~= seq![Part::Length(5)]);
    assert(parts.drop_last().drop_last().drop_last() =~= seq![]);
    assert(asked(parts) == 14);
    assert(parts[1] is Min);
    assert(start_of(r[0], Axis::Down) == area.y);
    assert(start_of(r[1], Axis::Down) == end_of(r[0], Axis::Down));
    assert(start_of(r[2], Axis::Down) == end_of(r[1], Axis::Down));
    assert(granted(r[0], Axis::Down, parts[0]));
    assert(granted(r[2], Axis::Down, parts[2]));
    assert(spans(r[0], area, Axis::Down));
    assert(spans(r[1], area, Axis::Down));
    assert(spans(r[2], area, Axis::Down));
    assert(end_of(r.last(), Axis::Down) == end_of(area, Axis::Down));
}

} // verus!
