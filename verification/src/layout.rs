use vstd::prelude::*;
use tui::layout::{Constraint, Direction, Layout, Rect};

verus! {

/// A rectangle of terminal cells.
#[derive(Clone, Copy, Debug, PartialEq, Eq, Structural)]
pub struct Area {
    pub x: u16,
    pub y: u16,
    pub width: u16,
    pub height: u16,
}

/// The direction in which an area is cut into pieces.
#[derive(Clone, Copy, Debug, PartialEq, Eq, Structural)]
pub enum Axis {
    Vertical,
    Horizontal,
}

/// The size wanted for one piece of an area.
#[derive(Clone, Copy, Debug, PartialEq, Eq, Structural)]
pub enum Extent {
    /// A fixed number of cells.
    Length(u16),
    /// A percentage of the area's extent along the cut.
    Percentage(u16),
}

/// What is left of `area` inside a margin of `margin` cells on every side;
/// an empty area at the origin when the margin does not fit.
pub open spec fn inner_area(area: Area, margin: u16) -> Area {
    if area.width < 2 * margin || area.height < 2 * margin {
        Area { x: 0, y: 0, width: 0, height: 0 }
    } else {
        Area {
            x: (area.x + margin) as u16,
            y: (area.y + margin) as u16,
            width: (area.width - 2 * margin) as u16,
            height: (area.height - 2 * margin) as u16,
        }
    }
}

/// The extent along `axis` that is left of `area` inside a margin of
/// `margin` cells.
pub open spec fn inner_extent(area: Area, axis: Axis, margin: u16) -> int {
    match axis {
        Axis::Vertical => inner_area(area, margin).height as int,
        Axis::Horizontal => inner_area(area, margin).width as int,
    }
}

/// The cut can be computed in 16-bit cells: the margin's double fits, the
/// area's right and bottom edges fit when the margin does, and every
/// percentage of the inner extent fits.
pub open spec fn split_fits(area: Area, axis: Axis, margin: u16, rules: Seq<Extent>) -> bool {
    &&& 2 * margin <= u16::MAX
    &&& (area.width >= 2 * margin && area.height >= 2 * margin) ==> (area.x + area.width <= u16::MAX
        && area.y + area.height <= u16::MAX)
    &&& forall|i: int|
        0 <= i < rules.len() ==> (#[trigger] rules[i] matches Extent::Percentage(v) ==> v
            * inner_extent(area, axis, margin) <= u16::MAX)
}

/// What holds of every cut of `area` along `axis` inside `margin` into
/// `count` pieces: one piece per rule; every piece spans the inner area
/// across the cut; the first piece starts where the inner area starts and
/// the last one ends where it ends.
pub open spec fn cut_spans(pieces: Seq<Area>, area: Area, axis: Axis, margin: u16, count: nat) -> bool {
    let inner = inner_area(area, margin);
    &&& pieces.len() == count
    &&& forall|i: int|
        0 <= i < pieces.len() ==> match axis {
            Axis::Vertical => (#[trigger] pieces[i]).x == inner.x && pieces[i].width == inner.width,
            Axis::Horizontal => (#[trigger] pieces[i]).y == inner.y && pieces[i].height == inner.height,
        }
    &&& pieces.len() > 0 ==> match axis {
        Axis::Vertical => pieces[0].y == inner.y && pieces.last().y + pieces.last().height == inner.y
            + inner.height,
        Axis::Horizontal => pieces[0].x == inner.x && pieces.last().x + pieces.last().width == inner.x
            + inner.width,
    }
}

/// The cells rule `rule` asks for out of an extent of `extent` cells.
pub open spec fn target(rule: Extent, extent: int) -> int {
    match rule {
        Extent::Length(v) => v as int,
        Extent::Percentage(v) => v * extent / 100,
    }
}

/// The cells all of `rules` ask for together.
pub open spec fn targets_sum(rules: Seq<Extent>, extent: int) -> int
    decreases rules.len(),
{
    if rules.len() == 0 {
        0
    } else {
        targets_sum(rules.drop_last(), extent) + target(rules.last(), extent)
    }
}

/// The rules fit the inner extent exactly: every percentage comes out in
/// whole cells and together they ask for the whole extent.
pub open spec fn exact_fit(area: Area, axis: Axis, margin: u16, rules: Seq<Extent>) -> bool {
    let e = inner_extent(area, axis, margin);
    &&& forall|i: int|
        0 <= i < rules.len() ==> (#[trigger] rules[i] matches Extent::Percentage(v) ==> (v * e) % 100
            == 0)
    &&& targets_sum(rules, e) == e
}

/// Where a piece starts along the cut.
pub open spec fn piece_start(p: Area, axis: Axis) -> int {
    match axis {
        Axis::Vertical => p.y as int,
        Axis::Horizontal => p.x as int,
    }
}

/// How long a piece is along the cut.
pub open spec fn piece_extent(p: Area, axis: Axis) -> int {
    match axis {
        Axis::Vertical => p.height as int,
        Axis::Horizontal => p.width as int,
    }
}

/// When the rules fit exactly, every piece gets exactly what its rule asks
/// for, in the order of the rules, each starting where the one before ends.
pub open spec fn cut_follows_rules(pieces: Seq<Area>, area: Area, axis: Axis, margin: u16, rules: Seq<Extent>) -> bool {
    exact_fit(area, axis, margin, rules) ==> forall|i: int|
        0 <= i < pieces.len() ==> {
            &&& piece_extent(#[trigger] pieces[i], axis) == target(rules[i], inner_extent(area, axis, margin))
            &&& i + 1 < pieces.len() ==> piece_start(pieces[i + 1], axis) == piece_start(pieces[i], axis)
                + piece_extent(pieces[i], axis)
        }
}

/// Calls `tui::layout::Layout::split` on a layout with the given direction,
/// margin and constraints. The crate solves the constraints with a solver whose
/// choice among equally good cuts follows the order of hash maps, which differs
/// from one process to the next, and rounds every coordinate down on its own;
/// so only what holds of every outcome is stated (see `cut_spans`): the
/// required equalities of the solver, the first piece's start, and the last
/// piece's end, which the crate sets exactly. When the rules fit exactly,
/// the solver's optimum violates no rule and every value is a whole number,
/// so each piece gets what its rule asks for (see `cut_follows_rules`).
/// Otherwise where two inner pieces meet is not stated, nor their lengths.
#[verifier::external_body]
fn layout_split(area: Area, axis: Axis, margin: u16, rules: &Vec<Extent>) -> (pieces: Vec<Area>)
    requires
        split_fits(area, axis, margin, rules@),
    ensures
        cut_spans(pieces@, area, axis, margin, rules@.len()),
        cut_follows_rules(pieces@, area, axis, margin, rules@),
{
    let direction = match axis {
        Axis::Vertical => Direction::Vertical,
        Axis::Horizontal => Direction::Horizontal,
    };
    let constraints: Vec<Constraint> = rules.iter().map(|r| match *r {
        Extent::Length(v) => Constraint::Length(v),
        Extent::Percentage(v) => Constraint::Percentage(v),
    }).collect();
    let rect = Rect { x: area.x, y: area.y, width: area.width, height: area.height };
    let pieces = Layout::default().direction(direction).margin(margin).constraints(constraints).split(rect);
    pieces.iter().map(|r| Area { x: r.x, y: r.y, width: r.width, height: r.height }).collect()
}

/// The screen's rows, inside a margin of 5 cells: the tab bar and the
/// working-directory line, 3 rows each, then the command list and the
/// output pane, 48% each.
pub open spec fn screen_rows() -> Seq<Extent> {
    seq![Extent::Length(3), Extent::Length(3), Extent::Percentage(48), Extent::Percentage(48)]
}

/// The rules of the screen's rows (see `screen_rows`).
pub fn screen_rules() -> (rules: Vec<Extent>)
    ensures
        rules@ == screen_rows(),
{
    let mut rules: Vec<Extent> = Vec::new();
    rules.push(Extent::Length(3));
    rules.push(Extent::Length(3));
    rules.push(Extent::Percentage(48));
    rules.push(Extent::Percentage(48));
    assert(rules@ =~= screen_rows());
    rules
}

/// Cuts the screen vertically, inside a margin of 5 cells, into its four
/// rows (see `screen_rows`).
pub fn screen_layout(screen: Area) -> (rows: Vec<Area>)
    requires
        split_fits(screen, Axis::Vertical, 5, screen_rows()),
    ensures
        cut_spans(rows@, screen, Axis::Vertical, 5, 4),
        inner_area(screen, 5).height == 150 ==> {
            &&& rows@[0].height == 3
            &&& rows@[1].height == 3
            &&& rows@[2].height == 72
            &&& rows@[3].height == 72
            &&& rows@[1].y == rows@[0].y + 3
            &&& rows@[2].y == rows@[1].y + 3
            &&& rows@[3].y == rows@[2].y + 72
        },
{
    let rules = screen_rules();
    let rows = layout_split(screen, Axis::Vertical, 5, &rules);
    proof {
        lemma_screen_exact_fit(screen);
        if inner_area(screen, 5).height == 150 {
            assert(piece_extent(rows@[0], Axis::Vertical) == 3);
            assert(piece_extent(rows@[1], Axis::Vertical) == 3);
            assert(piece_extent(rows@[2], Axis::Vertical) == 72);
            assert(piece_extent(rows@[3], Axis::Vertical) == 72);
        }
    }
    rows
}

/// The screen's rows fit its inner height exactly when that height is 150
/// cells: 3 + 3 + 72 + 72.
pub proof fn lemma_screen_exact_fit(screen: Area)
    ensures
        exact_fit(screen, Axis::Vertical, 5, screen_rows()) <==> inner_area(screen, 5).height == 150,
        inner_area(screen, 5).height == 150 ==> {
            &&& target(screen_rows()[0], 150) == 3
            &&& target(screen_rows()[1], 150) == 3
            &&& target(screen_rows()[2], 150) == 72
            &&& target(screen_rows()[3], 150) == 72
        },
{
    let e = inner_extent(screen, Axis::Vertical, 5);
    let r = screen_rows();
    assert(targets_sum(r, e) == 6 + 2 * (48 * e / 100)) by {
        reveal_with_fuel(targets_sum, 5);
        assert(r.drop_last().drop_last().drop_last().drop_last() =~= Seq::<Extent>::empty());
    }
    assert(0 <= e <= 65535);
    if exact_fit(screen, Axis::Vertical, 5, r) {
        assert(r[2] matches Extent::Percentage(v) && v == 48);
        assert((48 * e) % 100 == 0);
        assert(e == 150) by (nonlinear_arith)
            requires
                (48 * e) % 100 == 0,
                6 + 2 * (48 * e / 100) == e,
                0 <= e,
        ;
    }
    if e == 150 {
        assert(48 * e / 100 == 72);
        assert forall|i: int| 0 <= i < r.len() implies (#[trigger] r[i] matches Extent::Percentage(v) ==> (v
            * e) % 100 == 0) by {
        }
    }
}

/// Tests whether the screen can be cut into its rows in 16-bit cells (see
/// `split_fits`).
pub fn screen_layout_fits(screen: Area) -> (b: bool)
    ensures
        b == split_fits(screen, Axis::Vertical, 5, screen_rows()),
{
    let margin_fits = screen.width >= 10 && screen.height >= 10;
    let inner: u32 = if margin_fits {
        screen.height as u32 - 10
    } else {
        0
    };
    assert(inner == inner_extent(screen, Axis::Vertical, 5));
    let edges_fit = !margin_fits || (screen.x as u32 + screen.width as u32 <= 65535
        && screen.y as u32 + screen.height as u32 <= 65535);
    let b = edges_fit && 48 * inner <= 65535;
    assert(b == split_fits(screen, Axis::Vertical, 5, screen_rows())) by {
        let rules = screen_rows();
        if 48 * inner > 65535 {
            assert(rules[2] matches Extent::Percentage(v) && v == 48);
        }
    }
    b
}

} // verus!
