//! Territories, the movable, resizable boxes of the workbench UI, and the
//! borders that frame them.
//!
//! A territory is laid out on a five by five grid: its borders take the
//! outer tracks, its content the inner ones.
use vstd::prelude::*;

verus! {

/// Number of grid tracks across and down a territory.
pub const TERRITORY_TRACKS: u16 = 5;

/// A side of something.
#[derive(Clone, Copy, Debug, PartialEq, Eq, Structural)]
pub enum Cardinal {
    North,
    East,
    South,
    West,
}

/// A span of grid lines: the tracks from line `start` up to, not including,
/// line `end`. Lines are numbered from 1.
#[derive(Clone, Copy, Debug, PartialEq, Eq, Structural)]
pub struct GridSpan {
    pub start: u16,
    pub end: u16,
}

/// The grid area a border occupies.
#[derive(Clone, Copy, Debug, PartialEq, Eq, Structural)]
pub struct GridArea {
    pub rows: GridSpan,
    pub columns: GridSpan,
}

/// Whether track `t` (numbered from 1) lies in `span`.
pub open spec fn span_contains(span: GridSpan, t: int) -> bool {
    span.start <= t < span.end
}

/// Whether the cell at row `r`, column `c` lies in `area`.
pub open spec fn area_contains(area: GridArea, r: int, c: int) -> bool {
    span_contains(area.rows, r) && span_contains(area.columns, c)
}

/// The grid area of the border on `side` of a territory.
pub open spec fn border_area(side: Cardinal) -> GridArea {
    let full = GridSpan { start: 1, end: 6 };
    match side {
        Cardinal::North => GridArea { rows: GridSpan { start: 1, end: 2 }, columns: full },
        Cardinal::East => GridArea { rows: full, columns: GridSpan { start: 5, end: 6 } },
        Cardinal::South => GridArea { rows: GridSpan { start: 5, end: 6 }, columns: full },
        Cardinal::West => GridArea { rows: full, columns: GridSpan { start: 1, end: 2 } },
    }
}

/// Where the border on `side` of a territory is placed: the northern and
/// southern borders run along the first and last rows across every column,
/// the eastern and western ones along the last and first columns down every
/// row.
pub fn border_grid_area(side: Cardinal) -> (area: GridArea)
    ensures
        area == border_area(side),
{
    let full = GridSpan { start: 1, end: 6 };
    match side {
        Cardinal::North => GridArea { rows: GridSpan { start: 1, end: 2 }, columns: full },
        Cardinal::East => GridArea { rows: full, columns: GridSpan { start: 5, end: 6 } },
        Cardinal::South => GridArea { rows: GridSpan { start: 5, end: 6 }, columns: full },
        Cardinal::West => GridArea { rows: full, columns: GridSpan { start: 1, end: 2 } },
    }
}

/// Whether the cell at row `r`, column `c` is on the rim of the territory's
/// grid.
pub open spec fn on_rim(r: int, c: int) -> bool {
    r == 1 || r == TERRITORY_TRACKS || c == 1 || c == TERRITORY_TRACKS
}

/// The four borders frame the territory exactly: every border stays inside
/// the grid, each cell of the rim is under some border, and no inner cell
/// is.
pub proof fn lemma_borders_frame_territory(r: int, c: int)
    requires
        1 <= r <= TERRITORY_TRACKS,
        1 <= c <= TERRITORY_TRACKS,
    ensures
        on_rim(r, c) <==> (exists|side: Cardinal| area_contains(#[trigger] border_area(side), r, c)),
{
    if on_rim(r, c) {
        if r == 1 {
            assert(area_contains(border_area(Cardinal::North), r, c));
        } else if r == TERRITORY_TRACKS {
            assert(area_contains(border_area(Cardinal::South), r, c));
        } else if c == 1 {
            assert(area_contains(border_area(Cardinal::West), r, c));
        } else {
            assert(area_contains(border_area(Cardinal::East), r, c));
        }
    }
}

/// Every border lies within the territory's grid lines.
pub proof fn lemma_borders_inside_grid(side: Cardinal)
    ensures
        1 <= border_area(side).rows.start < border_area(side).rows.end <= TERRITORY_TRACKS + 1,
        1 <= border_area(side).columns.start < border_area(side).columns.end <= TERRITORY_TRACKS + 1,
{
}

/// Where a border lies, given the edges of its territory's rectangle: the
/// coordinate of the edge it sits on, and the smaller and larger coordinates
/// it runs between.
#[derive(Clone, Copy, Debug, PartialEq, Eq)]
pub struct BorderExtent<T> {
    pub pos: T,
    pub start_point: T,
    pub end_point: T,
}

/// The extent of the border on `side` of the rectangle from `(min_x, min_y)`
/// to `(max_x, max_y)`.
pub open spec fn border_extent_of<T>(side: Cardinal, min_x: T, min_y: T, max_x: T, max_y: T) -> BorderExtent<T> {
    match side {
        Cardinal::North => BorderExtent { pos: min_y, start_point: min_x, end_point: max_x },
        Cardinal::East => BorderExtent { pos: max_x, start_point: min_y, end_point: max_y },
        Cardinal::South => BorderExtent { pos: max_y, start_point: min_x, end_point: max_x },
        Cardinal::West => BorderExtent { pos: min_x, start_point: min_y, end_point: max_y },
    }
}

/// The extent of the border on `side` of a rectangle: the northern border
/// sits on the top edge and the southern on the bottom one, both running
/// from left to right; the western border sits on the left edge and the
/// eastern on the right one, both running from top to bottom.
pub fn border_extent<T: Copy>(side: Cardinal, min_x: T, min_y: T, max_x: T, max_y: T) -> (e: BorderExtent<T>)
    ensures
        e == border_extent_of(side, min_x, min_y, max_x, max_y),
{
    match side {
        Cardinal::North => BorderExtent { pos: min_y, start_point: min_x, end_point: max_x },
        Cardinal::East => BorderExtent { pos: max_x, start_point: min_y, end_point: max_y },
        Cardinal::South => BorderExtent { pos: max_y, start_point: min_x, end_point: max_x },
        Cardinal::West => BorderExtent { pos: min_x, start_point: min_y, end_point: max_y },
    }
}

/// Opposite borders run between the same two points and sit on opposite
/// edges; the four borders together touch all four edges.
pub proof fn lemma_opposite_borders<T>(min_x: T, min_y: T, max_x: T, max_y: T)
    ensures
        ({
            let n = border_extent_of(Cardinal::North, min_x, min_y, max_x, max_y);
            let s = border_extent_of(Cardinal::South, min_x, min_y, max_x, max_y);
            n.start_point == s.start_point && n.end_point == s.end_point && n.pos == min_y
                && s.pos == max_y
        }),
        ({
            let e = border_extent_of(Cardinal::East, min_x, min_y, max_x, max_y);
            let w = border_extent_of(Cardinal::West, min_x, min_y, max_x, max_y);
            e.start_point == w.start_point && e.end_point == w.end_point && w.pos == min_x
                && e.pos == max_x
        }),
{
}

/// On a well-formed rectangle every border runs from its smaller to its
/// larger coordinate: the northern and southern borders span the
/// rectangle's width, the eastern and western ones its height, the northern
/// border lies above the southern one and the western left of the eastern
/// one.
pub proof fn lemma_border_extents_ordered(min_x: int, min_y: int, max_x: int, max_y: int)
    requires
        min_x <= max_x,
        min_y <= max_y,
    ensures
        forall|side: Cardinal|
            #![trigger border_extent_of(side, min_x, min_y, max_x, max_y)]
            border_extent_of(side, min_x, min_y, max_x, max_y).start_point <= border_extent_of(
                side,
                min_x,
                min_y,
                max_x,
                max_y,
            ).end_point,
        ({
            let n = border_extent_of(Cardinal::North, min_x, min_y, max_x, max_y);
            let s = border_extent_of(Cardinal::South, min_x, min_y, max_x, max_y);
            let e = border_extent_of(Cardinal::East, min_x, min_y, max_x, max_y);
            let w = border_extent_of(Cardinal::West, min_x, min_y, max_x, max_y);
            &&& n.end_point - n.start_point == max_x - min_x
            &&& s.end_point - s.start_point == max_x - min_x
            &&& e.end_point - e.start_point == max_y - min_y
            &&& w.end_point - w.start_point == max_y - min_y
            &&& n.pos <= s.pos
            &&& w.pos <= e.pos
        }),
{
    assert forall|side: Cardinal|
        #![trigger border_extent_of(side, min_x, min_y, max_x, max_y)]
        border_extent_of(side, min_x, min_y, max_x, max_y).start_point <= border_extent_of(
            side,
            min_x,
            min_y,
            max_x,
            max_y,
        ).end_point by {
        match side {
            Cardinal::North => {},
            Cardinal::East => {},
            Cardinal::South => {},
            Cardinal::West => {},
        }
    }
}

/// The shade a border takes.
#[derive(Clone, Copy, Debug, PartialEq, Eq, Structural)]
pub enum BorderShade {
    /// Nothing is happening to the border.
    Idle,
    /// The pointer is over the border.
    Hover,
    /// The border is being pressed.
    Click,
}

/// Pointer events a border reacts to.
#[derive(Clone, Copy, Debug, PartialEq, Eq, Structural)]
pub enum PointerEvent {
    /// The pointer entered the border.
    Over,
    /// The pointer moved over the border.
    Move,
    /// The pointer left the border.
    Out,
    /// A button was pressed on the border.
    Down,
    /// A button was released on the border.
    Up,
}

/// The shade a border takes, given the last pointer event that reached it:
/// idle before any event and once the pointer has left, pressed while a
/// button is down, highlighted otherwise.
pub open spec fn shade_after(last_event: Option<PointerEvent>) -> BorderShade {
    match last_event {
        None => BorderShade::Idle,
        Some(PointerEvent::Out) => BorderShade::Idle,
        Some(PointerEvent::Down) => BorderShade::Click,
        Some(_) => BorderShade::Hover,
    }
}

/// The shade a border takes, given the last pointer event that reached it,
/// if any: a border no event has reached yet is idle.
pub fn border_shade_on(last_event: Option<PointerEvent>) -> (shade: BorderShade)
    ensures
        shade == shade_after(last_event),
{
    match last_event {
        None => BorderShade::Idle,
        Some(PointerEvent::Over) => BorderShade::Hover,
        Some(PointerEvent::Move) => BorderShade::Hover,
        Some(PointerEvent::Out) => BorderShade::Idle,
        Some(PointerEvent::Down) => BorderShade::Click,
        Some(PointerEvent::Up) => BorderShade::Hover,
    }
}

/// Whether a territory can be spawned, given how many ordonnance strata
/// exist: it needs exactly one to be placed in; otherwise the request is
/// reported and dropped.
pub fn territory_has_parent(ordonnance_strata: usize) -> (found: bool)
    ensures
        found == (ordonnance_strata == 1),
{
    ordonnance_strata == 1
}

} // verus!
