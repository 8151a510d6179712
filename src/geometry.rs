//! Positions on the playfield and what happens at its edges.
use vstd::prelude::*;

verus! {

/// A position, in thousandths of a pixel, with the origin at the centre of the screen.
#[derive(Clone, Copy, Debug, PartialEq, Eq, Structural)]
pub struct Point {
    pub x: i32,
    pub y: i32,
}

impl Point {
    /// Both coordinates can be negated without overflow.
    pub open spec fn wf(self) -> bool {
        self.x > i32::MIN && self.y > i32::MIN
    }
}

/// The size of the visible playfield, in thousandths of a pixel.
#[derive(Clone, Copy, Debug, PartialEq, Eq, Structural)]
pub struct Viewport {
    pub width: u32,
    pub height: u32,
}

/// What happens to an entity that leaves the playfield.
#[derive(Clone, Copy, Debug, PartialEq, Eq, Structural)]
pub enum BoundsTag {
    /// It comes back in on the opposite side.
    Wrap,
    /// It is removed.
    Despawn,
}

/// Half the largest side of the box of two entities that touch, in thousandths of a pixel.
pub const CONTACT_REACH: i64 = 20_000;

pub open spec fn abs(v: int) -> int {
    if v < 0 {
        -v
    } else {
        v
    }
}

/// A coordinate lies beyond the edge of a span centred on zero, for an entity whose
/// largest dimension is `extent`: its distance from the centre exceeds half the span
/// less half the extent.
pub open spec fn beyond(coord: int, extent: int, span: int) -> bool {
    2 * abs(coord) > span - extent
}

/// The position of an entity that wraps, once the edges have acted on it.
pub open spec fn wrapped_point(p: Point, extent: u32, view: Viewport) -> Point {
    Point {
        x: (if beyond(p.x as int, extent as int, view.width as int) {
            -p.x
        } else {
            p.x as int
        }) as i32,
        y: (if beyond(p.y as int, extent as int, view.height as int) {
            -p.y
        } else {
            p.y as int
        }) as i32,
    }
}

/// An entity at `p` lies outside the playfield.
pub open spec fn off_screen(p: Point, view: Viewport) -> bool {
    beyond(p.x as int, 0, view.width as int) || beyond(p.y as int, 0, view.height as int)
}

/// Two entities at `a` and `b` are close enough on both axes to touch.
pub open spec fn within_reach(a: Point, b: Point) -> bool {
    abs(a.x - b.x) < CONTACT_REACH && abs(a.y - b.y) < CONTACT_REACH
}

fn crosses(coord: i32, extent: u32, span: u32) -> (r: bool)
    ensures
        r == beyond(coord as int, extent as int, span as int),
{
    let c = coord as i64;
    let distance: i64 = if c < 0 {
        -c
    } else {
        c
    };
    2 * distance > span as i64 - extent as i64
}

/// Moves an entity that has crossed an edge to the opposite side: each axis on
/// which it lies farther from the centre than half the view less half its
/// largest dimension is negated.
pub fn screen_wrap(p: Point, extent: u32, view: Viewport) -> (r: Point)
    requires
        p.wf(),
    ensures
        r == wrapped_point(p, extent, view),
        r.wf(),
{
    let x = if crosses(p.x, extent, view.width) {
        -p.x
    } else {
        p.x
    };
    let y = if crosses(p.y, extent, view.height) {
        -p.y
    } else {
        p.y
    };
    Point { x, y }
}

/// Whether an entity that is removed at the edges has to go.
pub fn screen_despawn(p: Point, view: Viewport) -> (r: bool)
    ensures
        r == off_screen(p, view),
{
    crosses(p.x, 0, view.width) || crosses(p.y, 0, view.height)
}

/// The proximity test between two entities: both axis distances under `CONTACT_REACH`.
pub fn near(a: Point, b: Point) -> (r: bool)
    ensures
        r == within_reach(a, b),
{
    let dx = a.x as i64 - b.x as i64;
    let dy = a.y as i64 - b.y as i64;
    let ax: i64 = if dx < 0 {
        -dx
    } else {
        dx
    };
    let ay: i64 = if dy < 0 {
        -dy
    } else {
        dy
    };
    ax < CONTACT_REACH && ay < CONTACT_REACH
}

/// Wrapping is its own inverse: an entity that crosses the same edge twice is back
/// where it started, with the sign of each coordinate restored.
pub proof fn lemma_wrap_twice(p: Point, extent: u32, view: Viewport)
    requires
        p.wf(),
    ensures
        wrapped_point(wrapped_point(p, extent, view), extent, view) == p,
{
}

} // verus!
