use vstd::prelude::*;

verus! {

/// An absolute screen coordinate, origin at the top-left corner of the
/// primary display. No bounds are enforced here: out-of-range values are
/// handed to the platform unchanged, which may clamp them or do nothing.
#[derive(Clone, Copy, Debug, PartialEq, Eq, Structural)]
pub struct Position {
    pub x: i32,
    pub y: i32,
}

/// The endpoints of a drag gesture. `from == to` is allowed and degenerates
/// to a click-in-place after a hold.
#[derive(Clone, Copy, Debug, PartialEq, Eq, Structural)]
pub struct MoveCommand {
    pub from: Position,
    pub to: Position,
}

/// An axis-aligned screen rectangle. Capturing it demands
/// `bottom_right.x > top_left.x` and `bottom_right.y > top_left.y`;
/// width and height are derived from the corners, never stored.
#[derive(Clone, Copy, Debug, PartialEq, Eq, Structural)]
pub struct BoardArea {
    pub top_left: Position,
    pub bottom_right: Position,
}

/// `s / 2` rounded toward zero, as machine integer division rounds.
pub open spec fn half_toward_zero(s: int) -> int {
    if s >= 0 {
        s / 2
    } else {
        -((-s) / 2)
    }
}

/// The drag waypoint between two coordinates: `(a + b) / 2` with
/// truncating division.
pub open spec fn midpoint(a: int, b: int) -> int {
    half_toward_zero(a + b)
}

/// Computes the waypoint coordinate between `a` and `b`. The sum is formed
/// in a wider type, so no pair of coordinates overflows.
pub fn mid_coordinate(a: i32, b: i32) -> (m: i32)
    ensures
        m as int == midpoint(a as int, b as int),
{
    let s: i64 = a as i64 + b as i64;
    if s >= 0 {
        let q: u64 = (s as u64) / 2;
        assert(q <= i32::MAX as u64);
        q as i32
    } else {
        let q: u64 = ((-s) as u64) / 2;
        assert(q <= 0x8000_0000u64);
        let m: i64 = -(q as i64);
        assert(i32::MIN as i64 <= m <= 0);
        m as i32
    }
}

} // verus!
