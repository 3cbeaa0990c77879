//! Nine-point alignment of a content box inside a container box, and the
//! sizing mode of an on-screen element.

use vstd::prelude::*;
use crate::geometry::{Extent2, Point3};

verus! {

/// Coordinates handed to the alignment resolver must stay below this bound
/// in magnitude so that the resolved position fits in an `i64`.
pub const ALIGN_COORD_BOUND: i64 = 0x2000_0000_0000_0000;

/// One of the nine anchor points of a rectangle: top/center/bottom crossed
/// with left/center/right.
#[derive(Debug, Clone, Copy, PartialEq, Eq, Structural)]
pub enum Alignment {
    TopLeft,
    TopCenter,
    TopRight,
    CenterLeft,
    Center,
    CenterRight,
    BottomLeft,
    BottomCenter,
    BottomRight,
}

/// How an on-screen element reports its size: the bounding box of its
/// latest layout, or a fixed box supplied by the caller.
#[derive(Debug, Clone, Copy, PartialEq, Eq, Structural)]
pub enum Size {
    Auto,
    Manual(Extent2),
}

/// The horizontal shift that an anchor adds to a position: nothing for a
/// left anchor, centering for a center anchor, the full slack for a right
/// anchor. Divisions are taken per term, matching the resolver.
pub open spec fn align_shift_x(alignment: Alignment, size_x: int, container_x: int) -> int {
    match alignment {
        Alignment::TopLeft => 0,
        Alignment::CenterLeft => 0,
        Alignment::BottomLeft => 0,
        Alignment::TopCenter => container_x / 2 - size_x / 2,
        Alignment::Center => container_x / 2 - size_x / 2,
        Alignment::BottomCenter => container_x / 2 - size_x / 2,
        Alignment::TopRight => container_x - size_x,
        Alignment::CenterRight => container_x - size_x,
        Alignment::BottomRight => container_x - size_x,
    }
}

/// The vertical shift that an anchor adds to a position, built like
/// `align_shift_x` with top/center/bottom in place of left/center/right.
pub open spec fn align_shift_y(alignment: Alignment, size_y: int, container_y: int) -> int {
    match alignment {
        Alignment::TopLeft => 0,
        Alignment::TopCenter => 0,
        Alignment::TopRight => 0,
        Alignment::CenterLeft => container_y / 2 - size_y / 2,
        Alignment::Center => container_y / 2 - size_y / 2,
        Alignment::CenterRight => container_y / 2 - size_y / 2,
        Alignment::BottomLeft => container_y - size_y,
        Alignment::BottomCenter => container_y - size_y,
        Alignment::BottomRight => container_y - size_y,
    }
}

impl Alignment {
    /// Resolves the final position of a content box of extent `size`
    /// anchored inside a container of extent `screen_size`: each axis is
    /// shifted by nothing, half the slack, or the full slack, and the
    /// depth coordinate passes through unchanged.
    pub fn align_position(&self, position: Point3, size: Extent2, screen_size: Extent2) -> (r:
        Point3)
        requires
            -ALIGN_COORD_BOUND <= position.x <= ALIGN_COORD_BOUND,
            -ALIGN_COORD_BOUND <= position.y <= ALIGN_COORD_BOUND,
            0 <= size.x <= ALIGN_COORD_BOUND,
            0 <= size.y <= ALIGN_COORD_BOUND,
            0 <= screen_size.x <= ALIGN_COORD_BOUND,
            0 <= screen_size.y <= ALIGN_COORD_BOUND,
        ensures
            r.x == position.x + align_shift_x(*self, size.x as int, screen_size.x as int),
            r.y == position.y + align_shift_y(*self, size.y as int, screen_size.y as int),
            r.z == position.z,
    {
        let shift_x: i64 = match self {
            Alignment::TopLeft | Alignment::CenterLeft | Alignment::BottomLeft => 0,
            Alignment::TopCenter | Alignment::Center | Alignment::BottomCenter => (
            screen_size.x / 2) - (size.x / 2),
            Alignment::TopRight | Alignment::CenterRight | Alignment::BottomRight => screen_size.x
                - size.x,
        };
        let shift_y: i64 = match self {
            Alignment::TopLeft | Alignment::TopCenter | Alignment::TopRight => 0,
            Alignment::CenterLeft | Alignment::Center | Alignment::CenterRight => (
            screen_size.y / 2) - (size.y / 2),
            Alignment::BottomLeft | Alignment::BottomCenter | Alignment::BottomRight => screen_size.y
                - size.y,
        };
        Point3 { x: position.x + shift_x, y: position.y + shift_y, z: position.z }
    }
}

/// The top-left anchor is the identity transform: for every position and
/// every pair of boxes, the resolved position is the position given.
pub proof fn lemma_align_top_left_identity(
    position: Point3,
    size: Extent2,
    screen_size: Extent2,
)
    ensures
        position.x + align_shift_x(Alignment::TopLeft, size.x as int, screen_size.x as int)
            == position.x,
        position.y + align_shift_y(Alignment::TopLeft, size.y as int, screen_size.y as int)
            == position.y,
{
}

} // verus!
