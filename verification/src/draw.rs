//! Rectangles of the screen.

use vstd::prelude::*;

verus! {

/// A rectangle of the screen, in cells.
#[derive(Debug, Clone, Copy, PartialEq, Eq, Structural)]
pub struct Rect {
    pub x: u16,
    pub y: u16,
    pub width: u16,
    pub height: u16,
}

/// The side of a rectangle on which room is left.
#[derive(Debug, Clone, Copy, PartialEq, Eq, Structural)]
pub enum PaddingDirection {
    Top,
    Bottom,
    Left,
    Right,
    All,
}

/// `a - b`, or 0 where `b` is larger.
pub open spec fn minus(a: int, b: int) -> int {
    if a >= b {
        a - b
    } else {
        0
    }
}

/// A rectangle with `n` cells of room left on a side: the rectangle starts later on that
/// side and shrinks by as much, down to nothing.
pub open spec fn padded(rect: Rect, n: u16, direction: PaddingDirection) -> Rect {
    match direction {
        PaddingDirection::Top => Rect {
            y: (rect.y + n) as u16,
            height: minus(rect.height as int, n as int) as u16,
            ..rect
        },
        PaddingDirection::Bottom => Rect {
            height: minus(rect.height as int, n as int) as u16,
            ..rect
        },
        PaddingDirection::Left => Rect {
            x: (rect.x + n) as u16,
            width: minus(rect.width as int, n as int) as u16,
            ..rect
        },
        PaddingDirection::Right => Rect {
            width: minus(rect.width as int, n as int) as u16,
            ..rect
        },
        PaddingDirection::All => Rect {
            x: (rect.x + n) as u16,
            y: (rect.y + n) as u16,
            width: minus(rect.width as int, 2 * n) as u16,
            height: minus(rect.height as int, 2 * n) as u16,
        },
    }
}

/// Whether a rectangle can be padded without leaving the range of cell numbers.
pub open spec fn can_pad(rect: Rect, n: u16, direction: PaddingDirection) -> bool {
    match direction {
        PaddingDirection::Top => rect.y + n <= u16::MAX,
        PaddingDirection::Bottom => true,
        PaddingDirection::Left => rect.x + n <= u16::MAX,
        PaddingDirection::Right => true,
        PaddingDirection::All => rect.y + n <= u16::MAX && rect.x + n <= u16::MAX && 2 * n
            <= u16::MAX,
    }
}

/// Leaves `n` cells of room on a side of a rectangle.
pub fn add_padding(rect: Rect, n: u16, direction: PaddingDirection) -> (out: Rect)
    requires
        can_pad(rect, n, direction),
    ensures
        out == padded(rect, n, direction),
{
    let mut rect = rect;
    match direction {
        PaddingDirection::Top => {
            rect.y = rect.y + n;
            rect.height = rect.height.saturating_sub(n);
            rect
        },
        PaddingDirection::Bottom => {
            rect.height = rect.height.saturating_sub(n);
            rect
        },
        PaddingDirection::Left => {
            rect.x = rect.x + n;
            rect.width = rect.width.saturating_sub(n);
            rect
        },
        PaddingDirection::Right => {
            rect.width = rect.width.saturating_sub(n);
            rect
        },
        PaddingDirection::All => {
            rect.y = rect.y + n;
            rect.height = rect.height.saturating_sub(n * 2);
            rect.x = rect.x + n;
            rect.width = rect.width.saturating_sub(n * 2);
            rect
        },
    }
}

} // verus!
