//! Where the artwork sits inside its panel.

use vstd::prelude::*;

verus! {

/// A rectangle of terminal cells.
#[derive(Clone, Copy, Debug, PartialEq, Eq, Structural)]
pub struct Area {
    pub x: u16,
    pub y: u16,
    pub width: u16,
    pub height: u16,
}

/// `n` less two, but never below zero.
pub open spec fn less_two(n: int) -> int {
    if n >= 2 {
        n - 2
    } else {
        0
    }
}

/// How far the artwork is moved in from the edge of a panel that is `n` cells
/// wide or high: half of the room that shrinking leaves.
pub open spec fn inset(n: int) -> int {
    (n - less_two(n)) / 2
}

/// The area that the artwork takes inside `area`: two cells narrower and two
/// lower where there is room, and centred in the room that this leaves.
pub open spec fn centered(area: Area) -> Area {
    Area {
        x: (area.x + inset(area.width as int)) as u16,
        y: (area.y + inset(area.height as int)) as u16,
        width: less_two(area.width as int) as u16,
        height: less_two(area.height as int) as u16,
    }
}

/// Shrinks a panel to the area that the artwork takes, leaving a margin of one
/// cell on each side where the panel is large enough.  The corner of the
/// artwork must lie inside the range of cell coordinates.
pub fn center_area(area: Area) -> (inner: Area)
    requires
        area.x + inset(area.width as int) <= u16::MAX,
        area.y + inset(area.height as int) <= u16::MAX,
    ensures
        inner == centered(area),
        area.x <= inner.x,
        area.y <= inner.y,
        inner.x + inner.width <= area.x + area.width,
        inner.y + inner.height <= area.y + area.height,
{
    let max_width = area.width;
    let max_height = area.height;
    let target_width = max_width.saturating_sub(2);
    let target_height = max_height.saturating_sub(2);
    let x = area.x + (max_width.saturating_sub(target_width)) / 2;
    let y = area.y + (max_height.saturating_sub(target_height)) / 2;
    Area { x, y, width: target_width, height: target_height }
}

} // verus!
