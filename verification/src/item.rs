//! The rectangles that live on the canvas.

use vstd::prelude::*;

verus! {

/// An axis-aligned rectangle: its corner of least coordinates and its extent.
///
/// The rectangle covers the points from `(coord_x, coord_y)` to
/// `(coord_x + width, coord_y + height)`, both borders included. An item with a
/// negative extent covers no point.
#[derive(Clone, Copy, Debug, PartialEq, Eq, Structural)]
pub struct Item {
    pub coord_x: i64,
    pub coord_y: i64,
    pub width: i64,
    pub height: i64,
}

/// The coordinate nearest to `v` that an `i64` can hold.
pub open spec fn clamp_coord(v: int) -> i64 {
    if v > i64::MAX {
        i64::MAX
    } else if v < i64::MIN {
        i64::MIN
    } else {
        v as i64
    }
}

/// Moves the coordinate `start` by `delta`, stopping at the ends of the
/// coordinate range.
pub fn offset_coord(start: i64, delta: i64) -> (moved: i64)
    ensures
        moved == clamp_coord(start + delta),
{
    match start.checked_add(delta) {
        Some(sum) => sum,
        None => if delta > 0 {
            i64::MAX
        } else {
            i64::MIN
        },
    }
}

impl Item {
    /// Whether the point `(x, y)` lies in the item's bounding box.
    pub open spec fn covers(self, x: int, y: int) -> bool {
        &&& self.coord_x <= x <= self.coord_x + self.width
        &&& self.coord_y <= y <= self.coord_y + self.height
    }

    /// The item with its corner at `(x, y)` and its extent unchanged.
    pub open spec fn placed_at(self, x: i64, y: i64) -> Item {
        Item { coord_x: x, coord_y: y, width: self.width, height: self.height }
    }

    /// An item with the given corner and extent.
    pub fn new(coord_x: i64, coord_y: i64, width: i64, height: i64) -> (item: Item)
        ensures
            item == (Item { coord_x, coord_y, width, height }),
    {
        Item { coord_x, coord_y, width, height }
    }

    /// Tests whether the point `(x, y)` lies in the item's bounding box.
    pub fn contains(&self, x: i64, y: i64) -> (inside: bool)
        ensures
            inside == self.covers(x as int, y as int),
    {
        let right: i128 = self.coord_x as i128 + self.width as i128;
        let bottom: i128 = self.coord_y as i128 + self.height as i128;
        x >= self.coord_x && x as i128 <= right && y >= self.coord_y && y as i128 <= bottom
    }

    /// Puts the item's corner at `(x, y)` and keeps its extent.
    pub fn move_to(&mut self, x: i64, y: i64)
        ensures
            *final(self) == old(self).placed_at(x, y),
    {
        self.coord_x = x;
        self.coord_y = y;
    }
}

} // verus!
