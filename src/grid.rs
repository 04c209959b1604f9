use vstd::prelude::*;

verus! {

/// Number of rows of the canvas.
pub const ROW_PIXELS: u32 = 5;

/// Number of columns of the canvas.
pub const COL_PIXELS: u32 = 5;

/// Number of cells of the canvas.
pub const CELL_COUNT: u32 = 25;

/// The linear slot of cell `(x, y)`: row-major, `(0, 0)` at the top left.
pub open spec fn slot_of(x: u32, y: u32) -> int {
    y * COL_PIXELS + x
}

/// A coordinate pair lies on the grid.
pub open spec fn on_grid(x: u32, y: u32) -> bool {
    x < COL_PIXELS && y < ROW_PIXELS
}

/// Slot of `(x, y)`. Coordinates are not checked against the grid: a pair
/// off the grid gives a slot that later lookups reject.
pub fn get_index_from_coords(x: u32, y: u32) -> (r: u32)
    requires
        slot_of(x, y) <= u32::MAX,
    ensures
        r == slot_of(x, y),
{
    y * COL_PIXELS + x
}

/// Whether `(x, y)` names a slot of the overlay.
pub open spec fn in_overlay(x: u32, y: u32) -> bool {
    slot_of(x, y) < CELL_COUNT
}

/// The slot of `(x, y)` when it lies in the overlay.
pub(crate) fn overlay_slot(x: u32, y: u32) -> (r: Option<u32>)
    ensures
        r == (if in_overlay(x, y) {
            Some(slot_of(x, y) as u32)
        } else {
            None::<u32>
        }),
{
    if y >= ROW_PIXELS || x >= CELL_COUNT - y * COL_PIXELS {
        None
    } else {
        Some(get_index_from_coords(x, y))
    }
}

} // verus!
