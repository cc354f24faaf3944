//! Touch input: what the touchscreen reports at a poll, and the menu cell that a touched
//! point belongs to.

use vstd::prelude::*;
use crate::simple::render::{
    COLUMN_WIDTH, HORIZONTAL_RESOLUTION, MAX_ROUTES, ROWS, ROW_HEIGHT, VERTICAL_RESOLUTION,
};

verus! {

/// The state of a touch, as the touchscreen reports it.
#[derive(Clone, Copy, Debug, PartialEq, Eq, Structural)]
pub enum TouchState {
    /// The display is not being touched, and no touch has just ended.
    Idle,
    /// The touch has been released.
    Released,
    /// The display has been touched.
    Pressed,
    /// The display has been touched and is still being held.
    Held,
}

/// The last recorded state of the touchscreen: the state of the touch and the pixel at which
/// the display was touched.
#[derive(Clone, Copy, Debug, PartialEq, Eq, Structural)]
pub struct TouchEvent {
    pub state: TouchState,
    pub x: i16,
    pub y: i16,
}

/// The quotient of `a` by a positive `b`, rounded toward zero.
pub open spec fn div_toward_zero(a: int, b: int) -> int {
    if a >= 0 {
        a / b
    } else {
        -((-a) / b)
    }
}

/// The position in the grid of the pixel `(x, y)`: six times the number of its column plus
/// the number of its row. It is negative for some pixels off the display.
pub open spec fn grid_position(x: int, y: int) -> int {
    6 * div_toward_zero(x, COLUMN_WIDTH as int) + div_toward_zero(y, ROW_HEIGHT as int)
}

/// The index of the cell that the pixel `(x, y)` maps to. A negative grid position wraps
/// around to the top of the range of `usize`, far beyond any cell.
pub open spec fn cell_index(x: int, y: int) -> int {
    let position = grid_position(x, y);
    if position >= 0 {
        position
    } else {
        position + usize::MAX + 1
    }
}

/// Maps a touched pixel to the index of its cell. An index that is not below the number of
/// routes stands for empty space.
pub fn touch_index(x: i16, y: i16) -> (index: usize)
    ensures
        index == cell_index(x as int, y as int),
{
    let position: i16 = 6 * (x / COLUMN_WIDTH) + y / ROW_HEIGHT;
    if position >= 0 {
        position as usize
    } else {
        usize::MAX - ((-(position + 1)) as usize)
    }
}

impl TouchEvent {
    /// Whether the display is being touched: pressed just now, or still held.
    pub open spec fn is_down(self) -> bool {
        self.state is Pressed || self.state is Held
    }

    /// The index of the touched cell.
    pub open spec fn cell(self) -> usize {
        cell_index(self.x as int, self.y as int) as usize
    }

    /// Whether the display is being touched.
    pub fn down(&self) -> (down: bool)
        ensures
            down == self.is_down(),
    {
        match self.state {
            TouchState::Idle => false,
            TouchState::Released => false,
            TouchState::Pressed => true,
            TouchState::Held => true,
        }
    }

    /// The index of the touched cell.
    pub fn index(&self) -> (index: usize)
        ensures
            index == self.cell(),
    {
        touch_index(self.x, self.y)
    }
}

/// Within one half of the display, a touch further down never maps to a smaller index.
pub proof fn lemma_touch_index_monotonic(x1: int, y1: int, x2: int, y2: int)
    requires
        0 <= x1,
        0 <= x2,
        x1 / (COLUMN_WIDTH as int) == x2 / (COLUMN_WIDTH as int),
        0 <= y1 <= y2,
    ensures
        cell_index(x1, y1) <= cell_index(x2, y2),
{
}

/// On the display a touch maps to six times its column plus its row, an index below 12.
pub proof fn lemma_touch_index_on_display(x: int, y: int)
    requires
        0 <= x < HORIZONTAL_RESOLUTION,
        0 <= y < VERTICAL_RESOLUTION,
    ensures
        cell_index(x, y) == 6 * (x / (COLUMN_WIDTH as int)) + y / (ROW_HEIGHT as int),
        0 <= x / (COLUMN_WIDTH as int) <= 1,
        0 <= y / (ROW_HEIGHT as int) <= 5,
        cell_index(x, y) < MAX_ROUTES,
{
}

/// Below the sixth row a touch maps to no cell of its column: the index is 6 or more in
/// the left half and 12 or more in the right half. So it is out of range in the right
/// half, and in the left half wherever the routes fill no more than the left column or
/// the touch lies as many rows down as there are routes.
pub proof fn lemma_touch_below_rows(x: int, y: int, count: nat)
    requires
        0 <= x,
        y >= ROWS * ROW_HEIGHT,
        count <= MAX_ROUTES,
        x >= COLUMN_WIDTH || count <= ROWS || y >= ROW_HEIGHT * count,
    ensures
        cell_index(x, y) >= 6 * (x / (COLUMN_WIDTH as int)) + 6,
        cell_index(x, y) >= count,
{
}

} // verus!
