//! Cells of the grid.

use vstd::prelude::*;
use crate::consts::{FOOD_COL_END, FOOD_COL_START, FOOD_ROW_END, FOOD_ROW_START, HEIGHT, WIDTH};

verus! {

/// A cell of the grid, by column and row.
#[derive(Debug, Clone, Copy, PartialEq, Eq, Structural)]
pub struct Position {
    pub x: i32,
    pub y: i32,
}

impl Position {
    /// The cell lies on the grid.
    pub open spec fn in_grid(self) -> bool {
        0 <= self.x < WIDTH && 0 <= self.y < HEIGHT
    }

    /// The cell lies on the outermost column or row of either side.
    pub open spec fn on_border(self) -> bool {
        self.x == 0 || self.x == WIDTH - 1 || self.y == 0 || self.y == HEIGHT - 1
    }

    /// The cell is one in which food may appear: neither on the border nor
    /// next to it.
    pub open spec fn in_food_area(self) -> bool {
        FOOD_COL_START <= self.x < FOOD_COL_END && FOOD_ROW_START <= self.y < FOOD_ROW_END
    }

    pub fn new(x: i32, y: i32) -> (p: Position)
        ensures
            p == (Position { x, y }),
    {
        Position { x, y }
    }

    /// Whether the cell lies on the border of the grid.
    pub fn is_on_border(self) -> (b: bool)
        ensures
            b == self.on_border(),
    {
        self.x == 0 || self.x == WIDTH - 1 || self.y == 0 || self.y == HEIGHT - 1
    }
}

/// Food cells lie on the grid and off its border.
pub proof fn lemma_food_area_is_inside(p: Position)
    requires
        p.in_food_area(),
    ensures
        p.in_grid(),
        !p.on_border(),
        2 <= p.x < WIDTH - 1,
        2 <= p.y < HEIGHT - 1,
{
}

} // verus!
