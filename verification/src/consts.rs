//! The dimensions of the playing field.

use vstd::prelude::*;

verus! {

/// Number of columns of the grid. Columns `0` and `WIDTH - 1` are border.
pub const WIDTH: i32 = 100;

/// Number of rows of the grid. Rows `0` and `HEIGHT - 1` are border.
pub const HEIGHT: i32 = 56;

/// The row in the middle of the grid.
pub const MIDDLE_ROW: i32 = 28;

/// Distance of the score indicator from the right edge of the top border.
pub const SCORE_INDICATOR_OFFSET: i32 = 15;

/// First column in which food may appear.
pub const FOOD_COL_START: i32 = 2;

/// One past the last column in which food may appear.
pub const FOOD_COL_END: i32 = WIDTH - 2;

/// First row in which food may appear.
pub const FOOD_ROW_START: i32 = 2;

/// One past the last row in which food may appear.
pub const FOOD_ROW_END: i32 = HEIGHT - 2;

/// The middle row is half the height down the grid.
pub proof fn lemma_middle_row_halves_height()
    ensures
        MIDDLE_ROW == HEIGHT / 2,
{
}

} // verus!
