//! The four directions in which the snake can travel.

use vstd::prelude::*;
use crate::position::Position;

verus! {

/// A direction of travel.
#[derive(Debug, Clone, Copy, PartialEq, Eq, Structural)]
pub enum Move {
    Up,
    Down,
    Left,
    Right,
}

impl Move {
    /// The direction that points the other way.
    pub open spec fn opposite(self) -> Move {
        match self {
            Move::Up => Move::Down,
            Move::Down => Move::Up,
            Move::Left => Move::Right,
            Move::Right => Move::Left,
        }
    }

    /// The cell one step from `from` in this direction. Rows grow downwards.
    pub open spec fn step_from(self, from: Position) -> Position {
        match self {
            Move::Left => Position { x: (from.x - 1) as i32, y: from.y },
            Move::Right => Position { x: (from.x + 1) as i32, y: from.y },
            Move::Up => Position { x: from.x, y: (from.y - 1) as i32 },
            Move::Down => Position { x: from.x, y: (from.y + 1) as i32 },
        }
    }

    /// Whether `other` points the other way.
    pub fn is_opposite(self, other: Move) -> (b: bool)
        ensures
            b == (other == self.opposite()),
    {
        match self {
            Move::Up => other == Move::Down,
            Move::Down => other == Move::Up,
            Move::Left => other == Move::Right,
            Move::Right => other == Move::Left,
        }
    }

    /// Moves one step from `from` in this direction.
    pub fn advance(self, from: Position) -> (to: Position)
        requires
            from.in_grid(),
            !from.on_border(),
        ensures
            to == self.step_from(from),
            to.in_grid(),
    {
        match self {
            Move::Left => Position { x: from.x - 1, y: from.y },
            Move::Right => Position { x: from.x + 1, y: from.y },
            Move::Up => Position { x: from.x, y: from.y - 1 },
            Move::Down => Position { x: from.x, y: from.y + 1 },
        }
    }
}

} // verus!
