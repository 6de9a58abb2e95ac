//! The keys the game reacts to.

use vstd::prelude::*;
use crate::moveobj::Move;

verus! {

/// A key of the keyboard. Keys without a meaning in the game are all `Other`.
#[derive(Debug, Clone, Copy, PartialEq, Eq, Structural)]
pub enum Key {
    W,
    A,
    S,
    D,
    Up,
    Down,
    Left,
    Right,
    Return,
    Escape,
    Other,
}

impl Key {
    /// The direction a movement key asks for; `None` for every other key.
    pub open spec fn direction(self) -> Option<Move> {
        match self {
            Key::W | Key::Up => Some(Move::Up),
            Key::A | Key::Left => Some(Move::Left),
            Key::S | Key::Down => Some(Move::Down),
            Key::D | Key::Right => Some(Move::Right),
            _ => None,
        }
    }

    /// The direction a movement key asks for.
    pub fn to_direction(self) -> (wish: Option<Move>)
        ensures
            wish == self.direction(),
    {
        match self {
            Key::W | Key::Up => Some(Move::Up),
            Key::A | Key::Left => Some(Move::Left),
            Key::S | Key::Down => Some(Move::Down),
            Key::D | Key::Right => Some(Move::Right),
            _ => None,
        }
    }
}

} // verus!
