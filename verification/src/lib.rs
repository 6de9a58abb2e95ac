//! The rules of a terminal snake game: the screens the player moves through,
//! and the simulation that runs while a game is being played.
//!
//! The library neither draws nor polls the keyboard. Each tick takes the key
//! that was pressed, if any, and hands back the drawing commands of the frame.

pub mod consts;
pub mod text;
pub mod difficulties;
pub mod position;
pub mod moveobj;
pub mod input;
pub mod render;
pub mod tail;
pub mod clock;
pub mod random;
pub mod game;
pub mod menu;
pub mod state;
