//! A two-player piece-dropping game on a five-by-five grid.
//!
//! [`Game`] is the turn-taking state machine: it tracks whose turn it is,
//! where a piece may be placed and how many pieces each player has placed.
//! [`Board`] is the grid with its drawing geometry, and [`Area`] the pixel
//! extent that clicks and drawing are measured against. Rendering is
//! described as a list of [`DrawCommand`]s that the caller replays on a
//! drawing surface.
//!
//! Everything here is verified but for one function, which draws random
//! numbers from the `rand` crate and whose contract is taken on trust.

pub mod area;
pub mod board;
pub mod color;
pub mod game;
pub mod piece;
mod random;
pub mod render;
pub mod tally;

pub use area::{Area, COLS, ROWS};
pub use board::Board;
pub use color::Rgb;
pub use game::{Game, PLACEMENT_LIMIT};
pub use piece::Piece;
pub use render::DrawCommand;
