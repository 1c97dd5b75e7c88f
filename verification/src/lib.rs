//! An N-in-a-row board game engine.
//!
//! Players register a unique single-character identifier each, a square
//! board is created (at least as large as the number of players), and the
//! players take turns marking cells until one of them owns a full row, a
//! full column, or a full diagonal.

pub mod board;
pub mod registry;
pub mod win;
pub mod game;
pub mod input;
