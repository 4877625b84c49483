//! The logic of a chessboard front end.
//!
//! The board is an 8×8 grid drawn on a fixed surface. Clicks select a piece
//! and then a destination; the rules of chess belong to an engine that the
//! embedding program drives on this library's behalf. Nothing here draws,
//! reads input or talks to the engine: the library says what is to be drawn
//! and which engine operations are to be made, and proves that it says so
//! consistently.

pub mod board;
pub mod interaction;
pub mod laws;
pub mod render;
pub mod sprites;
