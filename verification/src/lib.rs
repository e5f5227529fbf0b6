//! A falling-block puzzle engine: the field of settled blocks, the piece
//! under the player's control, line clearing, the hold slot and the gravity
//! timer. Piece shapes and session settings come from the embedding program.

pub mod error;
pub mod field;
pub mod flags;
pub mod game;
pub mod geometry;
pub mod laws;
pub mod mask;
pub mod pattern;
pub mod pieces;
pub mod profile_api;
pub mod size;
pub mod state;
