//! Verified core of a five-letter word-guessing game: letter and word
//! validation, per-letter feedback of a guess against a hidden answer, a
//! bounded-attempt game state machine, and the board-layout arithmetic and
//! draw instructions used by a terminal renderer.

pub mod feedback;
pub mod game;
pub mod layout;
pub mod letters;
pub mod render;
