//! A rule engine for chess: it keeps the position, decides whether a proposed
//! move is legal for the piece on its square, and advances the game.

pub mod coords;
pub mod figure;
pub mod figures;
pub mod game;
pub mod movable;
pub mod notation;
pub mod outcome;
pub mod position;
pub mod shade;
