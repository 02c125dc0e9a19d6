//! A falling-block puzzle simulation: a ten by twenty board, the seven
//! four-cell pieces in their four orientations, and the rules by which the
//! single active piece spawns, moves, rotates, falls and locks.

pub mod board;
pub mod game;
pub mod random;
pub mod tetrominoes;
