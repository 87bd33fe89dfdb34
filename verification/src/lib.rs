//! An engine for m,n,k-games: a rectangular board on which players place
//! marks, and the test whether a move completed a winning line.

pub mod player;
pub mod coordinate;
pub mod board;
pub mod detector;
pub mod session;
