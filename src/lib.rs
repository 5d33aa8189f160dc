//! A two-player chess match with a stake: who may act, when the board may
//! change, and how a finished game records its winner.
pub mod engine;
pub mod game;
pub mod laws;
