//! Typed, transport-independent protocol library for Chessnut Move boards.
//!
//! The [`protocol`] module turns the board's byte protocol into typed values
//! (squares, positions, commands and decoded events), and [`transport`] holds
//! notification routing, the owning board sessions and the decision logic of
//! the concurrent board actor.

pub mod protocol;
pub mod transport;
