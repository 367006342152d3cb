//! The states of a tick-driven game.

pub mod third_round;
