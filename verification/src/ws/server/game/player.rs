//! A player of a tick-driven game.

use vstd::prelude::*;

verus! {

/// A player of a tick-driven game and their score.
#[derive(Debug, Clone, Copy)]
pub struct Player {
    pub id: usize,
    pub points: usize,
    pub chances: usize,
    pub is_active: bool,
}

} // verus!
