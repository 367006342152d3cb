//! The notice that a player ran out of chances.

use vstd::prelude::*;

verus! {

/// A player of a game has no chances left.
#[derive(Debug)]
pub struct PlayerLost {
    pub player_id: usize,
    pub game_id: usize,
    pub points: usize,
}

} // verus!
