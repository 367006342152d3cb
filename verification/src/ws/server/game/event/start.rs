//! The game starts: the first answerer is drawn at random.

use vstd::prelude::*;

use crate::ws::server::game::event::{GameTick, TickResult};
use crate::ws::server::game::state::third_round::{AskQuestionState, ThirdRoundGameState};
use crate::ws::server::game::{Game, GameState};

verus! {

/// Start the game.
pub struct Start;

impl GameTick<Start> for Game {
    open spec fn tick_ready(&self, data: Start) -> bool {
        &&& self.state matches GameState::ThirdRound(ThirdRoundGameState::Start)
        &&& self.players@.len() > 0
    }

    open spec fn ticked(&self, data: Start, next: Game, res: TickResult) -> bool {
        &&& next.same_but_state(*self)
        &&& next.timer_armed == self.timer_armed
        &&& res matches TickResult::Started
        &&& next.state matches GameState::ThirdRound(ThirdRoundGameState::AskQuestion(s))
            && s.old_answerer_id is None && self.players@.contains_key(s.answerer_id)
    }

    fn tick(&mut self, _data: Start) -> (res: TickResult) {
        let new_answerer_id = self.get_random_player_id();
        self.state = GameState::ThirdRound(
            ThirdRoundGameState::AskQuestion(
                AskQuestionState { old_answerer_id: None, answerer_id: new_answerer_id },
            ),
        );
        TickResult::Started
    }
}

} // verus!
