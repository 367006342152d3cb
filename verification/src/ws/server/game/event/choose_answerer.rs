//! The answerer names the next one.

use vstd::prelude::*;

use crate::ws::server::game::event::{GameTick, TickResult};
use crate::ws::server::game::state::third_round::{AskQuestionState, ThirdRoundGameState};
use crate::ws::server::game::{Game, GameState};

verus! {

/// `answerer_id` was named to answer next.
pub struct AnswererChosen {
    pub answerer_id: usize,
}

impl GameTick<AnswererChosen> for Game {
    open spec fn tick_ready(&self, data: AnswererChosen) -> bool {
        self.state matches GameState::ThirdRound(ThirdRoundGameState::ChooseAnswerer(_))
    }

    open spec fn ticked(&self, data: AnswererChosen, next: Game, res: TickResult) -> bool {
        &&& next.same_but_state(*self)
        &&& next.timer_armed == self.timer_armed
        &&& res == TickResult::AnswererChosen(data.answerer_id)
        &&& self.state matches GameState::ThirdRound(ThirdRoundGameState::ChooseAnswerer(s))
            && next.state == GameState::ThirdRound(
            ThirdRoundGameState::AskQuestion(
                AskQuestionState {
                    old_answerer_id: Some(s.chooser_id),
                    answerer_id: data.answerer_id,
                },
            ),
        )
    }

    fn tick(&mut self, data: AnswererChosen) -> (res: TickResult) {
        let chooser_id = match &self.state {
            GameState::ThirdRound(ThirdRoundGameState::ChooseAnswerer(game_state)) => game_state.chooser_id,
            _ => {
                assert(false);
                0
            },
        };
        self.state = GameState::ThirdRound(
            ThirdRoundGameState::AskQuestion(
                AskQuestionState { old_answerer_id: Some(chooser_id), answerer_id: data.answerer_id },
            ),
        );
        TickResult::AnswererChosen(data.answerer_id)
    }
}

} // verus!
