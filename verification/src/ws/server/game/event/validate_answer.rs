//! The Game Master judges the answer.

use vstd::prelude::*;

use crate::ws::server::game::event::{GameTick, TickResult};
use crate::ws::server::game::state::third_round::{ChooseAnswererState, ThirdRoundGameState};
use crate::ws::server::game::{tick_scored, Game, GameState};

verus! {

/// The answer was judged `is_valid`.
pub struct AnswerValidated {
    pub is_valid: bool,
}

impl GameTick<AnswerValidated> for Game {
    open spec fn tick_ready(&self, data: AnswerValidated) -> bool {
        self.state matches GameState::ThirdRound(ThirdRoundGameState::ValidateAnswer(s))
            && self.can_score(data.is_valid, s.answerer_id)
    }

    open spec fn ticked(&self, data: AnswerValidated, next: Game, res: TickResult) -> bool {
        &&& next.id == self.id
        &&& next.host == self.host
        &&& next.room == self.room
        &&& next.timer_armed == self.timer_armed
        &&& self.state matches GameState::ThirdRound(ThirdRoundGameState::ValidateAnswer(s)) && {
            &&& next.players@ == self.players@.insert(
                s.answerer_id,
                tick_scored(self.players@[s.answerer_id], data.is_valid),
            )
            &&& next.state == GameState::ThirdRound(
                ThirdRoundGameState::ChooseAnswerer(
                    ChooseAnswererState {
                        old_answerer_id: s.old_answerer_id,
                        chooser_id: s.answerer_id,
                    },
                ),
            )
            &&& res == TickResult::AnswerValidated(data.is_valid, s.answerer_id)
        }
    }

    fn tick(&mut self, data: AnswerValidated) -> (res: TickResult) {
        let (answerer_id, old_answerer_id) = match &self.state {
            GameState::ThirdRound(ThirdRoundGameState::ValidateAnswer(game_state)) => (
                game_state.answerer_id,
                game_state.old_answerer_id,
            ),
            _ => {
                assert(false);
                (0, None)
            },
        };
        self.handle_answer(data.is_valid, answerer_id);
        self.state = GameState::ThirdRound(
            ThirdRoundGameState::ChooseAnswerer(
                ChooseAnswererState { old_answerer_id, chooser_id: answerer_id },
            ),
        );
        TickResult::AnswerValidated(data.is_valid, answerer_id)
    }
}

} // verus!
