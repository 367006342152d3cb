//! The answerer answers; the answer watch stops.

use vstd::prelude::*;

use crate::ws::server::game::event::{GameTick, TickResult};
use crate::ws::server::game::state::third_round::{ThirdRoundGameState, ValidateAnswerState};
use crate::ws::server::game::{Game, GameState};

verus! {

/// The answer `contents` was given.
pub struct QuestionAnswered {
    pub contents: String,
}

impl GameTick<QuestionAnswered> for Game {
    open spec fn tick_ready(&self, data: QuestionAnswered) -> bool {
        self.state matches GameState::ThirdRound(ThirdRoundGameState::Answer(_))
    }

    open spec fn ticked(&self, data: QuestionAnswered, next: Game, res: TickResult) -> bool {
        &&& next.same_but_state(*self)
        &&& !next.timer_armed
        &&& self.state matches GameState::ThirdRound(ThirdRoundGameState::Answer(s)) && {
            &&& next.state == GameState::ThirdRound(
                ThirdRoundGameState::ValidateAnswer(
                    ValidateAnswerState {
                        old_answerer_id: s.old_answerer_id,
                        answerer_id: s.answerer_id,
                        answer: data.contents,
                    },
                ),
            )
            &&& res == TickResult::QuestionAnswered(s.answerer_id, data.contents, s.question)
        }
    }

    fn tick(&mut self, data: QuestionAnswered) -> (res: TickResult) {
        let (old_answerer_id, answerer_id, question) = match &self.state {
            GameState::ThirdRound(ThirdRoundGameState::Answer(game_state)) => (
                game_state.old_answerer_id,
                game_state.answerer_id,
                game_state.question.clone(),
            ),
            _ => {
                assert(false);
                (None, 0, String::new())
            },
        };
        if self.timer_armed {
            self.timer_armed = false;
        }
        let result = TickResult::QuestionAnswered(answerer_id, data.contents.clone(), question);
        self.state = GameState::ThirdRound(
            ThirdRoundGameState::ValidateAnswer(
                ValidateAnswerState { old_answerer_id, answerer_id, answer: data.contents },
            ),
        );
        result
    }
}

} // verus!
