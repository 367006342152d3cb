//! The Game Master asks a question; the answer watch starts.

use vstd::prelude::*;

use crate::ws::server::game::event::{GameTick, TickResult};
use crate::ws::server::game::state::third_round::{AnswerState, ThirdRoundGameState};
use crate::ws::server::game::{Game, GameState};

verus! {

/// The question `contents` was asked.
pub struct AskedQuestion<'a> {
    pub contents: &'a str,
}

impl<'a> GameTick<AskedQuestion<'a>> for Game {
    open spec fn tick_ready(&self, data: AskedQuestion<'a>) -> bool {
        self.state matches GameState::ThirdRound(ThirdRoundGameState::AskQuestion(_))
    }

    open spec fn ticked(&self, data: AskedQuestion<'a>, next: Game, res: TickResult) -> bool {
        &&& next.same_but_state(*self)
        &&& next.timer_armed
        &&& self.state matches GameState::ThirdRound(ThirdRoundGameState::AskQuestion(s)) && {
            &&& next.state matches GameState::ThirdRound(ThirdRoundGameState::Answer(a))
                && a.old_answerer_id == s.old_answerer_id && a.answerer_id == s.answerer_id
                && a.question@ == data.contents@
            &&& res == TickResult::QuestionAsked(s.answerer_id)
        }
    }

    fn tick(&mut self, data: AskedQuestion<'a>) -> (res: TickResult) {
        let (old_answerer_id, answerer_id) = match &self.state {
            GameState::ThirdRound(ThirdRoundGameState::AskQuestion(game_state)) => (
                game_state.old_answerer_id,
                game_state.answerer_id,
            ),
            _ => {
                assert(false);
                (None, 0)
            },
        };
        self.timer_armed = true;
        self.state = GameState::ThirdRound(
            ThirdRoundGameState::Answer(
                AnswerState { old_answerer_id, answerer_id, question: data.contents.to_owned() },
            ),
        );
        TickResult::QuestionAsked(answerer_id)
    }
}

} // verus!
