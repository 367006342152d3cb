//! The answer watch ran out.

use vstd::prelude::*;

use crate::ws::server::game::event::{GameTick, TickResult};
use crate::ws::server::game::state::third_round::{
    AskQuestionState,
    ChooseAnswererState,
    ThirdRoundGameState,
};
use crate::ws::server::game::{tick_scored, Game, GameState};

verus! {

/// The answer time ran out.
pub struct AnswerTimeout;

impl GameTick<AnswerTimeout> for Game {
    open spec fn tick_ready(&self, data: AnswerTimeout) -> bool {
        self.state matches GameState::ThirdRound(ThirdRoundGameState::Answer(s)) ==> {
            &&& self.can_score(false, s.answerer_id)
            &&& s.old_answerer_id is None ==> self.players@.len() > 0
        }
    }

    /// While an answer is awaited, the answerer loses a chance; the previous
    /// answerer chooses next, or else a player is drawn and reported while
    /// the same answerer is asked again. In any other state nothing moves.
    open spec fn ticked(&self, data: AnswerTimeout, next: Game, res: TickResult) -> bool {
        &&& next.id == self.id
        &&& next.host == self.host
        &&& next.room == self.room
        &&& next.timer_armed == self.timer_armed
        &&& match self.state {
            GameState::ThirdRound(ThirdRoundGameState::Answer(s)) => {
                &&& next.players@ == self.players@.insert(
                    s.answerer_id,
                    tick_scored(self.players@[s.answerer_id], false),
                )
                &&& match s.old_answerer_id {
                    Some(a) => {
                        &&& next.state == GameState::ThirdRound(
                            ThirdRoundGameState::ChooseAnswerer(
                                ChooseAnswererState { old_answerer_id: s.old_answerer_id, chooser_id: a },
                            ),
                        )
                        &&& res matches TickResult::AnswerTimeout(n, st) && n == Some(a)
                            && st@ == "ChooseAnswerer"@
                    },
                    None => {
                        &&& next.state == GameState::ThirdRound(
                            ThirdRoundGameState::AskQuestion(
                                AskQuestionState { old_answerer_id: None, answerer_id: s.answerer_id },
                            ),
                        )
                        &&& res matches TickResult::AnswerTimeout(n, st) && n is Some
                            && self.players@.contains_key(n->0) && st@ == "AskQuestion"@
                    },
                }
            },
            _ => {
                &&& next.players@ == self.players@
                &&& next.state == self.state
                &&& res matches TickResult::AnswerTimeout(n, st) && n is None && st@.len() == 0
            },
        }
    }

    fn tick(&mut self, _data: AnswerTimeout) -> (res: TickResult) {
        let new_answerer_id;
        let new_state;
        let waiting = match &self.state {
            GameState::ThirdRound(ThirdRoundGameState::Answer(game_state)) => Some(
                (game_state.old_answerer_id, game_state.answerer_id),
            ),
            _ => None,
        };
        match waiting {
            Some((old_answerer_id, answerer_id)) => {
                self.handle_answer(false, answerer_id);
                match old_answerer_id {
                    Some(chooser_id) => {
                        new_answerer_id = Some(chooser_id);
                        new_state = "ChooseAnswerer".to_owned();
                        self.state = GameState::ThirdRound(
                            ThirdRoundGameState::ChooseAnswerer(
                                ChooseAnswererState { old_answerer_id, chooser_id },
                            ),
                        );
                    },
                    None => {
                        new_answerer_id = Some(self.get_random_player_id());
                        new_state = "AskQuestion".to_owned();
                        self.state = GameState::ThirdRound(
                            ThirdRoundGameState::AskQuestion(
                                AskQuestionState { old_answerer_id: None, answerer_id },
                            ),
                        );
                    },
                }
            },
            None => {
                new_answerer_id = None;
                new_state = String::new();
            },
        }
        TickResult::AnswerTimeout(new_answerer_id, new_state)
    }
}

} // verus!
