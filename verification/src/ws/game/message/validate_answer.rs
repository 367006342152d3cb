//! The Game Master judges the answer; and what happens when the answerer
//! runs out of time.

use vstd::prelude::*;

use crate::ws::game::message::{GameEffect, GameMessageResponse, GameMessageResult};
use crate::ws::game::state::{AskQuestionState, ChooseAnswererState, GameState};
use crate::ws::game::{not_host_message, scored_player, wrong_state_message, Game};
use crate::ws::server::message::game_message::answer_timeout::AnswerTimedOut;
use crate::ws::server::message::game_message::player_lost::PlayerLost;

verus! {

/// The Game Master `host_id` judges the answer: `is_valid` or not.
pub struct ValidateAnswer {
    pub is_valid: bool,
    pub host_id: usize,
}

/// The notices that scoring the answer of `answerer_id` as `is_valid` owes
/// the room: a `PlayerLost` when it took the player's last chance.
pub open spec fn scoring_notices(g: Game, is_valid: bool, answerer_id: usize) -> Seq<GameEffect> {
    if !is_valid && g.players@[answerer_id].chances == 1 {
        seq![
            GameEffect::PlayerLost(
                PlayerLost {
                    game_id: g.id,
                    player_id: answerer_id,
                    points: g.players@[answerer_id].points,
                },
            ),
        ]
    } else {
        seq![]
    }
}

/// The players of `g` after the answer of `answerer_id` was judged.
pub open spec fn scored_players(g: Game, is_valid: bool, answerer_id: usize) -> Map<usize, crate::ws::game::Player> {
    g.players@.insert(
        answerer_id,
        scored_player(g.players@[answerer_id], is_valid, g.config.valid_answer_reward),
    )
}

impl Game {
    /// Judging the answer by `msg` keeps the score within range: when the
    /// Game Master judges a given answer, its answerer is a player whose
    /// points or chances can take the result, and a random draw, if one is
    /// due, has players to draw from.
    pub open spec fn validate_ok(self, msg: ValidateAnswer) -> bool {
        msg.host_id == self.host.id ==> (self.state matches GameState::ValidateAnswer(s) ==> {
            &&& self.can_score(msg.is_valid, s.answerer_id)
            &&& !msg.is_valid && s.previous_answerer_id is None ==> self.players@.len() > 0
        })
    }

    /// The answer timer can fire without leaving a range: while an answer is
    /// awaited, the answerer is a player with a chance left, and a random
    /// draw, if one is due, has players to draw from.
    pub open spec fn timeout_ok(self) -> bool {
        self.state matches GameState::Answer(s) ==> {
            &&& self.can_score(false, s.answerer_id)
            &&& s.previous_answerer_id is None ==> self.players@.len() > 0
        }
    }

    /// Tells whether `validate_ok(msg)` holds, so that a caller can test it
    /// before passing the verdict on.
    pub fn can_validate(&self, msg: &ValidateAnswer) -> (res: bool)
        ensures
            res == self.validate_ok(*msg),
    {
        if msg.host_id != self.host.id {
            return true;
        }
        match &self.state {
            GameState::ValidateAnswer(s) => self.can_score(msg.is_valid, s.answerer_id) && (
            msg.is_valid || s.previous_answerer_id.is_some() || self.players.len() > 0),
            _ => true,
        }
    }

    /// Tells whether `timeout_ok()` holds, so that a caller can test it
    /// before firing the answer timer.
    pub fn can_time_out(&self) -> (res: bool)
        ensures
            res == self.timeout_ok(),
    {
        match &self.state {
            GameState::Answer(s) => self.can_score(false, s.answerer_id) && (
            s.previous_answerer_id.is_some() || self.players.len() > 0),
            _ => true,
        }
    }

    /// The effect of `ValidateAnswer` on a game `pre`, giving `post`, the answer and the effects `res`.
    pub open spec fn validate_answer_spec(pre: Game, post: Game, msg: ValidateAnswer, res: (GameMessageResult, Seq<GameEffect>)) -> bool {
        &&& (msg.host_id != pre.host.id ==> {
            &&& post.state == pre.state
            &&& post.same_but_state(pre)
            &&& pre.refused_with(
                res.0,
                not_host_message("ValidateAnswer"@, msg.host_id, pre.host.id),
            )
            &&& res.1.len() == 0
        })
        &&& (msg.host_id == pre.host.id ==> match pre.state {
            GameState::ValidateAnswer(s) => {
                &&& post.id == pre.id
                &&& post.host == pre.host
                &&& post.config == pre.config
                &&& post.room == pre.room
                &&& post.players@ == scored_players(pre, msg.is_valid, s.answerer_id)
                &&& res.1 == scoring_notices(pre, msg.is_valid, s.answerer_id)
                &&& if msg.is_valid {
                    &&& post.state == GameState::ChooseAnswerer(
                        ChooseAnswererState {
                            previous_answerer_id: Some(s.answerer_id),
                            chooser_id: s.answerer_id,
                        },
                    )
                    &&& res.0 matches Ok(GameMessageResponse::AnswerValidated(a, v)) && a
                        == s.answerer_id && v
                } else if s.previous_answerer_id is Some {
                    &&& post.state == GameState::ChooseAnswerer(
                        ChooseAnswererState {
                            previous_answerer_id: Some(s.answerer_id),
                            chooser_id: s.previous_answerer_id->0,
                        },
                    )
                    &&& res.0 matches Ok(GameMessageResponse::AnswerValidated(a, v)) && a
                        == s.answerer_id && !v
                } else {
                    &&& post.state matches GameState::AskQuestion(n)
                        && n.previous_answerer_id is None && pre.players@.contains_key(
                        n.answerer_id,
                    )
                    &&& res.0 matches Ok(GameMessageResponse::AnswerValidated(a, v)) && a
                        == s.answerer_id && !v
                }
            },
            _ => {
                &&& post.state == pre.state
                &&& post.same_but_state(pre)
                &&& pre.refused_with(
                    res.0,
                    wrong_state_message("ValidateAnswer"@, pre.state),
                )
                &&& res.1.len() == 0
            },
        })
    }

    /// Only the Game Master may judge, and only an answer that was given.
    /// The answerer is scored. After a valid answer they choose the next
    /// answerer; after an invalid one the previous answerer chooses, or, in
    /// the first round, a player drawn at random is asked next.
    pub fn handle_validate_answer(&mut self, msg: ValidateAnswer) -> (res: (
        GameMessageResult,
        Vec<GameEffect>,
    ))
        requires
            old(self).wf(),
            old(self).validate_ok(msg),
        ensures
            final(self).wf(),
            Self::validate_answer_spec(*old(self), *final(self), msg, (res.0, res.1@)),
    {
        if let Err(e) = self.verify_host_id(msg.host_id, "ValidateAnswer") {
            return (Err(e), Vec::new());
        }
        match &self.state {
            GameState::ValidateAnswer(game_state) => {
                let answerer_id = game_state.answerer_id;
                let maybe_previous_answerer_id = game_state.previous_answerer_id;
                let mut effects = Vec::new();
                if let Some(lost) = self.handle_answer(msg.is_valid, answerer_id) {
                    effects.push(GameEffect::PlayerLost(lost));
                }
                let chooser_id = if msg.is_valid {
                    answerer_id
                } else if let Some(previous_answerer_id) = maybe_previous_answerer_id {
                    previous_answerer_id
                } else {
                    let next_answerer_id = self.get_random_player_id();
                    self.state = GameState::AskQuestion(
                        AskQuestionState { answerer_id: next_answerer_id, previous_answerer_id: None },
                    );
                    return (
                        Ok(GameMessageResponse::AnswerValidated(answerer_id, msg.is_valid)),
                        effects,
                    );
                };
                self.state = GameState::ChooseAnswerer(
                    ChooseAnswererState { previous_answerer_id: Some(answerer_id), chooser_id },
                );
                (Ok(GameMessageResponse::AnswerValidated(answerer_id, msg.is_valid)), effects)
            },
            _ => (Err(self.wrong_state_error("ValidateAnswer")), Vec::new()),
        }
    }

    /// The effect of the answer timer firing on a game `pre`, giving `post` and the effects `effects`.
    pub open spec fn timeout_spec(pre: Game, post: Game, effects: Seq<GameEffect>) -> bool {
        &&& (match pre.state {
            GameState::Answer(s) => {
                &&& post.id == pre.id
                &&& post.host == pre.host
                &&& post.config == pre.config
                &&& post.room == pre.room
                &&& post.players@ == scored_players(pre, false, s.answerer_id)
                &&& match s.previous_answerer_id {
                    Some(c) => {
                        &&& post.state == GameState::ChooseAnswerer(
                            ChooseAnswererState { previous_answerer_id: Some(c), chooser_id: c },
                        )
                        &&& effects.len() >= 1
                        &&& effects.drop_last() == scoring_notices(pre, false, s.answerer_id)
                        &&& effects.last() matches GameEffect::AnswerTimedOut(t)
                            && t.game_id == pre.id && t.new_state@ == "ChooseAnswerer"@
                    },
                    None => {
                        &&& post.state matches GameState::AskQuestion(n)
                            && n.previous_answerer_id is None && pre.players@.contains_key(
                            n.answerer_id,
                        )
                        &&& effects.len() >= 1
                        &&& effects.drop_last() == scoring_notices(pre, false, s.answerer_id)
                        &&& effects.last() matches GameEffect::AnswerTimedOut(t)
                            && t.game_id == pre.id && t.new_state@ == "AskQuestion"@
                    },
                }
            },
            _ => {
                &&& post.state == pre.state
                &&& post.same_but_state(pre)
                &&& effects.len() == 0
            },
        })
    }

    /// The answer time ran out. If the game still waits for an answer, the
    /// answerer loses a chance; the previous answerer chooses the next one,
    /// or, in the first round, a player drawn at random is asked next. The
    /// room is told. In any other state the answer came in time and nothing
    /// happens.
    pub fn handle_timeout(&mut self) -> (effects: Vec<GameEffect>)
        requires
            old(self).wf(),
            old(self).timeout_ok(),
        ensures
            final(self).wf(),
            Self::timeout_spec(*old(self), *final(self), effects@),
    {
        match &self.state {
            GameState::Answer(game_state) => {
                let maybe_chooser_id = game_state.previous_answerer_id;
                let answerer_id = game_state.answerer_id;
                let mut effects = Vec::new();
                if let Some(lost) = self.handle_answer(false, answerer_id) {
                    effects.push(GameEffect::PlayerLost(lost));
                }
                let ghost notices = effects@;
                assert(notices =~= scoring_notices(*old(self), false, answerer_id));
                if let Some(chooser_id) = maybe_chooser_id {
                    self.state = GameState::ChooseAnswerer(
                        ChooseAnswererState { previous_answerer_id: Some(chooser_id), chooser_id },
                    );
                    effects.push(
                        GameEffect::AnswerTimedOut(
                            AnswerTimedOut {
                                new_state: "ChooseAnswerer".to_owned(),
                                game_id: self.id,
                            },
                        ),
                    );
                } else {
                    let answerer_id = self.get_random_player_id();
                    self.state = GameState::AskQuestion(
                        AskQuestionState { previous_answerer_id: None, answerer_id },
                    );
                    effects.push(
                        GameEffect::AnswerTimedOut(
                            AnswerTimedOut { new_state: "AskQuestion".to_owned(), game_id: self.id },
                        ),
                    );
                }
                assert(effects@.drop_last() =~= notices);
                effects
            },
            _ => Vec::new(),
        }
    }
}

} // verus!
