//! The answerer answers the question.

use vstd::prelude::*;

use crate::ws::game::message::{GameEffect, GameMessageResponse, GameMessageResult};
use crate::ws::game::state::{GameState, ValidateAnswerState};
use crate::ws::game::{
    answerer_of,
    no_answerer_message,
    not_answerer_message,
    wrong_state_message,
    Game,
};

verus! {

/// The player `answerer_id` answers `contents`.
pub struct AnswerQuestion {
    pub contents: String,
    pub answerer_id: usize,
}

impl Game {
    /// The effect of `AnswerQuestion` on a game `pre`, giving `post`, the answer and the effects `res`.
    pub open spec fn answer_spec(pre: Game, post: Game, msg: AnswerQuestion, res: (GameMessageResult, Seq<GameEffect>)) -> bool {
        &&& (post.same_but_state(pre))
        &&& (answerer_of(pre.state) != Some(msg.answerer_id) ==> {
            &&& post.state == pre.state
            &&& pre.refused_with(
                res.0,
                if answerer_of(pre.state) is Some {
                    not_answerer_message("AnswerQuestion"@, msg.answerer_id)
                } else {
                    no_answerer_message("AnswerQuestion"@)
                },
            )
            &&& res.1.len() == 0
        })
        &&& (answerer_of(pre.state) == Some(msg.answerer_id) ==> match pre.state {
            GameState::Answer(s) => {
                &&& post.state == GameState::ValidateAnswer(
                    ValidateAnswerState {
                        previous_answerer_id: s.previous_answerer_id,
                        answerer_id: msg.answerer_id,
                        answer: msg.contents,
                    },
                )
                &&& res.0 matches Ok(GameMessageResponse::QuestionAnswered(a, answer, question))
                    && a == msg.answerer_id && answer == msg.contents && question == s.question
                &&& res.1 == seq![GameEffect::CancelAnswerTimer]
            },
            _ => {
                &&& post.state == pre.state
                &&& pre.refused_with(
                    res.0,
                    wrong_state_message("AnswerQuestion"@, pre.state),
                )
                &&& res.1.len() == 0
            },
        })
    }

    /// Only the player whose turn it is may answer, and only while the game
    /// waits for an answer. The answer timer stops and the answer waits for
    /// the Game Master's judgement.
    pub fn handle_answer_question(&mut self, msg: AnswerQuestion) -> (res: (
        GameMessageResult,
        Vec<GameEffect>,
    ))
        requires
            old(self).wf(),
        ensures
            final(self).wf(),
            Self::answer_spec(*old(self), *final(self), msg, (res.0, res.1@)),
    {
        if let Err(e) = self.verify_answerer_id(msg.answerer_id, "AnswerQuestion") {
            return (Err(e), Vec::new());
        }
        match &self.state {
            GameState::Answer(game_state) => {
                let question = game_state.question.clone();
                let previous_answerer_id = game_state.previous_answerer_id;
                let mut effects = Vec::new();
                effects.push(GameEffect::CancelAnswerTimer);
                self.state = GameState::ValidateAnswer(
                    ValidateAnswerState {
                        answerer_id: msg.answerer_id,
                        previous_answerer_id,
                        answer: msg.contents.clone(),
                    },
                );
                (
                    Ok(GameMessageResponse::QuestionAnswered(msg.answerer_id, msg.contents, question)),
                    effects,
                )
            },
            _ => (Err(self.wrong_state_error("AnswerQuestion")), Vec::new()),
        }
    }
}

} // verus!
