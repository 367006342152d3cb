//! The Game Master asks the answerer a question.

use vstd::prelude::*;

use crate::ws::game::message::{GameEffect, GameMessageResponse, GameMessageResult};
use crate::ws::game::state::{AnswerState, GameState};
use crate::ws::game::{not_host_message, wrong_state_message, Game};

verus! {

/// The Game Master `host_id` asks the question `contents`.
pub struct AskQuestion {
    pub contents: String,
    pub host_id: usize,
}

impl Game {
    /// The effect of `AskQuestion` on a game `pre`, giving `post`, the answer and the effects `res`.
    pub open spec fn ask_question_spec(pre: Game, post: Game, msg: AskQuestion, res: (GameMessageResult, Seq<GameEffect>)) -> bool {
        &&& (post.same_but_state(pre))
        &&& (msg.host_id != pre.host.id ==> {
            &&& post.state == pre.state
            &&& pre.refused_with(
                res.0,
                not_host_message("AskQuestion"@, msg.host_id, pre.host.id),
            )
            &&& res.1.len() == 0
        })
        &&& (msg.host_id == pre.host.id ==> match pre.state {
            GameState::AskQuestion(s) => {
                &&& post.state == GameState::Answer(
                    AnswerState {
                        previous_answerer_id: s.previous_answerer_id,
                        answerer_id: s.answerer_id,
                        question: msg.contents,
                    },
                )
                &&& res.0 matches Ok(GameMessageResponse::QuestionAsked(a)) && a
                    == s.answerer_id
                &&& res.1 == seq![GameEffect::StartAnswerTimer(pre.config.timeout_secs)]
            },
            _ => {
                &&& post.state == pre.state
                &&& pre.refused_with(
                    res.0,
                    wrong_state_message("AskQuestion"@, pre.state),
                )
                &&& res.1.len() == 0
            },
        })
    }

    /// Only the Game Master may ask, and only when the game waits for a
    /// question. The question goes to the answerer of that state, and the
    /// answer timer starts.
    pub fn handle_ask_question(&mut self, msg: AskQuestion) -> (res: (
        GameMessageResult,
        Vec<GameEffect>,
    ))
        requires
            old(self).wf(),
        ensures
            final(self).wf(),
            Self::ask_question_spec(*old(self), *final(self), msg, (res.0, res.1@)),
    {
        if let Err(e) = self.verify_host_id(msg.host_id, "AskQuestion") {
            return (Err(e), Vec::new());
        }
        match &self.state {
            GameState::AskQuestion(game_state) => {
                let answerer_id = game_state.answerer_id;
                let previous_answerer_id = game_state.previous_answerer_id;
                self.state = GameState::Answer(
                    AnswerState { answerer_id, previous_answerer_id, question: msg.contents },
                );
                let mut effects = Vec::new();
                effects.push(GameEffect::StartAnswerTimer(self.config.timeout_secs));
                (Ok(GameMessageResponse::QuestionAsked(answerer_id)), effects)
            },
            _ => (Err(self.wrong_state_error("AskQuestion")), Vec::new()),
        }
    }
}

} // verus!
