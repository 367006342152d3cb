//! The current answerer names the next one.

use vstd::prelude::*;

use crate::ws::game::message::{GameMessageResponse, GameMessageResult};
use crate::ws::game::state::{AskQuestionState, GameState};
use crate::ws::game::{
    answerer_of,
    no_answerer_message,
    not_answerer_message,
    wrong_state_message,
    Game,
};

verus! {

/// The player `chooser_id` names `new_answerer_id` as the next answerer.
pub struct ChooseAnswerer {
    pub new_answerer_id: usize,
    pub chooser_id: usize,
}

impl Game {
    /// The effect of `ChooseAnswerer` on a game `pre`, giving `post` and answering `res`.
    pub open spec fn choose_answerer_spec(pre: Game, post: Game, msg: ChooseAnswerer, res: GameMessageResult) -> bool {
        &&& (post.same_but_state(pre))
        &&& (answerer_of(pre.state) != Some(msg.chooser_id) ==> {
            &&& post.state == pre.state
            &&& pre.refused_with(
                res,
                if answerer_of(pre.state) is Some {
                    not_answerer_message("ChooseAnswerer"@, msg.chooser_id)
                } else {
                    no_answerer_message("ChooseAnswerer"@)
                },
            )
        })
        &&& (answerer_of(pre.state) == Some(msg.chooser_id) ==> match pre.state {
            GameState::ChooseAnswerer(_) => {
                &&& post.state == GameState::AskQuestion(
                    AskQuestionState {
                        previous_answerer_id: Some(msg.chooser_id),
                        answerer_id: msg.new_answerer_id,
                    },
                )
                &&& res matches Ok(GameMessageResponse::AnswererChosen(a)) && a
                    == msg.new_answerer_id
            },
            _ => {
                &&& post.state == pre.state
                &&& pre.refused_with(
                    res,
                    wrong_state_message("ChooseAnswerer"@, pre.state),
                )
            },
        })
    }

    /// Only the player whose turn it is may choose, and only when the game
    /// waits for a choice. The Game Master then asks the chosen player.
    pub fn handle_choose_answerer(&mut self, msg: ChooseAnswerer) -> (res: GameMessageResult)
        requires
            old(self).wf(),
        ensures
            final(self).wf(),
            Self::choose_answerer_spec(*old(self), *final(self), msg, res),
    {
        self.verify_answerer_id(msg.chooser_id, "ChooseAnswerer")?;
        match &self.state {
            GameState::ChooseAnswerer(_game_state) => {
                self.state = GameState::AskQuestion(
                    AskQuestionState {
                        answerer_id: msg.new_answerer_id,
                        previous_answerer_id: Some(msg.chooser_id),
                    },
                );
                Ok(GameMessageResponse::AnswererChosen(msg.new_answerer_id))
            },
            _ => Err(self.wrong_state_error("ChooseAnswerer")),
        }
    }
}

} // verus!
