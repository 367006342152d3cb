//! Starting a game: the first answerer is drawn at random.

use vstd::prelude::*;

use crate::ws::game::message::{GameMessageResponse, GameMessageResult};
use crate::ws::game::state::{AskQuestionState, GameState};
use crate::ws::game::{wrong_state_message, Game};

verus! {

/// Start the game.
pub struct Start;

impl Game {
    /// Starting draws a player at random, so a game waiting to start needs
    /// players.
    pub open spec fn start_ok(self) -> bool {
        self.state is Starting ==> self.players@.len() > 0
    }

    /// The effect of `Start` on a game `pre`, giving `post` and answering `res`.
    pub open spec fn start_spec(pre: Game, post: Game, res: GameMessageResult) -> bool {
        &&& (post.same_but_state(pre))
        &&& (pre.state is Starting ==> {
            &&& res matches Ok(GameMessageResponse::Started)
            &&& post.state matches GameState::AskQuestion(s) && s.previous_answerer_id
                is None && pre.players@.contains_key(s.answerer_id)
        })
        &&& (!(pre.state is Starting) ==> {
            &&& post.state == pre.state
            &&& pre.refused_with(res, wrong_state_message("Start"@, pre.state))
        })
    }

    /// Starts a game that is waiting to start: a player drawn at random is
    /// the first to be asked. Any other state refuses the message.
    pub fn handle_start(&mut self, _msg: Start) -> (res: GameMessageResult)
        requires
            old(self).wf(),
            old(self).start_ok(),
        ensures
            final(self).wf(),
            Self::start_spec(*old(self), *final(self), res),
    {
        match &self.state {
            GameState::Starting => {
                let new_answerer_id = self.get_random_player_id();
                self.state = GameState::AskQuestion(
                    AskQuestionState { previous_answerer_id: None, answerer_id: new_answerer_id },
                );
                Ok(GameMessageResponse::Started)
            },
            _ => Err(self.wrong_state_error("Start")),
        }
    }
}

} // verus!
