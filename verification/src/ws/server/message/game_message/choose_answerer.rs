//! The answerer of a game names the next one.

use vstd::prelude::*;

use crate::ws::game::message::choose_answerer::ChooseAnswerer as GameChooseAnswerer;
use crate::ws::game::message::{GameMessageResponse, GameMessageResult};
use crate::ws::game::Game;
use crate::ws::server::message::server_message::ResponseStatus;
use crate::ws::server::{delivers, GameServer, Outgoing, Payload, ServerReply, TimerAction};

verus! {

/// The session `session_id` names `new_answerer_id` in the game `game_id`;
/// the answer goes to the room `room`.
#[derive(Debug)]
pub struct ChooseAnswerer {
    pub session_id: usize,
    pub game_id: usize,
    pub room: String,
    pub new_answerer_id: usize,
}

/// Tells the room who chose whom.
#[derive(Debug)]
pub struct ChooseAnswererResponse {
    pub previous_answerer_id: usize,
    pub new_answerer_id: usize,
}

impl GameServer {
    /// `reply` is what the server says after the game answered `r` to `msg`.
    pub open spec fn answers_choose(self, msg: ChooseAnswerer, r: GameMessageResult, reply: ServerReply) -> bool {
        &&& reply.outgoing@.len() >= 1
        &&& reply.timers@.len() == 0
        &&& reply.outgoing@.len() == 1
        &&& match r {
            Ok(GameMessageResponse::AnswererChosen(a)) => delivers(
                reply.outgoing@[0],
                self.room_audience(msg.room@, 0),
                ResponseStatus::Success,
                Payload::AnswererChosen(
                    ChooseAnswererResponse { previous_answerer_id: msg.session_id, new_answerer_id: a },
                ),
            ),
            Ok(_) => false,
            Err(e) => delivers(
                reply.outgoing@[0],
                self.direct_audience(msg.session_id),
                ResponseStatus::Failure,
                Payload::GameError(e),
            ),
        }
    }

    /// Passes the choice to the game; the room hears who chose whom, or the
    /// sender hears why not. An unknown game is reported to the sender.
    pub fn handle_choose_answerer(&mut self, msg: ChooseAnswerer) -> (res: ServerReply)
        requires
            old(self).wf(),
        ensures
            final(self).wf(),
            !old(self).games@.contains_key(msg.game_id) ==> {
                &&& *final(self) == *old(self)
                &&& old(self).rejects_unknown_game(msg.session_id, msg.game_id, res)
            },
            old(self).games@.contains_key(msg.game_id) ==> {
                &&& GameServer::game_replaced(*old(self), *final(self), msg.game_id)
                &&& exists|r: GameMessageResult|
                    #[trigger] Game::choose_answerer_spec(
                        old(self).games@[msg.game_id],
                        final(self).games@[msg.game_id],
                        GameChooseAnswerer { new_answerer_id: msg.new_answerer_id, chooser_id: msg.session_id },
                        r,
                    ) && final(self).answers_choose(msg, r, res)
            },
    {
        if !self.games.contains_key(&msg.game_id) {
            return self.reject_unknown_game(msg.session_id, msg.game_id);
        }
        let mut game = self.games.remove(&msg.game_id).unwrap();
        let result = game.handle_choose_answerer(
            GameChooseAnswerer { new_answerer_id: msg.new_answerer_id, chooser_id: msg.session_id },
        );
        self.games.insert(msg.game_id, game);
        proof {
            assert(self.games@[msg.game_id].players@.dom() =~= old(self).games@[msg.game_id].players@.dom());
            GameServer::lemma_game_replaced(*old(self), *self, msg.game_id);
        }
        let ghost r = result;
        let mut outgoing: Vec<Outgoing> = Vec::new();
        let mut timers: Vec<TimerAction> = Vec::new();
        match result {
            Ok(GameMessageResponse::AnswererChosen(new_answerer_id)) => {
                outgoing.push(
                    self.send_message(
                        &msg.room,
                        Payload::AnswererChosen(
                            ChooseAnswererResponse {
                                previous_answerer_id: msg.session_id,
                                new_answerer_id,
                            },
                        ),
                        0,
                    ),
                );
            },
            Ok(_) => {
                assert(false);
            },
            Err(e) => {
                outgoing.push(self.fail_to(msg.session_id, Payload::GameError(e)));
            },
        }
        let reply = ServerReply { outgoing, timers };
        proof {
            assert(Game::choose_answerer_spec(
                old(self).games@[msg.game_id],
                self.games@[msg.game_id],
                GameChooseAnswerer { new_answerer_id: msg.new_answerer_id, chooser_id: msg.session_id },
                r,
            ));
            assert(GameServer::game_replaced(*old(self), *self, msg.game_id));
            assert(self.answers_choose(msg, r, reply));
        }
        reply
    }
}

} // verus!
