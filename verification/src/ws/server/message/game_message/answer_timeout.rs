//! The answerer of a game did not answer in time.

use vstd::prelude::*;

use crate::ws::game::message::GameEffect;
use crate::ws::game::Game;
use crate::ws::server::{GameServer, Outgoing, ServerReply, TimerAction};

verus! {

/// The answer time ran out; the game moved to `new_state`.
#[derive(Debug)]
pub struct AnswerTimedOut {
    pub new_state: String,
    pub game_id: usize,
}

impl GameServer {
    /// The answer timer of the game `game_id` fired: the game handles it,
    /// and its room hears who lost their last chance and that the time ran
    /// out. A game that is not there, or no longer waits for an answer,
    /// changes nothing.
    pub fn handle_answer_timeout(&mut self, game_id: usize) -> (res: ServerReply)
        requires
            old(self).wf(),
            old(self).games@.contains_key(game_id) ==> old(self).games@[game_id].timeout_ok(),
        ensures
            final(self).wf(),
            !old(self).games@.contains_key(game_id) ==> {
                &&& *final(self) == *old(self)
                &&& res.outgoing@.len() == 0
                &&& res.timers@.len() == 0
            },
            old(self).games@.contains_key(game_id) ==> {
                &&& GameServer::game_replaced(*old(self), *final(self), game_id)
                &&& exists|effects: Seq<GameEffect>|
                    #[trigger] Game::timeout_spec(
                        old(self).games@[game_id],
                        final(self).games@[game_id],
                        effects,
                    ) && final(self).carries_out(game_id, effects, res.outgoing@, res.timers@)
            },
    {
        let mut outgoing: Vec<Outgoing> = Vec::new();
        let mut timers: Vec<TimerAction> = Vec::new();
        if !self.games.contains_key(&game_id) {
            return ServerReply { outgoing, timers };
        }
        let mut game = self.games.remove(&game_id).unwrap();
        let effects = game.handle_timeout();
        self.games.insert(game_id, game);
        let ghost e = effects@;
        proof {
            assert(self.games@[game_id].players@.dom() =~= old(self).games@[game_id].players@.dom());
            GameServer::lemma_game_replaced(*old(self), *self, game_id);
        }
        self.relay_effects(game_id, effects, &mut outgoing, &mut timers);
        let reply = ServerReply { outgoing, timers };
        proof {
            assert(reply.outgoing@.skip(0) =~= reply.outgoing@);
            assert(reply.timers@.skip(0) =~= reply.timers@);
            assert(Game::timeout_spec(old(self).games@[game_id], self.games@[game_id], e));
        }
        reply
    }
}

} // verus!
