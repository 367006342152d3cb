//! The Game Master of a game asks a question.

use vstd::prelude::*;

use crate::ws::game::message::ask_question::AskQuestion as GameAskQuestion;
use crate::ws::game::message::{GameEffect, GameMessageResponse, GameMessageResult};
use crate::ws::game::Game;
use crate::ws::server::message::server_message::ResponseStatus;
use crate::ws::server::{delivers, GameServer, Outgoing, Payload, ServerReply, TimerAction};

verus! {

/// The session `session_id` asks `contents` in the game `game_id`; the
/// answer goes to the room `room`.
#[derive(Debug)]
pub struct AskQuestion {
    pub session_id: usize,
    pub game_id: usize,
    pub room: String,
    pub contents: String,
}

/// Tells the room the question and who is to answer it.
#[derive(Debug)]
pub struct AskQuestionResponse {
    pub question: String,
    pub answerer_id: usize,
}

impl GameServer {
    /// `reply` is what the server says after the game answered `r` to `msg`.
    pub open spec fn answers_ask(self, msg: AskQuestion, r: (GameMessageResult, Seq<GameEffect>), reply: ServerReply) -> bool {
        &&& reply.outgoing@.len() >= 1
        &&& match r.0 {
            Ok(GameMessageResponse::QuestionAsked(a)) => delivers(
                reply.outgoing@[0],
                self.room_audience(msg.room@, 0),
                ResponseStatus::Success,
                Payload::QuestionAsked(AskQuestionResponse { question: msg.contents, answerer_id: a }),
            ),
            Ok(_) => false,
            Err(e) => delivers(
                reply.outgoing@[0],
                self.direct_audience(msg.session_id),
                ResponseStatus::Failure,
                Payload::GameError(e),
            ),
        }
        &&& self.carries_out(msg.game_id, r.1, reply.outgoing@.skip(1), reply.timers@)
    }

    /// Passes the question to the game; the room hears the question and
    /// who is to answer it, or the asker hears why not. An unknown game is
    /// reported to the asker.
    pub fn handle_ask_question(&mut self, msg: AskQuestion) -> (res: ServerReply)
        requires
            old(self).wf(),
        ensures
            final(self).wf(),
            !old(self).games@.contains_key(msg.game_id) ==> {
                &&& *final(self) == *old(self)
                &&& old(self).rejects_unknown_game(msg.session_id, msg.game_id, res)
            },
            old(self).games@.contains_key(msg.game_id) ==> {
                &&& GameServer::game_replaced(*old(self), *final(self), msg.game_id)
                &&& exists|r: (GameMessageResult, Seq<GameEffect>)|
                    #[trigger] Game::ask_question_spec(
                        old(self).games@[msg.game_id],
                        final(self).games@[msg.game_id],
                        GameAskQuestion { contents: msg.contents, host_id: msg.session_id },
                        r,
                    ) && final(self).answers_ask(msg, r, res)
            },
    {
        if !self.games.contains_key(&msg.game_id) {
            return self.reject_unknown_game(msg.session_id, msg.game_id);
        }
        let mut game = self.games.remove(&msg.game_id).unwrap();
        let (result, effects) = game.handle_ask_question(
            GameAskQuestion { contents: msg.contents.clone(), host_id: msg.session_id },
        );
        self.games.insert(msg.game_id, game);
        proof {
            assert(self.games@[msg.game_id].players@.dom() =~= old(self).games@[msg.game_id].players@.dom());
            GameServer::lemma_game_replaced(*old(self), *self, msg.game_id);
        }
        let ghost r = (result, effects@);
        let mut outgoing: Vec<Outgoing> = Vec::new();
        let mut timers: Vec<TimerAction> = Vec::new();
        match result {
            Ok(GameMessageResponse::QuestionAsked(answerer_id)) => {
                outgoing.push(
                    self.send_message(
                        &msg.room,
                        Payload::QuestionAsked(
                            AskQuestionResponse { question: msg.contents, answerer_id },
                        ),
                        0,
                    ),
                );
            },
            Ok(_) => {
                assert(false);
            },
            Err(e) => {
                outgoing.push(self.fail_to(msg.session_id, Payload::GameError(e)));
            },
        }
        let ghost before = outgoing@;
        self.relay_effects(msg.game_id, effects, &mut outgoing, &mut timers);
        let reply = ServerReply { outgoing, timers };
        assert(reply.outgoing@[0] == reply.outgoing@.take(1)[0]);
        assert(reply.outgoing@[0] == before[0]);
        proof {
            assert(Game::ask_question_spec(
                old(self).games@[msg.game_id],
                self.games@[msg.game_id],
                GameAskQuestion { contents: msg.contents, host_id: msg.session_id },
                r,
            ));
            assert(GameServer::game_replaced(*old(self), *self, msg.game_id));
            assert(reply.timers@.skip(0) =~= reply.timers@);
            assert(reply.outgoing@.len() >= 1);
            assert(self.carries_out(msg.game_id, r.1, reply.outgoing@.skip(1), reply.timers@));
            assert(self.answers_ask(msg, r, reply));
        }
        reply
    }
}

} // verus!
