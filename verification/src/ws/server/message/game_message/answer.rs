//! The answerer of a game answers.

use vstd::prelude::*;

use crate::ws::game::message::answer::AnswerQuestion as GameAnswerQuestion;
use crate::ws::game::message::{GameEffect, GameMessageResponse, GameMessageResult};
use crate::ws::game::Game;
use crate::ws::server::message::server_message::ResponseStatus;
use crate::ws::server::{delivers, GameServer, Outgoing, Payload, ServerReply, TimerAction};

verus! {

/// The session `session_id` answers `contents` in the game `game_id`; the
/// answer goes to the room `room`.
#[derive(Debug)]
pub struct AnswerQuestion {
    pub session_id: usize,
    pub game_id: usize,
    pub room: String,
    pub contents: String,
}

/// Tells the room the question, its answer and who gave it.
#[derive(Debug)]
pub struct AnswerQuestionResponse {
    pub answerer_id: usize,
    pub question: String,
    pub answer: String,
}

impl GameServer {
    /// `reply` is what the server says after the game answered `r` to `msg`.
    pub open spec fn answers_answer(self, msg: AnswerQuestion, r: (GameMessageResult, Seq<GameEffect>), reply: ServerReply) -> bool {
        &&& reply.outgoing@.len() >= 1
        &&& match r.0 {
            Ok(GameMessageResponse::QuestionAnswered(a, answer, question)) => delivers(
                reply.outgoing@[0],
                self.room_audience(msg.room@, a),
                ResponseStatus::Success,
                Payload::QuestionAnswered(
                    AnswerQuestionResponse { answerer_id: a, question, answer },
                ),
            ),
            Ok(_) => false,
            Err(e) => delivers(
                reply.outgoing@[0],
                self.direct_audience(msg.session_id),
                ResponseStatus::Failure,
                Payload::GameError(e),
            ),
        }
        &&& self.carries_out(msg.game_id, r.1, reply.outgoing@.skip(1), reply.timers@)
    }

    /// Passes the answer to the game; the rest of the room hears the
    /// question, the answer and who gave it, or the sender hears why not. An
    /// unknown game is reported to the sender.
    pub fn handle_answer_question(&mut self, msg: AnswerQuestion) -> (res: ServerReply)
        requires
            old(self).wf(),
        ensures
            final(self).wf(),
            !old(self).games@.contains_key(msg.game_id) ==> {
                &&& *final(self) == *old(self)
                &&& old(self).rejects_unknown_game(msg.session_id, msg.game_id, res)
            },
            old(self).games@.contains_key(msg.game_id) ==> {
                &&& GameServer::game_replaced(*old(self), *final(self), msg.game_id)
                &&& exists|r: (GameMessageResult, Seq<GameEffect>)|
                    #[trigger] Game::answer_spec(
                        old(self).games@[msg.game_id],
                        final(self).games@[msg.game_id],
                        GameAnswerQuestion { contents: msg.contents, answerer_id: msg.session_id },
                        r,
                    ) && final(self).answers_answer(msg, r, res)
            },
    {
        if !self.games.contains_key(&msg.game_id) {
            return self.reject_unknown_game(msg.session_id, msg.game_id);
        }
        let mut game = self.games.remove(&msg.game_id).unwrap();
        let (result, effects) = game.handle_answer_question(
            GameAnswerQuestion { contents: msg.contents.clone(), answerer_id: msg.session_id },
        );
        self.games.insert(msg.game_id, game);
        proof {
            assert(self.games@[msg.game_id].players@.dom() =~= old(self).games@[msg.game_id].players@.dom());
            GameServer::lemma_game_replaced(*old(self), *self, msg.game_id);
        }
        let ghost r = (result, effects@);
        let mut outgoing: Vec<Outgoing> = Vec::new();
        let mut timers: Vec<TimerAction> = Vec::new();
        match result {
            Ok(GameMessageResponse::QuestionAnswered(answerer_id, answer, question)) => {
                outgoing.push(
                    self.send_message(
                        &msg.room,
                        Payload::QuestionAnswered(
                            AnswerQuestionResponse { answerer_id, question, answer },
                        ),
                        answerer_id,
                    ),
                );
            },
            Ok(_) => {
                assert(false);
            },
            Err(e) => {
                outgoing.push(self.fail_to(msg.session_id, Payload::GameError(e)));
            },
        }
        let ghost before = outgoing@;
        self.relay_effects(msg.game_id, effects, &mut outgoing, &mut timers);
        let reply = ServerReply { outgoing, timers };
        assert(reply.outgoing@[0] == reply.outgoing@.take(1)[0]);
        assert(reply.outgoing@[0] == before[0]);
        proof {
            assert(Game::answer_spec(
                old(self).games@[msg.game_id],
                self.games@[msg.game_id],
                GameAnswerQuestion { contents: msg.contents, answerer_id: msg.session_id },
                r,
            ));
            assert(GameServer::game_replaced(*old(self), *self, msg.game_id));
            assert(reply.timers@.skip(0) =~= reply.timers@);
            assert(reply.outgoing@.len() >= 1);
            assert(self.carries_out(msg.game_id, r.1, reply.outgoing@.skip(1), reply.timers@));
            assert(self.answers_answer(msg, r, reply));
        }
        reply
    }
}

} // verus!
