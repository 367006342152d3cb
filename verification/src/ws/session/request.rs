//! A request from a client, on its way to the server, and the rule that a
//! session speaks only for itself.

use vstd::prelude::*;

use crate::ws::server::message::chat_message::ChatMessage;
use crate::ws::server::message::game_message::answer::AnswerQuestion;
use crate::ws::server::message::game_message::ask_question::AskQuestion;
use crate::ws::server::message::game_message::choose_answerer::ChooseAnswerer;
use crate::ws::server::message::game_message::create_game::CreateGame;
use crate::ws::server::message::game_message::validate_answer::ValidateAnswer;
use crate::ws::server::message::join::JoinRoom;

verus! {

/// What a client can ask the server to do.
#[derive(Debug)]
pub enum ClientRequest {
    Chat(ChatMessage),
    Join(JoinRoom),
    CreateGame(CreateGame),
    AskQuestion(AskQuestion),
    Answer(AnswerQuestion),
    ValidateAnswer(ValidateAnswer),
    ChooseAnswerer(ChooseAnswerer),
}

impl ClientRequest {
    /// The session the request claims to come from.
    pub open spec fn sender(self) -> usize {
        match self {
            ClientRequest::Chat(m) => m.session_id,
            ClientRequest::Join(m) => m.session_id,
            ClientRequest::CreateGame(m) => m.session_id,
            ClientRequest::AskQuestion(m) => m.session_id,
            ClientRequest::Answer(m) => m.session_id,
            ClientRequest::ValidateAnswer(m) => m.session_id,
            ClientRequest::ChooseAnswerer(m) => m.session_id,
        }
    }

    /// `self` and `other` are the same request, whoever claims to send it.
    pub open spec fn same_but_sender(self, other: ClientRequest) -> bool {
        match (self, other) {
            (ClientRequest::Chat(a), ClientRequest::Chat(b)) => a.room == b.room && a.game_id
                == b.game_id && a.contents == b.contents,
            (ClientRequest::Join(a), ClientRequest::Join(b)) => a.room == b.room,
            (ClientRequest::CreateGame(a), ClientRequest::CreateGame(b)) => a.room == b.room
                && a.players == b.players && a.host == b.host,
            (ClientRequest::AskQuestion(a), ClientRequest::AskQuestion(b)) => a.game_id
                == b.game_id && a.room == b.room && a.contents == b.contents,
            (ClientRequest::Answer(a), ClientRequest::Answer(b)) => a.game_id == b.game_id
                && a.room == b.room && a.contents == b.contents,
            (ClientRequest::ValidateAnswer(a), ClientRequest::ValidateAnswer(b)) => a.game_id
                == b.game_id && a.room == b.room && a.is_answer_valid == b.is_answer_valid,
            (ClientRequest::ChooseAnswerer(a), ClientRequest::ChooseAnswerer(b)) => a.game_id
                == b.game_id && a.room == b.room && a.new_answerer_id == b.new_answerer_id,
            _ => false,
        }
    }

    /// The request as the session `id` sends it: whatever sender the
    /// client wrote, the request names `id`, and nothing else changes. A
    /// client can thus never act as another session.
    pub fn from_session(self, id: usize) -> (res: ClientRequest)
        ensures
            res.sender() == id,
            res.same_but_sender(self),
    {
        match self {
            ClientRequest::Chat(mut m) => {
                m.session_id = id;
                ClientRequest::Chat(m)
            },
            ClientRequest::Join(mut m) => {
                m.session_id = id;
                ClientRequest::Join(m)
            },
            ClientRequest::CreateGame(mut m) => {
                m.session_id = id;
                ClientRequest::CreateGame(m)
            },
            ClientRequest::AskQuestion(mut m) => {
                m.session_id = id;
                ClientRequest::AskQuestion(m)
            },
            ClientRequest::Answer(mut m) => {
                m.session_id = id;
                ClientRequest::Answer(m)
            },
            ClientRequest::ValidateAnswer(mut m) => {
                m.session_id = id;
                ClientRequest::ValidateAnswer(m)
            },
            ClientRequest::ChooseAnswerer(mut m) => {
                m.session_id = id;
                ClientRequest::ChooseAnswerer(m)
            },
        }
    }
}

} // verus!
