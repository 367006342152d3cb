//! A chat message to the members of a room.

use vstd::prelude::*;

use crate::ws::server::message::server_message::ResponseStatus;
use crate::ws::server::{delivers, lists_name, GameServer, Outgoing, Payload, ServerReply};

verus! {

/// The session `session_id` says `contents` in the room `room`.
#[derive(Debug)]
pub struct ChatMessage {
    pub session_id: usize,
    pub room: String,
    pub game_id: usize,
    pub contents: String,
}

/// The chat message as the room receives it.
#[derive(Debug)]
pub struct ChatMessageResponse {
    pub sender_id: usize,
    pub message: String,
    pub room: String,
}

impl GameServer {
    /// A connected session that joined the room speaks to its other
    /// members; anything else is dropped. Nothing changes.
    pub fn handle_chat_message(&self, msg: ChatMessage) -> (res: ServerReply)
        requires
            self.wf(),
        ensures
            res.timers@.len() == 0,
            if self.sessions@.contains_key(msg.session_id) && lists_name(
                self.sessions@[msg.session_id].rooms@,
                msg.room@,
            ) {
                &&& res.outgoing@.len() == 1
                &&& delivers(
                    res.outgoing@[0],
                    self.room_audience(msg.room@, msg.session_id),
                    ResponseStatus::Success,
                    Payload::Chat(
                        ChatMessageResponse {
                            sender_id: msg.session_id,
                            message: msg.contents,
                            room: msg.room,
                        },
                    ),
                )
            } else {
                res.outgoing@.len() == 0
            },
    {
        let mut outgoing: Vec<Outgoing> = Vec::new();
        match self.sessions.get(&msg.session_id) {
            Some(connection) => {
                if Self::lists_room(&connection.rooms, &msg.room) {
                    let room = msg.room.clone();
                    let out = self.send_message(
                        &room,
                        Payload::Chat(
                            ChatMessageResponse {
                                sender_id: connection.id,
                                message: msg.contents,
                                room: msg.room,
                            },
                        ),
                        msg.session_id,
                    );
                    outgoing.push(out);
                }
            },
            None => {},
        }
        ServerReply { outgoing, timers: Vec::new() }
    }
}

} // verus!
