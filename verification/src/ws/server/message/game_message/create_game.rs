//! Creating a game in a room.

use std::collections::HashSet;

use vstd::prelude::*;
use vstd::string::*;

use crate::ws::error::WsError;
use crate::ws::game::message::start::Start;
use crate::ws::game::state::GameState;
use crate::ws::game::{initial_players, Game, GameConfig};
use crate::ws::server::message::server_message::ResponseStatus;
use crate::ws::server::{delivers, GameServer, Outgoing, Payload, ServerReply};
use crate::ws::text::{decimal, usize_to_string};

verus! {

/// The session `session_id` creates a game in the room `room` with Game
/// Master `host` and the players `players`.
#[derive(Debug)]
pub struct CreateGame {
    pub session_id: usize,
    pub room: String,
    pub players: HashSet<usize>,
    pub host: usize,
}

/// Tells the room about the new game.
#[derive(Debug)]
pub struct GameCreatedResponse {
    pub game_id: usize,
    pub room: String,
    pub players: HashSet<usize>,
    pub host: usize,
}

impl CreateGame {
    /// The announcement of the game this message creates, before it has an
    /// id.
    pub fn into_response(self) -> (res: GameCreatedResponse)
        ensures
            res.game_id == 0,
            res.room == self.room,
            res.players == self.players,
            res.host == self.host,
    {
        GameCreatedResponse { room: self.room, players: self.players, host: self.host, game_id: 0 }
    }
}

/// `Invalid room name <room>`
pub open spec fn invalid_room_message(room: Seq<char>) -> Seq<char> {
    "Invalid room name "@ + room
}

/// `Sender (<sender>) is not in the room <room>`
pub open spec fn sender_not_in_room_message(sender: usize, room: Seq<char>) -> Seq<char> {
    "Sender ("@ + decimal(sender as nat) + ") is not in the room "@ + room
}

/// `Host (<host>) is not in the room <room>`
pub open spec fn host_not_in_room_message(host: usize, room: Seq<char>) -> Seq<char> {
    "Host ("@ + decimal(host as nat) + ") is not in the room "@ + room
}

/// `Some of given players do not belong to the room <room>`
pub open spec fn players_not_in_room_message(room: Seq<char>) -> Seq<char> {
    "Some of given players do not belong to the room "@ + room
}

/// `Host (<host>) cannot be one of the players`
pub open spec fn host_is_player_message(host: usize) -> Seq<char> {
    "Host ("@ + decimal(host as nat) + ") cannot be one of the players"@
}

/// `every` holds each element of `some`.
fn all_in(some: &HashSet<usize>, every: &HashSet<usize>) -> (res: bool)
    ensures
        res == some@.subset_of(every@),
{
    for id in it: some.iter()
        invariant
            it.seq().unref().to_set() == some@,
            forall|j: int| 0 <= j < it.index() ==> every@.contains(#[trigger] it.seq().unref()[j]),
            it.index() == it.seq().len() ==> some@.subset_of(every@),
    {
        if !every.contains(id) {
            proof {
                assert(it.seq().unref()[it.index()] == *id);
                assert(it.seq().unref().contains(*id));
                assert(some@.contains(*id));
            }
            return false;
        }
        proof {
            let s = it.seq().unref();
            assert forall|x: usize| it.index() + 1 == s.len() && some@.contains(x) implies every@.contains(x) by {
                assert(s.to_set().contains(x));
                let j = choose|j: int| 0 <= j < s.len() && s[j] == x;
                if j < it.index() {
                    assert(every@.contains(s[j]));
                } else {
                    assert(s[j] == *id);
                }
            }
        }
    }
    true
}

impl GameServer {
    /// Why the server refuses `msg`, if it does, checked in this order: the
    /// room must exist, the Game Master and the players must be in it, the
    /// sender must be in it, and the Game Master must not be a player.
    pub open spec fn create_game_refusal(self, msg: CreateGame) -> Option<Seq<char>> {
        match self.room_index(msg.room@) {
            None => Some(invalid_room_message(msg.room@)),
            Some(i) => if !self.rooms@[i].1.members@.contains(msg.host) {
                Some(host_not_in_room_message(msg.host, msg.room@))
            } else if !msg.players@.subset_of(self.rooms@[i].1.members@) {
                Some(players_not_in_room_message(msg.room@))
            } else if !self.rooms@[i].1.members@.contains(msg.session_id) {
                Some(sender_not_in_room_message(msg.session_id, msg.room@))
            } else if msg.players@.contains(msg.host) {
                Some(host_is_player_message(msg.host))
            } else {
                None
            },
        }
    }

    /// Tells why the server refuses `msg`, if it does (see
    /// `create_game_refusal`), so that a caller can test it first.
    pub fn refusal_of_create_game(&self, msg: &CreateGame) -> (res: Option<String>)
        requires
            self.wf(),
        ensures
            res is Some <==> self.create_game_refusal(*msg) is Some,
            res matches Some(text) ==> self.create_game_refusal(*msg) == Some(text@),
    {
        let i = match self.find_room(&msg.room) {
            Some(i) => i,
            None => {
                let mut text = String::from_str("Invalid room name ");
                text.append(msg.room.as_str());
                return Some(text);
            },
        };
        if !self.rooms[i].1.members.contains(&msg.host) {
            let mut text = String::from_str("Host (");
            text.append(usize_to_string(msg.host).as_str());
            text.append(") is not in the room ");
            text.append(msg.room.as_str());
            return Some(text);
        }
        if !all_in(&msg.players, &self.rooms[i].1.members) {
            let mut text = String::from_str("Some of given players do not belong to the room ");
            text.append(msg.room.as_str());
            return Some(text);
        }
        if !self.rooms[i].1.members.contains(&msg.session_id) {
            let mut text = String::from_str("Sender (");
            text.append(usize_to_string(msg.session_id).as_str());
            text.append(") is not in the room ");
            text.append(msg.room.as_str());
            return Some(text);
        }
        if msg.players.contains(&msg.host) {
            let mut text = String::from_str("Host (");
            text.append(usize_to_string(msg.host).as_str());
            text.append(") cannot be one of the players");
            return Some(text);
        }
        None
    }

    /// Creates the game under the next game id, lists it in the room,
    /// starts it, and tells the room. A refused message is reported to its
    /// sender and changes nothing.
    pub fn handle_create_game(&mut self, msg: CreateGame) -> (res: ServerReply)
        requires
            old(self).wf(),
            old(self).create_game_refusal(msg) is None ==> {
                &&& old(self).game_counter < usize::MAX
                &&& msg.players@.len() > 0
            },
        ensures
            final(self).wf(),
            res.timers@.len() == 0,
            res.outgoing@.len() == 1,
            old(self).create_game_refusal(msg) matches Some(text) ==> {
                &&& *final(self) == *old(self)
                &&& res.outgoing@[0].receivers@.no_duplicates()
                &&& res.outgoing@[0].receivers@.to_set() == old(self).direct_audience(msg.session_id)
                &&& res.outgoing@[0].status == ResponseStatus::Failure
                &&& res.outgoing@[0].payload matches Payload::Error(e) && e.message@ == text
            },
            old(self).create_game_refusal(msg) is None ==> {
                let game_id = (old(self).game_counter + 1) as usize;
                let i = old(self).room_index(msg.room@)->0;
                &&& final(self).game_counter == game_id
                &&& !old(self).games@.contains_key(game_id)
                &&& final(self).games@.dom() == old(self).games@.dom().insert(game_id)
                &&& forall|g: usize|
                    g != game_id && #[trigger] old(self).games@.contains_key(g)
                        ==> final(self).games@[g] == old(self).games@[g]
                &&& final(self).games@[game_id].id == game_id
                &&& final(self).games@[game_id].room@ == msg.room@
                &&& final(self).games@[game_id].host.id == msg.host
                &&& final(self).games@[game_id].config == GameConfig::spec_default()
                &&& final(self).games@[game_id].players@ == initial_players(msg.players@, 3)
                &&& final(self).games@[game_id].state matches GameState::AskQuestion(s)
                    && s.previous_answerer_id is None && msg.players@.contains(s.answerer_id)
                &&& final(self).sessions@ == old(self).sessions@
                &&& final(self).session_counter == old(self).session_counter
                &&& final(self).rooms@.len() == old(self).rooms@.len()
                &&& forall|j: int|
                    0 <= j < old(self).rooms@.len() && j != i ==> #[trigger] final(self).rooms@[j]
                        == old(self).rooms@[j]
                &&& final(self).rooms@[i].0 == old(self).rooms@[i].0
                &&& final(self).rooms@[i].1.members == old(self).rooms@[i].1.members
                &&& final(self).rooms@[i].1.game_ids@ == old(self).rooms@[i].1.game_ids@.insert(
                    game_id,
                )
                &&& delivers(
                    res.outgoing@[0],
                    final(self).room_audience(msg.room@, 0),
                    ResponseStatus::Success,
                    Payload::GameCreated(
                        GameCreatedResponse {
                            game_id,
                            room: msg.room,
                            players: msg.players,
                            host: msg.host,
                        },
                    ),
                )
            },
    {
        let mut outgoing: Vec<Outgoing> = Vec::new();
        if let Some(text) = self.refusal_of_create_game(&msg) {
            outgoing.push(self.fail_to(msg.session_id, Payload::Error(WsError::message(text.as_str()))));
            return ServerReply { outgoing, timers: Vec::new() };
        }
        let i = match self.find_room(&msg.room) {
            Some(i) => i,
            None => {
                proof {
                    assert(false);
                }
                return ServerReply { outgoing, timers: Vec::new() };
            },
        };
        self.game_counter = self.game_counter + 1;
        let game_id = self.game_counter;
        let (name, mut room) = self.rooms.remove(i);
        room.game_ids.insert(game_id);
        self.rooms.insert(i, (name, room));
        let mut game = Game::new(game_id, msg.room.as_str(), &msg.players, msg.host);
        proof {
            crate::ws::game::lemma_initial_players_dom(msg.players@, 3);
        }
        let _ = game.handle_start(Start);
        self.games.insert(game_id, game);
        proof {
            self.lemma_game_created(*old(self), msg, i as int, game_id);
        }
        let mut response = msg.into_response();
        response.game_id = game_id;
        let room_name = response.room.clone();
        outgoing.push(self.send_message(&room_name, Payload::GameCreated(response), 0));
        ServerReply { outgoing, timers: Vec::new() }
    }

    /// Adding a created game to its room and to the games keeps the
    /// server's invariant.
    proof fn lemma_game_created(self, pre: GameServer, msg: CreateGame, i: int, game_id: usize)
        requires
            pre.wf(),
            pre.create_game_refusal(msg) is None,
            pre.room_index(msg.room@) == Some(i),
            game_id == pre.game_counter + 1,
            self.game_counter == game_id,
            self.sessions@ == pre.sessions@,
            self.session_counter == pre.session_counter,
            self.rooms@.len() == pre.rooms@.len(),
            forall|j: int| 0 <= j < pre.rooms@.len() && j != i ==> #[trigger] self.rooms@[j] == pre.rooms@[j],
            self.rooms@[i].0 == pre.rooms@[i].0,
            self.rooms@[i].1.members == pre.rooms@[i].1.members,
            self.rooms@[i].1.game_ids@ == pre.rooms@[i].1.game_ids@.insert(game_id),
            self.games@ == pre.games@.insert(game_id, self.games@[game_id]),
            self.games@[game_id].id == game_id,
            self.games@[game_id].room@ == msg.room@,
            self.games@[game_id].host.id == msg.host,
            self.games@[game_id].wf(),
            self.games@[game_id].config == GameConfig::spec_default(),
            self.games@[game_id].players@.dom() == msg.players@,
        ensures
            self.wf(),
            !pre.games@.contains_key(game_id),
    {
        assert(!pre.games@.contains_key(game_id));
        assert forall|a: int, b: int|
            0 <= a < self.rooms@.len() && 0 <= b < self.rooms@.len() && a != b
                implies #[trigger] self.rooms@[a].0@ != #[trigger] self.rooms@[b].0@ by {
            assert(self.rooms@[a].0 == pre.rooms@[a].0);
            assert(self.rooms@[b].0 == pre.rooms@[b].0);
        }
        assert forall|j: int, m: usize|
            0 <= j < self.rooms@.len() && #[trigger] self.rooms@[j].1.members@.contains(m)
                implies self.sessions@.contains_key(m) && crate::ws::server::lists_name(
                self.sessions@[m].rooms@,
                self.rooms@[j].0@,
            ) by {
            assert(self.rooms@[j].0 == pre.rooms@[j].0);
            assert(self.rooms@[j].1.members == pre.rooms@[j].1.members);
            assert(pre.rooms@[j].1.members@.contains(m));
        }
        assert forall|g: usize| #[trigger] self.games@.contains_key(g) implies {
            &&& self.games@[g].id == g
            &&& 1 <= g <= self.game_counter
            &&& self.games@[g].wf()
            &&& self.games@[g].config == GameConfig::spec_default()
            &&& !self.games@[g].players@.contains_key(self.games@[g].host.id)
        } by {
            if g != game_id {
                assert(pre.games@.contains_key(g));
            }
        }
        assert forall|j: int, g: usize|
            0 <= j < self.rooms@.len() && #[trigger] self.rooms@[j].1.game_ids@.contains(g)
                implies self.games@.contains_key(g) && self.games@[g].room@ == self.rooms@[j].0@ by {
            assert(self.rooms@[j].0 == pre.rooms@[j].0);
            if g != game_id {
                assert(pre.rooms@[j].1.game_ids@.contains(g));
            } else {
                if j != i {
                    assert(self.rooms@[j] == pre.rooms@[j]);
                    assert(pre.rooms@[j].1.game_ids@.contains(g));
                    assert(pre.games@.contains_key(g));
                }
            }
        }
        assert forall|k: usize, j: int|
            #![trigger self.sessions@[k].rooms@[j]]
            self.sessions@.contains_key(k) && 0 <= j < self.sessions@[k].rooms@.len()
                implies self.members_of(self.sessions@[k].rooms@[j]@).contains(k) by {
            let n = self.sessions@[k].rooms@[j]@;
            assert(pre.members_of(pre.sessions@[k].rooms@[j]@).contains(k));
            assert forall|x: int| 0 <= x < pre.rooms@.len() implies #[trigger] self.rooms@[x].0@ == pre.rooms@[x].0@ by {
                if x != i {
                    assert(self.rooms@[x] == pre.rooms@[x]);
                }
            }
            GameServer::lemma_same_names(pre, self, n);
            let r = pre.room_index(n)->0;
            if r != i {
                assert(self.rooms@[r] == pre.rooms@[r]);
            }
        }
    }
}

} // verus!
