//! The server: sessions, rooms and the games played in them. Every handler
//! takes a message, updates the server and answers with what is to be sent
//! to whom; the caller does the sending.

use std::collections::{HashMap, HashSet};

use vstd::prelude::*;

use crate::ws::error::WsError;
use crate::ws::game::message::{GameEffect, GameMessageError};
use crate::ws::game::{Game, GameConfig};
use crate::ws::server::command::disconnect::SomeoneDisconnectedResponse;
use crate::ws::server::message::chat_message::ChatMessageResponse;
use crate::ws::server::message::game_message::answer::AnswerQuestionResponse;
use crate::ws::server::message::game_message::answer_timeout::AnswerTimedOut;
use crate::ws::server::message::game_message::ask_question::AskQuestionResponse;
use crate::ws::server::message::game_message::choose_answerer::ChooseAnswererResponse;
use crate::ws::server::message::game_message::create_game::GameCreatedResponse;
use crate::ws::server::message::game_message::player_lost::PlayerLost;
use crate::ws::server::message::game_message::validate_answer::ValidateAnswerResponse;
use crate::ws::server::message::join::RoomJoinedResponse;
use crate::ws::server::message::server_message::ResponseStatus;

pub mod command;
pub mod game;
pub mod message;
pub mod properties;

verus! {

/// A connected client.
#[derive(Debug)]
pub struct Connection {
    pub id: usize,
    pub name: String,
    /// The names of the rooms this client joined, each once.
    pub rooms: Vec<String>,
}

/// A room: who is in it and which games were created in it.
#[derive(Debug)]
pub struct Room {
    pub members: HashSet<usize>,
    pub game_ids: HashSet<usize>,
}

impl Default for Room {
    fn default() -> (res: Self)
        ensures
            res.members@ == Set::<usize>::empty(),
            res.game_ids@ == Set::<usize>::empty(),
    {
        Room { members: HashSet::new(), game_ids: HashSet::new() }
    }
}

/// What the server has to say to a client.
#[derive(Debug)]
pub enum Payload {
    RoomJoined(RoomJoinedResponse),
    Chat(ChatMessageResponse),
    GameCreated(GameCreatedResponse),
    QuestionAsked(AskQuestionResponse),
    QuestionAnswered(AnswerQuestionResponse),
    AnswerValidated(ValidateAnswerResponse),
    AnswererChosen(ChooseAnswererResponse),
    AnswerTimedOut(AnswerTimedOut),
    PlayerLost(PlayerLost),
    SomeoneDisconnected(SomeoneDisconnectedResponse),
    Error(WsError),
    GameError(GameMessageError),
}

/// One message to send, the same to each of `receivers`.
#[derive(Debug)]
pub struct Outgoing {
    pub receivers: Vec<usize>,
    pub status: ResponseStatus,
    pub payload: Payload,
}

/// Work on the answer timers of the games.
#[derive(Debug)]
pub enum TimerAction {
    /// Arm the answer timer of `game_id`, to fire after `secs` seconds.
    Start { game_id: usize, secs: u64 },
    /// Disarm the answer timer of `game_id`, if it is armed.
    Cancel { game_id: usize },
}

/// Everything a handler asks the caller to do, in order.
#[derive(Debug)]
pub struct ServerReply {
    pub outgoing: Vec<Outgoing>,
    pub timers: Vec<TimerAction>,
}

/// The server's state.
#[derive(Debug)]
pub struct GameServer {
    /// The rooms by name, each name once.
    pub rooms: Vec<(String, Room)>,
    pub sessions: HashMap<usize, Connection>,
    pub session_counter: usize,
    pub game_counter: usize,
    pub games: HashMap<usize, Game>,
}

impl Default for GameServer {
    fn default() -> (res: Self)
        ensures
            res.wf(),
            res.rooms@.len() == 0,
            res.sessions@ == Map::<usize, Connection>::empty(),
            res.session_counter == 0,
            res.game_counter == 0,
            res.games@ == Map::<usize, Game>::empty(),
    {
        GameServer {
            rooms: Vec::new(),
            sessions: HashMap::new(),
            session_counter: 0,
            game_counter: 0,
            games: HashMap::new(),
        }
    }
}

/// `list` names the room `name`.
pub open spec fn lists_name(list: Seq<String>, name: Seq<char>) -> bool {
    exists|j: int| 0 <= j < list.len() && #[trigger] list[j]@ == name
}

/// The members of `members` that are to receive a room message: every
/// connected one but `skip`.
pub open spec fn audience(members: Set<usize>, sessions: Map<usize, Connection>, skip: usize) -> Set<
    usize,
> {
    members.filter(|m: usize| m != skip && sessions.contains_key(m))
}

/// `out` carries `payload` with `status` to each of `to`, once.
pub open spec fn delivers(out: Outgoing, to: Set<usize>, status: ResponseStatus, payload: Payload) -> bool {
    &&& out.receivers@.no_duplicates()
    &&& out.receivers@.to_set() == to
    &&& out.status == status
    &&& out.payload == payload
}

impl GameServer {
    /// The position of the room named `name`, if there is one.
    pub open spec fn room_index(self, name: Seq<char>) -> Option<int> {
        if exists|i: int| 0 <= i < self.rooms@.len() && #[trigger] self.rooms@[i].0@ == name {
            Some(choose|i: int| 0 <= i < self.rooms@.len() && #[trigger] self.rooms@[i].0@ == name)
        } else {
            None
        }
    }

    /// The members of the room named `name`; none if there is no such room.
    pub open spec fn members_of(self, name: Seq<char>) -> Set<usize> {
        match self.room_index(name) {
            Some(i) => self.rooms@[i].1.members@,
            None => Set::empty(),
        }
    }

    /// Who receives a message to the room `name` that skips `skip`.
    pub open spec fn room_audience(self, name: Seq<char>, skip: usize) -> Set<usize> {
        audience(self.members_of(name), self.sessions@, skip)
    }

    /// Who receives a message addressed to `id` alone.
    pub open spec fn direct_audience(self, id: usize) -> Set<usize> {
        if self.sessions@.contains_key(id) {
            set![id]
        } else {
            Set::empty()
        }
    }

    /// Room names are unique.
    pub open spec fn rooms_distinct(self) -> bool {
        forall|i: int, j: int|
            0 <= i < self.rooms@.len() && 0 <= j < self.rooms@.len() && i != j
                ==> #[trigger] self.rooms@[i].0@ != #[trigger] self.rooms@[j].0@
    }

    /// Each session is stored under its id, which the counter has handed
    /// out, and lists each room it joined once.
    pub open spec fn sessions_wf(self) -> bool {
        forall|k: usize| #[trigger]
            self.sessions@.contains_key(k) ==> {
                &&& self.sessions@[k].id == k
                &&& 1 <= k <= self.session_counter
                &&& forall|a: int, b: int|
                    0 <= a < self.sessions@[k].rooms@.len() && 0 <= b < self.sessions@[k].rooms@.len()
                        && a != b ==> #[trigger] self.sessions@[k].rooms@[a]@
                        != #[trigger] self.sessions@[k].rooms@[b]@
            }
    }

    /// A room member is a connected session that joined the room.
    pub open spec fn members_wf(self) -> bool {
        forall|i: int, m: usize|
            0 <= i < self.rooms@.len() && #[trigger] self.rooms@[i].1.members@.contains(m)
                ==> self.sessions@.contains_key(m) && lists_name(
                self.sessions@[m].rooms@,
                self.rooms@[i].0@,
            )
    }

    /// Each game is stored under its id, which the counter has handed out;
    /// it keeps its own invariant and its Game Master is not a player; the
    /// games a room lists are games of that room.
    pub open spec fn games_wf(self) -> bool {
        &&& forall|g: usize| #[trigger]
            self.games@.contains_key(g) ==> {
                &&& self.games@[g].id == g
                &&& 1 <= g <= self.game_counter
                &&& self.games@[g].wf()
                &&& self.games@[g].config == GameConfig::spec_default()
                &&& !self.games@[g].players@.contains_key(self.games@[g].host.id)
            }
        &&& forall|i: int, g: usize|
            0 <= i < self.rooms@.len() && #[trigger] self.rooms@[i].1.game_ids@.contains(g)
                ==> self.games@.contains_key(g) && self.games@[g].room@ == self.rooms@[i].0@
    }

    /// A connected session is a member of each room it joined.
    pub open spec fn joined_wf(self) -> bool {
        forall|k: usize, j: int|
            #![trigger self.sessions@[k].rooms@[j]]
            self.sessions@.contains_key(k) && 0 <= j < self.sessions@[k].rooms@.len()
                ==> self.members_of(self.sessions@[k].rooms@[j]@).contains(k)
    }

    /// What the server keeps between messages.
    pub open spec fn wf(self) -> bool {
        &&& self.rooms_distinct()
        &&& self.sessions_wf()
        &&& self.members_wf()
        &&& self.joined_wf()
        &&& self.games_wf()
    }

    /// Two servers with the same rooms have the same members everywhere.
    pub proof fn lemma_same_rooms(pre: GameServer, post: GameServer)
        requires
            pre.rooms_distinct(),
            post.rooms@ == pre.rooms@,
        ensures
            forall|n: Seq<char>| #[trigger] post.members_of(n) == pre.members_of(n),
            forall|n: Seq<char>| #[trigger] post.room_index(n) == pre.room_index(n),
    {
        assert forall|n: Seq<char>| #[trigger] post.room_index(n) == pre.room_index(n) by {
            GameServer::lemma_same_names(pre, post, n);
        }
        assert forall|n: Seq<char>| #[trigger] post.members_of(n) == pre.members_of(n) by {
            GameServer::lemma_same_names(pre, post, n);
        }
    }

    /// Two servers whose rooms carry the same names, position by position,
    /// find every name at the same position.
    pub proof fn lemma_same_names(pre: GameServer, post: GameServer, n: Seq<char>)
        requires
            pre.rooms_distinct(),
            pre.rooms@.len() == post.rooms@.len(),
            forall|i: int| 0 <= i < pre.rooms@.len() ==> #[trigger] post.rooms@[i].0@ == pre.rooms@[i].0@,
        ensures
            post.room_index(n) == pre.room_index(n),
            post.rooms_distinct(),
    {
        assert forall|a: int, b: int|
            0 <= a < post.rooms@.len() && 0 <= b < post.rooms@.len() && a != b
                implies #[trigger] post.rooms@[a].0@ != #[trigger] post.rooms@[b].0@ by {
            assert(post.rooms@[a].0@ == pre.rooms@[a].0@);
            assert(post.rooms@[b].0@ == pre.rooms@[b].0@);
        }
        match pre.room_index(n) {
            Some(i) => {
                crate::ws::server::message::join::lemma_room_index(pre, i, n);
                crate::ws::server::message::join::lemma_room_index(post, i, n);
            },
            None => {
                assert forall|j: int| 0 <= j < post.rooms@.len() implies #[trigger] post.rooms@[j].0@ != n by {
                    assert(post.rooms@[j].0@ == pre.rooms@[j].0@);
                }
            },
        }
    }

    /// The position of the room named `name`, if there is one.
    pub fn find_room(&self, name: &String) -> (res: Option<usize>)
        requires
            self.rooms_distinct(),
        ensures
            res matches Some(i) ==> i < self.rooms@.len() && self.room_index(name@) == Some(i as int),
            res is None ==> self.room_index(name@) is None,
    {
        let mut i: usize = 0;
        while i < self.rooms.len()
            invariant
                self.rooms_distinct(),
                i <= self.rooms@.len(),
                forall|j: int| 0 <= j < i ==> #[trigger] self.rooms@[j].0@ != name@,
            decreases self.rooms@.len() - i,
        {
            if self.rooms[i].0 == *name {
                assert(self.rooms@[i as int].0@ == name@);
                proof {
                    let j = choose|j: int|
                        0 <= j < self.rooms@.len() && #[trigger] self.rooms@[j].0@ == name@;
                    assert(self.rooms@[j].0@ == name@);
                    assert(j == i as int);
                }
                return Some(i);
            }
            i = i + 1;
        }
        None
    }

    /// The connected members of `members`, but `skip`.
    fn audience_of(&self, members: &HashSet<usize>, skip_id: usize) -> (res: Vec<usize>)
        ensures
            res@.no_duplicates(),
            res@.to_set() == audience(members@, self.sessions@, skip_id),
    {
        let mut res: Vec<usize> = Vec::new();
        for id in it: members.iter()
            invariant
                it.seq().unref().to_set() == members@,
                it.seq().unref().no_duplicates(),
                res@.no_duplicates(),
                res@.to_set() == audience(
                    it.seq().unref().take(it.index()).to_set(),
                    self.sessions@,
                    skip_id,
                ),
                it.index() == it.seq().len() ==> res@.to_set() == audience(
                    members@,
                    self.sessions@,
                    skip_id,
                ),
        {
            let ghost s = it.seq().unref();
            let ghost before = res@;
            if *id != skip_id && self.sessions.contains_key(id) {
                proof {
                    assert(!before.contains(*id)) by {
                        if before.contains(*id) {
                            assert(before.to_set().contains(*id));
                            assert(s.take(it.index()).to_set().contains(*id));
                            let j = choose|j: int| 0 <= j < it.index() && s.take(it.index())[j] == *id;
                            assert(s[j] == s[it.index()]);
                        }
                    }
                }
                res.push(*id);
            }
            proof {
                assert(s.take(it.index() + 1) =~= s.take(it.index()).push(*id));
                crate::ws::game::lemma_push_to_set(s.take(it.index()), *id);
                if *id != skip_id && self.sessions@.contains_key(*id) {
                    crate::ws::game::lemma_push_to_set(before, *id);
                }
                assert(res@.to_set() =~= audience(
                    s.take(it.index() + 1).to_set(),
                    self.sessions@,
                    skip_id,
                ));
                assert(s.take(s.len() as int) =~= s);
            }
        }
        res
    }

    /// A success message for the members of the room `room` but `skip_id`;
    /// `0` skips nobody, as no session has that id.
    pub fn send_message(&self, room: &String, payload: Payload, skip_id: usize) -> (out: Outgoing)
        requires
            self.rooms_distinct(),
        ensures
            delivers(out, self.room_audience(room@, skip_id), ResponseStatus::Success, payload),
    {
        match self.find_room(room) {
            Some(i) => {
                let receivers = self.audience_of(&self.rooms[i].1.members, skip_id);
                Outgoing { receivers, status: ResponseStatus::Success, payload }
            },
            None => {
                proof {
                    assert(audience(Set::empty(), self.sessions@, skip_id) =~= Set::empty());
                    assert(Seq::<usize>::empty().to_set() =~= Set::empty());
                }
                Outgoing { receivers: Vec::new(), status: ResponseStatus::Success, payload }
            },
        }
    }

    /// A message with `status` for the session `receiver_id`, if connected.
    fn message_to(&self, receiver_id: usize, status: ResponseStatus, payload: Payload) -> (out:
        Outgoing)
        ensures
            delivers(out, self.direct_audience(receiver_id), status, payload),
    {
        let mut receivers = Vec::new();
        if self.sessions.contains_key(&receiver_id) {
            receivers.push(receiver_id);
            assert(receivers@ == seq![receiver_id]);
            assert forall|a: usize| receivers@.to_set().contains(a) <==> a == receiver_id by {
                if a == receiver_id {
                    assert(receivers@[0] == receiver_id);
                }
            }
            assert(receivers@.to_set() =~= set![receiver_id]);
        } else {
            assert(receivers@.to_set() =~= Set::empty());
        }
        Outgoing { receivers, status, payload }
    }

    /// A success message for the session `receiver_id`, if connected.
    pub fn send_message_to(&self, receiver_id: usize, payload: Payload) -> (out: Outgoing)
        ensures
            delivers(out, self.direct_audience(receiver_id), ResponseStatus::Success, payload),
    {
        self.message_to(receiver_id, ResponseStatus::Success, payload)
    }

    /// A failure message for the session `receiver_id`, if connected.
    pub fn fail_to(&self, receiver_id: usize, payload: Payload) -> (out: Outgoing)
        ensures
            delivers(out, self.direct_audience(receiver_id), ResponseStatus::Failure, payload),
    {
        self.message_to(receiver_id, ResponseStatus::Failure, payload)
    }
}

/// The timer work that the game `game_id` asked for with `effects`.
pub open spec fn timers_of(game_id: usize, effects: Seq<GameEffect>) -> Seq<TimerAction>
    decreases effects.len(),
{
    if effects.len() == 0 {
        seq![]
    } else {
        timers_of(game_id, effects.drop_last()) + match effects.last() {
            GameEffect::StartAnswerTimer(secs) => seq![TimerAction::Start { game_id, secs }],
            GameEffect::CancelAnswerTimer => seq![TimerAction::Cancel { game_id }],
            _ => seq![],
        }
    }
}

/// The notices to the room that the game asked for with `effects`.
pub open spec fn notices_of(effects: Seq<GameEffect>) -> Seq<Payload>
    decreases effects.len(),
{
    if effects.len() == 0 {
        seq![]
    } else {
        notices_of(effects.drop_last()) + match effects.last() {
            GameEffect::PlayerLost(p) => seq![Payload::PlayerLost(p)],
            GameEffect::AnswerTimedOut(t) => seq![Payload::AnswerTimedOut(t)],
            _ => seq![],
        }
    }
}

/// `out` sends each of `payloads`, in order, as a success to `to`.
pub open spec fn relays(out: Seq<Outgoing>, to: Set<usize>, payloads: Seq<Payload>) -> bool {
    &&& out.len() == payloads.len()
    &&& forall|j: int|
        0 <= j < out.len() ==> #[trigger] delivers(out[j], to, ResponseStatus::Success, payloads[j])
}

impl GameServer {
    /// `outs` and `timers` carry out the `effects` of the game `game_id`:
    /// its notices go to the members of its room, its timer work to the
    /// caller.
    pub open spec fn carries_out(self, game_id: usize, effects: Seq<GameEffect>, outs: Seq<Outgoing>, timers: Seq<TimerAction>) -> bool {
        &&& relays(outs, self.room_audience(self.games@[game_id].room@, 0), notices_of(effects))
        &&& timers == timers_of(game_id, effects)
    }

    /// Appends to `outgoing` and `timers` what the `effects` of the game
    /// `game_id` ask for.
    pub fn relay_effects(
        &self,
        game_id: usize,
        effects: Vec<GameEffect>,
        outgoing: &mut Vec<Outgoing>,
        timers: &mut Vec<TimerAction>,
    )
        requires
            self.rooms_distinct(),
            self.games@.contains_key(game_id),
        ensures
            final(outgoing)@.len() >= old(outgoing)@.len(),
            final(outgoing)@.take(old(outgoing)@.len() as int) == old(outgoing)@,
            final(timers)@.len() >= old(timers)@.len(),
            final(timers)@.take(old(timers)@.len() as int) == old(timers)@,
            self.carries_out(
                game_id,
                effects@,
                final(outgoing)@.skip(old(outgoing)@.len() as int),
                final(timers)@.skip(old(timers)@.len() as int),
            ),
    {
        let room = &self.games.get(&game_id).unwrap().room;
        let ghost all = effects@;
        let ghost out0 = outgoing@;
        let ghost t0 = timers@;
        let ghost aud = self.room_audience(self.games@[game_id].room@, 0);
        let ghost mut k: int = 0;
        let mut rest = effects;
        assert(all.take(0) =~= Seq::<GameEffect>::empty());
        assert(outgoing@.skip(out0.len() as int) =~= Seq::<Outgoing>::empty());
        assert(outgoing@.take(out0.len() as int) =~= out0);
        assert(timers@.take(t0.len() as int) =~= t0);
        assert(timers@.skip(t0.len() as int) =~= Seq::<TimerAction>::empty());
        while rest.len() > 0
            invariant
                self.rooms_distinct(),
                room@ == self.games@[game_id].room@,
                aud == self.room_audience(self.games@[game_id].room@, 0),
                0 <= k <= all.len(),
                rest@ == all.skip(k),
                outgoing@.len() >= out0.len(),
                outgoing@.take(out0.len() as int) == out0,
                relays(outgoing@.skip(out0.len() as int), aud, notices_of(all.take(k))),
                timers@.len() >= t0.len(),
                timers@.take(t0.len() as int) == t0,
                timers@.skip(t0.len() as int) == timers_of(game_id, all.take(k)),
            decreases rest@.len(),
        {
            let e = rest.remove(0);
            let ghost pre_out = outgoing@;
            let ghost pre_t = timers@;
            match e {
                GameEffect::StartAnswerTimer(secs) => {
                    timers.push(TimerAction::Start { game_id, secs });
                },
                GameEffect::CancelAnswerTimer => {
                    timers.push(TimerAction::Cancel { game_id });
                },
                GameEffect::PlayerLost(p) => {
                    let out = self.send_message(room, Payload::PlayerLost(p), 0);
                    outgoing.push(out);
                },
                GameEffect::AnswerTimedOut(t) => {
                    let out = self.send_message(room, Payload::AnswerTimedOut(t), 0);
                    outgoing.push(out);
                },
            }
            proof {
                assert(all[k] == e);
                assert(all.take(k + 1).drop_last() =~= all.take(k));
                assert(all.take(k + 1).last() == e);
                k = k + 1;
                assert(rest@ =~= all.skip(k));
                assert(outgoing@.take(out0.len() as int) =~= out0);
                assert(timers@.take(t0.len() as int) =~= t0);
                let ns = notices_of(all.take(k));
                let prev = notices_of(all.take(k - 1));
                if outgoing@.len() == pre_out.len() {
                    assert(outgoing@ == pre_out);
                    assert(ns =~= prev);
                } else {
                    assert(outgoing@.skip(out0.len() as int) =~= pre_out.skip(out0.len() as int).push(
                        outgoing@.last(),
                    ));
                    assert(ns =~= prev.push(ns.last()));
                    assert forall|j: int| 0 <= j < outgoing@.skip(out0.len() as int).len() implies #[trigger] delivers(
                        outgoing@.skip(out0.len() as int)[j],
                        aud,
                        ResponseStatus::Success,
                        ns[j],
                    ) by {
                        if j < prev.len() {
                            assert(outgoing@.skip(out0.len() as int)[j] == pre_out.skip(out0.len() as int)[j]);
                            assert(delivers(pre_out.skip(out0.len() as int)[j], aud, ResponseStatus::Success, prev[j]));
                        }
                    }
                }
                if timers@.len() == pre_t.len() {
                    assert(timers@ == pre_t);
                } else {
                    assert(timers@.skip(t0.len() as int) =~= pre_t.skip(t0.len() as int).push(
                        timers@.last(),
                    ));
                }
            }
        }
        assert(all.take(all.len() as int) =~= all);
    }
}

impl GameServer {
    /// `reply` only tells `session_id` that there is no game `game_id`.
    pub open spec fn rejects_unknown_game(self, session_id: usize, game_id: usize, reply: ServerReply) -> bool {
        &&& reply.outgoing@.len() == 1
        &&& reply.timers@.len() == 0
        &&& reply.outgoing@[0].receivers@.no_duplicates()
        &&& reply.outgoing@[0].receivers@.to_set() == self.direct_audience(session_id)
        &&& reply.outgoing@[0].status == ResponseStatus::Failure
        &&& reply.outgoing@[0].payload matches Payload::GameError(e) && e.message@ == "Invalid game_id"@
            && e.game_id == game_id && e.game_state is None
    }

    /// The reply to a message that names no game.
    pub fn reject_unknown_game(&self, session_id: usize, game_id: usize) -> (reply: ServerReply)
        ensures
            self.rejects_unknown_game(session_id, game_id, reply),
    {
        let mut outgoing = Vec::new();
        outgoing.push(
            self.fail_to(
                session_id,
                Payload::GameError(GameMessageError::new("Invalid game_id", game_id)),
            ),
        );
        ServerReply { outgoing, timers: Vec::new() }
    }

    /// `post` is `pre` with the game `game_id` replaced by a game that
    /// kept its id, Game Master, room and players, and its invariant.
    pub open spec fn game_replaced(pre: GameServer, post: GameServer, game_id: usize) -> bool {
        &&& pre.games@.contains_key(game_id)
        &&& post.games@.dom() == pre.games@.dom()
        &&& forall|g: usize|
            g != game_id && #[trigger] pre.games@.contains_key(g) ==> post.games@[g] == pre.games@[g]
        &&& post.games@[game_id].id == pre.games@[game_id].id
        &&& post.games@[game_id].host == pre.games@[game_id].host
        &&& post.games@[game_id].config == pre.games@[game_id].config
        &&& post.games@[game_id].room == pre.games@[game_id].room
        &&& post.games@[game_id].players@.dom() == pre.games@[game_id].players@.dom()
        &&& post.games@[game_id].wf()
        &&& post.rooms@ == pre.rooms@
        &&& post.sessions@ == pre.sessions@
        &&& post.session_counter == pre.session_counter
        &&& post.game_counter == pre.game_counter
    }

    /// Replacing a game as `game_replaced` says keeps the server's
    /// invariant.
    pub proof fn lemma_game_replaced(pre: GameServer, post: GameServer, game_id: usize)
        requires
            pre.wf(),
            Self::game_replaced(pre, post, game_id),
        ensures
            post.wf(),
    {
        assert forall|g: usize| #[trigger] post.games@.contains_key(g) implies {
            &&& post.games@[g].id == g
            &&& 1 <= g <= post.game_counter
            &&& post.games@[g].wf()
            &&& post.games@[g].config == GameConfig::spec_default()
            &&& !post.games@[g].players@.contains_key(post.games@[g].host.id)
        } by {
            assert(pre.games@.contains_key(g));
        }
        assert forall|i: int, g: usize|
            0 <= i < post.rooms@.len() && #[trigger] post.rooms@[i].1.game_ids@.contains(g)
                implies post.games@.contains_key(g) && post.games@[g].room@ == post.rooms@[i].0@ by {
            assert(pre.rooms@[i].1.game_ids@.contains(g));
        }
    }
}

} // verus!
