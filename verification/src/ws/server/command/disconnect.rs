//! A session ends.

use vstd::prelude::*;

use crate::ws::server::message::server_message::ResponseStatus;
use crate::ws::server::{delivers, GameServer, Outgoing, Payload, Room, ServerReply};

verus! {

/// The session `id` is gone.
#[derive(Debug)]
pub struct Disconnect {
    pub id: usize,
}

/// Tells a room that a member disconnected.
#[derive(Debug)]
pub struct SomeoneDisconnectedResponse {
    pub disconnected_id: usize,
    pub room: String,
}

/// The names of the rooms, in order, that have `id` among their members.
pub open spec fn rooms_of_member(rooms: Seq<(String, Room)>, id: usize) -> Seq<String>
    decreases rooms.len(),
{
    if rooms.len() == 0 {
        seq![]
    } else {
        let rest = rooms_of_member(rooms.drop_last(), id);
        if rooms.last().1.members@.contains(id) {
            rest.push(rooms.last().0)
        } else {
            rest
        }
    }
}

impl GameServer {
    /// The session is forgotten and leaves every room it was in; each of
    /// those rooms hears about it. An unknown session changes nothing.
    pub fn handle_disconnect(&mut self, msg: Disconnect) -> (res: ServerReply)
        requires
            old(self).wf(),
        ensures
            final(self).wf(),
            res.timers@.len() == 0,
            !old(self).sessions@.contains_key(msg.id) ==> {
                &&& *final(self) == *old(self)
                &&& res.outgoing@.len() == 0
            },
            old(self).sessions@.contains_key(msg.id) ==> {
                let left = rooms_of_member(old(self).rooms@, msg.id);
                &&& final(self).sessions@ == old(self).sessions@.remove(msg.id)
                &&& final(self).session_counter == old(self).session_counter
                &&& final(self).game_counter == old(self).game_counter
                &&& final(self).games@ == old(self).games@
                &&& final(self).rooms@.len() == old(self).rooms@.len()
                &&& forall|i: int|
                    0 <= i < old(self).rooms@.len() ==> {
                        &&& #[trigger] final(self).rooms@[i].0 == old(self).rooms@[i].0
                        &&& final(self).rooms@[i].1.members@ == old(self).rooms@[i].1.members@.remove(
                            msg.id,
                        )
                        &&& final(self).rooms@[i].1.game_ids@ == old(self).rooms@[i].1.game_ids@
                    }
                &&& res.outgoing@.len() == left.len()
                &&& forall|j: int|
                    0 <= j < left.len() ==> #[trigger] delivers(
                        res.outgoing@[j],
                        final(self).room_audience(left[j]@, 0),
                        ResponseStatus::Success,
                        Payload::SomeoneDisconnected(
                            SomeoneDisconnectedResponse { disconnected_id: msg.id, room: left[j] },
                        ),
                    )
            },
    {
        let mut outgoing: Vec<Outgoing> = Vec::new();
        if !self.sessions.contains_key(&msg.id) {
            return ServerReply { outgoing, timers: Vec::new() };
        }
        let _connection = self.sessions.remove(&msg.id);
        let mut left: Vec<String> = Vec::new();
        let mut i: usize = 0;
        let ghost pre = old(self).rooms@;
        while i < self.rooms.len()
            invariant
                self.sessions@ == old(self).sessions@.remove(msg.id),
                self.session_counter == old(self).session_counter,
                self.game_counter == old(self).game_counter,
                self.games@ == old(self).games@,
                pre == old(self).rooms@,
                self.rooms@.len() == pre.len(),
                i <= pre.len(),
                forall|j: int|
                    0 <= j < i ==> {
                        &&& #[trigger] self.rooms@[j].0 == pre[j].0
                        &&& self.rooms@[j].1.members@ == pre[j].1.members@.remove(msg.id)
                        &&& self.rooms@[j].1.game_ids@ == pre[j].1.game_ids@
                    },
                forall|j: int| i <= j < pre.len() ==> #[trigger] self.rooms@[j] == pre[j],
                left@ == rooms_of_member(pre.take(i as int), msg.id),
            decreases pre.len() - i,
        {
            let (name, mut room) = self.rooms.remove(i);
            let was_member = room.members.remove(&msg.id);
            if was_member {
                left.push(name.clone());
            }
            self.rooms.insert(i, (name, room));
            proof {
                assert(pre.take(i + 1).drop_last() =~= pre.take(i as int));
                assert(pre.take(i + 1).last() == pre[i as int]);
            }
            i = i + 1;
        }
        proof {
            assert(pre.take(pre.len() as int) =~= pre);
            self.lemma_left_rooms(*old(self), msg.id);
        }
        let mut k: usize = 0;
        let ghost snap = *self;
        while k < left.len()
            invariant
                *self == snap,
                self.rooms_distinct(),
                k <= left@.len(),
                outgoing@.len() == k,
                forall|j: int|
                    0 <= j < k ==> #[trigger] delivers(
                        outgoing@[j],
                        self.room_audience(left@[j]@, 0),
                        ResponseStatus::Success,
                        Payload::SomeoneDisconnected(
                            SomeoneDisconnectedResponse { disconnected_id: msg.id, room: left@[j] },
                        ),
                    ),
            decreases left@.len() - k,
        {
            let out = self.send_message(
                &left[k],
                Payload::SomeoneDisconnected(
                    SomeoneDisconnectedResponse { disconnected_id: msg.id, room: left[k].clone() },
                ),
                0,
            );
            outgoing.push(out);
            k = k + 1;
        }
        ServerReply { outgoing, timers: Vec::new() }
    }

    /// Taking the session `id` out of the sessions and out of every room
    /// keeps the server's invariant.
    proof fn lemma_left_rooms(self, pre: GameServer, id: usize)
        requires
            pre.wf(),
            self.sessions@ == pre.sessions@.remove(id),
            self.session_counter == pre.session_counter,
            self.game_counter == pre.game_counter,
            self.games@ == pre.games@,
            self.rooms@.len() == pre.rooms@.len(),
            forall|j: int|
                0 <= j < pre.rooms@.len() ==> {
                    &&& #[trigger] self.rooms@[j].0 == pre.rooms@[j].0
                    &&& self.rooms@[j].1.members@ == pre.rooms@[j].1.members@.remove(id)
                    &&& self.rooms@[j].1.game_ids@ == pre.rooms@[j].1.game_ids@
                },
        ensures
            self.wf(),
    {
        assert forall|a: int, b: int|
            0 <= a < self.rooms@.len() && 0 <= b < self.rooms@.len() && a != b
                implies #[trigger] self.rooms@[a].0@ != #[trigger] self.rooms@[b].0@ by {
            assert(self.rooms@[a].0 == pre.rooms@[a].0);
            assert(self.rooms@[b].0 == pre.rooms@[b].0);
        }
        assert forall|k: usize| #[trigger] self.sessions@.contains_key(k) implies {
            &&& self.sessions@[k].id == k
            &&& 1 <= k <= self.session_counter
            &&& forall|a: int, b: int|
                0 <= a < self.sessions@[k].rooms@.len() && 0 <= b < self.sessions@[k].rooms@.len()
                    && a != b ==> #[trigger] self.sessions@[k].rooms@[a]@
                    != #[trigger] self.sessions@[k].rooms@[b]@
        } by {
            assert(pre.sessions@.contains_key(k));
        }
        assert forall|j: int, m: usize|
            0 <= j < self.rooms@.len() && #[trigger] self.rooms@[j].1.members@.contains(m)
                implies self.sessions@.contains_key(m) && crate::ws::server::lists_name(
                self.sessions@[m].rooms@,
                self.rooms@[j].0@,
            ) by {
            assert(self.rooms@[j].0 == pre.rooms@[j].0);
            assert(pre.rooms@[j].1.members@.contains(m));
        }
        assert forall|j: int, g: usize|
            0 <= j < self.rooms@.len() && #[trigger] self.rooms@[j].1.game_ids@.contains(g)
                implies self.games@.contains_key(g) && self.games@[g].room@ == self.rooms@[j].0@ by {
            assert(self.rooms@[j].0 == pre.rooms@[j].0);
            assert(pre.rooms@[j].1.game_ids@.contains(g));
        }
        assert forall|k: usize, j: int|
            #![trigger self.sessions@[k].rooms@[j]]
            self.sessions@.contains_key(k) && 0 <= j < self.sessions@[k].rooms@.len()
                implies self.members_of(self.sessions@[k].rooms@[j]@).contains(k) by {
            let n = self.sessions@[k].rooms@[j]@;
            assert(pre.sessions@[k] == self.sessions@[k]);
            assert(pre.members_of(pre.sessions@[k].rooms@[j]@).contains(k));
            GameServer::lemma_same_names(pre, self, n);
            let i = pre.room_index(n)->0;
            assert(self.rooms@[i].1.members@ == pre.rooms@[i].1.members@.remove(id));
        }
    }
}

} // verus!
