//! Joining a room, which creates it if it does not exist.

use vstd::prelude::*;

use crate::ws::server::{
    delivers,
    lists_name,
    GameServer,
    Outgoing,
    Payload,
    Room,
    ServerReply,
};
use crate::ws::server::message::server_message::ResponseStatus;

verus! {

/// The session `session_id` joins the room `room`.
#[derive(Debug)]
pub struct JoinRoom {
    pub session_id: usize,
    pub room: String,
}

/// Tells the room who joined.
#[derive(Debug)]
pub struct RoomJoinedResponse {
    pub joined_id: usize,
    pub room: String,
}

/// Adding an element keeps what a list names, and names the element.
pub proof fn lemma_lists_name_push(list: Seq<String>, x: String, name: Seq<char>)
    ensures
        lists_name(list, name) ==> lists_name(list.push(x), name),
        lists_name(list.push(x), x@),
        lists_name(list.push(x), name) ==> lists_name(list, name) || name == x@,
{
    if lists_name(list, name) {
        let j = choose|j: int| 0 <= j < list.len() && #[trigger] list[j]@ == name;
        assert(list.push(x)[j]@ == name);
    }
    assert(list.push(x)[list.len() as int]@ == x@);
    if lists_name(list.push(x), name) {
        let j = choose|j: int| 0 <= j < list.len() + 1 && #[trigger] list.push(x)[j]@ == name;
        if j < list.len() {
            assert(list[j]@ == name);
        }
    }
}

impl GameServer {
    /// `list` names `name`.
    pub fn lists_room(list: &Vec<String>, name: &String) -> (res: bool)
        ensures
            res == lists_name(list@, name@),
    {
        let mut j: usize = 0;
        while j < list.len()
            invariant
                j <= list@.len(),
                forall|k: int| 0 <= k < j ==> #[trigger] list@[k]@ != name@,
            decreases list@.len() - j,
        {
            if list[j] == *name {
                return true;
            }
            j = j + 1;
        }
        false
    }

    /// Adds `id` to the members of the room `room`, creating the room if it
    /// does not exist; tells whether `id` was new there.
    pub fn add_to_room(&mut self, room: &String, id: usize) -> (res: bool)
        requires
            old(self).rooms_distinct(),
        ensures
            final(self).rooms_distinct(),
            final(self).sessions == old(self).sessions,
            final(self).session_counter == old(self).session_counter,
            final(self).game_counter == old(self).game_counter,
            final(self).games == old(self).games,
            match old(self).room_index(room@) {
                Some(i) => {
                    &&& final(self).rooms@.len() == old(self).rooms@.len()
                    &&& forall|j: int|
                        0 <= j < old(self).rooms@.len() && j != i ==> #[trigger] final(self).rooms@[j]
                            == old(self).rooms@[j]
                    &&& final(self).rooms@[i].0 == old(self).rooms@[i].0
                    &&& final(self).rooms@[i].1.members@ == old(self).rooms@[i].1.members@.insert(id)
                    &&& final(self).rooms@[i].1.game_ids@ == old(self).rooms@[i].1.game_ids@
                    &&& res == !old(self).rooms@[i].1.members@.contains(id)
                },
                None => {
                    &&& final(self).rooms@.len() == old(self).rooms@.len() + 1
                    &&& forall|j: int|
                        0 <= j < old(self).rooms@.len() ==> #[trigger] final(self).rooms@[j]
                            == old(self).rooms@[j]
                    &&& final(self).rooms@.last().0 == *room
                    &&& final(self).rooms@.last().1.members@ == set![id]
                    &&& final(self).rooms@.last().1.game_ids@ == Set::<usize>::empty()
                    &&& res
                },
            },
    {
        match self.find_room(room) {
            Some(i) => {
                let (name, mut entry) = self.rooms.remove(i);
                let added = entry.members.insert(id);
                self.rooms.insert(i, (name, entry));
                proof {
                    assert forall|a: int, b: int|
                        0 <= a < self.rooms@.len() && 0 <= b < self.rooms@.len() && a != b
                            implies #[trigger] self.rooms@[a].0@ != #[trigger] self.rooms@[b].0@ by {
                        assert(self.rooms@[a].0 == old(self).rooms@[a].0);
                        assert(self.rooms@[b].0 == old(self).rooms@[b].0);
                    }
                }
                added
            },
            None => {
                let mut entry = Room::default();
                entry.members.insert(id);
                self.rooms.push((room.clone(), entry));
                proof {
                    assert(entry.members@ =~= set![id]);
                    assert forall|a: int, b: int|
                        0 <= a < self.rooms@.len() && 0 <= b < self.rooms@.len() && a != b
                            implies #[trigger] self.rooms@[a].0@ != #[trigger] self.rooms@[b].0@ by {
                        let n = old(self).rooms@.len() as int;
                        if a == n {
                            assert(old(self).rooms@[b].0@ != room@);
                        } else if b == n {
                            assert(old(self).rooms@[a].0@ != room@);
                        }
                    }
                }
                true
            },
        }
    }
}

impl GameServer {
    /// The session joins the room, which is created if it does not exist,
    /// and the room, the new member included, is told. A session that is
    /// not connected, or already in the room, changes nothing.
    pub fn handle_join_room(&mut self, msg: JoinRoom) -> (res: ServerReply)
        requires
            old(self).wf(),
        ensures
            final(self).wf(),
            res.timers@.len() == 0,
            final(self).session_counter == old(self).session_counter,
            final(self).game_counter == old(self).game_counter,
            final(self).games@ == old(self).games@,
            final(self).sessions@.dom() == old(self).sessions@.dom(),
            if old(self).sessions@.contains_key(msg.session_id) && !lists_name(
                old(self).sessions@[msg.session_id].rooms@,
                msg.room@,
            ) {
                &&& final(self).sessions@[msg.session_id].rooms@ == old(
                    self,
                ).sessions@[msg.session_id].rooms@.push(msg.room)
                &&& final(self).sessions@[msg.session_id].id == old(self).sessions@[msg.session_id].id
                &&& final(self).sessions@[msg.session_id].name == old(
                    self,
                ).sessions@[msg.session_id].name
                &&& forall|k: usize|
                    k != msg.session_id && #[trigger] old(self).sessions@.contains_key(k)
                        ==> final(self).sessions@[k] == old(self).sessions@[k]
                &&& final(self).members_of(msg.room@) == old(self).members_of(msg.room@).insert(
                    msg.session_id,
                )
                &&& forall|n: Seq<char>|
                    n != msg.room@ ==> #[trigger] final(self).members_of(n) == old(self).members_of(n)
                &&& res.outgoing@.len() == 1
                &&& delivers(
                    res.outgoing@[0],
                    final(self).room_audience(msg.room@, 0),
                    ResponseStatus::Success,
                    Payload::RoomJoined(
                        RoomJoinedResponse { joined_id: msg.session_id, room: msg.room },
                    ),
                )
            } else {
                &&& final(self).sessions@ == old(self).sessions@
                &&& final(self).rooms@ == old(self).rooms@
                &&& res.outgoing@.len() == 0
            },
    {
        let mut outgoing: Vec<Outgoing> = Vec::new();
        if !self.sessions.contains_key(&msg.session_id) {
            return ServerReply { outgoing, timers: Vec::new() };
        }
        let mut connection = self.sessions.remove(&msg.session_id).unwrap();
        if Self::lists_room(&connection.rooms, &msg.room) {
            self.sessions.insert(msg.session_id, connection);
            proof {
                assert(self.sessions@ =~= old(self).sessions@);
                GameServer::lemma_same_rooms(*old(self), *self);
            }
            return ServerReply { outgoing, timers: Vec::new() };
        }
        let ghost old_list = connection.rooms@;
        connection.rooms.push(msg.room.clone());
        self.sessions.insert(msg.session_id, connection);
        let ghost mid = *self;
        proof {
            lemma_lists_name_push(old_list, msg.room, msg.room@);
            assert forall|n: Seq<char>|
                lists_name(old_list, n) implies #[trigger] lists_name(old_list.push(msg.room), n) by {
                lemma_lists_name_push(old_list, msg.room, n);
            }
            assert forall|k: usize| #[trigger] self.sessions@.contains_key(k) implies {
                &&& self.sessions@[k].id == k
                &&& 1 <= k <= self.session_counter
                &&& forall|a: int, b: int|
                    0 <= a < self.sessions@[k].rooms@.len() && 0 <= b
                        < self.sessions@[k].rooms@.len() && a != b
                        ==> #[trigger] self.sessions@[k].rooms@[a]@
                        != #[trigger] self.sessions@[k].rooms@[b]@
            } by {
                if k == msg.session_id {
                    assert forall|a: int, b: int|
                        0 <= a < self.sessions@[k].rooms@.len() && 0 <= b
                            < self.sessions@[k].rooms@.len() && a != b
                            implies #[trigger] self.sessions@[k].rooms@[a]@
                            != #[trigger] self.sessions@[k].rooms@[b]@ by {
                        let l = old_list.len() as int;
                        if a == l {
                            assert(old_list[b]@ != msg.room@);
                        } else if b == l {
                            assert(old_list[a]@ != msg.room@);
                        } else {
                            assert(self.sessions@[k].rooms@[a] == old_list[a]);
                            assert(self.sessions@[k].rooms@[b] == old_list[b]);
                        }
                    }
                }
            }
        }
        self.add_to_room(&msg.room, msg.session_id);
        proof {
            self.lemma_join_keeps_members(mid, *old(self), msg.session_id, msg.room@);
        }
        let out = self.send_message(
            &msg.room.clone(),
            Payload::RoomJoined(RoomJoinedResponse { joined_id: msg.session_id, room: msg.room }),
            0,
        );
        outgoing.push(out);
        ServerReply { outgoing, timers: Vec::new() }
    }

    /// After the session `id` listed the room `name` and became one of its
    /// members, the members are still the sessions that listed the room,
    /// and the games of the rooms did not move.
    proof fn lemma_join_keeps_members(self, mid: GameServer, pre: GameServer, id: usize, name: Seq<char>)
        requires
            pre.wf(),
            mid.sessions_wf(),
            mid.rooms@ == pre.rooms@,
            mid.games@ == pre.games@,
            mid.game_counter == pre.game_counter,
            mid.session_counter == pre.session_counter,
            pre.sessions@.contains_key(id),
            mid.sessions@.dom() == pre.sessions@.dom(),
            lists_name(mid.sessions@[id].rooms@, name),
            mid.sessions@[id].rooms@.len() == pre.sessions@[id].rooms@.len() + 1,
            mid.sessions@[id].rooms@.last()@ == name,
            forall|j: int|
                0 <= j < pre.sessions@[id].rooms@.len() ==> #[trigger] mid.sessions@[id].rooms@[j]
                    == pre.sessions@[id].rooms@[j],
            forall|n: Seq<char>|
                lists_name(pre.sessions@[id].rooms@, n) ==> #[trigger] lists_name(
                    mid.sessions@[id].rooms@,
                    n,
                ),
            forall|k: usize|
                k != id && #[trigger] pre.sessions@.contains_key(k) ==> mid.sessions@[k]
                    == pre.sessions@[k],
            self.rooms_distinct(),
            self.sessions == mid.sessions,
            self.session_counter == mid.session_counter,
            self.game_counter == mid.game_counter,
            self.games == mid.games,
            match mid.room_index(name) {
                Some(i) => {
                    &&& self.rooms@.len() == mid.rooms@.len()
                    &&& forall|j: int|
                        0 <= j < mid.rooms@.len() && j != i ==> #[trigger] self.rooms@[j]
                            == mid.rooms@[j]
                    &&& self.rooms@[i].0 == mid.rooms@[i].0
                    &&& self.rooms@[i].1.members@ == mid.rooms@[i].1.members@.insert(id)
                    &&& self.rooms@[i].1.game_ids@ == mid.rooms@[i].1.game_ids@
                },
                None => {
                    &&& self.rooms@.len() == mid.rooms@.len() + 1
                    &&& forall|j: int|
                        0 <= j < mid.rooms@.len() ==> #[trigger] self.rooms@[j] == mid.rooms@[j]
                    &&& self.rooms@.last().0@ == name
                    &&& self.rooms@.last().1.members@ == set![id]
                    &&& self.rooms@.last().1.game_ids@ == Set::<usize>::empty()
                },
            },
        ensures
            self.wf(),
            self.members_of(name) == pre.members_of(name).insert(id),
            forall|n: Seq<char>| n != name ==> #[trigger] self.members_of(n) == pre.members_of(n),
    {
        let n_pre = pre.rooms@.len() as int;
        // every position of `self` below `n_pre` keeps its name
        assert forall|j: int| 0 <= j < n_pre implies #[trigger] self.rooms@[j].0 == pre.rooms@[j].0 by {
            if let Some(i) = mid.room_index(name) {
                if j != i {
                    assert(self.rooms@[j] == mid.rooms@[j]);
                }
            } else {
                assert(self.rooms@[j] == mid.rooms@[j]);
            }
        }
        assert forall|i: int, m: usize|
            0 <= i < self.rooms@.len() && #[trigger] self.rooms@[i].1.members@.contains(m)
                implies self.sessions@.contains_key(m) && lists_name(
                self.sessions@[m].rooms@,
                self.rooms@[i].0@,
            ) by {
            let was_member = i < n_pre && pre.rooms@[i].1.members@.contains(m);
            if was_member {
                assert(pre.sessions@.contains_key(m));
                assert(lists_name(pre.sessions@[m].rooms@, pre.rooms@[i].0@));
                if m != id {
                    assert(mid.sessions@[m] == pre.sessions@[m]);
                } else {
                    assert(lists_name(mid.sessions@[id].rooms@, pre.rooms@[i].0@));
                }
            } else {
                if let Some(r) = mid.room_index(name) {
                    if i != r {
                        assert(self.rooms@[i] == mid.rooms@[i]);
                    }
                    assert(m == id);
                    assert(self.rooms@[r].0@ == name);
                    assert(i == r);
                } else {
                    if i < n_pre {
                        assert(self.rooms@[i] == mid.rooms@[i]);
                    }
                    assert(i == n_pre);
                    assert(self.rooms@[i].1.members@ == set![id]);
                }
            }
        }
        assert forall|i: int, g: usize|
            0 <= i < self.rooms@.len() && #[trigger] self.rooms@[i].1.game_ids@.contains(g)
                implies self.games@.contains_key(g) && self.games@[g].room@ == self.rooms@[i].0@ by {
            if i < n_pre {
                if let Some(r) = mid.room_index(name) {
                    if i != r {
                        assert(self.rooms@[i] == mid.rooms@[i]);
                    }
                } else {
                    assert(self.rooms@[i] == mid.rooms@[i]);
                }
                assert(pre.rooms@[i].1.game_ids@.contains(g));
            } else {
                assert(self.rooms@[i].1.game_ids@ == Set::<usize>::empty());
            }
        }
        // where the rooms stand now (proved below)
        assert forall|n: Seq<char>| #[trigger] self.members_of(n) == (if n == name {
            pre.members_of(name).insert(id)
        } else {
            pre.members_of(n)
        }) by {
            match pre.room_index(n) {
                Some(j) => {
                    lemma_room_index(pre, j, n);
                    lemma_room_index(self, j, n);
                    if n == name {
                        lemma_room_index(mid, j, n);
                    } else {
                        if let Some(r) = mid.room_index(name) {
                            lemma_room_index(mid, r, name);
                            assert(j != r);
                            assert(self.rooms@[j] == mid.rooms@[j]);
                        } else {
                            assert(self.rooms@[j] == mid.rooms@[j]);
                        }
                    }
                },
                None => {
                    lemma_no_room(pre, n);
                    if n == name {
                        assert(mid.room_index(name) is None);
                        lemma_room_index(self, n_pre, n);
                        assert(set![id] =~= Set::<usize>::empty().insert(id));
                    } else {
                        assert forall|j: int| 0 <= j < self.rooms@.len() implies #[trigger] self.rooms@[j].0@ != n by {
                            if j < n_pre {
                                assert(self.rooms@[j].0 == pre.rooms@[j].0);
                            } else {
                                assert(mid.room_index(name) is None);
                            }
                        }
                    }
                },
            }
        }
        assert forall|k: usize, j: int|
            #![trigger self.sessions@[k].rooms@[j]]
            self.sessions@.contains_key(k) && 0 <= j < self.sessions@[k].rooms@.len()
                implies self.members_of(self.sessions@[k].rooms@[j]@).contains(k) by {
            let n = self.sessions@[k].rooms@[j]@;
            assert(self.members_of(n) == (if n == name {
                pre.members_of(name).insert(id)
            } else {
                pre.members_of(n)
            }));
            if k != id {
                assert(mid.sessions@[k] == pre.sessions@[k]);
                assert(pre.members_of(pre.sessions@[k].rooms@[j]@).contains(k));
            } else if j < pre.sessions@[id].rooms@.len() {
                assert(mid.sessions@[id].rooms@[j] == pre.sessions@[id].rooms@[j]);
                assert(pre.members_of(pre.sessions@[id].rooms@[j]@).contains(k));
            } else {
                assert(n == name);
            }
        }
    }
}

/// In a server whose room names are unique, the room named as the one at
/// position `i` is found at `i`.
pub proof fn lemma_room_index(s: GameServer, i: int, n: Seq<char>)
    requires
        s.rooms_distinct(),
        0 <= i < s.rooms@.len(),
        s.rooms@[i].0@ == n,
    ensures
        s.room_index(n) == Some(i),
{
    let j = choose|j: int| 0 <= j < s.rooms@.len() && #[trigger] s.rooms@[j].0@ == n;
    assert(s.rooms@[j].0@ == n);
}

/// No room of `s` is named `n` when `n` is not found.
pub proof fn lemma_no_room(s: GameServer, n: Seq<char>)
    requires
        s.room_index(n) is None,
    ensures
        forall|j: int| 0 <= j < s.rooms@.len() ==> #[trigger] s.rooms@[j].0@ != n,
{
}

} // verus!
