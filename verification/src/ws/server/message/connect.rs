//! A new session connects.

use vstd::prelude::*;

use crate::ws::server::{Connection, GameServer};

verus! {

/// Tells a new session its id.
#[derive(Debug)]
pub struct ConnectSessionResponse {
    pub connected_id: usize,
}

impl GameServer {
    /// Registers a new session under the next id; it is in no room yet.
    pub fn handle_connect(&mut self, name: String) -> (res: ConnectSessionResponse)
        requires
            old(self).wf(),
            old(self).session_counter < usize::MAX,
        ensures
            final(self).wf(),
            res.connected_id == old(self).session_counter + 1,
            final(self).session_counter == res.connected_id,
            !old(self).sessions@.contains_key(res.connected_id),
            final(self).sessions@.dom() == old(self).sessions@.dom().insert(res.connected_id),
            final(self).sessions@[res.connected_id].id == res.connected_id,
            final(self).sessions@[res.connected_id].name == name,
            final(self).sessions@[res.connected_id].rooms@.len() == 0,
            forall|k: usize|
                k != res.connected_id && #[trigger] old(self).sessions@.contains_key(k)
                    ==> final(self).sessions@[k] == old(self).sessions@[k],
            final(self).rooms@ == old(self).rooms@,
            final(self).game_counter == old(self).game_counter,
            final(self).games@ == old(self).games@,
    {
        self.session_counter = self.session_counter + 1;
        let id = self.session_counter;
        self.sessions.insert(id, Connection { name, id, rooms: Vec::new() });
        proof {
            GameServer::lemma_same_rooms(*old(self), *self);
            assert forall|k: usize, j: int|
                #![trigger self.sessions@[k].rooms@[j]]
                self.sessions@.contains_key(k) && 0 <= j < self.sessions@[k].rooms@.len()
                    implies self.members_of(self.sessions@[k].rooms@[j]@).contains(k) by {
                if k != id {
                    assert(old(self).sessions@[k] == self.sessions@[k]);
                    assert(old(self).members_of(old(self).sessions@[k].rooms@[j]@).contains(k));
                }
            }
        }
        ConnectSessionResponse { connected_id: id }
    }
}

} // verus!
