//! The registry as mathematics: which session is in which room, and how each
//! request changes that.
//!
//! The executable registry is specified against this model. What the model
//! guarantees whatever the sequence of requests is proved here, once, on
//! maps and sets.

use vstd::prelude::*;

verus! {

/// The ids recorded for `room`; no ids for a room that is not recorded.
pub open spec fn members_in(membership: Map<Seq<char>, Set<u64>>, room: Seq<char>) -> Set<u64> {
    if membership.contains_key(room) {
        membership[room]
    } else {
        Set::empty()
    }
}

/// `membership` after `id` has entered `room`. A room that was not recorded
/// comes into being.
pub open spec fn with_member(
    membership: Map<Seq<char>, Set<u64>>,
    room: Seq<char>,
    id: u64,
) -> Map<Seq<char>, Set<u64>> {
    membership.insert(room, members_in(membership, room).insert(id))
}

/// `membership` after `id` has left `room`. A room that is left empty is no
/// longer recorded.
pub open spec fn without_member(
    membership: Map<Seq<char>, Set<u64>>,
    room: Seq<char>,
    id: u64,
) -> Map<Seq<char>, Set<u64>> {
    let rest = members_in(membership, room).remove(id);
    if rest.is_empty() {
        membership.remove(room)
    } else {
        membership.insert(room, rest)
    }
}

/// The abstract state of a registry holding links of type `L`.
pub struct RegistryView<L> {
    /// The current room of each registered session.
    pub rooms_of: Map<u64, Seq<char>>,
    /// The outbound link of each registered session.
    pub links: Map<u64, L>,
    /// The member set of each room that has members.
    pub members: Map<Seq<char>, Set<u64>>,
    /// The id that the next session to connect will get.
    pub next_id: nat,
}

/// One request to the registry, as the model sees it.
pub enum Request<L> {
    Connect { link: L },
    Disconnect { id: u64 },
    Join { id: u64, room: Seq<char> },
    Leave { id: u64 },
}

impl<L> RegistryView<L> {
    /// The registry before anyone has connected. Ids start at 1.
    pub open spec fn fresh() -> Self {
        RegistryView {
            rooms_of: Map::empty(),
            links: Map::empty(),
            members: Map::empty(),
            next_id: 1,
        }
    }

    pub open spec fn is_connected(self, id: u64) -> bool {
        self.rooms_of.contains_key(id)
    }

    /// The sessions currently in `room`.
    pub open spec fn members_of(self, room: Seq<char>) -> Set<u64> {
        members_in(self.members, room)
    }

    /// The rooms that currently exist: those with at least one member.
    pub open spec fn rooms(self) -> Set<Seq<char>> {
        self.members.dom()
    }

    /// The two maps agree: a session is in the member set of a room exactly
    /// when that room is the session's current room. Besides, every id in
    /// use was handed out earlier, and no recorded room is empty.
    pub open spec fn consistent(self) -> bool {
        &&& 1 <= self.next_id <= u64::MAX
        &&& self.links.dom() =~= self.rooms_of.dom()
        &&& forall|id: u64| #[trigger]
            self.rooms_of.contains_key(id) ==> 1 <= id < self.next_id && members_in(
                self.members,
                self.rooms_of[id],
            ).contains(id)
        &&& forall|room: Seq<char>, id: u64| #[trigger]
            members_in(self.members, room).contains(id) ==> self.rooms_of.contains_key(id)
                && self.rooms_of[id] == room
        &&& forall|room: Seq<char>| #[trigger]
            self.members.contains_key(room) ==> self.members[room].finite()
                && !self.members[room].is_empty()
    }

    /// A new session with `link` is registered under the next id and placed
    /// in `room`.
    pub open spec fn connect(self, link: L, room: Seq<char>) -> Self {
        let id = self.next_id as u64;
        RegistryView {
            rooms_of: self.rooms_of.insert(id, room),
            links: self.links.insert(id, link),
            members: with_member(self.members, room, id),
            next_id: self.next_id + 1,
        }
    }

    /// Session `id` is removed from its room and forgotten. Nothing changes
    /// for an id that is not registered.
    pub open spec fn disconnect(self, id: u64) -> Self {
        if self.is_connected(id) {
            RegistryView {
                rooms_of: self.rooms_of.remove(id),
                links: self.links.remove(id),
                members: without_member(self.members, self.rooms_of[id], id),
                next_id: self.next_id,
            }
        } else {
            self
        }
    }

    /// Session `id` leaves its room and enters `room`, in one step. Nothing
    /// changes for an id that is not registered.
    pub open spec fn join(self, id: u64, room: Seq<char>) -> Self {
        if self.is_connected(id) {
            RegistryView {
                rooms_of: self.rooms_of.insert(id, room),
                links: self.links,
                members: with_member(
                    without_member(self.members, self.rooms_of[id], id),
                    room,
                    id,
                ),
                next_id: self.next_id,
            }
        } else {
            self
        }
    }

    /// The sessions that a broadcast to `room` reaches.
    pub open spec fn recipients(self, room: Seq<char>, exclude: Option<u64>) -> Set<u64> {
        match exclude {
            Some(sender) => self.members_of(room).remove(sender),
            None => self.members_of(room),
        }
    }

    /// The state after one request. Leaving is joining the default room.
    pub open spec fn step(self, request: Request<L>, default_room: Seq<char>) -> Self {
        match request {
            Request::Connect { link } => self.connect(link, default_room),
            Request::Disconnect { id } => self.disconnect(id),
            Request::Join { id, room } => self.join(id, room),
            Request::Leave { id } => self.join(id, default_room),
        }
    }

    /// The state after a sequence of requests, processed in order.
    pub open spec fn run(self, requests: Seq<Request<L>>, default_room: Seq<char>) -> Self
        decreases requests.len(),
    {
        if requests.len() == 0 {
            self
        } else {
            self.run(requests.drop_last(), default_room).step(requests.last(), default_room)
        }
    }
}

} // verus!
