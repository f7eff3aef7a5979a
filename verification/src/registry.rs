//! The connection registry: the one place where room membership changes.
//!
//! The registry hands out session ids, records for each session its current
//! room and its outbound link, and keeps for each room the set of its
//! members. Every request is a method that takes the registry by exclusive
//! reference, so requests are processed one at a time and each broadcast
//! sees the membership that the requests before it have left.
//!
//! The registry sends nothing itself. A broadcast returns the deliveries to
//! be made; the caller hands each to the link of its recipient, and a
//! delivery that fails there is the concern of that recipient alone.
//!
//! A room exists while it has members: it is created by the first session
//! that enters it and removed when the last one leaves.

pub mod laws;
pub mod model;
pub mod rooms;

use std::collections::HashMap;
use vstd::prelude::*;
use crate::message::{ChatMessage, ChatMessageView};
use crate::registry::laws::{
    lemma_connect_keeps_consistency,
    lemma_disconnect_keeps_consistency,
    lemma_fresh_is_consistent,
    lemma_join_keeps_consistency,
    lemma_join_same_room_changes_nothing,
    lemma_member_of_exactly_one_room,
};
use crate::registry::model::RegistryView;
use crate::registry::rooms::{lemma_remove_entry, position, texts, RoomTable};
use crate::session::{Routing, RoutingView};

verus! {

broadcast use vstd::std_specs::hash::group_hash_axioms;

/// What the registry keeps about one session.
struct SessionRecord<L> {
    room: String,
    link: L,
}

/// One message on its way to one session.
#[derive(Clone, Debug, PartialEq, Eq)]
pub struct Delivery {
    /// The session to deliver to.
    pub recipient: u64,
    /// What to deliver.
    pub message: ChatMessage,
}

/// The recipients of a sequence of deliveries, in order.
pub open spec fn recipients_of(deliveries: Seq<Delivery>) -> Seq<u64> {
    Seq::new(deliveries.len(), |i: int| deliveries[i].recipient)
}

/// The state of a registry after it has carried out a routing command of a
/// session. A broadcast changes nothing.
pub open spec fn routed<L>(
    view: RegistryView<L>,
    routing: RoutingView,
    default_room: Seq<char>,
) -> RegistryView<L> {
    match routing {
        RoutingView::Join { id, room } => view.join(id, room),
        RoutingView::Leave { id } => view.join(id, default_room),
        RoutingView::Disconnect { id } => view.disconnect(id),
        _ => view,
    }
}

/// The sessions that the deliveries for a routing command go to: for a
/// broadcast, the members of the room but for the sender; else none.
pub open spec fn reached<L>(view: RegistryView<L>, routing: RoutingView) -> Set<u64> {
    match routing {
        RoutingView::Broadcast { room, exclude, .. } => view.recipients(room, Some(exclude)),
        _ => Set::empty(),
    }
}

/// The message that a routing command carries: that of a broadcast.
pub open spec fn carried(routing: RoutingView) -> Option<ChatMessageView> {
    match routing {
        RoutingView::Broadcast { message, .. } => Some(message),
        _ => None,
    }
}

/// The coordinator of all sessions, holding for each an outbound link of
/// type `L`.
pub struct ConnectionRegistry<L> {
    sessions: HashMap<u64, SessionRecord<L>>,
    rooms: RoomTable,
    next_id: u64,
    default_room: String,
}

impl<L> ConnectionRegistry<L> {
    /// The abstract state of the registry.
    pub closed spec fn view(&self) -> RegistryView<L> {
        RegistryView {
            rooms_of: self.sessions@.map_values(|record: SessionRecord<L>| record.room@),
            links: self.sessions@.map_values(|record: SessionRecord<L>| record.link),
            members: self.rooms@,
            next_id: self.next_id as nat,
        }
    }

    /// The registry's invariant: the session records and the room table
    /// agree with each other.
    pub closed spec fn wf(&self) -> bool {
        &&& self.rooms.wf()
        &&& self.sessions@.dom().finite()
        &&& self@.consistent()
    }

    /// The room that a session is placed in when it connects, and returns
    /// to when it leaves a room.
    pub closed spec fn spec_default_room(&self) -> Seq<char> {
        self.default_room@
    }

    /// A well-formed registry is consistent: every session is in exactly
    /// the room that its record names.
    pub proof fn lemma_wf_is_consistent(&self)
        requires
            self.wf(),
        ensures
            self@.consistent(),
            self@.rooms_of.dom().finite(),
    {
        assert(self@.rooms_of.dom() =~= self.sessions@.dom());
    }

    /// In a well-formed registry a registered session is a member of its
    /// current room and of no other, and an id that is not registered is a
    /// member of no room.
    pub proof fn lemma_session_in_exactly_one_room(&self, id: u64)
        requires
            self.wf(),
        ensures
            self@.is_connected(id) ==> self@.members_of(self@.rooms_of[id]).contains(id),
            forall|room: Seq<char>|
                self@.members_of(room).contains(id) ==> self@.is_connected(id) && room
                    == self@.rooms_of[id],
    {
        lemma_member_of_exactly_one_room(self@, id);
    }

    /// An empty registry with the given default room.
    pub fn new(default_room: String) -> (registry: Self)
        ensures
            registry.wf(),
            registry@ == RegistryView::<L>::fresh(),
            registry.spec_default_room() == default_room@,
    {
        let registry = ConnectionRegistry {
            sessions: HashMap::new(),
            rooms: RoomTable::new(),
            next_id: 1,
            default_room,
        };
        proof {
            lemma_fresh_is_consistent::<L>();
            assert(registry@.rooms_of =~= Map::<u64, Seq<char>>::empty());
            assert(registry@.links =~= Map::<u64, L>::empty());
            assert(registry@ == RegistryView::<L>::fresh());
        }
        registry
    }

    /// The default room.
    pub fn default_room(&self) -> (room: &String)
        ensures
            room@ == self.spec_default_room(),
    {
        &self.default_room
    }

    /// Whether an id is left for another session.
    pub fn can_connect(&self) -> (can: bool)
        ensures
            can == (self@.next_id < u64::MAX),
    {
        self.next_id < u64::MAX
    }

    /// Registers a new session with its outbound link, gives it the next
    /// id, and places it in the default room.
    pub fn connect(&mut self, link: L) -> (id: u64)
        requires
            old(self).wf(),
            old(self)@.next_id < u64::MAX,
        ensures
            final(self).wf(),
            id == old(self)@.next_id,
            final(self)@ == old(self)@.connect(link, old(self).spec_default_room()),
            final(self).spec_default_room() == old(self).spec_default_room(),
    {
        let ghost before = self@;
        let id: u64 = self.next_id;
        let record = SessionRecord { room: self.default_room.clone(), link };
        self.sessions.insert(id, record);
        self.rooms.enter(self.default_room.clone(), id);
        self.next_id = id + 1;
        proof {
            let after = before.connect(link, self.default_room@);
            lemma_connect_keeps_consistency(before, link, self.default_room@);
            assert(self@.rooms_of =~= after.rooms_of);
            assert(self@.links =~= after.links);
            assert(self@ == after);
        }
        id
    }

    /// Removes a session from its room and forgets it. Returns the link of
    /// the session, or `None` for an id that is not registered, in which
    /// case nothing changes.
    pub fn disconnect(&mut self, id: u64) -> (released: Option<L>)
        requires
            old(self).wf(),
        ensures
            final(self).wf(),
            final(self)@ == old(self)@.disconnect(id),
            released == (if old(self)@.is_connected(id) {
                Some(old(self)@.links[id])
            } else {
                None
            }),
            final(self).spec_default_room() == old(self).spec_default_room(),
    {
        let ghost before = self@;
        match self.sessions.remove(&id) {
            Some(record) => {
                self.rooms.leave(&record.room, id);
                proof {
                    let after = before.disconnect(id);
                    lemma_disconnect_keeps_consistency(before, id);
                    assert(self@.rooms_of =~= after.rooms_of);
                    assert(self@.links =~= after.links);
                    assert(self@ == after);
                }
                Some(record.link)
            },
            None => {
                proof {
                    assert(self@.rooms_of =~= before.rooms_of);
                    assert(self@.links =~= before.links);
                    assert(self@ == before);
                }
                None
            },
        }
    }

    /// Moves a session from its current room to `room`, in one step.
    /// Returns whether the session is registered; for an id that is not,
    /// nothing changes. Joining the room that the session is already in
    /// changes nothing either.
    pub fn join(&mut self, id: u64, room: String) -> (known: bool)
        requires
            old(self).wf(),
        ensures
            final(self).wf(),
            known == old(self)@.is_connected(id),
            final(self)@ == old(self)@.join(id, room@),
            final(self).spec_default_room() == old(self).spec_default_room(),
    {
        let ghost before = self@;
        match self.sessions.remove(&id) {
            Some(record) => {
                if record.room == room {
                    self.sessions.insert(id, record);
                    proof {
                        lemma_join_same_room_changes_nothing(before, id, room@);
                        assert(self@.rooms_of =~= before.rooms_of);
                        assert(self@.links =~= before.links);
                        assert(self@ == before);
                    }
                } else {
                    self.rooms.leave(&record.room, id);
                    self.rooms.enter(room.clone(), id);
                    self.sessions.insert(id, SessionRecord { room, link: record.link });
                    proof {
                        let after = before.join(id, room@);
                        lemma_join_keeps_consistency(before, id, room@);
                        assert(self@.rooms_of =~= after.rooms_of);
                        assert(self@.links =~= after.links);
                        assert(self@ == after);
                    }
                }
                true
            },
            None => {
                proof {
                    assert(self@.rooms_of =~= before.rooms_of);
                    assert(self@.links =~= before.links);
                    assert(self@ == before);
                }
                false
            },
        }
    }

    /// Moves a session back to the default room: a session is never in no
    /// room. Returns whether the session is registered.
    pub fn leave(&mut self, id: u64) -> (known: bool)
        requires
            old(self).wf(),
        ensures
            final(self).wf(),
            known == old(self)@.is_connected(id),
            final(self)@ == old(self)@.join(id, old(self).spec_default_room()),
            final(self).spec_default_room() == old(self).spec_default_room(),
    {
        let room = self.default_room.clone();
        self.join(id, room)
    }

    /// The deliveries that a broadcast of `message` to `room` consists of:
    /// one to each session that is in the room now, but for `exclude`.
    pub fn broadcast(&self, room: &String, message: &ChatMessage, exclude: Option<u64>) -> (deliveries:
        Vec<Delivery>)
        requires
            self.wf(),
        ensures
            recipients_of(deliveries@).no_duplicates(),
            recipients_of(deliveries@).to_set() == self@.recipients(room@, exclude),
            forall|i: int|
                0 <= i < deliveries@.len() ==> (#[trigger] deliveries@[i]).message@ == message@,
    {
        let mut targets = self.rooms.members(room);
        match exclude {
            Some(sender) => {
                match position(&targets, sender) {
                    Some(at) => {
                        proof {
                            lemma_remove_entry(targets@, at as int);
                        }
                        targets.remove(at);
                    },
                    None => {
                        proof {
                            assert(targets@.to_set().remove(sender) =~= targets@.to_set());
                        }
                    },
                }
            },
            None => {},
        }
        let mut deliveries: Vec<Delivery> = Vec::new();
        let mut k: usize = 0;
        while k < targets.len()
            invariant
                k <= targets@.len(),
                deliveries@.len() == k,
                forall|i: int|
                    0 <= i < k ==> (#[trigger] deliveries@[i]).recipient == targets@[i]
                        && deliveries@[i].message@ == message@,
            decreases targets@.len() - k,
        {
            deliveries.push(Delivery { recipient: targets[k], message: message.clone() });
            k += 1;
        }
        proof {
            assert(recipients_of(deliveries@) =~= targets@);
        }
        deliveries
    }

    /// Carries out a routing command of a session. Returns the deliveries
    /// to be made: those of a broadcast, each carrying the message that was
    /// sent, and none for any other command.
    pub fn route(&mut self, routing: Routing) -> (deliveries: Vec<Delivery>)
        requires
            old(self).wf(),
        ensures
            final(self).wf(),
            final(self)@ == routed(old(self)@, routing@, old(self).spec_default_room()),
            final(self).spec_default_room() == old(self).spec_default_room(),
            recipients_of(deliveries@).no_duplicates(),
            recipients_of(deliveries@).to_set() == reached(old(self)@, routing@),
            forall|i: int|
                0 <= i < deliveries@.len() ==> carried(routing@) == Some(
                    (#[trigger] deliveries@[i]).message@,
                ),
    {
        match routing {
            Routing::Join { id, room } => {
                self.join(id, room);
            },
            Routing::Leave { id } => {
                self.leave(id);
            },
            Routing::Disconnect { id } => {
                self.disconnect(id);
            },
            Routing::Broadcast { room, message, exclude } => {
                return self.broadcast(&room, &message, Some(exclude));
            },
            Routing::Nothing => {},
        }
        let deliveries: Vec<Delivery> = Vec::new();
        proof {
            assert(recipients_of(deliveries@).to_set() =~= Set::<u64>::empty());
        }
        deliveries
    }

    /// The names of the rooms that exist, each once.
    pub fn list_rooms(&self) -> (names: Vec<String>)
        requires
            self.wf(),
        ensures
            texts(names@).no_duplicates(),
            texts(names@).to_set() == self@.rooms(),
    {
        self.rooms.names()
    }

    /// The sessions in `room`, each once.
    pub fn room_members(&self, room: &String) -> (ids: Vec<u64>)
        requires
            self.wf(),
        ensures
            ids@.no_duplicates(),
            ids@.to_set() == self@.members_of(room@),
    {
        self.rooms.members(room)
    }

    /// Whether `id` is a registered session.
    pub fn is_connected(&self, id: u64) -> (connected: bool)
        ensures
            connected == self@.is_connected(id),
    {
        self.sessions.contains_key(&id)
    }

    /// The current room of a session.
    pub fn room_of(&self, id: u64) -> (room: Option<String>)
        ensures
            match room {
                Some(name) => self@.is_connected(id) && name@ == self@.rooms_of[id],
                None => !self@.is_connected(id),
            },
    {
        match self.sessions.get(&id) {
            Some(record) => Some(record.room.clone()),
            None => None,
        }
    }

    /// The outbound link of a session.
    pub fn link(&self, id: u64) -> (link: Option<&L>)
        ensures
            match link {
                Some(found) => self@.is_connected(id) && *found == self@.links[id],
                None => !self@.is_connected(id),
            },
    {
        match self.sessions.get(&id) {
            Some(record) => Some(&record.link),
            None => None,
        }
    }

    /// How many sessions are registered.
    pub fn session_count(&self) -> (count: usize)
        ensures
            count == self@.rooms_of.dom().len(),
    {
        proof {
            assert(self@.rooms_of.dom() =~= self.sessions@.dom());
        }
        self.sessions.len()
    }

    /// How many rooms exist.
    pub fn room_count(&self) -> (count: usize)
        requires
            self.wf(),
        ensures
            count == self@.rooms().len(),
    {
        self.rooms.len()
    }
}

} // verus!
