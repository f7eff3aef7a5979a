//! The room table: for each room that has members, who is in it.
//!
//! Rooms are kept in a vector and found by name, and so are the members of
//! a room. A room exists from the moment its first member enters until its
//! last member leaves.

use vstd::prelude::*;
use crate::registry::model::{members_in, with_member, without_member};

verus! {

/// A named room and the sessions in it.
struct Room {
    name: String,
    members: Vec<u64>,
}

/// All rooms that currently have members.
pub struct RoomTable {
    rooms: Vec<Room>,
}

/// The texts of a sequence of strings.
pub open spec fn texts(strings: Seq<String>) -> Seq<Seq<char>> {
    Seq::new(strings.len(), |i: int| strings[i]@)
}

/// Whether some room in `rooms` is called `name`.
spec fn has_room(rooms: Seq<Room>, name: Seq<char>) -> bool {
    exists|i: int| 0 <= i < rooms.len() && (#[trigger] rooms[i]).name@ == name
}

/// The place in `rooms` of a room called `name`.
spec fn slot_of(rooms: Seq<Room>, name: Seq<char>) -> int {
    choose|i: int| 0 <= i < rooms.len() && (#[trigger] rooms[i]).name@ == name
}

/// No two rooms share a name.
spec fn distinct_names(rooms: Seq<Room>) -> bool {
    forall|i: int, j: int|
        0 <= i < j < rooms.len() ==> (#[trigger] rooms[i]).name@ != (#[trigger] rooms[j]).name@
}

/// Every room has at least one member, and lists no member twice.
spec fn proper_rooms(rooms: Seq<Room>) -> bool {
    forall|i: int|
        0 <= i < rooms.len() ==> (#[trigger] rooms[i]).members@.len() > 0
            && rooms[i].members@.no_duplicates()
}

/// The membership map that a sequence of rooms stands for.
spec fn table_of(rooms: Seq<Room>) -> Map<Seq<char>, Set<u64>> {
    Map::new(
        |name: Seq<char>| has_room(rooms, name),
        |name: Seq<char>| rooms[slot_of(rooms, name)].members@.to_set(),
    )
}

/// With distinct names, a room is found at its own place.
proof fn lemma_slot(rooms: Seq<Room>, i: int)
    requires
        distinct_names(rooms),
        0 <= i < rooms.len(),
    ensures
        has_room(rooms, rooms[i].name@),
        slot_of(rooms, rooms[i].name@) == i,
        table_of(rooms).contains_key(rooms[i].name@),
        table_of(rooms)[rooms[i].name@] == rooms[i].members@.to_set(),
{
    let name = rooms[i].name@;
    assert(has_room(rooms, name));
    let j = slot_of(rooms, name);
    assert(0 <= j < rooms.len() && rooms[j].name@ == name);
    if j < i {
        assert(rooms[j].name@ != rooms[i].name@);
    } else if i < j {
        assert(rooms[i].name@ != rooms[j].name@);
    }
}

/// A name that no room carries is not in the table.
proof fn lemma_absent(rooms: Seq<Room>, name: Seq<char>)
    requires
        forall|i: int| 0 <= i < rooms.len() ==> (#[trigger] rooms[i]).name@ != name,
    ensures
        !has_room(rooms, name),
        !table_of(rooms).contains_key(name),
        members_in(table_of(rooms), name) == Set::<u64>::empty(),
{
}

/// Removing one entry of a list without duplicates removes that value from
/// the set of its entries, and leaves no duplicates.
pub proof fn lemma_remove_entry(list: Seq<u64>, at: int)
    requires
        list.no_duplicates(),
        0 <= at < list.len(),
    ensures
        list.remove(at).no_duplicates(),
        list.remove(at).to_set() == list.to_set().remove(list[at]),
{
    let rest = list.remove(at);
    assert forall|i: int, j: int| 0 <= i < rest.len() && 0 <= j < rest.len() && i != j implies rest[i]
        != rest[j] by {
        let oi = if i < at { i } else { i + 1 };
        let oj = if j < at { j } else { j + 1 };
        assert(rest[i] == list[oi]);
        assert(rest[j] == list[oj]);
    }
    assert forall|value: u64| rest.to_set().contains(value) <==> list.to_set().remove(
        list[at],
    ).contains(value) by {
        if rest.to_set().contains(value) {
            let i = choose|i: int| 0 <= i < rest.len() && rest[i] == value;
            let oi = if i < at { i } else { i + 1 };
            assert(list[oi] == value);
            assert(list.contains(value));
        }
        if list.to_set().remove(list[at]).contains(value) {
            let oi = choose|oi: int| 0 <= oi < list.len() && list[oi] == value;
            assert(oi != at);
            let i = if oi < at { oi } else { oi - 1 };
            assert(rest[i] == value);
            assert(rest.contains(value));
        }
    }
    assert(rest.to_set() =~= list.to_set().remove(list[at]));
}

/// Appending a new value to a list without duplicates adds it to the set of
/// its entries, and leaves no duplicates.
pub proof fn lemma_push_entry(list: Seq<u64>, value: u64)
    requires
        list.no_duplicates(),
        !list.contains(value),
    ensures
        list.push(value).no_duplicates(),
        list.push(value).to_set() == list.to_set().insert(value),
{
    let more = list.push(value);
    assert forall|i: int, j: int| 0 <= i < more.len() && 0 <= j < more.len() && i != j implies more[i]
        != more[j] by {
        if i < list.len() {
            assert(list.contains(more[i]));
        }
        if j < list.len() {
            assert(list.contains(more[j]));
        }
    }
    assert forall|other: u64| more.to_set().contains(other) <==> list.to_set().insert(
        value,
    ).contains(other) by {
        if more.to_set().contains(other) {
            let i = choose|i: int| 0 <= i < more.len() && more[i] == other;
            if i < list.len() {
                assert(list[i] == other);
                assert(list.contains(other));
            }
        }
        if list.to_set().insert(value).contains(other) {
            if other == value {
                assert(more[list.len() as int] == other);
            } else {
                let i = choose|i: int| 0 <= i < list.len() && list[i] == other;
                assert(more[i] == other);
            }
            assert(more.contains(other));
        }
    }
    assert(more.to_set() =~= list.to_set().insert(value));
}

/// Changing the members of one room changes that room's entry in the table
/// and no other.
proof fn lemma_members_changed(before: Seq<Room>, after: Seq<Room>, at: int)
    requires
        distinct_names(before),
        before.len() == after.len(),
        0 <= at < before.len(),
        forall|i: int| 0 <= i < before.len() ==> (#[trigger] after[i]).name@ == before[i].name@,
        forall|i: int|
            0 <= i < before.len() && i != at ==> (#[trigger] after[i]).members@
                == before[i].members@,
    ensures
        distinct_names(after),
        table_of(after) == table_of(before).insert(
            before[at].name@,
            after[at].members@.to_set(),
        ),
{
    assert forall|i: int, j: int| 0 <= i < j < after.len() implies (#[trigger] after[i]).name@
        != (#[trigger] after[j]).name@ by {
        assert(before[i].name@ != before[j].name@);
    }
    let expected = table_of(before).insert(before[at].name@, after[at].members@.to_set());
    assert forall|name: Seq<char>| table_of(after).contains_key(name) implies expected.contains_key(
        name,
    ) && table_of(after)[name] == expected[name] by {
        let i = slot_of(after, name);
        assert(0 <= i < after.len() && after[i].name@ == name);
        lemma_slot(before, i);
        lemma_slot(after, i);
    }
    assert forall|name: Seq<char>| expected.contains_key(name) implies table_of(
        after,
    ).contains_key(name) by {
        if name == before[at].name@ {
            lemma_slot(after, at);
        } else {
            let i = slot_of(before, name);
            assert(0 <= i < before.len() && before[i].name@ == name);
            lemma_slot(after, i);
        }
    }
    assert(table_of(after) =~= expected);
}

/// Appending a room whose name is new adds its entry to the table.
proof fn lemma_room_added(before: Seq<Room>, room: Room)
    requires
        distinct_names(before),
        forall|i: int| 0 <= i < before.len() ==> (#[trigger] before[i]).name@ != room.name@,
    ensures
        distinct_names(before.push(room)),
        table_of(before.push(room)) == table_of(before).insert(
            room.name@,
            room.members@.to_set(),
        ),
{
    let after = before.push(room);
    assert forall|i: int, j: int| 0 <= i < j < after.len() implies (#[trigger] after[i]).name@
        != (#[trigger] after[j]).name@ by {
        if j < before.len() {
            assert(before[i].name@ != before[j].name@);
        } else {
            assert(before[i].name@ != room.name@);
        }
    }
    let expected = table_of(before).insert(room.name@, room.members@.to_set());
    assert forall|name: Seq<char>| table_of(after).contains_key(name) implies expected.contains_key(
        name,
    ) && table_of(after)[name] == expected[name] by {
        let i = slot_of(after, name);
        assert(0 <= i < after.len() && after[i].name@ == name);
        lemma_slot(after, i);
        if i < before.len() {
            assert(after[i] == before[i]);
            lemma_slot(before, i);
        } else {
            assert(after[i] == room);
        }
    }
    assert forall|name: Seq<char>| expected.contains_key(name) implies table_of(
        after,
    ).contains_key(name) by {
        if name == room.name@ {
            assert(after[before.len() as int] == room);
            lemma_slot(after, before.len() as int);
        } else {
            let i = slot_of(before, name);
            assert(0 <= i < before.len() && before[i].name@ == name);
            assert(after[i] == before[i]);
            lemma_slot(after, i);
        }
    }
    assert(table_of(after) =~= expected);
}

/// Taking a room out of the sequence takes its entry out of the table.
proof fn lemma_room_removed(before: Seq<Room>, at: int)
    requires
        distinct_names(before),
        0 <= at < before.len(),
    ensures
        distinct_names(before.remove(at)),
        table_of(before.remove(at)) == table_of(before).remove(before[at].name@),
{
    let after = before.remove(at);
    assert forall|i: int, j: int| 0 <= i < j < after.len() implies (#[trigger] after[i]).name@
        != (#[trigger] after[j]).name@ by {
        let oi = if i < at { i } else { i + 1 };
        let oj = if j < at { j } else { j + 1 };
        assert(before[oi].name@ != before[oj].name@);
    }
    let expected = table_of(before).remove(before[at].name@);
    assert forall|name: Seq<char>| table_of(after).contains_key(name) implies expected.contains_key(
        name,
    ) && table_of(after)[name] == expected[name] by {
        let i = slot_of(after, name);
        assert(0 <= i < after.len() && after[i].name@ == name);
        let oi = if i < at { i } else { i + 1 };
        assert(after[i] == before[oi]);
        lemma_slot(before, oi);
        lemma_slot(after, i);
        if oi < at {
            assert(before[oi].name@ != before[at].name@);
        } else {
            assert(before[at].name@ != before[oi].name@);
        }
    }
    assert forall|name: Seq<char>| expected.contains_key(name) implies table_of(
        after,
    ).contains_key(name) by {
        let oi = slot_of(before, name);
        assert(0 <= oi < before.len() && before[oi].name@ == name);
        assert(oi != at);
        let i = if oi < at { oi } else { oi - 1 };
        assert(after[i] == before[oi]);
        lemma_slot(after, i);
    }
    assert(table_of(after) =~= expected);
}

/// The first place at which `id` stands in `list`, if it is there.
pub fn position(list: &Vec<u64>, id: u64) -> (found: Option<usize>)
    ensures
        match found {
            Some(at) => at < list@.len() && list@[at as int] == id && forall|k: int|
                0 <= k < at ==> list@[k] != id,
            None => !list@.contains(id),
        },
{
    let mut at: usize = 0;
    while at < list.len()
        invariant
            at <= list@.len(),
            forall|k: int| 0 <= k < at ==> list@[k] != id,
        decreases list@.len() - at,
    {
        if list[at] == id {
            return Some(at);
        }
        at += 1;
    }
    None
}

impl RoomTable {
    /// The membership map that the table stands for.
    pub closed spec fn view(&self) -> Map<Seq<char>, Set<u64>> {
        table_of(self.rooms@)
    }

    /// The table's invariant: names are distinct, and every room has
    /// members, each listed once.
    pub closed spec fn wf(&self) -> bool {
        &&& distinct_names(self.rooms@)
        &&& proper_rooms(self.rooms@)
    }

    /// In a well-formed table every recorded room has a finite, non-empty
    /// member set.
    pub proof fn lemma_rooms_have_members(&self)
        requires
            self.wf(),
        ensures
            forall|room: Seq<char>| #[trigger]
                self@.contains_key(room) ==> self@[room].finite() && !self@[room].is_empty(),
    {
        assert forall|room: Seq<char>| #[trigger] self@.contains_key(room) implies self@[room].finite()
            && !self@[room].is_empty() by {
            let i = slot_of(self.rooms@, room);
            assert(0 <= i < self.rooms@.len());
            let list = self.rooms@[i].members@;
            assert(list.len() > 0);
            assert(list.contains(list[0]));
            assert(list.to_set().contains(list[0]));
            vstd::seq_lib::seq_to_set_is_finite(list);
        }
    }

    /// A table without rooms.
    pub fn new() -> (table: Self)
        ensures
            table.wf(),
            table@ == Map::<Seq<char>, Set<u64>>::empty(),
    {
        let table = RoomTable { rooms: Vec::new() };
        assert(table@ =~= Map::<Seq<char>, Set<u64>>::empty());
        table
    }

    /// Where the room called `name` stands, if there is one.
    fn find(&self, name: &String) -> (found: Option<usize>)
        ensures
            match found {
                Some(at) => at < self.rooms@.len() && self.rooms@[at as int].name@ == name@,
                None => forall|i: int|
                    0 <= i < self.rooms@.len() ==> (#[trigger] self.rooms@[i]).name@ != name@,
            },
    {
        let mut at: usize = 0;
        while at < self.rooms.len()
            invariant
                at <= self.rooms@.len(),
                forall|i: int| 0 <= i < at ==> (#[trigger] self.rooms@[i]).name@ != name@,
            decreases self.rooms@.len() - at,
        {
            if self.rooms[at].name == *name {
                return Some(at);
            }
            at += 1;
        }
        None
    }

    /// Session `id` enters `room`. The room comes into being if it has no
    /// members yet; a session that is already in it is not listed again.
    pub fn enter(&mut self, room: String, id: u64)
        requires
            old(self).wf(),
        ensures
            final(self).wf(),
            final(self)@ == with_member(old(self)@, room@, id),
    {
        match self.find(&room) {
            Some(at) => {
                proof {
                    lemma_slot(self.rooms@, at as int);
                }
                if position(&self.rooms[at].members, id).is_none() {
                    let ghost before = self.rooms@;
                    self.rooms[at].members.push(id);
                    proof {
                        lemma_push_entry(before[at as int].members@, id);
                        lemma_members_changed(before, self.rooms@, at as int);
                        assert forall|i: int| 0 <= i < self.rooms@.len() implies (
                        #[trigger] self.rooms@[i]).members@.len() > 0
                            && self.rooms@[i].members@.no_duplicates() by {
                            if i != at as int {
                                assert(before[i].members@.len() > 0);
                            }
                        }
                    }
                } else {
                    proof {
                        let list = self.rooms@[at as int].members@;
                        assert(list.to_set().insert(id) =~= list.to_set());
                        assert(self@ =~= with_member(self@, room@, id));
                    }
                }
            },
            None => {
                let ghost before = self.rooms@;
                let mut members: Vec<u64> = Vec::new();
                members.push(id);
                let entry = Room { name: room, members };
                proof {
                    lemma_absent(before, room@);
                    lemma_room_added(before, entry);
                    lemma_push_entry(Seq::<u64>::empty(), id);
                    assert(Seq::<u64>::empty().push(id) =~= members@);
                    assert(Seq::<u64>::empty().to_set() =~= Set::<u64>::empty());
                }
                self.rooms.push(entry);
                proof {
                    assert forall|i: int| 0 <= i < self.rooms@.len() implies (
                    #[trigger] self.rooms@[i]).members@.len() > 0
                        && self.rooms@[i].members@.no_duplicates() by {
                        if i < before.len() {
                            assert(before[i].members@.len() > 0);
                        }
                    }
                }
            },
        }
    }

    /// Session `id` leaves `room`. A room that is left without members
    /// ceases to exist. Nothing changes if the session was not in the room.
    pub fn leave(&mut self, room: &String, id: u64)
        requires
            old(self).wf(),
        ensures
            final(self).wf(),
            final(self)@ == without_member(old(self)@, room@, id),
    {
        match self.find(room) {
            Some(at) => {
                let ghost before = self.rooms@;
                let ghost list = before[at as int].members@;
                proof {
                    lemma_slot(before, at as int);
                    assert(list.len() > 0);
                    assert(list.to_set().contains(list[0]));
                }
                match position(&self.rooms[at].members, id) {
                    Some(k) => {
                        proof {
                            lemma_remove_entry(list, k as int);
                        }
                        if self.rooms[at].members.len() == 1 {
                            self.rooms.remove(at);
                            proof {
                                assert(list.remove(k as int).len() == 0);
                                assert(list.remove(k as int).to_set() =~= Set::<u64>::empty());
                                lemma_room_removed(before, at as int);
                                assert forall|i: int| 0 <= i < self.rooms@.len() implies (
                                #[trigger] self.rooms@[i]).members@.len() > 0
                                    && self.rooms@[i].members@.no_duplicates() by {
                                    let oi = if i < at as int { i } else { i + 1 };
                                    assert(self.rooms@[i] == before[oi]);
                                    assert(before[oi].members@.len() > 0);
                                }
                            }
                        } else {
                            self.rooms[at].members.remove(k);
                            proof {
                                let rest = list.remove(k as int);
                                assert(rest.to_set().contains(rest[0]));
                                lemma_members_changed(before, self.rooms@, at as int);
                                assert forall|i: int| 0 <= i < self.rooms@.len() implies (
                                #[trigger] self.rooms@[i]).members@.len() > 0
                                    && self.rooms@[i].members@.no_duplicates() by {
                                    if i != at as int {
                                        assert(before[i].members@.len() > 0);
                                    }
                                }
                            }
                        }
                    },
                    None => {
                        proof {
                            assert(list.to_set().remove(id) =~= list.to_set());
                            assert(self@ =~= without_member(self@, room@, id));
                        }
                    },
                }
            },
            None => {
                proof {
                    lemma_absent(self.rooms@, room@);
                    assert(Set::<u64>::empty().remove(id) =~= Set::<u64>::empty());
                    assert(self@ =~= without_member(self@, room@, id));
                }
            },
        }
    }

    /// The members of `room`, each once; none for a room that does not
    /// exist.
    pub fn members(&self, room: &String) -> (list: Vec<u64>)
        requires
            self.wf(),
        ensures
            list@.no_duplicates(),
            list@.to_set() == members_in(self@, room@),
    {
        let mut list: Vec<u64> = Vec::new();
        match self.find(room) {
            Some(at) => {
                proof {
                    lemma_slot(self.rooms@, at as int);
                }
                let source = &self.rooms[at].members;
                let mut k: usize = 0;
                while k < source.len()
                    invariant
                        k <= source@.len(),
                        list@ == source@.subrange(0, k as int),
                    decreases source@.len() - k,
                {
                    list.push(source[k]);
                    proof {
                        assert(list@ =~= source@.subrange(0, k + 1));
                    }
                    k += 1;
                }
                proof {
                    assert(list@ =~= source@);
                }
            },
            None => {
                proof {
                    lemma_absent(self.rooms@, room@);
                    assert(list@.to_set() =~= Set::<u64>::empty());
                }
            },
        }
        list
    }

    /// The names of the rooms that have members, each once.
    pub fn names(&self) -> (names: Vec<String>)
        requires
            self.wf(),
        ensures
            texts(names@).no_duplicates(),
            texts(names@).to_set() == self@.dom(),
    {
        let mut names: Vec<String> = Vec::new();
        let mut at: usize = 0;
        while at < self.rooms.len()
            invariant
                at <= self.rooms@.len(),
                names@.len() == at,
                forall|i: int| 0 <= i < at ==> (#[trigger] names@[i])@ == self.rooms@[i].name@,
            decreases self.rooms@.len() - at,
        {
            names.push(self.rooms[at].name.clone());
            at += 1;
        }
        proof {
            self.lemma_names();
            assert(texts(names@) =~= Self::names_of(self.rooms@));
        }
        names
    }

    /// How many rooms have members.
    pub fn len(&self) -> (count: usize)
        requires
            self.wf(),
        ensures
            count == self@.dom().len(),
            self@.dom().finite(),
    {
        proof {
            self.lemma_names();
        }
        self.rooms.len()
    }

    /// The names of the rooms, as a sequence without repetition.
    spec fn names_of(rooms: Seq<Room>) -> Seq<Seq<char>> {
        Seq::new(rooms.len(), |i: int| rooms[i].name@)
    }

    proof fn lemma_names(&self)
        requires
            self.wf(),
        ensures
            Self::names_of(self.rooms@).no_duplicates(),
            Self::names_of(self.rooms@).to_set() == self@.dom(),
            self@.dom().finite(),
            self@.dom().len() == self.rooms@.len(),
    {
        let names = Self::names_of(self.rooms@);
        assert forall|name: Seq<char>| names.to_set().contains(name) <==> self@.dom().contains(
            name,
        ) by {
            if names.to_set().contains(name) {
                let i = choose|i: int| 0 <= i < names.len() && names[i] == name;
                lemma_slot(self.rooms@, i);
            }
            if self@.dom().contains(name) {
                let i = slot_of(self.rooms@, name);
                assert(names[i] == name);
                assert(names.contains(name));
            }
        }
        assert(names.to_set() =~= self@.dom());
        names.unique_seq_to_set();
        vstd::seq_lib::seq_to_set_is_finite(names);
    }
}

} // verus!
