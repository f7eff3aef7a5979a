//! What holds of the registry model whatever requests it is given.

use vstd::prelude::*;
use crate::registry::model::{members_in, with_member, without_member, RegistryView, Request};

verus! {

/// Entering a room keeps everyone else where they were.
pub proof fn lemma_with_member(
    membership: Map<Seq<char>, Set<u64>>,
    room: Seq<char>,
    id: u64,
    other_room: Seq<char>,
    other: u64,
)
    ensures
        members_in(with_member(membership, room, id), other_room).contains(other) <==> (
        members_in(membership, other_room).contains(other) || (other_room == room && other
            == id)),
{
}

/// Leaving a room keeps everyone else where they were.
pub proof fn lemma_without_member(
    membership: Map<Seq<char>, Set<u64>>,
    room: Seq<char>,
    id: u64,
    other_room: Seq<char>,
    other: u64,
)
    ensures
        members_in(without_member(membership, room, id), other_room).contains(other) <==> (
        members_in(membership, other_room).contains(other) && !(other_room == room && other
            == id)),
{
}

/// A registry that nobody has connected to is consistent.
pub proof fn lemma_fresh_is_consistent<L>()
    ensures
        RegistryView::<L>::fresh().consistent(),
{
}

/// Connecting keeps the registry consistent, as long as an id is left.
pub proof fn lemma_connect_keeps_consistency<L>(view: RegistryView<L>, link: L, room: Seq<char>)
    requires
        view.consistent(),
        view.next_id < u64::MAX,
    ensures
        view.connect(link, room).consistent(),
{
    let after = view.connect(link, room);
    let id = view.next_id as u64;
    assert forall|r: Seq<char>, other: u64| #[trigger]
        members_in(after.members, r).contains(other) implies after.rooms_of.contains_key(other)
        && after.rooms_of[other] == r by {
        lemma_with_member(view.members, room, id, r, other);
        if members_in(view.members, r).contains(other) {
            assert(view.rooms_of.contains_key(other));
        }
    }
    assert forall|other: u64| #[trigger] after.rooms_of.contains_key(other) implies 1 <= other
        < after.next_id && members_in(after.members, after.rooms_of[other]).contains(other) by {
        lemma_with_member(view.members, room, id, after.rooms_of[other], other);
        if other != id {
            assert(view.rooms_of.contains_key(other));
        }
    }
    assert forall|r: Seq<char>| #[trigger] after.members.contains_key(r) implies after.members[r].finite()
        && !after.members[r].is_empty() by {
        if r == room {
            assert(after.members[r].contains(id));
        } else {
            assert(view.members.contains_key(r));
        }
    }
}

/// Disconnecting keeps the registry consistent.
pub proof fn lemma_disconnect_keeps_consistency<L>(view: RegistryView<L>, id: u64)
    requires
        view.consistent(),
    ensures
        view.disconnect(id).consistent(),
{
    if view.is_connected(id) {
        let after = view.disconnect(id);
        let left = view.rooms_of[id];
        assert forall|r: Seq<char>, other: u64| #[trigger]
            members_in(after.members, r).contains(other) implies after.rooms_of.contains_key(
            other,
        ) && after.rooms_of[other] == r by {
            lemma_without_member(view.members, left, id, r, other);
            assert(members_in(view.members, r).contains(other));
        }
        assert forall|other: u64| #[trigger] after.rooms_of.contains_key(other) implies 1
            <= other < after.next_id && members_in(
            after.members,
            after.rooms_of[other],
        ).contains(other) by {
            assert(view.rooms_of.contains_key(other));
            lemma_without_member(view.members, left, id, after.rooms_of[other], other);
        }
        assert forall|r: Seq<char>| #[trigger] after.members.contains_key(r) implies after.members[r].finite()
            && !after.members[r].is_empty() by {
            assert(view.members.contains_key(r));
        }
    }
}

/// Joining keeps the registry consistent.
pub proof fn lemma_join_keeps_consistency<L>(view: RegistryView<L>, id: u64, room: Seq<char>)
    requires
        view.consistent(),
    ensures
        view.join(id, room).consistent(),
{
    if view.is_connected(id) {
        let after = view.join(id, room);
        let left = view.rooms_of[id];
        let between = without_member(view.members, left, id);
        assert forall|r: Seq<char>, other: u64| #[trigger]
            members_in(after.members, r).contains(other) implies after.rooms_of.contains_key(
            other,
        ) && after.rooms_of[other] == r by {
            lemma_with_member(between, room, id, r, other);
            lemma_without_member(view.members, left, id, r, other);
            if !(r == room && other == id) {
                assert(members_in(view.members, r).contains(other));
            }
        }
        assert forall|other: u64| #[trigger] after.rooms_of.contains_key(other) implies 1
            <= other < after.next_id && members_in(
            after.members,
            after.rooms_of[other],
        ).contains(other) by {
            assert(view.rooms_of.contains_key(other));
            lemma_with_member(between, room, id, after.rooms_of[other], other);
            lemma_without_member(view.members, left, id, after.rooms_of[other], other);
        }
        assert forall|r: Seq<char>| #[trigger] after.members.contains_key(r) implies after.members[r].finite()
            && !after.members[r].is_empty() by {
            if r == room {
                assert(after.members[r].contains(id));
            } else {
                assert(view.members.contains_key(r));
            }
        }
    }
}

/// Every request keeps the registry consistent, as long as an id is left.
pub proof fn lemma_step_keeps_consistency<L>(
    view: RegistryView<L>,
    request: Request<L>,
    default_room: Seq<char>,
)
    requires
        view.consistent(),
        view.next_id < u64::MAX,
    ensures
        view.step(request, default_room).consistent(),
        view.next_id <= view.step(request, default_room).next_id <= view.next_id + 1,
{
    match request {
        Request::Connect { link } => lemma_connect_keeps_consistency(view, link, default_room),
        Request::Disconnect { id } => lemma_disconnect_keeps_consistency(view, id),
        Request::Join { id, room } => lemma_join_keeps_consistency(view, id, room),
        Request::Leave { id } => lemma_join_keeps_consistency(view, id, default_room),
    }
}

/// Whatever requests a consistent registry processes, it stays consistent,
/// and it hands out at most one id per request.
pub proof fn lemma_run_keeps_consistency<L>(
    view: RegistryView<L>,
    requests: Seq<Request<L>>,
    default_room: Seq<char>,
)
    requires
        view.consistent(),
        view.next_id + requests.len() <= u64::MAX,
    ensures
        view.run(requests, default_room).consistent(),
        view.next_id <= view.run(requests, default_room).next_id <= view.next_id
            + requests.len(),
    decreases requests.len(),
{
    if requests.len() > 0 {
        lemma_run_keeps_consistency(view, requests.drop_last(), default_room);
        lemma_step_keeps_consistency(
            view.run(requests.drop_last(), default_room),
            requests.last(),
            default_room,
        );
    }
}

/// In a consistent registry a registered session is a member of its current
/// room and of no other, and an id that is not registered is a member of no
/// room.
pub proof fn lemma_member_of_exactly_one_room<L>(view: RegistryView<L>, id: u64)
    requires
        view.consistent(),
    ensures
        view.is_connected(id) ==> view.members_of(view.rooms_of[id]).contains(id),
        forall|room: Seq<char>|
            view.members_of(room).contains(id) ==> view.is_connected(id) && room
                == view.rooms_of[id],
{
    assert forall|room: Seq<char>| view.members_of(room).contains(id) implies view.is_connected(
        id,
    ) && room == view.rooms_of[id] by {
        assert(members_in(view.members, room).contains(id));
    }
}

/// After any sequence of connect, join, leave and disconnect requests to a
/// new registry, every session that is connected is a member of exactly one
/// room: never of none, never of two.
pub proof fn lemma_always_exactly_one_room<L>(
    requests: Seq<Request<L>>,
    default_room: Seq<char>,
    id: u64,
)
    requires
        requests.len() < u64::MAX,
    ensures
        ({
            let view = RegistryView::<L>::fresh().run(requests, default_room);
            &&& view.is_connected(id) ==> view.members_of(view.rooms_of[id]).contains(id)
            &&& forall|room: Seq<char>|
                view.members_of(room).contains(id) ==> view.is_connected(id) && room
                    == view.rooms_of[id]
        }),
{
    lemma_fresh_is_consistent::<L>();
    lemma_run_keeps_consistency(RegistryView::<L>::fresh(), requests, default_room);
    lemma_member_of_exactly_one_room(RegistryView::<L>::fresh().run(requests, default_room), id);
}

/// A broadcast to a room reaches exactly the sessions whose current room it
/// is, but for the excluded sender.
pub proof fn lemma_recipients_are_the_current_members<L>(
    view: RegistryView<L>,
    room: Seq<char>,
    exclude: Option<u64>,
    id: u64,
)
    requires
        view.consistent(),
    ensures
        view.recipients(room, exclude).contains(id) <==> (view.is_connected(id)
            && view.rooms_of[id] == room && exclude != Some(id)),
{
    assert(view.members_of(room).contains(id) <==> members_in(view.members, room).contains(id));
    if view.is_connected(id) && view.rooms_of[id] == room {
        assert(view.rooms_of.contains_key(id));
    }
}

/// A session that has disconnected is in no room, and no broadcast reaches
/// it.
pub proof fn lemma_disconnected_is_unreachable<L>(
    view: RegistryView<L>,
    id: u64,
    room: Seq<char>,
    exclude: Option<u64>,
)
    requires
        view.consistent(),
    ensures
        !view.disconnect(id).is_connected(id),
        !view.disconnect(id).members_of(room).contains(id),
        !view.disconnect(id).recipients(room, exclude).contains(id),
{
    lemma_disconnect_keeps_consistency(view, id);
    lemma_recipients_are_the_current_members(view.disconnect(id), room, exclude, id);
    lemma_member_of_exactly_one_room(view.disconnect(id), id);
}

/// An id that was handed out and is no longer registered is never registered
/// again: ids are not reused. So whatever requests follow a disconnect, no
/// later broadcast reaches the session that left.
pub proof fn lemma_disconnected_stays_unreachable<L>(
    view: RegistryView<L>,
    id: u64,
    requests: Seq<Request<L>>,
    default_room: Seq<char>,
    room: Seq<char>,
    exclude: Option<u64>,
)
    requires
        view.consistent(),
        view.next_id + requests.len() <= u64::MAX,
        id < view.next_id,
        !view.is_connected(id),
    ensures
        !view.run(requests, default_room).is_connected(id),
        !view.run(requests, default_room).recipients(room, exclude).contains(id),
    decreases requests.len(),
{
    lemma_run_keeps_consistency(view, requests, default_room);
    if requests.len() > 0 {
        let before = view.run(requests.drop_last(), default_room);
        lemma_disconnected_stays_unreachable(
            view,
            id,
            requests.drop_last(),
            default_room,
            room,
            exclude,
        );
        lemma_run_keeps_consistency(view, requests.drop_last(), default_room);
        assert(!before.step(requests.last(), default_room).is_connected(id));
    }
    lemma_recipients_are_the_current_members(
        view.run(requests, default_room),
        room,
        exclude,
        id,
    );
}

/// Joining the room that a session is already in changes nothing.
pub proof fn lemma_join_same_room_changes_nothing<L>(
    view: RegistryView<L>,
    id: u64,
    room: Seq<char>,
)
    requires
        view.consistent(),
        view.is_connected(id),
        view.rooms_of[id] == room,
    ensures
        view.join(id, room) == view,
{
    let after = view.join(id, room);
    let between = without_member(view.members, room, id);
    assert(members_in(view.members, room).contains(id));
    assert(view.members.contains_key(room));
    assert(members_in(between, room).insert(id) =~= view.members[room]);
    assert(after.members =~= view.members);
    assert(after.rooms_of =~= view.rooms_of);
}

/// Joining is idempotent: a second join of the same room changes nothing.
pub proof fn lemma_join_is_idempotent<L>(view: RegistryView<L>, id: u64, room: Seq<char>)
    requires
        view.consistent(),
    ensures
        view.join(id, room).join(id, room) == view.join(id, room),
{
    if view.is_connected(id) {
        lemma_join_keeps_consistency(view, id, room);
        lemma_join_same_room_changes_nothing(view.join(id, room), id, room);
    }
}

/// Disconnecting is idempotent: a second disconnect of the same session
/// changes nothing.
pub proof fn lemma_disconnect_is_idempotent<L>(view: RegistryView<L>, id: u64)
    ensures
        view.disconnect(id).disconnect(id) == view.disconnect(id),
{
}

} // verus!
