//! How a session and the registry stay in step.
//!
//! A session keeps its own record of the room it is in, and the registry
//! keeps another. The session changes its record when it issues a routing
//! command, the registry when it carries the command out. The laws here say
//! that the two records agree whenever the registry has carried out what
//! the session has issued, and what a message then reaches.

use vstd::prelude::*;
use crate::message::ChatMessageView;
use crate::protocol::CommandView;
use crate::registry::laws::{
    lemma_connect_keeps_consistency,
    lemma_recipients_are_the_current_members,
};
use crate::registry::model::RegistryView;
use crate::registry::{carried, reached, routed};
use crate::session::{Event, Phase, RoutingView, SessionView};

verus! {

/// The registry knows an active session under its id, in the room that the
/// session takes itself to be in and with the default room that the session
/// goes back to.
pub open spec fn in_step<L>(
    view: RegistryView<L>,
    state: SessionView,
    default_room: Seq<char>,
) -> bool {
    &&& state.default_room == default_room
    &&& state.phase == Phase::Active ==> view.is_connected(state.id) && view.rooms_of[state.id]
        == state.room
}

/// A session that connects is registered in the default room, in which it
/// also takes itself to be.
pub proof fn lemma_registration_is_in_step<L>(
    view: RegistryView<L>,
    state: SessionView,
    link: L,
    default_room: Seq<char>,
)
    requires
        view.consistent(),
        view.next_id < u64::MAX,
        state.phase == Phase::Connecting,
        state.room == default_room,
        state.default_room == default_room,
    ensures
        in_step(
            view.connect(link, default_room),
            state.step(Event::Registered { id: view.next_id as u64 }).0,
            default_room,
        ),
        state.step(Event::Registered { id: view.next_id as u64 }).0.phase == Phase::Active,
{
    lemma_connect_keeps_consistency(view, link, default_room);
}

/// Whatever happens to a session, once the registry has carried out the
/// routing command that the session issued, the two agree again. If the
/// command was a disconnect, the registry no longer knows the session.
pub proof fn lemma_routing_keeps_in_step<L>(
    view: RegistryView<L>,
    state: SessionView,
    event: Event,
    default_room: Seq<char>,
)
    requires
        state.phase != Phase::Connecting,
        in_step(view, state, default_room),
    ensures
        in_step(
            routed(view, state.step(event).1.routing, default_room),
            state.step(event).0,
            default_room,
        ),
        state.step(event).1.routing is Disconnect ==> !routed(
            view,
            state.step(event).1.routing,
            default_room,
        ).is_connected(state.id),
{
}

/// The routing command of one session moves no other session.
pub proof fn lemma_routing_moves_no_one_else<L>(
    view: RegistryView<L>,
    state: SessionView,
    event: Event,
    default_room: Seq<char>,
    other: u64,
)
    requires
        other != state.id,
        state.phase != Phase::Connecting,
    ensures
        ({
            let after = routed(view, state.step(event).1.routing, default_room);
            &&& after.is_connected(other) == view.is_connected(other)
            &&& after.is_connected(other) ==> after.rooms_of[other] == view.rooms_of[other]
                && after.links[other] == view.links[other]
        }),
{
}

/// A message of an active session goes to the room that the session is in,
/// carries the sender's name, that room and the text, and reaches exactly
/// the other sessions whose current room it is: not the sender, and no
/// session of another room.
pub proof fn lemma_message_reaches_the_rest_of_the_room<L>(
    view: RegistryView<L>,
    state: SessionView,
    text: Seq<char>,
    default_room: Seq<char>,
    id: u64,
)
    requires
        view.consistent(),
        state.phase == Phase::Active,
        in_step(view, state, default_room),
    ensures
        ({
            let routing = state.on_command(CommandView::Message { text }).1.routing;
            &&& carried(routing) == Some(
                ChatMessageView { from: state.display_name, room: state.room, text },
            )
            &&& routed(view, routing, default_room) == view
            &&& reached(view, routing).contains(id) <==> (view.is_connected(id)
                && view.rooms_of[id] == view.rooms_of[state.id] && id != state.id)
        }),
{
    lemma_recipients_are_the_current_members(view, state.room, Some(state.id), id);
}

} // verus!
