//! What holds of a session whatever events reach it.

use vstd::prelude::*;
use crate::heartbeat::timed_out;
use crate::protocol::{frame_text, CommandView, ServerEventView};
use crate::session::{quiet, Event, LookupView, Phase, ReplyView, RoutingView, SessionView};

verus! {

impl SessionView {
    /// The state after a sequence of events, handled in order.
    pub open spec fn run(self, events: Seq<Event>) -> SessionView
        decreases events.len(),
    {
        if events.len() == 0 {
            self
        } else {
            self.step(events[0]).0.run(events.drop_first())
        }
    }

    /// How often the session asks to be disconnected while it handles a
    /// sequence of events.
    pub open spec fn disconnects(self, events: Seq<Event>) -> nat
        decreases events.len(),
    {
        if events.len() == 0 {
            0
        } else {
            let asked: nat = if self.step(events[0]).1.routing is Disconnect {
                1
            } else {
                0
            };
            asked + self.step(events[0]).0.disconnects(events.drop_first())
        }
    }
}

/// A session never goes back: the phase after an event is the phase before
/// it or a later one.
pub open spec fn not_before(later: Phase, earlier: Phase) -> bool {
    match earlier {
        Phase::Connecting => true,
        Phase::Active => later != Phase::Connecting,
        Phase::Closing => later == Phase::Closing || later == Phase::Closed,
        Phase::Closed => later == Phase::Closed,
    }
}

/// The phases follow each other in one direction only, and the id of a
/// session is set when it becomes active and not changed after that.
pub proof fn lemma_phase_only_advances(state: SessionView, event: Event)
    ensures
        not_before(state.step(event).0.phase, state.phase),
        state.phase != Phase::Connecting ==> state.step(event).0.id == state.id,
{
}

/// A session that is closing or closed stays so, changes nothing but its
/// phase, asks nothing of the registry and sends nothing to the client,
/// whatever reaches it.
pub proof fn lemma_ending_session_is_silent(state: SessionView, event: Event)
    requires
        state.is_ending(),
    ensures
        state.step(event).0.is_ending(),
        state.step(event).1 == quiet(),
        state.step(event).0 == (SessionView { phase: state.step(event).0.phase, ..state }),
{
}

/// Only an active session asks to be disconnected. It asks for its own id,
/// and is closing from then on.
pub proof fn lemma_disconnect_starts_closing(state: SessionView, event: Event)
    requires
        state.step(event).1.routing is Disconnect,
    ensures
        state.phase == Phase::Active,
        state.step(event).1.routing == (RoutingView::Disconnect { id: state.id }),
        state.step(event).0.phase == Phase::Closing,
{
}

/// A session that handles a sequence of events asks to be disconnected at
/// most once, and not at all once it is closing or closed.
pub proof fn lemma_at_most_one_disconnect(state: SessionView, events: Seq<Event>)
    ensures
        state.disconnects(events) <= 1,
        state.is_ending() ==> state.disconnects(events) == 0,
        state.disconnects(events) == 1 ==> state.run(events).is_ending(),
        state.is_ending() ==> state.run(events).is_ending(),
    decreases events.len(),
{
    if events.len() > 0 {
        let next = state.step(events[0]).0;
        lemma_at_most_one_disconnect(next, events.drop_first());
        if state.is_ending() {
            lemma_ending_session_is_silent(state, events[0]);
        }
        if state.step(events[0]).1.routing is Disconnect {
            lemma_disconnect_starts_closing(state, events[0]);
        }
    }
}

/// A session that could not be established is never registered: once the
/// identity lookup has failed, or the transport has, while the session was
/// connecting, the session is closed and asks nothing of the registry.
pub proof fn lemma_failed_connect_never_registers(state: SessionView, events: Seq<Event>)
    requires
        state.phase == Phase::Connecting,
    ensures
        state.step(Event::Identified { lookup: LookupView::Failed }).0.phase == Phase::Closed,
        state.step(Event::TransportFault).0.phase == Phase::Closed,
        state.step(Event::Identified { lookup: LookupView::Failed }).0.run(events).phase
            == Phase::Closed,
        state.step(Event::Identified { lookup: LookupView::Failed }).0.disconnects(events) == 0,
{
    let closed = state.step(Event::Identified { lookup: LookupView::Failed }).0;
    lemma_at_most_one_disconnect(closed, events);
    lemma_closed_stays_closed(closed, events);
}

/// A closed session stays closed.
pub proof fn lemma_closed_stays_closed(state: SessionView, events: Seq<Event>)
    requires
        state.phase == Phase::Closed,
    ensures
        state.run(events).phase == Phase::Closed,
    decreases events.len(),
{
    if events.len() > 0 {
        lemma_closed_stays_closed(state.step(events[0]).0, events.drop_first());
    }
}

/// Every join command of an active session is acknowledged with one frame
/// that names the room, whether or not the session was in that room
/// already, and is passed on to the registry.
pub proof fn lemma_join_is_acknowledged(state: SessionView, room: Seq<char>)
    ensures
        state.on_command(CommandView::Join { room }).1.reply == ReplyView::Frame(
            frame_text(ServerEventView::Joined { room }),
        ),
        state.on_command(CommandView::Join { room }).1.routing == (RoutingView::Join {
            id: state.id,
            room,
        }),
        state.on_command(CommandView::Join { room }).0.room == room,
        state.room == room ==> state.on_command(CommandView::Join { room }).0 == state,
{
}

/// An active session that is checked in time is left as it is and probes
/// its client.
pub proof fn lemma_check_in_time_probes(state: SessionView, now: u64)
    requires
        state.phase == Phase::Active,
        !timed_out(state.last_heard, now, state.heartbeat_timeout),
    ensures
        state.step(Event::Tick { now }).0 == state,
        state.step(Event::Tick { now }).1.routing == RoutingView::Nothing,
        state.step(Event::Tick { now }).1.reply == ReplyView::Probe,
{
}

/// An active session that has sent no liveness signal for longer than the
/// timeout is disconnected at the next check, and exactly once: whatever
/// happens after that check, the session does not ask again.
pub proof fn lemma_silent_session_is_disconnected_once(
    state: SessionView,
    now: u64,
    later: Seq<Event>,
)
    requires
        state.phase == Phase::Active,
        timed_out(state.last_heard, now, state.heartbeat_timeout),
    ensures
        state.step(Event::Tick { now }).1.routing == (RoutingView::Disconnect { id: state.id }),
        state.step(Event::Tick { now }).0.phase == Phase::Closing,
        state.step(Event::Tick { now }).0.disconnects(later) == 0,
        state.disconnects(seq![Event::Tick { now }] + later) == 1,
{
    let first = Event::Tick { now };
    let events = seq![first] + later;
    lemma_at_most_one_disconnect(state.step(first).0, later);
    assert(events[0] == first);
    assert(events.drop_first() =~= later);
}

/// A liveness signal at `now` puts off the disconnect of an active session
/// until more than the timeout has passed since `now`.
pub proof fn lemma_signal_puts_off_the_timeout(state: SessionView, now: u64, check: u64)
    requires
        state.phase == Phase::Active,
    ensures
        ({
            let heard = state.step(Event::Liveness { now }).0;
            heard.step(Event::Tick { now: check }).1.routing is Disconnect <==> check > now
                + state.heartbeat_timeout
        }),
{
}

} // verus!
