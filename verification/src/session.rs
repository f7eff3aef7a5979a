//! The state machine of one connection.
//!
//! A session does no I/O. Whoever owns the transport tells the session what
//! happened, one event at a time, and the session answers with what is to be
//! done: a routing command for the registry, and a frame or a probe for the
//! client.
//!
//! A session starts out connecting, becomes active when the registry has
//! given it an id, is closing from the moment its disconnect has been
//! requested, and is closed once the registry has confirmed it. It never
//! goes back. Only an active session reacts to frames and ticks, so the
//! disconnect of a session is requested once and no more.
//!
//! Liveness signals are the pings and pongs of the transport. Text frames
//! carry commands and do not count as signals.
//!
//! Leaving a room is joining the default room, and is acknowledged like any
//! other join.

pub mod laws;

use vstd::prelude::*;
use crate::config::ChatConfig;
use crate::heartbeat::{timed_out, HeartbeatMonitor, Verdict};
use crate::message::{copy_optional, optional_view, ChatMessage, ChatMessageView};
use crate::protocol::{
    decode,
    decoded,
    encode,
    frame_text,
    Command,
    CommandView,
    DecodeFault,
    ServerEvent,
    ServerEventView,
};

verus! {

/// Where a session stands in its life.
#[derive(Clone, Copy, Debug, PartialEq, Eq, Structural)]
pub enum Phase {
    /// The transport is accepted; the registry does not know the session yet.
    Connecting,
    /// The session is registered and handles frames.
    Active,
    /// The disconnect of the session has been requested.
    Closing,
    /// The session is deregistered. Nothing moves it any more.
    Closed,
}

/// What a session asks of the registry.
#[derive(Clone, Debug, PartialEq, Eq)]
pub enum Routing {
    /// Nothing is asked.
    Nothing,
    /// Move the session to a room.
    Join { id: u64, room: String },
    /// Move the session back to the default room.
    Leave { id: u64 },
    /// Deliver a message to the others in a room.
    Broadcast { room: String, message: ChatMessage, exclude: u64 },
    /// Remove the session.
    Disconnect { id: u64 },
}

/// A routing command as mathematics.
pub enum RoutingView {
    Nothing,
    Join { id: u64, room: Seq<char> },
    Leave { id: u64 },
    Broadcast { room: Seq<char>, message: ChatMessageView, exclude: u64 },
    Disconnect { id: u64 },
}

impl View for Routing {
    type V = RoutingView;

    open spec fn view(&self) -> RoutingView {
        match self {
            Routing::Nothing => RoutingView::Nothing,
            Routing::Join { id, room } => RoutingView::Join { id: *id, room: room@ },
            Routing::Leave { id } => RoutingView::Leave { id: *id },
            Routing::Broadcast { room, message, exclude } => RoutingView::Broadcast {
                room: room@,
                message: message@,
                exclude: *exclude,
            },
            Routing::Disconnect { id } => RoutingView::Disconnect { id: *id },
        }
    }
}

/// What a session sends to its own client.
#[derive(Clone, Debug, PartialEq, Eq)]
pub enum Reply {
    /// Nothing is sent.
    Nothing,
    /// A text frame.
    Frame(String),
    /// A liveness probe, by the transport's own means.
    Probe,
}

/// A reply as mathematics.
pub enum ReplyView {
    Nothing,
    Frame(Seq<char>),
    Probe,
}

impl View for Reply {
    type V = ReplyView;

    open spec fn view(&self) -> ReplyView {
        match self {
            Reply::Nothing => ReplyView::Nothing,
            Reply::Frame(text) => ReplyView::Frame(text@),
            Reply::Probe => ReplyView::Probe,
        }
    }
}

/// What is to be done after an event.
#[derive(Clone, Debug, PartialEq, Eq)]
pub struct Reaction {
    /// What to ask of the registry.
    pub routing: Routing,
    /// What to send to the client.
    pub reply: Reply,
}

/// A reaction as mathematics.
pub struct ReactionView {
    pub routing: RoutingView,
    pub reply: ReplyView,
}

impl View for Reaction {
    type V = ReactionView;

    open spec fn view(&self) -> ReactionView {
        ReactionView { routing: self.routing@, reply: self.reply@ }
    }
}

/// The reaction that does nothing.
pub open spec fn quiet() -> ReactionView {
    ReactionView { routing: RoutingView::Nothing, reply: ReplyView::Nothing }
}

/// What looking up the identity of a connecting client came to.
#[derive(Clone, Debug, PartialEq, Eq)]
pub enum Lookup {
    /// The client is a known user with this display name.
    Found { display_name: String },
    /// No such user is recorded. The client stays anonymous.
    NotFound,
    /// The lookup itself failed. The session cannot be established.
    Failed,
}

/// A lookup as mathematics.
pub enum LookupView {
    Found { display_name: Seq<char> },
    NotFound,
    Failed,
}

impl View for Lookup {
    type V = LookupView;

    open spec fn view(&self) -> LookupView {
        match self {
            Lookup::Found { display_name } => LookupView::Found { display_name: display_name@ },
            Lookup::NotFound => LookupView::NotFound,
            Lookup::Failed => LookupView::Failed,
        }
    }
}

/// What can happen to a session.
pub enum Event {
    /// The identity of the client was looked up while connecting.
    Identified { lookup: LookupView },
    /// The registry registered the session under `id`.
    Registered { id: u64 },
    /// The client's display name became known.
    Named { name: Seq<char> },
    /// A text frame arrived.
    Frame { text: Seq<char> },
    /// A ping or a pong arrived at `now`.
    Liveness { now: u64 },
    /// The periodic liveness check is due at `now`.
    Tick { now: u64 },
    /// Reading or writing the transport failed, or the peer closed it, or
    /// the session could not be established.
    TransportFault,
    /// The registry removed the session.
    Deregistered,
}

/// The state of a session as mathematics.
pub struct SessionView {
    /// The id the registry gave; 0 until then.
    pub id: u64,
    pub display_name: Option<Seq<char>>,
    /// The room the session is in.
    pub room: Seq<char>,
    pub default_room: Seq<char>,
    pub max_frame_bytes: usize,
    pub heartbeat_interval: u64,
    pub heartbeat_timeout: u64,
    /// When the last liveness signal arrived.
    pub last_heard: u64,
    pub phase: Phase,
}

/// The reason given to a client whose command was not recognized.
pub open spec fn unrecognized_reason() -> Seq<char> {
    "unrecognized command"@
}

impl SessionView {
    /// Whether the session is gone or going: closing or closed.
    pub open spec fn is_ending(self) -> bool {
        self.phase == Phase::Closing || self.phase == Phase::Closed
    }

    /// An active session handles a command of its client.
    pub open spec fn on_command(self, command: CommandView) -> (SessionView, ReactionView) {
        match command {
            CommandView::Join { room } => (
                SessionView { room, ..self },
                ReactionView {
                    routing: RoutingView::Join { id: self.id, room },
                    reply: ReplyView::Frame(frame_text(ServerEventView::Joined { room })),
                },
            ),
            CommandView::Message { text } => (
                self,
                ReactionView {
                    routing: RoutingView::Broadcast {
                        room: self.room,
                        message: ChatMessageView {
                            from: self.display_name,
                            room: self.room,
                            text,
                        },
                        exclude: self.id,
                    },
                    reply: ReplyView::Nothing,
                },
            ),
            CommandView::Leave => (
                SessionView { room: self.default_room, ..self },
                ReactionView {
                    routing: RoutingView::Leave { id: self.id },
                    reply: ReplyView::Frame(
                        frame_text(ServerEventView::Joined { room: self.default_room }),
                    ),
                },
            ),
            CommandView::Unrecognized => (
                self,
                ReactionView {
                    routing: RoutingView::Nothing,
                    reply: ReplyView::Frame(
                        frame_text(ServerEventView::Error { reason: unrecognized_reason() }),
                    ),
                },
            ),
        }
    }

    /// An active session gives up: it starts closing and asks to be
    /// disconnected.
    pub open spec fn give_up(self) -> (SessionView, ReactionView) {
        (
            SessionView { phase: Phase::Closing, ..self },
            ReactionView {
                routing: RoutingView::Disconnect { id: self.id },
                reply: ReplyView::Nothing,
            },
        )
    }

    /// An active session handles the outcome of decoding a frame.
    pub open spec fn on_decoded(self, outcome: Result<CommandView, DecodeFault>) -> (
        SessionView,
        ReactionView,
    ) {
        match outcome {
            Ok(command) => self.on_command(command),
            Err(_) => self.give_up(),
        }
    }

    /// The state after an event, and what is to be done.
    pub open spec fn step(self, event: Event) -> (SessionView, ReactionView) {
        match event {
            Event::Identified { lookup } => if self.phase == Phase::Connecting {
                match lookup {
                    LookupView::Found { display_name } => (
                        SessionView { display_name: Some(display_name), ..self },
                        quiet(),
                    ),
                    LookupView::NotFound => (self, quiet()),
                    LookupView::Failed => (SessionView { phase: Phase::Closed, ..self }, quiet()),
                }
            } else {
                (self, quiet())
            },
            Event::Registered { id } => if self.phase == Phase::Connecting {
                (SessionView { id, phase: Phase::Active, ..self }, quiet())
            } else {
                (self, quiet())
            },
            Event::Named { name } => if self.is_ending() {
                (self, quiet())
            } else {
                (SessionView { display_name: Some(name), ..self }, quiet())
            },
            Event::Frame { text } => if self.phase == Phase::Active {
                self.on_decoded(decoded(text, self.max_frame_bytes))
            } else {
                (self, quiet())
            },
            Event::Liveness { now } => if self.phase == Phase::Active {
                (SessionView { last_heard: now, ..self }, quiet())
            } else {
                (self, quiet())
            },
            Event::Tick { now } => if self.phase == Phase::Active {
                if timed_out(self.last_heard, now, self.heartbeat_timeout) {
                    self.give_up()
                } else {
                    (self, ReactionView { routing: RoutingView::Nothing, reply: ReplyView::Probe })
                }
            } else {
                (self, quiet())
            },
            Event::TransportFault => match self.phase {
                Phase::Connecting => (SessionView { phase: Phase::Closed, ..self }, quiet()),
                Phase::Active => self.give_up(),
                _ => (self, quiet()),
            },
            Event::Deregistered => if self.phase == Phase::Closing {
                (SessionView { phase: Phase::Closed, ..self }, quiet())
            } else {
                (self, quiet())
            },
        }
    }

    /// The frame that an active session writes for a message delivered to
    /// it; a session that is not active writes nothing.
    pub open spec fn delivered(self, message: ChatMessageView) -> Option<Seq<char>> {
        if self.phase == Phase::Active {
            Some(frame_text(ServerEventView::Message(message)))
        } else {
            None
        }
    }
}

/// The server side of one live connection.
#[derive(Debug)]
pub struct Session {
    id: u64,
    display_name: Option<String>,
    room: String,
    default_room: String,
    max_frame_bytes: usize,
    heartbeat: HeartbeatMonitor,
    phase: Phase,
}

impl View for Session {
    type V = SessionView;

    closed spec fn view(&self) -> SessionView {
        SessionView {
            id: self.id,
            display_name: optional_view(self.display_name),
            room: self.room@,
            default_room: self.default_room@,
            max_frame_bytes: self.max_frame_bytes,
            heartbeat_interval: self.heartbeat.spec_interval(),
            heartbeat_timeout: self.heartbeat.spec_timeout(),
            last_heard: self.heartbeat.spec_last_heard(),
            phase: self.phase,
        }
    }
}

fn quiet_reaction() -> (reaction: Reaction)
    ensures
        reaction@ == quiet(),
{
    Reaction { routing: Routing::Nothing, reply: Reply::Nothing }
}

impl Session {
    /// The session of a connection accepted at `now`: connecting, in the
    /// default room, without a name.
    pub fn new(config: &ChatConfig, now: u64) -> (session: Self)
        ensures
            session@ == (SessionView {
                id: 0,
                display_name: None,
                room: config.default_room@,
                default_room: config.default_room@,
                max_frame_bytes: config.max_frame_bytes,
                heartbeat_interval: config.heartbeat_interval_ms,
                heartbeat_timeout: config.heartbeat_timeout_ms,
                last_heard: now,
                phase: Phase::Connecting,
            }),
    {
        Session {
            id: 0,
            display_name: None,
            room: config.default_room.clone(),
            default_room: config.default_room.clone(),
            max_frame_bytes: config.max_frame_bytes,
            heartbeat: HeartbeatMonitor::new(
                config.heartbeat_interval_ms,
                config.heartbeat_timeout_ms,
                now,
            ),
            phase: Phase::Connecting,
        }
    }

    /// The id the registry gave; 0 until then.
    pub fn id(&self) -> (id: u64)
        ensures
            id == self@.id,
    {
        self.id
    }

    pub fn phase(&self) -> (phase: Phase)
        ensures
            phase == self@.phase,
    {
        self.phase
    }

    /// The room the session is in.
    pub fn room(&self) -> (room: &String)
        ensures
            room@ == self@.room,
    {
        &self.room
    }

    pub fn display_name(&self) -> (name: &Option<String>)
        ensures
            optional_view(*name) == self@.display_name,
    {
        &self.display_name
    }

    /// When the last liveness signal arrived.
    pub fn last_heard(&self) -> (ms: u64)
        ensures
            ms == self@.last_heard,
    {
        self.heartbeat.last_heard()
    }

    /// When the liveness check after one made at `now` is due.
    pub fn next_check(&self, now: u64) -> (due: u64)
        ensures
            due == crate::heartbeat::following_check(now, self@.heartbeat_interval),
    {
        self.heartbeat.next_check(now)
    }

    /// The identity of the client was looked up. A session that is still
    /// connecting takes the name of a user that was found, stays anonymous
    /// if none was, and is closed, without ever being registered, if the
    /// lookup failed.
    pub fn on_identified(&mut self, lookup: Lookup) -> (reaction: Reaction)
        ensures
            final(self)@ == old(self)@.step(Event::Identified { lookup: lookup@ }).0,
            reaction@ == old(self)@.step(Event::Identified { lookup: lookup@ }).1,
    {
        if self.phase == Phase::Connecting {
            match lookup {
                Lookup::Found { display_name } => {
                    self.display_name = Some(display_name);
                },
                Lookup::NotFound => {},
                Lookup::Failed => {
                    self.phase = Phase::Closed;
                },
            }
        }
        quiet_reaction()
    }

    /// The registry registered the session under `id`.
    pub fn on_registered(&mut self, id: u64) -> (reaction: Reaction)
        ensures
            final(self)@ == old(self)@.step(Event::Registered { id }).0,
            reaction@ == old(self)@.step(Event::Registered { id }).1,
    {
        if self.phase == Phase::Connecting {
            self.id = id;
            self.phase = Phase::Active;
        }
        quiet_reaction()
    }

    /// The client's display name became known.
    pub fn on_named(&mut self, name: String) -> (reaction: Reaction)
        ensures
            final(self)@ == old(self)@.step(Event::Named { name: name@ }).0,
            reaction@ == old(self)@.step(Event::Named { name: name@ }).1,
    {
        if self.phase == Phase::Connecting || self.phase == Phase::Active {
            self.display_name = Some(name);
        }
        quiet_reaction()
    }

    /// Starts closing and asks the registry to disconnect the session.
    fn give_up(&mut self) -> (reaction: Reaction)
        ensures
            final(self)@ == old(self)@.give_up().0,
            reaction@ == old(self)@.give_up().1,
    {
        self.phase = Phase::Closing;
        Reaction { routing: Routing::Disconnect { id: self.id }, reply: Reply::Nothing }
    }

    /// Handles a command of the client. For an active session.
    fn on_command(&mut self, command: Command) -> (reaction: Reaction)
        ensures
            final(self)@ == old(self)@.on_command(command@).0,
            reaction@ == old(self)@.on_command(command@).1,
    {
        match command {
            Command::Join { room } => {
                let event = ServerEvent::Joined { room: room.clone() };
                let frame = encode(&event);
                self.room = room.clone();
                Reaction { routing: Routing::Join { id: self.id, room }, reply: Reply::Frame(frame) }
            },
            Command::Message { text } => {
                let message = ChatMessage {
                    from: copy_optional(&self.display_name),
                    room: self.room.clone(),
                    text,
                };
                Reaction {
                    routing: Routing::Broadcast {
                        room: self.room.clone(),
                        message,
                        exclude: self.id,
                    },
                    reply: Reply::Nothing,
                }
            },
            Command::Leave => {
                let event = ServerEvent::Joined { room: self.default_room.clone() };
                let frame = encode(&event);
                self.room = self.default_room.clone();
                Reaction { routing: Routing::Leave { id: self.id }, reply: Reply::Frame(frame) }
            },
            Command::Unrecognized => {
                let event = ServerEvent::Error { reason: "unrecognized command".to_owned() };
                let frame = encode(&event);
                Reaction { routing: Routing::Nothing, reply: Reply::Frame(frame) }
            },
        }
    }

    /// Handles the outcome of decoding a frame: a command is carried out,
    /// and a frame that could not be decoded ends the session. A session
    /// that is not active ignores both.
    pub fn on_decoded(&mut self, outcome: Result<Command, DecodeFault>) -> (reaction: Reaction)
        ensures
            old(self)@.phase == Phase::Active ==> final(self)@ == old(self)@.on_decoded(
                outcome_view(outcome),
            ).0 && reaction@ == old(self)@.on_decoded(outcome_view(outcome)).1,
            old(self)@.phase != Phase::Active ==> final(self)@ == old(self)@ && reaction@
                == quiet(),
    {
        if self.phase == Phase::Active {
            match outcome {
                Ok(command) => self.on_command(command),
                Err(_) => self.give_up(),
            }
        } else {
            quiet_reaction()
        }
    }

    /// A text frame arrived.
    pub fn on_frame(&mut self, text: &str) -> (reaction: Reaction)
        ensures
            final(self)@ == old(self)@.step(Event::Frame { text: text@ }).0,
            reaction@ == old(self)@.step(Event::Frame { text: text@ }).1,
    {
        if self.phase == Phase::Active {
            let outcome = decode(text, self.max_frame_bytes);
            self.on_decoded(outcome)
        } else {
            quiet_reaction()
        }
    }

    /// A ping or a pong arrived at `now`.
    pub fn on_liveness(&mut self, now: u64) -> (reaction: Reaction)
        ensures
            final(self)@ == old(self)@.step(Event::Liveness { now }).0,
            reaction@ == old(self)@.step(Event::Liveness { now }).1,
    {
        if self.phase == Phase::Active {
            self.heartbeat.record(now);
        }
        quiet_reaction()
    }

    /// The periodic liveness check is due at `now`: a session that has been
    /// silent for longer than the timeout gives up, any other active
    /// session probes its client.
    pub fn on_tick(&mut self, now: u64) -> (reaction: Reaction)
        ensures
            final(self)@ == old(self)@.step(Event::Tick { now }).0,
            reaction@ == old(self)@.step(Event::Tick { now }).1,
    {
        if self.phase == Phase::Active {
            match self.heartbeat.check(now) {
                Verdict::Expired => self.give_up(),
                Verdict::Alive => Reaction { routing: Routing::Nothing, reply: Reply::Probe },
            }
        } else {
            quiet_reaction()
        }
    }

    /// The transport failed or was closed, or the session could not be
    /// established.
    pub fn on_transport_fault(&mut self) -> (reaction: Reaction)
        ensures
            final(self)@ == old(self)@.step(Event::TransportFault).0,
            reaction@ == old(self)@.step(Event::TransportFault).1,
    {
        match self.phase {
            Phase::Connecting => {
                self.phase = Phase::Closed;
                quiet_reaction()
            },
            Phase::Active => self.give_up(),
            _ => quiet_reaction(),
        }
    }

    /// The registry removed the session.
    pub fn on_deregistered(&mut self) -> (reaction: Reaction)
        ensures
            final(self)@ == old(self)@.step(Event::Deregistered).0,
            reaction@ == old(self)@.step(Event::Deregistered).1,
    {
        if self.phase == Phase::Closing {
            self.phase = Phase::Closed;
        }
        quiet_reaction()
    }

    /// The frame to write for a message that the registry delivered to this
    /// session, if the session is active.
    pub fn on_delivery(&self, message: &ChatMessage) -> (frame: Option<String>)
        ensures
            optional_view(frame) == self@.delivered(message@),
    {
        if self.phase == Phase::Active {
            let event = ServerEvent::Message(message.clone());
            Some(encode(&event))
        } else {
            None
        }
    }
}

/// The outcome of decoding as mathematics.
pub open spec fn outcome_view(outcome: Result<Command, DecodeFault>) -> Result<
    CommandView,
    DecodeFault,
> {
    match outcome {
        Ok(command) => Ok(command@),
        Err(fault) => Err(fault),
    }
}

} // verus!
