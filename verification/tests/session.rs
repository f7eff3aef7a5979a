use cp_chat::config::ChatConfig;
use cp_chat::message::ChatMessage;
use cp_chat::protocol::{Command, DecodeFault};
use cp_chat::registry::ConnectionRegistry;
use cp_chat::session::{Lookup, Phase, Reaction, Reply, Routing, Session};

fn config() -> ChatConfig {
    ChatConfig {
        default_room: "main".to_string(),
        heartbeat_interval_ms: 5_000,
        heartbeat_timeout_ms: 10_000,
        max_frame_bytes: 64,
    }
}

fn active(id: u64) -> Session {
    let mut session = Session::new(&config(), 0);
    session.on_registered(id);
    session
}

fn quiet() -> Reaction {
    Reaction { routing: Routing::Nothing, reply: Reply::Nothing }
}

fn written(reply: &Reply) -> serde_json::Value {
    match reply {
        Reply::Frame(text) => serde_json::from_str(text).unwrap(),
        other => panic!("no frame: {:?}", other),
    }
}

#[test]
fn new_session_is_connecting_in_the_default_room() {
    let session = Session::new(&config(), 17);
    assert_eq!(session.phase(), Phase::Connecting);
    assert_eq!(session.id(), 0);
    assert_eq!(session.room(), "main");
    assert_eq!(session.display_name(), &None);
    assert_eq!(session.last_heard(), 17);
    assert_eq!(session.next_check(17), 5_017);
}

#[test]
fn registration_makes_the_session_active() {
    let mut session = Session::new(&config(), 0);
    assert_eq!(session.on_registered(4), quiet());
    assert_eq!(session.phase(), Phase::Active);
    assert_eq!(session.id(), 4);
    assert_eq!(session.on_registered(9), quiet());
    assert_eq!(session.id(), 4);
}

#[test]
fn connecting_session_ignores_frames_and_ticks() {
    let mut session = Session::new(&config(), 0);
    assert_eq!(session.on_frame(r#"{"type":"join","room":"x"}"#), quiet());
    assert_eq!(session.on_frame("garbage"), quiet());
    assert_eq!(session.on_tick(1_000_000), quiet());
    assert_eq!(session.on_liveness(500), quiet());
    assert_eq!(session.last_heard(), 0);
    assert_eq!(session.room(), "main");
    assert_eq!(session.phase(), Phase::Connecting);
}

#[test]
fn failure_while_connecting_closes_without_a_disconnect() {
    let mut session = Session::new(&config(), 0);
    assert_eq!(session.on_transport_fault(), quiet());
    assert_eq!(session.phase(), Phase::Closed);
    assert_eq!(session.on_registered(3), quiet());
    assert_eq!(session.phase(), Phase::Closed);
    assert_eq!(session.id(), 0);
}

#[test]
fn name_is_kept_once_announced() {
    let mut session = Session::new(&config(), 0);
    assert_eq!(session.on_named("ada".to_string()), quiet());
    assert_eq!(session.display_name(), &Some("ada".to_string()));
    session.on_registered(1);
    session.on_named("grace".to_string());
    assert_eq!(session.display_name(), &Some("grace".to_string()));
    session.on_transport_fault();
    session.on_named("late".to_string());
    assert_eq!(session.display_name(), &Some("grace".to_string()));
}

#[test]
fn join_frame_asks_for_the_join_and_acknowledges() {
    let mut session = active(3);
    let reaction = session.on_frame(r#"{"type":"join","room":"lobby"}"#);
    assert_eq!(reaction.routing, Routing::Join { id: 3, room: "lobby".to_string() });
    assert_eq!(reaction.reply, Reply::Frame(r#"{"room":"lobby","type":"joined"}"#.to_string()));
    assert_eq!(session.room(), "lobby");
    assert_eq!(session.phase(), Phase::Active);
}

#[test]
fn joining_the_same_room_again_is_acknowledged_once_more() {
    let mut session = active(3);
    let first = session.on_frame(r#"{"type":"join","room":"lobby"}"#);
    let second = session.on_frame(r#"{"type":"join","room":"lobby"}"#);
    assert_eq!(first, second);
    assert_eq!(second.reply, Reply::Frame(r#"{"room":"lobby","type":"joined"}"#.to_string()));
    assert_eq!(session.room(), "lobby");
}

#[test]
fn message_frame_asks_for_a_broadcast_without_the_sender() {
    let mut session = active(3);
    session.on_frame(r#"{"type":"join","room":"lobby"}"#);
    let reaction = session.on_frame(r#"{"type":"message","text":"hi"}"#);
    assert_eq!(
        reaction.routing,
        Routing::Broadcast {
            room: "lobby".to_string(),
            message: ChatMessage {
                from: None,
                room: "lobby".to_string(),
                text: "hi".to_string()
            },
            exclude: 3,
        }
    );
    assert_eq!(reaction.reply, Reply::Nothing);
}

#[test]
fn message_carries_the_display_name() {
    let mut session = active(3);
    session.on_named("ada".to_string());
    let reaction = session.on_frame(r#"{"type":"message","text":"hi"}"#);
    assert_eq!(
        reaction.routing,
        Routing::Broadcast {
            room: "main".to_string(),
            message: ChatMessage {
                from: Some("ada".to_string()),
                room: "main".to_string(),
                text: "hi".to_string()
            },
            exclude: 3,
        }
    );
}

#[test]
fn leave_frame_goes_back_to_the_default_room() {
    let mut session = active(3);
    session.on_frame(r#"{"type":"join","room":"lobby"}"#);
    let reaction = session.on_frame(r#"{"type":"leave"}"#);
    assert_eq!(reaction.routing, Routing::Leave { id: 3 });
    assert_eq!(reaction.reply, Reply::Frame(r#"{"room":"main","type":"joined"}"#.to_string()));
    assert_eq!(session.room(), "main");
}

#[test]
fn unrecognized_command_is_answered_and_the_session_stays() {
    let mut session = active(3);
    let reaction = session.on_frame(r#"{"type":"dance"}"#);
    assert_eq!(reaction.routing, Routing::Nothing);
    assert_eq!(
        reaction.reply,
        Reply::Frame(r#"{"reason":"unrecognized command","type":"error"}"#.to_string())
    );
    assert_eq!(session.phase(), Phase::Active);
    assert_eq!(session.room(), "main");
    let next = session.on_frame(r#"{"type":"leave"}"#);
    assert_eq!(next.routing, Routing::Leave { id: 3 });
}

#[test]
fn frame_that_is_no_json_ends_the_session() {
    let mut session = active(3);
    let reaction = session.on_frame("{oops");
    assert_eq!(reaction.routing, Routing::Disconnect { id: 3 });
    assert_eq!(reaction.reply, Reply::Nothing);
    assert_eq!(session.phase(), Phase::Closing);
    assert_eq!(session.on_frame(r#"{"type":"leave"}"#), quiet());
    assert_eq!(session.on_frame("{oops"), quiet());
}

#[test]
fn frame_over_the_limit_ends_the_session() {
    let mut session = active(3);
    let long = format!(r#"{{"type":"message","text":"{}"}}"#, "x".repeat(64));
    let reaction = session.on_frame(&long);
    assert_eq!(reaction.routing, Routing::Disconnect { id: 3 });
    assert_eq!(session.phase(), Phase::Closing);
}

#[test]
fn on_decoded_handles_each_outcome() {
    let mut session = active(8);
    let reaction = session.on_decoded(Ok(Command::Join { room: "x".to_string() }));
    assert_eq!(reaction.routing, Routing::Join { id: 8, room: "x".to_string() });
    let reaction = session.on_decoded(Ok(Command::Unrecognized));
    assert_eq!(reaction.routing, Routing::Nothing);
    assert_eq!(written(&reaction.reply)["type"].as_str(), Some("error"));
    let reaction = session.on_decoded(Err(DecodeFault::TooLarge));
    assert_eq!(reaction.routing, Routing::Disconnect { id: 8 });
    assert_eq!(session.on_decoded(Ok(Command::Leave)), quiet());
    assert_eq!(session.on_decoded(Err(DecodeFault::Malformed)), quiet());
    assert_eq!(session.room(), "x");
}

#[test]
fn tick_in_time_probes_the_client() {
    let mut session = active(3);
    let reaction = session.on_tick(10_000);
    assert_eq!(reaction, Reaction { routing: Routing::Nothing, reply: Reply::Probe });
    assert_eq!(session.phase(), Phase::Active);
}

#[test]
fn silent_session_is_disconnected_exactly_once() {
    let mut session = active(3);
    assert_eq!(session.on_tick(5_000).reply, Reply::Probe);
    assert_eq!(session.on_tick(10_000).reply, Reply::Probe);
    let reaction = session.on_tick(10_001);
    assert_eq!(reaction, Reaction { routing: Routing::Disconnect { id: 3 }, reply: Reply::Nothing });
    assert_eq!(session.phase(), Phase::Closing);
    assert_eq!(session.on_tick(15_000), quiet());
    assert_eq!(session.on_transport_fault(), quiet());
    assert_eq!(session.on_frame("{oops"), quiet());
    assert_eq!(session.on_deregistered(), quiet());
    assert_eq!(session.phase(), Phase::Closed);
    assert_eq!(session.on_tick(20_000), quiet());
    assert_eq!(session.on_deregistered(), quiet());
    assert_eq!(session.phase(), Phase::Closed);
}

#[test]
fn forced_disconnect_twice_does_no_harm() {
    let mut registry: ConnectionRegistry<u8> = ConnectionRegistry::new("main".to_string());
    let a = registry.connect(0);
    let b = registry.connect(0);
    let mut session = Session::new(&config(), 0);
    session.on_registered(a);
    let reaction = session.on_tick(10_001);
    assert_eq!(reaction.routing, Routing::Disconnect { id: a });
    registry.route(reaction.routing.clone());
    registry.route(reaction.routing);
    assert!(!registry.is_connected(a));
    assert_eq!(registry.room_members(&"main".to_string()), vec![b]);
    assert_eq!(registry.session_count(), 1);
}

#[test]
fn liveness_signal_puts_off_the_timeout() {
    let mut session = active(3);
    assert_eq!(session.on_liveness(8_000), quiet());
    assert_eq!(session.last_heard(), 8_000);
    assert_eq!(session.on_tick(18_000).reply, Reply::Probe);
    assert_eq!(session.on_tick(18_001).routing, Routing::Disconnect { id: 3 });
}

#[test]
fn text_frames_are_no_liveness_signal() {
    let mut session = active(3);
    session.on_frame(r#"{"type":"message","text":"still here"}"#);
    assert_eq!(session.last_heard(), 0);
    assert_eq!(session.on_tick(10_001).routing, Routing::Disconnect { id: 3 });
}

#[test]
fn transport_fault_ends_an_active_session() {
    let mut session = active(3);
    let reaction = session.on_transport_fault();
    assert_eq!(reaction, Reaction { routing: Routing::Disconnect { id: 3 }, reply: Reply::Nothing });
    assert_eq!(session.phase(), Phase::Closing);
    assert_eq!(session.on_transport_fault(), quiet());
    session.on_deregistered();
    assert_eq!(session.phase(), Phase::Closed);
}

#[test]
fn deregistration_only_closes_a_closing_session() {
    let mut session = active(3);
    assert_eq!(session.on_deregistered(), quiet());
    assert_eq!(session.phase(), Phase::Active);
}

#[test]
fn delivery_is_written_by_an_active_session_only() {
    let message =
        ChatMessage { from: None, room: "main".to_string(), text: "hi".to_string() };
    let mut session = Session::new(&config(), 0);
    assert_eq!(session.on_delivery(&message), None);
    session.on_registered(2);
    assert_eq!(
        session.on_delivery(&message),
        Some(r#"{"from":null,"room":"main","text":"hi","type":"message"}"#.to_string())
    );
    session.on_transport_fault();
    assert_eq!(session.on_delivery(&message), None);
    session.on_deregistered();
    assert_eq!(session.on_delivery(&message), None);
}

#[test]
fn known_user_gives_the_session_its_name() {
    let mut session = Session::new(&config(), 0);
    assert_eq!(session.on_identified(Lookup::Found { display_name: "ada".to_string() }), quiet());
    assert_eq!(session.display_name(), &Some("ada".to_string()));
    assert_eq!(session.phase(), Phase::Connecting);
    session.on_registered(1);
    assert_eq!(session.phase(), Phase::Active);
}

#[test]
fn unknown_user_stays_anonymous() {
    let mut session = Session::new(&config(), 0);
    assert_eq!(session.on_identified(Lookup::NotFound), quiet());
    assert_eq!(session.display_name(), &None);
    assert_eq!(session.phase(), Phase::Connecting);
}

#[test]
fn failed_lookup_closes_the_session_before_it_is_registered() {
    let mut session = Session::new(&config(), 0);
    assert_eq!(session.on_identified(Lookup::Failed), quiet());
    assert_eq!(session.phase(), Phase::Closed);
    assert_eq!(session.on_registered(1), quiet());
    assert_eq!(session.phase(), Phase::Closed);
    assert_eq!(session.on_tick(1_000_000), quiet());
}

#[test]
fn lookup_after_registration_is_ignored() {
    let mut session = active(3);
    session.on_identified(Lookup::Found { display_name: "late".to_string() });
    assert_eq!(session.display_name(), &None);
    session.on_identified(Lookup::Failed);
    assert_eq!(session.phase(), Phase::Active);
}
