use cp_chat::message::ChatMessage;
use cp_chat::registry::rooms::{position, RoomTable};
use cp_chat::registry::{ConnectionRegistry, Delivery};
use cp_chat::session::Routing;

fn registry() -> ConnectionRegistry<&'static str> {
    ConnectionRegistry::new("main".to_string())
}

fn said(text: &str, room: &str) -> ChatMessage {
    ChatMessage { from: None, room: room.to_string(), text: text.to_string() }
}

fn recipients(deliveries: &[Delivery]) -> Vec<u64> {
    deliveries.iter().map(|delivery| delivery.recipient).collect()
}

fn sorted(mut names: Vec<String>) -> Vec<String> {
    names.sort();
    names
}

#[test]
fn new_registry_is_empty() {
    let reg = registry();
    assert_eq!(reg.session_count(), 0);
    assert_eq!(reg.room_count(), 0);
    assert!(reg.list_rooms().is_empty());
    assert!(reg.room_members(&"main".to_string()).is_empty());
    assert_eq!(reg.default_room(), "main");
    assert!(reg.can_connect());
}

#[test]
fn connect_hands_out_ids_from_one() {
    let mut reg = registry();
    assert_eq!(reg.connect("a"), 1);
    assert_eq!(reg.connect("b"), 2);
    assert_eq!(reg.connect("c"), 3);
    assert_eq!(reg.session_count(), 3);
}

#[test]
fn connect_places_session_in_default_room() {
    let mut reg = registry();
    let a = reg.connect("a");
    assert_eq!(reg.room_of(a), Some("main".to_string()));
    assert_eq!(reg.room_members(&"main".to_string()), vec![a]);
    assert_eq!(reg.list_rooms(), vec!["main".to_string()]);
    assert_eq!(reg.link(a), Some(&"a"));
    assert!(reg.is_connected(a));
}

#[test]
fn ids_are_not_reused_after_disconnect() {
    let mut reg = registry();
    let a = reg.connect("a");
    assert_eq!(reg.disconnect(a), Some("a"));
    let b = reg.connect("b");
    assert_eq!(b, 2);
    assert!(!reg.is_connected(a));
}

#[test]
fn disconnect_removes_session_from_its_room() {
    let mut reg = registry();
    let a = reg.connect("a");
    let b = reg.connect("b");
    assert_eq!(reg.disconnect(a), Some("a"));
    assert_eq!(reg.room_members(&"main".to_string()), vec![b]);
    assert_eq!(reg.room_of(a), None);
    assert_eq!(reg.link(a), None);
    let deliveries = reg.broadcast(&"main".to_string(), &said("hi", "main"), None);
    assert_eq!(recipients(&deliveries), vec![b]);
}

#[test]
fn disconnect_is_idempotent() {
    let mut reg = registry();
    let a = reg.connect("a");
    let b = reg.connect("b");
    assert_eq!(reg.disconnect(a), Some("a"));
    assert_eq!(reg.disconnect(a), None);
    assert_eq!(reg.session_count(), 1);
    assert_eq!(reg.room_members(&"main".to_string()), vec![b]);
}

#[test]
fn disconnect_of_unknown_id_changes_nothing() {
    let mut reg = registry();
    let a = reg.connect("a");
    assert_eq!(reg.disconnect(77), None);
    assert_eq!(reg.session_count(), 1);
    assert_eq!(reg.room_members(&"main".to_string()), vec![a]);
}

#[test]
fn join_moves_session_between_rooms() {
    let mut reg = registry();
    let a = reg.connect("a");
    let b = reg.connect("b");
    assert!(reg.join(b, "lobby".to_string()));
    assert_eq!(reg.room_of(b), Some("lobby".to_string()));
    assert_eq!(reg.room_members(&"main".to_string()), vec![a]);
    assert_eq!(reg.room_members(&"lobby".to_string()), vec![b]);
    assert_eq!(sorted(reg.list_rooms()), vec!["lobby".to_string(), "main".to_string()]);
    assert_eq!(reg.room_count(), 2);
}

#[test]
fn join_is_idempotent() {
    let mut reg = registry();
    let a = reg.connect("a");
    let b = reg.connect("b");
    let c = reg.connect("c");
    assert!(reg.join(a, "lobby".to_string()));
    assert!(reg.join(b, "lobby".to_string()));
    assert!(reg.join(a, "lobby".to_string()));
    assert_eq!(reg.room_members(&"lobby".to_string()), vec![a, b]);
    assert_eq!(reg.room_members(&"main".to_string()), vec![c]);
    assert_eq!(reg.room_of(a), Some("lobby".to_string()));
    assert_eq!(reg.session_count(), 3);
}

#[test]
fn join_of_the_current_default_room_changes_nothing() {
    let mut reg = registry();
    let a = reg.connect("a");
    let b = reg.connect("b");
    assert!(reg.join(a, "main".to_string()));
    assert_eq!(reg.room_members(&"main".to_string()), vec![a, b]);
}

#[test]
fn join_of_unknown_id_changes_nothing() {
    let mut reg = registry();
    let a = reg.connect("a");
    assert!(!reg.join(9, "lobby".to_string()));
    assert_eq!(reg.list_rooms(), vec!["main".to_string()]);
    assert!(reg.room_members(&"lobby".to_string()).is_empty());
    assert_eq!(reg.room_members(&"main".to_string()), vec![a]);
}

#[test]
fn leave_returns_to_default_room() {
    let mut reg = registry();
    let a = reg.connect("a");
    assert!(reg.join(a, "lobby".to_string()));
    assert!(reg.leave(a));
    assert_eq!(reg.room_of(a), Some("main".to_string()));
    assert_eq!(reg.list_rooms(), vec!["main".to_string()]);
    assert!(reg.leave(a));
    assert_eq!(reg.room_members(&"main".to_string()), vec![a]);
    assert!(!reg.leave(5));
}

#[test]
fn room_disappears_with_its_last_member() {
    let mut reg = registry();
    let a = reg.connect("a");
    let b = reg.connect("b");
    reg.join(a, "lobby".to_string());
    reg.join(b, "lobby".to_string());
    assert_eq!(reg.list_rooms(), vec!["lobby".to_string()]);
    reg.disconnect(a);
    assert_eq!(reg.list_rooms(), vec!["lobby".to_string()]);
    reg.disconnect(b);
    assert!(reg.list_rooms().is_empty());
    assert_eq!(reg.room_count(), 0);
}

#[test]
fn every_session_is_in_exactly_one_room() {
    let mut reg = registry();
    let ids: Vec<u64> = vec![reg.connect("a"), reg.connect("b"), reg.connect("c"), reg.connect("d")];
    reg.join(ids[0], "x".to_string());
    reg.join(ids[1], "y".to_string());
    reg.join(ids[0], "y".to_string());
    reg.leave(ids[1]);
    reg.disconnect(ids[2]);
    reg.join(ids[3], "x".to_string());
    reg.join(ids[3], "x".to_string());
    let rooms = reg.list_rooms();
    for id in ids {
        let mut found: Vec<String> = Vec::new();
        for room in &rooms {
            if reg.room_members(room).contains(&id) {
                found.push(room.clone());
            }
        }
        if reg.is_connected(id) {
            assert_eq!(found, vec![reg.room_of(id).unwrap()]);
        } else {
            assert!(found.is_empty());
        }
    }
    assert_eq!(reg.room_of(1), Some("y".to_string()));
    assert_eq!(reg.room_of(2), Some("main".to_string()));
    assert_eq!(reg.room_of(3), None);
    assert_eq!(reg.room_of(4), Some("x".to_string()));
}

#[test]
fn broadcast_reaches_the_room_but_not_the_sender() {
    let mut reg = registry();
    let a = reg.connect("a");
    let b = reg.connect("b");
    let c = reg.connect("c");
    let d = reg.connect("d");
    reg.join(d, "lobby".to_string());
    let message = said("hi", "main");
    let deliveries = reg.broadcast(&"main".to_string(), &message, Some(a));
    assert_eq!(recipients(&deliveries), vec![b, c]);
    for delivery in &deliveries {
        assert_eq!(delivery.message, message);
    }
    let all = reg.broadcast(&"main".to_string(), &message, None);
    assert_eq!(recipients(&all), vec![a, b, c]);
}

#[test]
fn broadcast_that_excludes_an_outsider_reaches_the_whole_room() {
    let mut reg = registry();
    let a = reg.connect("a");
    let b = reg.connect("b");
    reg.join(b, "lobby".to_string());
    let deliveries = reg.broadcast(&"main".to_string(), &said("hi", "main"), Some(b));
    assert_eq!(recipients(&deliveries), vec![a]);
}

#[test]
fn broadcast_to_a_room_without_members_reaches_no_one() {
    let mut reg = registry();
    reg.connect("a");
    let deliveries = reg.broadcast(&"nowhere".to_string(), &said("hi", "nowhere"), None);
    assert!(deliveries.is_empty());
}

#[test]
fn broadcast_leaves_membership_alone() {
    let mut reg = registry();
    let a = reg.connect("a");
    let b = reg.connect("b");
    reg.broadcast(&"main".to_string(), &said("hi", "main"), Some(a));
    assert_eq!(reg.room_members(&"main".to_string()), vec![a, b]);
    assert_eq!(reg.session_count(), 2);
}

#[test]
fn last_member_disconnects_and_the_room_is_gone() {
    let mut reg = registry();
    let a = reg.connect("a");
    assert_eq!(reg.disconnect(a), Some("a"));
    let deliveries = reg.broadcast(&"main".to_string(), &said("hi", "main"), None);
    assert!(deliveries.is_empty());
    assert!(reg.room_members(&"main".to_string()).is_empty());
    assert!(reg.list_rooms().is_empty());
}

#[test]
fn route_carries_out_each_command() {
    let mut reg = registry();
    let a = reg.connect("a");
    let b = reg.connect("b");
    assert!(reg.route(Routing::Nothing).is_empty());
    assert!(reg.route(Routing::Join { id: a, room: "lobby".to_string() }).is_empty());
    assert_eq!(reg.room_of(a), Some("lobby".to_string()));
    assert!(reg.route(Routing::Leave { id: a }).is_empty());
    assert_eq!(reg.room_of(a), Some("main".to_string()));
    let message = said("hi", "main");
    let deliveries = reg.route(Routing::Broadcast {
        room: "main".to_string(),
        message: message.clone(),
        exclude: a,
    });
    assert_eq!(deliveries, vec![Delivery { recipient: b, message }]);
    assert!(reg.route(Routing::Disconnect { id: a }).is_empty());
    assert!(!reg.is_connected(a));
    assert_eq!(reg.room_members(&"main".to_string()), vec![b]);
}

#[test]
fn room_table_keeps_members_in_order_of_entry() {
    let mut table = RoomTable::new();
    table.enter("x".to_string(), 3);
    table.enter("x".to_string(), 1);
    table.enter("y".to_string(), 2);
    table.enter("x".to_string(), 3);
    assert_eq!(table.members(&"x".to_string()), vec![3, 1]);
    assert_eq!(table.members(&"y".to_string()), vec![2]);
    assert_eq!(table.names(), vec!["x".to_string(), "y".to_string()]);
    assert_eq!(table.len(), 2);
    table.leave(&"x".to_string(), 3);
    assert_eq!(table.members(&"x".to_string()), vec![1]);
    table.leave(&"x".to_string(), 7);
    table.leave(&"z".to_string(), 1);
    assert_eq!(table.members(&"x".to_string()), vec![1]);
    table.leave(&"x".to_string(), 1);
    assert_eq!(table.names(), vec!["y".to_string()]);
    assert!(table.members(&"x".to_string()).is_empty());
}

#[test]
fn position_finds_the_first_place() {
    assert_eq!(position(&vec![4, 5, 6], 5), Some(1));
    assert_eq!(position(&vec![4, 5, 6], 7), None);
    assert_eq!(position(&Vec::new(), 7), None);
}
