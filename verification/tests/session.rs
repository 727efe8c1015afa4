use abs_party::hub::{new_room_map, room_exists, take_room_state, PlaybackCommand};
use abs_party::models::{AbsMeResponse, Delivery, ItemInfo, ServerMessage};
use abs_party::session::Session;

fn me(name: &str) -> Result<AbsMeResponse, String> {
    Ok(AbsMeResponse { id: name.into(), username: name.into() })
}

fn item() -> ItemInfo {
    ItemInfo { id: "item1".into(), library_id: "lib1".into(), title: "Test Book".into(), author: "Test Author".into() }
}

fn received(outbox: &[Delivery], id: u128) -> Vec<&ServerMessage> {
    outbox.iter().filter(|d| d.to.contains(&id)).map(|d| &d.message).collect()
}

#[test]
fn ping_is_answered_with_pong() {
    let s = Session::with_id(7);
    let mut outbox = Vec::new();
    s.ping(99999, &mut outbox);
    assert!(matches!(received(&outbox, 7)[0], ServerMessage::Pong { sent_at: 99999 }));
}

#[test]
fn invalid_frame_is_answered_with_error() {
    let s = Session::with_id(7);
    let mut outbox = Vec::new();
    s.invalid_message("unknown variant `not_a_real_type`", &mut outbox);
    assert!(matches!(received(&outbox, 7)[0], ServerMessage::Error { message }
        if message == "Invalid message: unknown variant `not_a_real_type`"));
}

#[test]
fn create_then_join_over_sessions() {
    let mut rooms = new_room_map();
    let mut outbox = Vec::new();
    let mut host = Session::with_id(1);
    host.create_room(&mut rooms, "abcd1234".into(), "alice".into(), item(), me("alice"), &mut outbox);
    assert_eq!(host.current_room.as_deref(), Some("abcd1234"));
    match received(&outbox, 1)[0] {
        ServerMessage::RoomState { room_id, item, .. } => {
            assert_eq!(room_id, "abcd1234");
            assert_eq!(item.title, "Test Book");
        }
        _ => panic!("expected the room state"),
    }
    outbox.clear();
    let mut guest = Session::with_id(2);
    guest.join(&mut rooms, Some("abcd1234".into()), "bob".into(), me("bob"), &mut outbox);
    assert_eq!(guest.current_room.as_deref(), Some("abcd1234"));
    assert!(matches!(received(&outbox, 2)[0], ServerMessage::RoomState { .. }));
    assert!(matches!(received(&outbox, 1)[0], ServerMessage::ParticipantJoined { name } if name == "bob"));
}

#[test]
fn play_command_relayed_to_guest_only() {
    let mut rooms = new_room_map();
    let mut outbox = Vec::new();
    let mut host = Session::with_id(1);
    host.create_room(&mut rooms, "abcd1234".into(), "alice".into(), item(), me("alice"), &mut outbox);
    let mut guest = Session::with_id(2);
    guest.join(&mut rooms, Some("abcd1234".into()), "bob".into(), me("bob"), &mut outbox);
    outbox.clear();
    host.playback(&mut rooms, PlaybackCommand::Play { position: 75.5f64.to_bits() }, &mut outbox);
    assert!(matches!(received(&outbox, 2)[0], ServerMessage::Play { position, .. } if f64::from_bits(*position) == 75.5));
    assert!(received(&outbox, 1).is_empty());
}

#[test]
fn refused_identity_and_missing_room_id_are_answered() {
    let mut rooms = new_room_map();
    let mut outbox = Vec::new();
    let mut s = Session::with_id(3);
    s.join(&mut rooms, Some("abcd1234".into()), "t".into(), Err("ABS token validation failed".into()), &mut outbox);
    s.join(&mut rooms, None, "t".into(), me("carol"), &mut outbox);
    s.create_room(&mut rooms, "abcd1234".into(), "t".into(), item(), Err("ABS token validation failed".into()), &mut outbox);
    let msgs = received(&outbox, 3);
    assert!(matches!(msgs[0], ServerMessage::Error { message } if message == "ABS token validation failed"));
    assert!(matches!(msgs[1], ServerMessage::Error { message } if message == "room_id required for join"));
    assert!(matches!(msgs[2], ServerMessage::Error { message } if message == "ABS token validation failed"));
    assert!(s.current_room.is_none());
    assert!(!room_exists(&rooms, "abcd1234"));
}

#[test]
fn joining_a_closed_room_is_answered_and_leaves_session_roomless() {
    let mut rooms = new_room_map();
    let mut outbox = Vec::new();
    let mut s = Session::with_id(4);
    s.join(&mut rooms, Some("abcd1234".into()), "t".into(), me("dave"), &mut outbox);
    assert!(s.current_room.is_none());
    assert!(matches!(received(&outbox, 4)[0], ServerMessage::Error { message }
        if message == "Room not found — the host hasn't opened the room yet"));
}

#[test]
fn taken_name_is_answered_twice() {
    let mut rooms = new_room_map();
    let mut outbox = Vec::new();
    let mut host = Session::with_id(1);
    host.create_room(&mut rooms, "abcd1234".into(), "a".into(), item(), me("alice"), &mut outbox);
    outbox.clear();
    let mut twin = Session::with_id(5);
    twin.join(&mut rooms, Some("abcd1234".into()), "a".into(), me("alice"), &mut outbox);
    let msgs = received(&outbox, 5);
    assert_eq!(msgs.len(), 2);
    assert!(matches!(msgs[0], ServerMessage::Error { message } if message == "Username already in this room"));
    assert!(matches!(msgs[1], ServerMessage::Error { message } if message == "Username taken"));
    assert!(twin.current_room.is_none());
}

#[test]
fn closing_the_last_session_closes_the_room() {
    let mut rooms = new_room_map();
    let mut outbox = Vec::new();
    let mut host = Session::with_id(1);
    host.create_room(&mut rooms, "abcd1234".into(), "a".into(), item(), me("alice"), &mut outbox);
    host.close(&mut rooms, &mut outbox);
    assert!(!room_exists(&rooms, "abcd1234"));
    assert!(take_room_state(&mut rooms, "abcd1234").is_none());
}

#[test]
fn playback_without_a_room_does_nothing() {
    let mut rooms = new_room_map();
    let mut outbox = Vec::new();
    let s = Session::with_id(9);
    s.playback(&mut rooms, PlaybackCommand::Pause { position: 1.0f64.to_bits() }, &mut outbox);
    s.close(&mut rooms, &mut outbox);
    assert!(outbox.is_empty());
}

#[test]
fn fresh_sessions_get_distinct_version_4_ids() {
    let a = Session::new();
    let b = Session::new();
    assert_ne!(a.participant_id, b.participant_id);
    assert_eq!((a.participant_id >> 76) & 0xF, 4);
    assert_eq!((a.participant_id >> 62) & 0x3, 2);
    assert!(a.current_room.is_none());
}

#[test]
fn bypass_identity_is_the_token() {
    let m = abs_party::session::bypass_identity("alice");
    assert_eq!(m.id, "alice");
    assert_eq!(m.username, "alice");
}

#[test]
fn failed_lookup_is_refused() {
    let r = abs_party::session::identity_from_lookup(None);
    assert_eq!(r.err().unwrap(), "ABS token validation failed");
    let r = abs_party::session::identity_from_lookup(Some(AbsMeResponse { id: "u1".into(), username: "bob".into() }));
    assert_eq!(r.ok().unwrap().username, "bob");
}
