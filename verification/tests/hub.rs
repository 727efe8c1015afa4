use abs_party::hub::{
    create_room, handle_pause, handle_play, handle_seek, handle_speed, join_room, leave_room,
    new_room_map, room_exists, take_room_state, validate_room_id, RoomMap,
};
use abs_party::models::{Delivery, ItemInfo, ServerMessage};
use abs_party::room::Participant;

fn make_item() -> ItemInfo {
    ItemInfo { id: "item1".into(), library_id: "lib1".into(), title: "Book".into(), author: "Author".into() }
}

fn make_participant(name: &str) -> Participant {
    Participant {
        id: uuid::Uuid::new_v4().as_u128(),
        name: name.into(),
        abs_token: "tok".into(),
        abs_username: name.into(),
    }
}

fn received(outbox: &[Delivery], id: u128) -> Vec<&ServerMessage> {
    outbox.iter().filter(|d| d.to.contains(&id)).map(|d| &d.message).collect()
}

fn room_state_of(rooms: &mut RoomMap, id: &str) -> (u64, bool, u64, usize) {
    match take_room_state(rooms, id) {
        Some(ServerMessage::RoomState { position, playing, speed, participants, .. }) => {
            (position, playing, speed, participants.len())
        }
        _ => panic!("room {id} is not open"),
    }
}

#[test]
fn validate_room_id_rejects_short() {
    assert!(validate_room_id("abc").is_err());
}

#[test]
fn validate_room_id_rejects_long() {
    assert!(validate_room_id("abcdefghi").is_err());
}

#[test]
fn validate_room_id_rejects_invalid_chars() {
    assert!(validate_room_id("abcd!@#$").is_err());
    assert!(validate_room_id("abcd efgh").is_err());
}

#[test]
fn validate_room_id_accepts_valid() {
    assert!(validate_room_id("abcd1234").is_ok());
    assert!(validate_room_id("ABCD1234").is_ok());
    assert!(validate_room_id("AbCd1234").is_ok());
}

#[test]
fn validate_room_id_reports_length_before_characters() {
    assert_eq!(validate_room_id("ab!").unwrap_err(), "Room ID must be exactly 8 characters");
    assert_eq!(validate_room_id("abcd!@#$").unwrap_err(), "Room ID may only contain letters and digits");
    // Eight characters but more than eight bytes.
    assert_eq!(validate_room_id("abcdefgé").unwrap_err(), "Room ID must be exactly 8 characters");
    // Eight bytes but fewer characters, one of them not ASCII.
    assert_eq!(validate_room_id("abcdefé").unwrap_err(), "Room ID may only contain letters and digits");
}

#[test]
fn create_room_inserts_into_map() {
    let mut rooms = new_room_map();
    let host = make_participant("Alice");
    let mut outbox = Vec::new();
    let created = create_room(&mut rooms, "testroom".into(), make_item(), host, &mut outbox).unwrap();
    assert!(created); // new room
    assert!(room_exists(&rooms, "testroom"));
    assert!(outbox.is_empty());
}

#[test]
fn create_room_joins_existing_room() {
    let mut rooms = new_room_map();
    let mut outbox = Vec::new();
    let host = make_participant("Alice");
    create_room(&mut rooms, "testroom".into(), make_item(), host, &mut outbox).unwrap();

    let guest = make_participant("Bob");
    let guest_id = guest.id;
    let joined = create_room(&mut rooms, "testroom".into(), make_item(), guest, &mut outbox).unwrap();
    assert!(!joined); // joined existing
    // join_room sends room_state to the newcomer
    let msgs = received(&outbox, guest_id);
    assert!(matches!(msgs[0], ServerMessage::RoomState { .. }));
}

#[test]
fn create_room_rejects_invalid_id() {
    let mut rooms = new_room_map();
    let host = make_participant("Alice");
    let mut outbox = Vec::new();
    let result = create_room(&mut rooms, "bad!id".into(), make_item(), host, &mut outbox);
    assert!(result.is_err());
}

#[test]
fn join_room_sends_state_to_newcomer() {
    let mut rooms = new_room_map();
    let mut outbox = Vec::new();
    let host = make_participant("Alice");
    create_room(&mut rooms, "testroom".into(), make_item(), host, &mut outbox).unwrap();

    let guest = make_participant("Bob");
    let guest_id = guest.id;
    join_room(&mut rooms, "testroom", guest, &mut outbox).unwrap();

    let msgs = received(&outbox, guest_id);
    assert!(matches!(msgs[0], ServerMessage::RoomState { .. }));
}

#[test]
fn join_room_notifies_existing_participants() {
    let mut rooms = new_room_map();
    let mut outbox = Vec::new();
    let host = make_participant("Alice");
    let host_id = host.id;
    create_room(&mut rooms, "testroom".into(), make_item(), host, &mut outbox).unwrap();

    let guest = make_participant("Bob");
    join_room(&mut rooms, "testroom", guest, &mut outbox).unwrap();

    let msgs = received(&outbox, host_id);
    assert!(matches!(msgs[0], ServerMessage::ParticipantJoined { name } if name == "Bob"));
}

#[test]
fn join_nonexistent_room_returns_error() {
    let mut rooms = new_room_map();
    let guest = make_participant("Bob");
    let mut outbox = Vec::new();
    let result = join_room(&mut rooms, "nonexst", guest, &mut outbox);
    assert!(result.is_err());
}

#[test]
fn join_room_rejects_invalid_id() {
    let mut rooms = new_room_map();
    let guest = make_participant("Bob");
    let mut outbox = Vec::new();
    let result = join_room(&mut rooms, "bad!", guest, &mut outbox);
    assert!(result.is_err());
}

#[test]
fn join_unopened_room_names_the_reason() {
    let mut rooms = new_room_map();
    let mut outbox = Vec::new();
    let result = join_room(&mut rooms, "abcd1234", make_participant("Bob"), &mut outbox);
    assert_eq!(result.unwrap_err(), "Room not found — the host hasn't opened the room yet");
    assert!(outbox.is_empty());
}

#[test]
fn join_under_taken_name_is_refused_and_told() {
    let mut rooms = new_room_map();
    let mut outbox = Vec::new();
    create_room(&mut rooms, "testroom".into(), make_item(), make_participant("Alice"), &mut outbox).unwrap();
    let twin = make_participant("Alice");
    let twin_id = twin.id;
    let result = join_room(&mut rooms, "testroom", twin, &mut outbox);
    assert_eq!(result.unwrap_err(), "Username taken");
    let msgs = received(&outbox, twin_id);
    assert_eq!(msgs.len(), 1);
    assert!(matches!(msgs[0], ServerMessage::Error { message } if message == "Username already in this room"));
    assert_eq!(room_state_of(&mut rooms, "testroom").3, 1);
}

#[test]
fn handle_play_broadcasts_to_others() {
    let mut rooms = new_room_map();
    let mut outbox = Vec::new();
    let host = make_participant("Alice");
    let host_id = host.id;
    create_room(&mut rooms, "testroom".into(), make_item(), host, &mut outbox).unwrap();
    let room_id = "testroom";

    let guest = make_participant("Bob");
    let guest_id = guest.id;
    join_room(&mut rooms, room_id, guest, &mut outbox).unwrap();
    outbox.clear(); // drain room_state

    handle_play(&mut rooms, room_id, host_id, 100.0f64.to_bits(), &mut outbox);

    let msgs = received(&outbox, guest_id);
    assert!(matches!(msgs[0], ServerMessage::Play { position, .. } if (f64::from_bits(*position) - 100.0).abs() < f64::EPSILON));
}

#[test]
fn guest_can_send_play() {
    let mut rooms = new_room_map();
    let mut outbox = Vec::new();
    let host = make_participant("Alice");
    let host_id = host.id;
    create_room(&mut rooms, "testroom".into(), make_item(), host, &mut outbox).unwrap();
    let room_id = "testroom";

    let guest = make_participant("Bob");
    let guest_id = guest.id;
    join_room(&mut rooms, room_id, guest, &mut outbox).unwrap();
    outbox.clear(); // drain joined notification and room_state

    handle_play(&mut rooms, room_id, guest_id, 50.0f64.to_bits(), &mut outbox);

    // Host SHOULD receive a play command from guest
    assert!(matches!(received(&outbox, host_id).first(), Some(ServerMessage::Play { .. })));
}

#[test]
fn leave_room_removes_empty_room() {
    let mut rooms = new_room_map();
    let mut outbox = Vec::new();
    let host = make_participant("Alice");
    let host_id = host.id;
    create_room(&mut rooms, "testroom".into(), make_item(), host, &mut outbox).unwrap();

    leave_room(&mut rooms, "testroom", host_id, &mut outbox);

    assert!(!room_exists(&rooms, "testroom"));
}

#[test]
fn leave_room_notifies_remaining() {
    let mut rooms = new_room_map();
    let mut outbox = Vec::new();
    let host = make_participant("Alice");
    let host_id = host.id;
    create_room(&mut rooms, "testroom".into(), make_item(), host, &mut outbox).unwrap();
    let room_id = "testroom";

    let guest = make_participant("Bob");
    let guest_id = guest.id;
    join_room(&mut rooms, room_id, guest, &mut outbox).unwrap();
    outbox.clear(); // drain joined notification

    leave_room(&mut rooms, room_id, guest_id, &mut outbox);

    let msgs = received(&outbox, host_id);
    assert!(matches!(msgs[0], ServerMessage::ParticipantLeft { name } if name == "Bob"));
}

#[test]
fn play_is_not_echoed_and_carries_sender_and_clock() {
    let mut rooms = new_room_map();
    let mut outbox = Vec::new();
    let host = make_participant("Alice");
    let host_id = host.id;
    create_room(&mut rooms, "testroom".into(), make_item(), host, &mut outbox).unwrap();
    let guest = make_participant("Bob");
    let guest_id = guest.id;
    join_room(&mut rooms, "testroom", guest, &mut outbox).unwrap();
    outbox.clear();
    handle_play(&mut rooms, "testroom", host_id, 75.5f64.to_bits(), &mut outbox);
    assert!(received(&outbox, host_id).is_empty());
    match received(&outbox, guest_id)[0] {
        ServerMessage::Play { position, host_time, sender_name } => {
            assert_eq!(f64::from_bits(*position), 75.5);
            assert!(*host_time > 1_600_000_000_000);
            assert_eq!(sender_name, "Alice");
        }
        _ => panic!("expected a play"),
    }
    let (position, playing, _, _) = room_state_of(&mut rooms, "testroom");
    assert_eq!(f64::from_bits(position), 75.5);
    assert!(playing);
}

#[test]
fn pause_stops_playback_from_host_only() {
    let mut rooms = new_room_map();
    let mut outbox = Vec::new();
    let host = make_participant("Alice");
    let host_id = host.id;
    create_room(&mut rooms, "testroom".into(), make_item(), host, &mut outbox).unwrap();
    let guest = make_participant("Bob");
    let guest_id = guest.id;
    join_room(&mut rooms, "testroom", guest, &mut outbox).unwrap();
    handle_play(&mut rooms, "testroom", host_id, 10.0f64.to_bits(), &mut outbox);
    outbox.clear();
    // A guest's pause is dropped.
    handle_pause(&mut rooms, "testroom", guest_id, 12.0f64.to_bits(), &mut outbox);
    assert!(outbox.is_empty());
    let (position, playing, _, _) = room_state_of(&mut rooms, "testroom");
    assert_eq!(f64::from_bits(position), 10.0);
    assert!(playing);
    // The host's pause is applied and relayed.
    handle_pause(&mut rooms, "testroom", host_id, 12.0f64.to_bits(), &mut outbox);
    let (position, playing, _, _) = room_state_of(&mut rooms, "testroom");
    assert_eq!(f64::from_bits(position), 12.0);
    assert!(!playing);
    assert!(matches!(received(&outbox, guest_id)[0], ServerMessage::Pause { sender_name, .. } if sender_name == "Alice"));
    assert!(received(&outbox, host_id).is_empty());
}

#[test]
fn guest_seek_and_speed_are_dropped() {
    let mut rooms = new_room_map();
    let mut outbox = Vec::new();
    let host = make_participant("Alice");
    let host_id = host.id;
    create_room(&mut rooms, "testroom".into(), make_item(), host, &mut outbox).unwrap();
    let guest = make_participant("Bob");
    let guest_id = guest.id;
    join_room(&mut rooms, "testroom", guest, &mut outbox).unwrap();
    outbox.clear();
    handle_seek(&mut rooms, "testroom", guest_id, 300.0f64.to_bits(), &mut outbox);
    handle_speed(&mut rooms, "testroom", guest_id, 2.0f64.to_bits(), &mut outbox);
    assert!(outbox.is_empty());
    let (position, _, speed, _) = room_state_of(&mut rooms, "testroom");
    assert_eq!(f64::from_bits(position), 0.0);
    assert_eq!(f64::from_bits(speed), 1.0);
    handle_seek(&mut rooms, "testroom", host_id, 300.0f64.to_bits(), &mut outbox);
    handle_speed(&mut rooms, "testroom", host_id, 2.0f64.to_bits(), &mut outbox);
    let (position, _, speed, _) = room_state_of(&mut rooms, "testroom");
    assert_eq!(f64::from_bits(position), 300.0);
    assert_eq!(f64::from_bits(speed), 2.0);
    assert!(matches!(received(&outbox, guest_id)[0], ServerMessage::Seek { .. }));
    assert!(matches!(received(&outbox, guest_id)[1], ServerMessage::Speed { rate, .. } if f64::from_bits(*rate) == 2.0));
}

#[test]
fn invalid_positions_and_rates_are_ignored() {
    let mut rooms = new_room_map();
    let mut outbox = Vec::new();
    let host = make_participant("Alice");
    let host_id = host.id;
    create_room(&mut rooms, "testroom".into(), make_item(), host, &mut outbox).unwrap();
    for bad in [-1.0f64, f64::NAN, f64::INFINITY, f64::NEG_INFINITY] {
        handle_play(&mut rooms, "testroom", host_id, bad.to_bits(), &mut outbox);
        handle_seek(&mut rooms, "testroom", host_id, bad.to_bits(), &mut outbox);
    }
    for bad in [0.24f64, 4.01, -1.0, f64::NAN, f64::INFINITY] {
        handle_speed(&mut rooms, "testroom", host_id, bad.to_bits(), &mut outbox);
    }
    assert!(outbox.is_empty());
    let (position, playing, speed, _) = room_state_of(&mut rooms, "testroom");
    assert_eq!(f64::from_bits(position), 0.0);
    assert!(!playing);
    assert_eq!(f64::from_bits(speed), 1.0);
    // Negative zero, the bounds of the rate range are accepted.
    handle_seek(&mut rooms, "testroom", host_id, (-0.0f64).to_bits(), &mut outbox);
    handle_speed(&mut rooms, "testroom", host_id, 0.25f64.to_bits(), &mut outbox);
    handle_speed(&mut rooms, "testroom", host_id, 4.0f64.to_bits(), &mut outbox);
    assert_eq!(outbox.len(), 3);
}

#[test]
fn guest_join_then_leave_restores_room() {
    let mut rooms = new_room_map();
    let mut outbox = Vec::new();
    let host = make_participant("Alice");
    let host_id = host.id;
    create_room(&mut rooms, "testroom".into(), make_item(), host, &mut outbox).unwrap();
    let before = room_state_of(&mut rooms, "testroom");
    let guest = make_participant("Bob");
    let guest_id = guest.id;
    join_room(&mut rooms, "testroom", guest, &mut outbox).unwrap();
    leave_room(&mut rooms, "testroom", guest_id, &mut outbox);
    assert_eq!(room_state_of(&mut rooms, "testroom"), before);
    match take_room_state(&mut rooms, "testroom") {
        Some(ServerMessage::RoomState { participants, .. }) => {
            assert_eq!(participants[0].name, "Alice");
            assert!(participants[0].is_host);
        }
        _ => panic!("room closed"),
    }
    let _ = host_id;
}

#[test]
fn host_leaving_announces_new_host_then_departure() {
    let mut rooms = new_room_map();
    let mut outbox = Vec::new();
    let host = make_participant("Alice");
    let host_id = host.id;
    create_room(&mut rooms, "testroom".into(), make_item(), host, &mut outbox).unwrap();
    let guest = make_participant("Bob");
    let guest_id = guest.id;
    join_room(&mut rooms, "testroom", guest, &mut outbox).unwrap();
    outbox.clear();
    leave_room(&mut rooms, "testroom", host_id, &mut outbox);
    let msgs = received(&outbox, guest_id);
    assert!(matches!(msgs[0], ServerMessage::HostChanged { name } if name == "Bob"));
    assert!(matches!(msgs[1], ServerMessage::ParticipantLeft { name } if name == "Alice"));
    // Bob, now host, may seek.
    outbox.clear();
    handle_seek(&mut rooms, "testroom", guest_id, 5.0f64.to_bits(), &mut outbox);
    assert_eq!(f64::from_bits(room_state_of(&mut rooms, "testroom").0), 5.0);
}

#[test]
fn state_lists_newcomer_last_and_not_as_host() {
    let mut rooms = new_room_map();
    let mut outbox = Vec::new();
    create_room(&mut rooms, "testroom".into(), make_item(), make_participant("Alice"), &mut outbox).unwrap();
    let guest = make_participant("Bob");
    let guest_id = guest.id;
    join_room(&mut rooms, "testroom", guest, &mut outbox).unwrap();
    match received(&outbox, guest_id)[0] {
        ServerMessage::RoomState { room_id, item, participants, .. } => {
            assert_eq!(room_id, "testroom");
            assert_eq!(item.title, "Book");
            assert_eq!(participants.len(), 2);
            assert_eq!(participants[1].name, "Bob");
            assert!(!participants[1].is_host);
        }
        _ => panic!("expected the room state"),
    }
}

#[test]
fn commands_for_closed_rooms_do_nothing() {
    let mut rooms = new_room_map();
    let mut outbox = Vec::new();
    handle_play(&mut rooms, "abcd1234", 1, 1.0f64.to_bits(), &mut outbox);
    leave_room(&mut rooms, "abcd1234", 1, &mut outbox);
    assert!(outbox.is_empty());
    assert!(!room_exists(&rooms, "abcd1234"));
    assert!(take_room_state(&mut rooms, "abcd1234").is_none());
}
