//! The set of open rooms and the operations that listeners perform on it.
use crate::models::{
    lemma_nothing_sent,
    deliver_to, position_is_valid, rate_is_valid, send, to_one, deliveries_view, is_valid_position,
    is_valid_rate, Delivery, DeliveryView, ItemInfo, ServerMessage, ServerMessageView,
};
use crate::room::{
    find_participant, has_id, has_name, ids, ids_except, name_of, new_room_view, now_millis,
    removal_notices, room_after_removal, first_index, Participant, Room, RoomView, state_view,
};
use vstd::prelude::*;
use vstd::string::*;
use vstd::utf8::*;

verus! {

/// The concurrent map of the `dashmap` crate, carried opaquely.
#[verifier::external_type_specification]
#[verifier::external_body]
#[verifier::reject_recursive_types(K)]
#[verifier::reject_recursive_types(V)]
#[verifier::reject_recursive_types(S)]
pub struct ExDashMap<K, V, S>(dashmap::DashMap<K, V, S>);

/// The table that holds the open rooms, keyed by room id.
pub type RoomTable = dashmap::DashMap<String, Room>;

/// The entries of a room table, each key taken by its characters.
pub uninterp spec fn room_table(table: RoomTable) -> Map<Seq<char>, Room>;

/// An empty table.
///
/// Calls `DashMap::new`, which builds a map with no entry.
#[verifier::external_body]
fn table_new() -> (fresh: RoomTable)
    ensures
        room_table(fresh).dom() == Set::<Seq<char>>::empty(),
{
    dashmap::DashMap::new()
}

/// Whether the table has an entry for `key`.
///
/// Calls `DashMap::contains_key`, which is true exactly where an entry's key is
/// equal to `key`; `String` equality is equality of the characters.
#[verifier::external_body]
fn table_contains(t: &RoomTable, key: &str) -> (r: bool)
    ensures
        r == room_table(*t).dom().contains(key@),
{
    t.contains_key(key)
}

/// Puts `room` under `key`, returning the room that was there.
///
/// Calls `DashMap::insert`: the entry for `key` holds `room` afterwards, other
/// entries are unchanged, and the previous value, if any, is returned.
#[verifier::external_body]
fn table_insert(t: &mut RoomTable, key: String, room: Room) -> (r: Option<Room>)
    ensures
        room_table(*final(t)) == room_table(*old(t)).insert(key@, room),
        r is Some == room_table(*old(t)).dom().contains(key@),
        r matches Some(v) ==> v == room_table(*old(t))[key@],
{
    t.insert(key, room)
}

/// Takes the entry for `key` out of the table.
///
/// Calls `DashMap::remove`: the entry is gone afterwards, other entries are
/// unchanged, and the stored key and value are returned where there was one.
#[verifier::external_body]
fn table_remove(t: &mut RoomTable, key: &str) -> (r: Option<(String, Room)>)
    ensures
        room_table(*final(t)) == room_table(*old(t)).remove(key@),
        r is Some == room_table(*old(t)).dom().contains(key@),
        r matches Some(kv) ==> kv.0@ == key@ && kv.1 == room_table(*old(t))[key@],
{
    t.remove(key)
}

/// The open rooms, by room id.
pub struct RoomMap {
    table: RoomTable,
}

/// The rooms of a table, each taken by its view.
pub open spec fn rooms_view(m: Map<Seq<char>, Room>) -> Map<Seq<char>, RoomView> {
    m.map_values(|r: Room| r@)
}

impl View for RoomMap {
    type V = Map<Seq<char>, RoomView>;

    closed spec fn view(&self) -> Map<Seq<char>, RoomView> {
        rooms_view(room_table(self.table))
    }
}

proof fn lemma_rooms_view_insert(m: Map<Seq<char>, Room>, k: Seq<char>, r: Room)
    ensures
        rooms_view(m.insert(k, r)) == rooms_view(m).insert(k, r@),
{
    assert(rooms_view(m.insert(k, r)) =~= rooms_view(m).insert(k, r@));
}

proof fn lemma_rooms_view_remove(m: Map<Seq<char>, Room>, k: Seq<char>)
    ensures
        rooms_view(m.remove(k)) == rooms_view(m).remove(k),
{
    assert(rooms_view(m.remove(k)) =~= rooms_view(m).remove(k));
}

/// What an operation on the room map leaves behind: the rooms, its result and
/// the deliveries it sends, in order.
pub struct HubOutcome<R> {
    pub rooms: Map<Seq<char>, RoomView>,
    pub result: R,
    pub sent: Seq<DeliveryView>,
}

/// An error result taken by the characters of its message.
pub open spec fn result_view<T>(r: Result<T, String>) -> Result<T, Seq<char>> {
    match r {
        Ok(v) => Ok(v),
        Err(e) => Err(e@),
    }
}

/// The characters a room id may hold.
pub open spec fn is_ascii_alphanumeric(c: char) -> bool {
    ('0' <= c && c <= '9') || ('a' <= c && c <= 'z') || ('A' <= c && c <= 'Z')
}

/// A room id: exactly eight ASCII letters and digits.
pub open spec fn valid_room_id(id: Seq<char>) -> bool {
    id.len() == 8 && forall|i: int| 0 <= i < id.len() ==> is_ascii_alphanumeric(#[trigger] id[i])
}

/// The refusal of a room id whose UTF-8 encoding is not eight bytes long.
pub open spec fn room_id_length_error() -> Seq<char> {
    "Room ID must be exactly 8 characters"@
}

/// The refusal of a room id with a character other than a letter or a digit.
pub open spec fn room_id_chars_error() -> Seq<char> {
    "Room ID may only contain letters and digits"@
}

/// The refusal of a join to a room that is not open.
pub open spec fn room_not_found_error() -> Seq<char> {
    "Room not found — the host hasn't opened the room yet"@
}

/// What a listener whose name is already in the room is told.
pub open spec fn name_in_room_notice() -> Seq<char> {
    "Username already in this room"@
}

/// The refusal of a join under a name that is already in the room.
pub open spec fn name_taken_error() -> Seq<char> {
    "Username taken"@
}

/// The check of a room id: its length in UTF-8 bytes (as a `usize`, which the
/// length of any text in memory fits) first, then its characters.
pub open spec fn room_id_check(id: Seq<char>) -> Result<(), Seq<char>> {
    if encode_utf8(id).len() as usize != 8 {
        Err(room_id_length_error())
    } else if !(forall|i: int| 0 <= i < id.len() ==> is_ascii_alphanumeric(#[trigger] id[i])) {
        Err(room_id_chars_error())
    } else {
        Ok(())
    }
}

/// The check accepts exactly the ids of eight ASCII letters and digits.
pub proof fn lemma_room_id_check(id: Seq<char>)
    requires
        id.len() <= usize::MAX,
    ensures
        room_id_check(id) is Ok <==> valid_room_id(id),
{
    broadcast use is_ascii_chars_encode_utf8;

    if forall|i: int| 0 <= i < id.len() ==> is_ascii_alphanumeric(#[trigger] id[i]) {
        assert(is_ascii_chars(id));
    }
}

/// Checks a room id: its UTF-8 encoding must be eight bytes long and every
/// character an ASCII letter or digit.
pub fn validate_room_id(id: &str) -> (r: Result<(), String>)
    ensures
        result_view(r) == room_id_check(id@),
        r is Ok <==> valid_room_id(id@),
{
    let n = id.unicode_len();
    proof {
        lemma_room_id_check(id@);
    }
    if id.len() != 8 {
        return Err(String::from_str("Room ID must be exactly 8 characters"));
    }
    assert(id.spec_bytes() == encode_utf8(id@));
    let mut i: usize = 0;
    while i < n
        invariant
            n == id@.len(),
            i <= n,
            encode_utf8(id@).len() as usize == 8,
            forall|j: int| 0 <= j < i ==> is_ascii_alphanumeric(#[trigger] id@[j]),
        decreases n - i,
    {
        let c = id.get_char(i);
        if !(('0' <= c && c <= '9') || ('a' <= c && c <= 'z') || ('A' <= c && c <= 'Z')) {
            assert(!is_ascii_alphanumeric(id@[i as int]));
            assert(room_id_check(id@) == Err::<(), Seq<char>>(room_id_chars_error()));
            return Err(String::from_str("Room ID may only contain letters and digits"));
        }
        i = i + 1;
    }
    Ok(())
}

/// Whether a listener in the list has this name.
fn name_taken(ps: &Vec<Participant>, name: &String) -> (r: bool)
    ensures
        r == has_name(ps@, name@),
{
    let mut i: usize = 0;
    while i < ps.len()
        invariant
            i <= ps@.len(),
            forall|j: int| 0 <= j < i ==> ps@[j].name@ != name@,
        decreases ps@.len() - i,
    {
        if ps[i].name == *name {
            return true;
        }
        i = i + 1;
    }
    false
}

/// The name of the first listener with this id, or the empty name.
fn sender_name(ps: &Vec<Participant>, id: u128) -> (r: String)
    ensures
        r@ == name_of(ps@, id),
{
    match find_participant(ps, id) {
        Some(i) => ps[i].name.clone(),
        None => String::new(),
    }
}

/// The room that a listener joins: the room with the newcomer appended.
pub open spec fn room_with(r: RoomView, p: Participant) -> RoomView {
    RoomView { participants: r.participants.push(p), ..r }
}

/// Joining a room. The id is checked; the room must be open; a name already in
/// the room is refused, and its owner told so. Otherwise the listener is
/// appended, receives the room state, and every other listener learns its name.
pub open spec fn join_outcome(
    rooms: Map<Seq<char>, RoomView>,
    id: Seq<char>,
    p: Participant,
) -> HubOutcome<Result<(), Seq<char>>> {
    match room_id_check(id) {
        Err(e) => HubOutcome { rooms, result: Err(e), sent: Seq::empty() },
        Ok(_) => if !rooms.contains_key(id) {
            HubOutcome { rooms, result: Err(room_not_found_error()), sent: Seq::empty() }
        } else if has_name(rooms[id].participants, p.name@) {
            HubOutcome {
                rooms,
                result: Err(name_taken_error()),
                sent: seq![to_one(p.id, ServerMessageView::Error { message: name_in_room_notice() })],
            }
        } else {
            let r2 = room_with(rooms[id], p);
            HubOutcome {
                rooms: rooms.insert(id, r2),
                result: Ok(()),
                sent: seq![
                    to_one(p.id, state_view(r2)),
                    DeliveryView {
                        to: ids_except(r2.participants, p.id),
                        message: ServerMessageView::ParticipantJoined { name: p.name@ },
                    },
                ],
            }
        },
    }
}

/// Creating a room. The id is checked; where the room is already open the host
/// joins it instead (`Ok(false)`); otherwise a new room holds the host alone
/// (`Ok(true)`) and nothing is sent.
pub open spec fn create_outcome(
    rooms: Map<Seq<char>, RoomView>,
    id: Seq<char>,
    item: ItemInfo,
    host: Participant,
) -> HubOutcome<Result<bool, Seq<char>>> {
    match room_id_check(id) {
        Err(e) => HubOutcome { rooms, result: Err(e), sent: Seq::empty() },
        Ok(_) => if rooms.contains_key(id) {
            let j = join_outcome(rooms, id, host);
            HubOutcome {
                rooms: j.rooms,
                result: match j.result {
                    Ok(_) => Ok(false),
                    Err(e) => Err(e),
                },
                sent: j.sent,
            }
        } else {
            HubOutcome {
                rooms: rooms.insert(id, new_room_view(id, item, host)),
                result: Ok(true),
                sent: Seq::empty(),
            }
        },
    }
}

/// A playback command from a listener.
#[derive(Clone, Copy)]
pub enum PlaybackCommand {
    Play { position: u64 },
    Pause { position: u64 },
    Seek { position: u64 },
    Speed { rate: u64 },
}

/// The command carries a usable position or rate.
pub open spec fn command_valid(c: PlaybackCommand) -> bool {
    match c {
        PlaybackCommand::Play { position } => is_valid_position(position),
        PlaybackCommand::Pause { position } => is_valid_position(position),
        PlaybackCommand::Seek { position } => is_valid_position(position),
        PlaybackCommand::Speed { rate } => is_valid_rate(rate),
    }
}

/// Only the host may pause, seek or change the rate; anyone may play.
pub open spec fn command_needs_host(c: PlaybackCommand) -> bool {
    c is Pause || c is Seek || c is Speed
}

/// The room once the command is applied.
pub open spec fn command_applied(r: RoomView, c: PlaybackCommand) -> RoomView {
    match c {
        PlaybackCommand::Play { position } => RoomView { position, playing: true, ..r },
        PlaybackCommand::Pause { position } => RoomView { position, playing: false, ..r },
        PlaybackCommand::Seek { position } => RoomView { position, ..r },
        PlaybackCommand::Speed { rate } => RoomView { speed: rate, ..r },
    }
}

/// The message that relays the command.
pub open spec fn command_message(c: PlaybackCommand, host_time: u64, sender_name: Seq<char>) -> ServerMessageView {
    match c {
        PlaybackCommand::Play { position } => ServerMessageView::Play { position, host_time, sender_name },
        PlaybackCommand::Pause { position } => ServerMessageView::Pause { position, sender_name },
        PlaybackCommand::Seek { position } => ServerMessageView::Seek { position, sender_name },
        PlaybackCommand::Speed { rate } => ServerMessageView::Speed { rate, sender_name },
    }
}

/// Whether the command takes effect: it is valid, the room is open, and the
/// sender is the host where the command needs one.
pub open spec fn command_accepted(
    rooms: Map<Seq<char>, RoomView>,
    id: Seq<char>,
    sender: u128,
    c: PlaybackCommand,
) -> bool {
    &&& command_valid(c)
    &&& rooms.contains_key(id)
    &&& command_needs_host(c) ==> rooms[id].host_id == sender
}

/// A playback command: where accepted, the room takes it and every other
/// listener is sent it, with the sender's name; otherwise nothing changes.
pub open spec fn playback_outcome(
    rooms: Map<Seq<char>, RoomView>,
    id: Seq<char>,
    sender: u128,
    c: PlaybackCommand,
    host_time: u64,
) -> HubOutcome<()> {
    if command_accepted(rooms, id, sender, c) {
        let r = rooms[id];
        HubOutcome {
            rooms: rooms.insert(id, command_applied(r, c)),
            result: (),
            sent: seq![
                DeliveryView {
                    to: ids_except(r.participants, sender),
                    message: command_message(c, host_time, name_of(r.participants, sender)),
                },
            ],
        }
    } else {
        HubOutcome { rooms, result: (), sent: Seq::empty() }
    }
}

/// Leaving a room: the listener is removed (the host role passing on where
/// needed), the others learn its name, and a room left empty is closed.
pub open spec fn leave_outcome(
    rooms: Map<Seq<char>, RoomView>,
    id: Seq<char>,
    pid: u128,
) -> HubOutcome<()> {
    if !rooms.contains_key(id) {
        HubOutcome { rooms, result: (), sent: Seq::empty() }
    } else {
        let r = rooms[id];
        let r1 = room_after_removal(r, pid);
        let left = if has_id(r.participants, pid) {
            seq![
                DeliveryView {
                    to: ids(r1.participants),
                    message: ServerMessageView::ParticipantLeft {
                        name: r.participants[first_index(r.participants, pid)].name@,
                    },
                },
            ]
        } else {
            Seq::empty()
        };
        HubOutcome {
            rooms: if r1.participants.len() == 0 {
                rooms.remove(id)
            } else {
                rooms.insert(id, r1)
            },
            result: (),
            sent: removal_notices(r, pid) + left,
        }
    }
}

/// An empty room map.
pub fn new_room_map() -> (m: RoomMap)
    ensures
        m@ == Map::<Seq<char>, RoomView>::empty(),
{
    let m = RoomMap { table: table_new() };
    assert(m@ =~= Map::<Seq<char>, RoomView>::empty());
    m
}

/// Whether a room is open under this id.
pub fn room_exists(rooms: &RoomMap, room_id: &str) -> (r: bool)
    ensures
        r == rooms@.contains_key(room_id@),
{
    table_contains(&rooms.table, room_id)
}

/// Joins a listener to an open room; see `join_outcome`.
pub fn join_room(
    rooms: &mut RoomMap,
    room_id: &str,
    participant: Participant,
    outbox: &mut Vec<Delivery>,
) -> (r: Result<(), String>)
    ensures
        ({
            let o = join_outcome(old(rooms)@, room_id@, participant);
            &&& final(rooms)@ == o.rooms
            &&& result_view(r) == o.result
            &&& deliveries_view(final(outbox)@) == deliveries_view(old(outbox)@) + o.sent
        }),
{
    let ghost old_table = room_table(rooms.table);
    match validate_room_id(room_id) {
        Err(e) => {
            proof {
                lemma_nothing_sent(deliveries_view(outbox@));
            }
            return Err(e);
        },
        Ok(()) => {},
    }
    let removed = table_remove(&mut rooms.table, room_id);
    match removed {
        None => {
            assert(room_table(rooms.table) =~= old_table);
            proof {
                lemma_nothing_sent(deliveries_view(outbox@));
            }
            Err(String::from_str("Room not found — the host hasn't opened the room yet"))
        },
        Some((key, mut room)) => {
            proof {
                lemma_rooms_view_insert(room_table(rooms.table), key@, room);
                assert(room_table(rooms.table).insert(key@, room) =~= old_table);
            }
            let pid = participant.id;
            let name = participant.name.clone();
            if name_taken(&room.participants, &name) {
                let notice = deliver_to(
                    pid,
                    ServerMessage::Error { message: String::from_str("Username already in this room") },
                );
                send(outbox, notice);
                table_insert(&mut rooms.table, key, room);
                assert(deliveries_view(outbox@) =~= deliveries_view(old(outbox)@) + join_outcome(old(rooms)@, room_id@, participant).sent);
                return Err(String::from_str("Username taken"));
            }
            room.participants.push(participant);
            let state = room.state_message();
            send(outbox, deliver_to(pid, state));
            let joined = room.broadcast_except(pid, ServerMessage::ParticipantJoined { name });
            send(outbox, joined);
            proof {
                lemma_rooms_view_insert(old_table.remove(key@), key@, room);
                assert(old_table.remove(key@).insert(key@, room) =~= old_table.insert(key@, room));
                lemma_rooms_view_insert(old_table, key@, room);
            }
            table_insert(&mut rooms.table, key, room);
            assert(deliveries_view(outbox@) =~= deliveries_view(old(outbox)@) + join_outcome(old(rooms)@, room_id@, participant).sent);
            Ok(())
        },
    }
}

/// Creates a room with the host alone in it, or joins the host to the room
/// already open under that id; see `create_outcome`.
pub fn create_room(
    rooms: &mut RoomMap,
    room_id: String,
    item: ItemInfo,
    host: Participant,
    outbox: &mut Vec<Delivery>,
) -> (r: Result<bool, String>)
    ensures
        ({
            let o = create_outcome(old(rooms)@, room_id@, item, host);
            &&& final(rooms)@ == o.rooms
            &&& result_view(r) == o.result
            &&& deliveries_view(final(outbox)@) == deliveries_view(old(outbox)@) + o.sent
        }),
{
    match validate_room_id(room_id.as_str()) {
        Err(e) => {
            proof {
                lemma_nothing_sent(deliveries_view(outbox@));
            }
            return Err(e);
        },
        Ok(()) => {},
    }
    if table_contains(&rooms.table, room_id.as_str()) {
        match join_room(rooms, room_id.as_str(), host, outbox) {
            Ok(()) => Ok(false),
            Err(e) => Err(e),
        }
    } else {
        let ghost old_table = room_table(rooms.table);
        let room = Room::new(room_id.clone(), item, host);
        proof {
            lemma_rooms_view_insert(old_table, room_id@, room);
        }
        table_insert(&mut rooms.table, room_id, room);
        proof {
            lemma_nothing_sent(deliveries_view(outbox@));
        }
        Ok(true)
    }
}

/// Applies a playback command from `sender_id` to a room; see `playback_outcome`.
pub fn apply_playback(
    rooms: &mut RoomMap,
    room_id: &str,
    sender_id: u128,
    command: PlaybackCommand,
    host_time: u64,
    outbox: &mut Vec<Delivery>,
)
    ensures
        ({
            let o = playback_outcome(old(rooms)@, room_id@, sender_id, command, host_time);
            &&& final(rooms)@ == o.rooms
            &&& deliveries_view(final(outbox)@) == deliveries_view(old(outbox)@) + o.sent
        }),
{
    let valid = match command {
        PlaybackCommand::Play { position } => position_is_valid(position),
        PlaybackCommand::Pause { position } => position_is_valid(position),
        PlaybackCommand::Seek { position } => position_is_valid(position),
        PlaybackCommand::Speed { rate } => rate_is_valid(rate),
    };
    if !valid {
        proof {
            lemma_nothing_sent(deliveries_view(outbox@));
        }
        return;
    }
    let ghost old_table = room_table(rooms.table);
    match table_remove(&mut rooms.table, room_id) {
        None => {
            assert(room_table(rooms.table) =~= old_table);
            proof {
                lemma_nothing_sent(deliveries_view(outbox@));
            }
        },
        Some((key, mut room)) => {
            let needs_host = match command {
                PlaybackCommand::Pause { .. } => true,
                PlaybackCommand::Seek { .. } => true,
                PlaybackCommand::Speed { .. } => true,
                _ => false,
            };
            if needs_host && !room.is_host(sender_id) {
                proof {
                    lemma_rooms_view_insert(room_table(rooms.table), key@, room);
                    assert(room_table(rooms.table).insert(key@, room) =~= old_table);
                }
                table_insert(&mut rooms.table, key, room);
                proof {
                    lemma_nothing_sent(deliveries_view(outbox@));
                }
                return;
            }
            let name = sender_name(&room.participants, sender_id);
            let message = match command {
                PlaybackCommand::Play { position } => {
                    room.position = position;
                    room.playing = true;
                    ServerMessage::Play { position, host_time, sender_name: name }
                },
                PlaybackCommand::Pause { position } => {
                    room.position = position;
                    room.playing = false;
                    ServerMessage::Pause { position, sender_name: name }
                },
                PlaybackCommand::Seek { position } => {
                    room.position = position;
                    ServerMessage::Seek { position, sender_name: name }
                },
                PlaybackCommand::Speed { rate } => {
                    room.speed = rate;
                    ServerMessage::Speed { rate, sender_name: name }
                },
            };
            let d = room.broadcast_except(sender_id, message);
            send(outbox, d);
            proof {
                lemma_rooms_view_insert(old_table.remove(key@), key@, room);
                assert(old_table.remove(key@).insert(key@, room) =~= old_table.insert(key@, room));
                lemma_rooms_view_insert(old_table, key@, room);
            }
            table_insert(&mut rooms.table, key, room);
            assert(deliveries_view(outbox@) =~= deliveries_view(old(outbox)@) + playback_outcome(old(rooms)@, room_id@, sender_id, command, host_time).sent);
        },
    }
}

/// Play from `position` (encoded as binary64), sent by any listener, stamped
/// with the server clock; see `playback_outcome`.
pub fn handle_play(rooms: &mut RoomMap, room_id: &str, sender_id: u128, position: u64, outbox: &mut Vec<Delivery>)
    ensures
        exists|host_time: u64|
            #![trigger playback_outcome(old(rooms)@, room_id@, sender_id, PlaybackCommand::Play { position }, host_time)]
            {
                let o = playback_outcome(old(rooms)@, room_id@, sender_id, PlaybackCommand::Play { position }, host_time);
                &&& final(rooms)@ == o.rooms
                &&& deliveries_view(final(outbox)@) == deliveries_view(old(outbox)@) + o.sent
            },
{
    let host_time = now_millis();
    apply_playback(rooms, room_id, sender_id, PlaybackCommand::Play { position }, host_time, outbox);
    assert(playback_outcome(old(rooms)@, room_id@, sender_id, PlaybackCommand::Play { position }, host_time).rooms == rooms@);
}

/// Pause at `position`, taken from the host only; see `playback_outcome`.
pub fn handle_pause(rooms: &mut RoomMap, room_id: &str, sender_id: u128, position: u64, outbox: &mut Vec<Delivery>)
    ensures
        ({
            let o = playback_outcome(old(rooms)@, room_id@, sender_id, PlaybackCommand::Pause { position }, 0);
            &&& final(rooms)@ == o.rooms
            &&& deliveries_view(final(outbox)@) == deliveries_view(old(outbox)@) + o.sent
        }),
{
    apply_playback(rooms, room_id, sender_id, PlaybackCommand::Pause { position }, 0, outbox);
}

/// Seek to `position`, taken from the host only; see `playback_outcome`.
pub fn handle_seek(rooms: &mut RoomMap, room_id: &str, sender_id: u128, position: u64, outbox: &mut Vec<Delivery>)
    ensures
        ({
            let o = playback_outcome(old(rooms)@, room_id@, sender_id, PlaybackCommand::Seek { position }, 0);
            &&& final(rooms)@ == o.rooms
            &&& deliveries_view(final(outbox)@) == deliveries_view(old(outbox)@) + o.sent
        }),
{
    apply_playback(rooms, room_id, sender_id, PlaybackCommand::Seek { position }, 0, outbox);
}

/// Set the playback rate, taken from the host only; see `playback_outcome`.
pub fn handle_speed(rooms: &mut RoomMap, room_id: &str, sender_id: u128, rate: u64, outbox: &mut Vec<Delivery>)
    ensures
        ({
            let o = playback_outcome(old(rooms)@, room_id@, sender_id, PlaybackCommand::Speed { rate }, 0);
            &&& final(rooms)@ == o.rooms
            &&& deliveries_view(final(outbox)@) == deliveries_view(old(outbox)@) + o.sent
        }),
{
    apply_playback(rooms, room_id, sender_id, PlaybackCommand::Speed { rate }, 0, outbox);
}

/// Removes a listener from a room; see `leave_outcome`.
pub fn leave_room(rooms: &mut RoomMap, room_id: &str, participant_id: u128, outbox: &mut Vec<Delivery>)
    ensures
        ({
            let o = leave_outcome(old(rooms)@, room_id@, participant_id);
            &&& final(rooms)@ == o.rooms
            &&& deliveries_view(final(outbox)@) == deliveries_view(old(outbox)@) + o.sent
        }),
{
    let ghost old_table = room_table(rooms.table);
    match table_remove(&mut rooms.table, room_id) {
        None => {
            assert(room_table(rooms.table) =~= old_table);
            proof {
                lemma_nothing_sent(deliveries_view(outbox@));
            }
        },
        Some((key, mut room)) => {
            let ghost r0 = room@;
            let removed = room.remove_participant(participant_id, outbox);
            let ghost after_notices = deliveries_view(outbox@);
            match removed {
                Some(name) => {
                    let d = room.broadcast(ServerMessage::ParticipantLeft { name });
                    send(outbox, d);
                },
                None => {},
            }
            if !room.is_empty() {
                proof {
                    lemma_rooms_view_insert(old_table.remove(key@), key@, room);
                    assert(old_table.remove(key@).insert(key@, room) =~= old_table.insert(key@, room));
                    lemma_rooms_view_insert(old_table, key@, room);
                }
                table_insert(&mut rooms.table, key, room);
            } else {
                proof {
                    lemma_rooms_view_remove(old_table, key@);
                }
            }
            assert(deliveries_view(outbox@) =~= deliveries_view(old(outbox)@) + leave_outcome(old(rooms)@, room_id@, participant_id).sent);
        },
    }
}

/// The server clock for a play command, which carries it; zero for the others.
pub fn now_playing_host_time(command: PlaybackCommand) -> (t: u64)
    ensures
        !(command is Play) ==> t == 0,
{
    match command {
        PlaybackCommand::Play { .. } => now_millis(),
        _ => 0,
    }
}

/// The state message of an open room, or `None`; the rooms are unchanged.
pub fn take_room_state(rooms: &mut RoomMap, room_id: &str) -> (r: Option<ServerMessage>)
    ensures
        final(rooms)@ == old(rooms)@,
        r is Some == old(rooms)@.contains_key(room_id@),
        r matches Some(m) ==> m@ == state_view(old(rooms)@[room_id@]),
{
    let ghost old_table = room_table(rooms.table);
    match table_remove(&mut rooms.table, room_id) {
        None => {
            assert(room_table(rooms.table) =~= old_table);
            None
        },
        Some((key, room)) => {
            let state = room.state_message();
            proof {
                lemma_rooms_view_insert(room_table(rooms.table), key@, room);
                assert(room_table(rooms.table).insert(key@, room) =~= old_table);
            }
            table_insert(&mut rooms.table, key, room);
            Some(state)
        },
    }
}

} // verus!
