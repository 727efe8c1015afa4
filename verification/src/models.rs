//! The messages and records exchanged with listeners and with Audiobookshelf.
//!
//! Playback positions and rates travel as the IEEE-754 binary64 encoding of
//! the number (`f64::to_bits`), so that every rule on them is a rule on
//! integers.
use vstd::prelude::*;

verus! {

/// The encoding of a finite number that is not below zero: positive zero,
/// positive subnormals and normals (below the encoding of +infinity), or
/// negative zero.
pub open spec fn is_valid_position(bits: u64) -> bool {
    bits < 0x7FF0_0000_0000_0000 || bits == 0x8000_0000_0000_0000
}

/// The encoding of a finite rate in `[0.25, 4.0]`: positive encodings are
/// ordered as the numbers they encode, `0x3FD0...` is 0.25 and `0x4010...`
/// is 4.0; negative numbers, infinities and NaNs lie outside that range.
pub open spec fn is_valid_rate(bits: u64) -> bool {
    0x3FD0_0000_0000_0000 <= bits <= 0x4010_0000_0000_0000
}

/// Whether a playback position may be applied to a room.
pub fn position_is_valid(bits: u64) -> (r: bool)
    ensures
        r == is_valid_position(bits),
{
    bits < 0x7FF0_0000_0000_0000 || bits == 0x8000_0000_0000_0000
}

/// Whether a playback rate may be applied to a room.
pub fn rate_is_valid(bits: u64) -> (r: bool)
    ensures
        r == is_valid_rate(bits),
{
    0x3FD0_0000_0000_0000 <= bits && bits <= 0x4010_0000_0000_0000
}

/// The book a room listens to.
pub struct ItemInfo {
    pub id: String,
    pub library_id: String,
    pub title: String,
    pub author: String,
}

impl Clone for ItemInfo {
    fn clone(&self) -> (r: Self)
        ensures
            r == *self,
    {
        ItemInfo {
            id: self.id.clone(),
            library_id: self.library_id.clone(),
            title: self.title.clone(),
            author: self.author.clone(),
        }
    }
}

/// One listener as the room state lists it.
pub struct ParticipantInfo {
    pub name: String,
    pub is_host: bool,
}

/// What Audiobookshelf answers to a login.
pub struct AbsLoginResponse {
    pub user: AbsUser,
}

/// An Audiobookshelf user with its token.
pub struct AbsUser {
    pub id: String,
    pub username: String,
    pub token: String,
}

/// What Audiobookshelf answers about the owner of a token.
pub struct AbsMeResponse {
    pub id: String,
    pub username: String,
}

/// A message from the party server to a listener.
pub enum ServerMessage {
    RoomState {
        room_id: String,
        item: ItemInfo,
        position: u64,
        playing: bool,
        speed: u64,
        participants: Vec<ParticipantInfo>,
    },
    Play { position: u64, host_time: u64, sender_name: String },
    Pause { position: u64, sender_name: String },
    Seek { position: u64, sender_name: String },
    Speed { rate: u64, sender_name: String },
    Sync { position: u64 },
    Pong { sent_at: u64 },
    ParticipantJoined { name: String },
    ParticipantLeft { name: String },
    HostChanged { name: String },
    Error { message: String },
}

/// A server message with its texts and lists taken as sequences.
pub enum ServerMessageView {
    RoomState {
        room_id: Seq<char>,
        item: ItemInfo,
        position: u64,
        playing: bool,
        speed: u64,
        participants: Seq<ParticipantInfo>,
    },
    Play { position: u64, host_time: u64, sender_name: Seq<char> },
    Pause { position: u64, sender_name: Seq<char> },
    Seek { position: u64, sender_name: Seq<char> },
    Speed { rate: u64, sender_name: Seq<char> },
    Sync { position: u64 },
    Pong { sent_at: u64 },
    ParticipantJoined { name: Seq<char> },
    ParticipantLeft { name: Seq<char> },
    HostChanged { name: Seq<char> },
    Error { message: Seq<char> },
}

impl View for ServerMessage {
    type V = ServerMessageView;

    open spec fn view(&self) -> ServerMessageView {
        match self {
            ServerMessage::RoomState { room_id, item, position, playing, speed, participants } =>
                ServerMessageView::RoomState {
                room_id: room_id@,
                item: *item,
                position: *position,
                playing: *playing,
                speed: *speed,
                participants: participants@,
            },
            ServerMessage::Play { position, host_time, sender_name } => ServerMessageView::Play {
                position: *position,
                host_time: *host_time,
                sender_name: sender_name@,
            },
            ServerMessage::Pause { position, sender_name } => ServerMessageView::Pause {
                position: *position,
                sender_name: sender_name@,
            },
            ServerMessage::Seek { position, sender_name } => ServerMessageView::Seek {
                position: *position,
                sender_name: sender_name@,
            },
            ServerMessage::Speed { rate, sender_name } => ServerMessageView::Speed {
                rate: *rate,
                sender_name: sender_name@,
            },
            ServerMessage::Sync { position } => ServerMessageView::Sync { position: *position },
            ServerMessage::Pong { sent_at } => ServerMessageView::Pong { sent_at: *sent_at },
            ServerMessage::ParticipantJoined { name } => ServerMessageView::ParticipantJoined {
                name: name@,
            },
            ServerMessage::ParticipantLeft { name } => ServerMessageView::ParticipantLeft {
                name: name@,
            },
            ServerMessage::HostChanged { name } => ServerMessageView::HostChanged { name: name@ },
            ServerMessage::Error { message } => ServerMessageView::Error { message: message@ },
        }
    }
}

/// One message and the listeners, by participant id, that it goes to.
pub struct Delivery {
    pub to: Vec<u128>,
    pub message: ServerMessage,
}

/// A delivery with its recipients and message taken as values.
pub struct DeliveryView {
    pub to: Seq<u128>,
    pub message: ServerMessageView,
}

impl View for Delivery {
    type V = DeliveryView;

    open spec fn view(&self) -> DeliveryView {
        DeliveryView { to: self.to@, message: self.message@ }
    }
}

/// The views of a list of deliveries.
pub open spec fn deliveries_view(out: Seq<Delivery>) -> Seq<DeliveryView> {
    out.map_values(|d: Delivery| d@)
}

/// Appending no delivery leaves a list of deliveries as it was.
pub proof fn lemma_nothing_sent(sent: Seq<DeliveryView>)
    ensures
        sent + Seq::<DeliveryView>::empty() == sent,
{
    assert(sent + Seq::<DeliveryView>::empty() =~= sent);
}

/// Appends one delivery to an outbox.
pub fn send(outbox: &mut Vec<Delivery>, d: Delivery)
    ensures
        deliveries_view(final(outbox)@) == deliveries_view(old(outbox)@).push(d@),
{
    let ghost dv = d@;
    outbox.push(d);
    assert(deliveries_view(outbox@) =~= deliveries_view(old(outbox)@).push(dv));
}

/// A delivery of one message to one listener.
pub fn deliver_to(id: u128, message: ServerMessage) -> (d: Delivery)
    ensures
        d@ == to_one(id, message@),
{
    let mut to: Vec<u128> = Vec::new();
    to.push(id);
    assert(to@ =~= seq![id]);
    Delivery { to, message }
}

/// Sends one message to one listener.
pub open spec fn to_one(id: u128, message: ServerMessageView) -> DeliveryView {
    DeliveryView { to: seq![id], message }
}

} // verus!
