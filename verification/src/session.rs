//! What the server decides for each message on one listener's connection.
//!
//! The connection loop itself (reading frames, checking tokens with
//! Audiobookshelf, writing frames) runs outside; each step here takes the
//! session state and what arrived, updates the rooms and the session, and
//! appends the deliveries to send.
use crate::hub::{
    apply_playback, create_outcome, create_room, join_outcome, join_room, leave_outcome, leave_room,
    now_playing_host_time, playback_outcome, take_room_state, PlaybackCommand, RoomMap,
};
use crate::models::{
    lemma_nothing_sent,
    deliver_to, deliveries_view, send, to_one, AbsMeResponse, Delivery, DeliveryView, ItemInfo,
    ServerMessage, ServerMessageView,
};
use crate::room::{state_view, Participant, RoomView};
use vstd::prelude::*;
use vstd::string::*;

verus! {

/// A fresh participant id.
///
/// Calls `uuid::Uuid::new_v4` and takes its 128 bits with `as_u128`. The bits
/// are random except the version field (4) and the variant field (binary 10),
/// which `new_v4` sets by masking; nothing else is claimed.
#[verifier::external_body]
fn random_participant_id() -> (id: u128)
    ensures
        (id >> 76u128) & 0xFu128 == 4,
        (id >> 62u128) & 0x3u128 == 2,
{
    uuid::Uuid::new_v4().as_u128()
}

/// One listener's connection: its participant id and the room it is in.
pub struct Session {
    pub participant_id: u128,
    pub current_room: Option<String>,
}

/// A session with its room id taken by its characters.
pub struct SessionView {
    pub participant_id: u128,
    pub current_room: Option<Seq<char>>,
}

impl View for Session {
    type V = SessionView;

    open spec fn view(&self) -> SessionView {
        SessionView {
            participant_id: self.participant_id,
            current_room: match self.current_room {
                Some(r) => Some(r@),
                None => None,
            },
        }
    }
}

/// What a step of a session leaves behind: the rooms, the session and the
/// deliveries it sends.
pub struct StepOutcome {
    pub rooms: Map<Seq<char>, RoomView>,
    pub session: SessionView,
    pub sent: Seq<DeliveryView>,
}

/// The reply to a join without a room id.
pub open spec fn room_id_required_error() -> Seq<char> {
    "room_id required for join"@
}

/// The reply to a frame that is not a client message.
pub open spec fn invalid_message_error(detail: Seq<char>) -> Seq<char> {
    "Invalid message: "@ + detail
}

/// The listener that a validated identity becomes.
pub open spec fn participant_for(id: u128, token: String, me: AbsMeResponse) -> Participant {
    Participant { id, name: me.username, abs_token: token, abs_username: me.username }
}

/// An identity result taken by the characters of its error.
pub open spec fn identity_view(r: Result<AbsMeResponse, String>) -> Result<AbsMeResponse, Seq<char>> {
    match r {
        Ok(me) => Ok(me),
        Err(e) => Err(e@),
    }
}

/// A join message: a refused identity or a missing room id is answered with an
/// error; otherwise the hub's join runs, its error is answered, and on success
/// the session is in that room.
pub open spec fn join_step(
    rooms: Map<Seq<char>, RoomView>,
    s: SessionView,
    room_id: Option<Seq<char>>,
    token: String,
    identity: Result<AbsMeResponse, Seq<char>>,
) -> StepOutcome {
    match identity {
        Err(e) => StepOutcome {
            rooms,
            session: s,
            sent: seq![to_one(s.participant_id, ServerMessageView::Error { message: e })],
        },
        Ok(me) => match room_id {
            None => StepOutcome {
                rooms,
                session: s,
                sent: seq![
                    to_one(s.participant_id, ServerMessageView::Error { message: room_id_required_error() }),
                ],
            },
            Some(rid) => {
                let j = join_outcome(rooms, rid, participant_for(s.participant_id, token, me));
                match j.result {
                    Ok(_) => StepOutcome {
                        rooms: j.rooms,
                        session: SessionView { current_room: Some(rid), ..s },
                        sent: j.sent,
                    },
                    Err(e) => StepOutcome {
                        rooms: j.rooms,
                        session: s,
                        sent: j.sent.push(to_one(s.participant_id, ServerMessageView::Error { message: e })),
                    },
                }
            },
        },
    }
}

/// A create-room message: a refused identity is answered with an error;
/// otherwise the hub's create runs. A new room sends its state to its host; a
/// room that was open is joined; in both cases the session is in the room. An
/// error is answered.
pub open spec fn create_step(
    rooms: Map<Seq<char>, RoomView>,
    s: SessionView,
    room_id: Seq<char>,
    token: String,
    item: ItemInfo,
    identity: Result<AbsMeResponse, Seq<char>>,
) -> StepOutcome {
    match identity {
        Err(e) => StepOutcome {
            rooms,
            session: s,
            sent: seq![to_one(s.participant_id, ServerMessageView::Error { message: e })],
        },
        Ok(me) => {
            let c = create_outcome(rooms, room_id, item, participant_for(s.participant_id, token, me));
            match c.result {
                Ok(true) => StepOutcome {
                    rooms: c.rooms,
                    session: SessionView { current_room: Some(room_id), ..s },
                    sent: c.sent.push(to_one(s.participant_id, state_view(c.rooms[room_id]))),
                },
                Ok(false) => StepOutcome {
                    rooms: c.rooms,
                    session: SessionView { current_room: Some(room_id), ..s },
                    sent: c.sent,
                },
                Err(e) => StepOutcome {
                    rooms: c.rooms,
                    session: s,
                    sent: c.sent.push(to_one(s.participant_id, ServerMessageView::Error { message: e })),
                },
            }
        },
    }
}

/// The reply to a token that Audiobookshelf did not accept.
pub open spec fn token_rejected_error() -> Seq<char> {
    "ABS token validation failed"@
}

/// The identity of a token when token checks are bypassed: the token itself,
/// as id and as user name.
pub fn bypass_identity(token: &str) -> (me: AbsMeResponse)
    ensures
        me.id@ == token@,
        me.username@ == token@,
{
    AbsMeResponse { id: String::from_str(token), username: String::from_str(token) }
}

/// The identity of a token from what Audiobookshelf answered about it (`None`
/// where the lookup failed).
pub fn identity_from_lookup(looked_up: Option<AbsMeResponse>) -> (r: Result<AbsMeResponse, String>)
    ensures
        match looked_up {
            Some(me) => r == Ok::<AbsMeResponse, String>(me),
            None => r matches Err(e) && e@ == token_rejected_error(),
        },
{
    match looked_up {
        Some(me) => Ok(me),
        None => Err(String::from_str("ABS token validation failed")),
    }
}

/// A playback message: applied to the session's room, if it is in one.
pub open spec fn playback_step(
    rooms: Map<Seq<char>, RoomView>,
    s: SessionView,
    c: PlaybackCommand,
    host_time: u64,
) -> StepOutcome {
    match s.current_room {
        None => StepOutcome { rooms, session: s, sent: Seq::empty() },
        Some(rid) => {
            let o = playback_outcome(rooms, rid, s.participant_id, c, host_time);
            StepOutcome { rooms: o.rooms, session: s, sent: o.sent }
        },
    }
}

/// The end of the connection: the session leaves its room, if it is in one.
pub open spec fn close_step(rooms: Map<Seq<char>, RoomView>, s: SessionView) -> StepOutcome {
    match s.current_room {
        None => StepOutcome { rooms, session: s, sent: Seq::empty() },
        Some(rid) => {
            let o = leave_outcome(rooms, rid, s.participant_id);
            StepOutcome { rooms: o.rooms, session: s, sent: o.sent }
        },
    }
}

impl Session {
    /// A session with a fresh random participant id, in no room.
    pub fn new() -> (s: Session)
        ensures
            s.current_room is None,
            (s.participant_id >> 76u128) & 0xFu128 == 4,
            (s.participant_id >> 62u128) & 0x3u128 == 2,
    {
        Session { participant_id: random_participant_id(), current_room: None }
    }

    /// A session with the given participant id, in no room.
    pub fn with_id(participant_id: u128) -> (s: Session)
        ensures
            s@ == (SessionView { participant_id, current_room: None }),
    {
        Session { participant_id, current_room: None }
    }

    /// Answers a join message; see `join_step`.
    pub fn join(
        &mut self,
        rooms: &mut RoomMap,
        room_id: Option<String>,
        abs_token: String,
        identity: Result<AbsMeResponse, String>,
        outbox: &mut Vec<Delivery>,
    )
        ensures
            ({
                let o = join_step(
                    old(rooms)@,
                    old(self)@,
                    match room_id { Some(r) => Some(r@), None => None },
                    abs_token,
                    identity_view(identity),
                );
                &&& final(rooms)@ == o.rooms
                &&& final(self)@ == o.session
                &&& deliveries_view(final(outbox)@) == deliveries_view(old(outbox)@) + o.sent
            }),
    {
        let pid = self.participant_id;
        let me = match identity {
            Ok(m) => m,
            Err(e) => {
                send(outbox, deliver_to(pid, ServerMessage::Error { message: e }));
                assert(deliveries_view(outbox@) =~= deliveries_view(old(outbox)@) + seq![
                    to_one(pid, ServerMessageView::Error { message: e@ }),
                ]);
                return;
            },
        };
        let rid = match room_id {
            Some(r) => r,
            None => {
                send(
                    outbox,
                    deliver_to(pid, ServerMessage::Error { message: String::from_str("room_id required for join") }),
                );
                assert(deliveries_view(outbox@) =~= deliveries_view(old(outbox)@) + seq![
                    to_one(pid, ServerMessageView::Error { message: room_id_required_error() }),
                ]);
                return;
            },
        };
        let participant = Participant {
            id: pid,
            name: me.username.clone(),
            abs_token,
            abs_username: me.username,
        };
        let ghost start = deliveries_view(outbox@);
        let joined = join_room(rooms, rid.as_str(), participant, outbox);
        let ghost mid = deliveries_view(outbox@);
        let ghost part = mid.subrange(start.len() as int, mid.len() as int);
        assert(mid =~= start + part);
        match joined {
            Ok(()) => {
                self.current_room = Some(rid);
            },
            Err(e) => {
                let ghost ev = e@;
                send(outbox, deliver_to(pid, ServerMessage::Error { message: e }));
                assert(deliveries_view(outbox@) =~= start + part.push(
                    to_one(pid, ServerMessageView::Error { message: ev }),
                ));
            },
        }
    }

    /// Answers a create-room message; see `create_step`.
    pub fn create_room(
        &mut self,
        rooms: &mut RoomMap,
        room_id: String,
        abs_token: String,
        item: ItemInfo,
        identity: Result<AbsMeResponse, String>,
        outbox: &mut Vec<Delivery>,
    )
        ensures
            ({
                let o = create_step(old(rooms)@, old(self)@, room_id@, abs_token, item, identity_view(identity));
                &&& final(rooms)@ == o.rooms
                &&& final(self)@ == o.session
                &&& deliveries_view(final(outbox)@) == deliveries_view(old(outbox)@) + o.sent
            }),
    {
        let pid = self.participant_id;
        let me = match identity {
            Ok(m) => m,
            Err(e) => {
                send(outbox, deliver_to(pid, ServerMessage::Error { message: e }));
                assert(deliveries_view(outbox@) =~= deliveries_view(old(outbox)@) + seq![
                    to_one(pid, ServerMessageView::Error { message: e@ }),
                ]);
                return;
            },
        };
        let participant = Participant {
            id: pid,
            name: me.username.clone(),
            abs_token,
            abs_username: me.username,
        };
        let ghost start = deliveries_view(outbox@);
        let created = create_room(rooms, room_id.clone(), item, participant, outbox);
        let ghost mid = deliveries_view(outbox@);
        let ghost part = mid.subrange(start.len() as int, mid.len() as int);
        assert(mid =~= start + part);
        match created {
            Ok(true) => {
                self.current_room = Some(room_id.clone());
                match take_room_state(rooms, room_id.as_str()) {
                    Some(state) => {
                        let ghost sv = state@;
                        send(outbox, deliver_to(pid, state));
                        assert(deliveries_view(outbox@) =~= start + part.push(to_one(pid, sv)));
                    },
                    None => {},
                }
            },
            Ok(false) => {
                self.current_room = Some(room_id);
            },
            Err(e) => {
                let ghost ev = e@;
                send(outbox, deliver_to(pid, ServerMessage::Error { message: e }));
                assert(deliveries_view(outbox@) =~= start + part.push(
                    to_one(pid, ServerMessageView::Error { message: ev }),
                ));
            },
        }
    }

    /// Answers a play, pause, seek or speed message; see `playback_step`. A play
    /// is stamped with the server clock.
    pub fn playback(&self, rooms: &mut RoomMap, command: PlaybackCommand, outbox: &mut Vec<Delivery>)
        ensures
            exists|host_time: u64|
                #![trigger playback_step(old(rooms)@, self@, command, host_time)]
                {
                    let o = playback_step(old(rooms)@, self@, command, host_time);
                    &&& final(rooms)@ == o.rooms
                    &&& deliveries_view(final(outbox)@) == deliveries_view(old(outbox)@) + o.sent
                },
    {
        let host_time = now_playing_host_time(command);
        match &self.current_room {
            Some(rid) => {
                apply_playback(rooms, rid.as_str(), self.participant_id, command, host_time, outbox);
            },
            None => {
                proof {
                    lemma_nothing_sent(deliveries_view(outbox@));
                }
            },
        }
        assert(playback_step(old(rooms)@, self@, command, host_time).rooms == rooms@);
    }

    /// Answers a ping with a pong carrying the same timestamp.
    pub fn ping(&self, sent_at: u64, outbox: &mut Vec<Delivery>)
        ensures
            deliveries_view(final(outbox)@) == deliveries_view(old(outbox)@).push(
                to_one(self.participant_id, ServerMessageView::Pong { sent_at }),
            ),
    {
        send(outbox, deliver_to(self.participant_id, ServerMessage::Pong { sent_at }));
    }

    /// Answers a frame that is not a client message, quoting the parse error.
    pub fn invalid_message(&self, detail: &str, outbox: &mut Vec<Delivery>)
        ensures
            deliveries_view(final(outbox)@) == deliveries_view(old(outbox)@).push(
                to_one(self.participant_id, ServerMessageView::Error { message: invalid_message_error(detail@) }),
            ),
    {
        let mut message = String::from_str("Invalid message: ");
        message.append(detail);
        send(outbox, deliver_to(self.participant_id, ServerMessage::Error { message }));
    }

    /// Ends the connection: leaves the session's room, if any; see `close_step`.
    pub fn close(&self, rooms: &mut RoomMap, outbox: &mut Vec<Delivery>)
        ensures
            ({
                let o = close_step(old(rooms)@, self@);
                &&& final(rooms)@ == o.rooms
                &&& deliveries_view(final(outbox)@) == deliveries_view(old(outbox)@) + o.sent
            }),
    {
        match &self.current_room {
            Some(rid) => {
                leave_room(rooms, rid.as_str(), self.participant_id, outbox);
            },
            None => {
                proof {
                    lemma_nothing_sent(deliveries_view(outbox@));
                }
            },
        }
    }
}

} // verus!
