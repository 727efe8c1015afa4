//! One listening room: its listeners, its host and its playback state.
use crate::models::{
    Delivery, DeliveryView, ItemInfo, ParticipantInfo, ServerMessage, ServerMessageView,
};
use vstd::prelude::*;

verus! {

/// A listener in a room. The id is the listener's connection id.
pub struct Participant {
    pub id: u128,
    pub name: String,
    pub abs_token: String,
    pub abs_username: String,
}

/// A room. `position` and `speed` hold the binary64 encoding of the playback
/// position in seconds and of the playback rate.
pub struct Room {
    pub id: String,
    pub item: ItemInfo,
    pub position: u64,
    pub playing: bool,
    pub speed: u64,
    pub host_id: u128,
    pub participants: Vec<Participant>,
}

/// A room with its texts and its listeners taken as values.
pub struct RoomView {
    pub id: Seq<char>,
    pub item: ItemInfo,
    pub position: u64,
    pub playing: bool,
    pub speed: u64,
    pub host_id: u128,
    pub participants: Seq<Participant>,
}

impl View for Room {
    type V = RoomView;

    open spec fn view(&self) -> RoomView {
        RoomView {
            id: self.id@,
            item: self.item,
            position: self.position,
            playing: self.playing,
            speed: self.speed,
            host_id: self.host_id,
            participants: self.participants@,
        }
    }
}

/// The encoding of 1.0, the rate a room starts at.
pub open spec fn normal_rate() -> u64 {
    0x3FF0_0000_0000_0000
}

/// The ids of the listeners, in order.
pub open spec fn ids(ps: Seq<Participant>) -> Seq<u128> {
    ps.map_values(|p: Participant| p.id)
}

/// The test for ids other than `excluded`.
pub open spec fn other_than(excluded: u128) -> spec_fn(u128) -> bool {
    |i: u128| i != excluded
}

/// The ids of the listeners other than `excluded`, in order.
pub open spec fn ids_except(ps: Seq<Participant>, excluded: u128) -> Seq<u128> {
    ids(ps).filter(other_than(excluded))
}

/// Some listener has this id.
pub open spec fn has_id(ps: Seq<Participant>, id: u128) -> bool {
    exists|i: int| 0 <= i < ps.len() && ps[i].id == id
}

/// `i` is the first listener with this id.
pub open spec fn is_first_with_id(ps: Seq<Participant>, id: u128, i: int) -> bool {
    &&& 0 <= i < ps.len()
    &&& ps[i].id == id
    &&& forall|j: int| 0 <= j < i ==> ps[j].id != id
}

/// The index of the first listener with this id (meaningful where one has it).
pub open spec fn first_index(ps: Seq<Participant>, id: u128) -> int {
    choose|i: int| is_first_with_id(ps, id, i)
}

/// The name of the first listener with this id, or the empty name.
pub open spec fn name_of(ps: Seq<Participant>, id: u128) -> Seq<char> {
    if has_id(ps, id) {
        ps[first_index(ps, id)].name@
    } else {
        Seq::empty()
    }
}

/// Some listener has this name.
pub open spec fn has_name(ps: Seq<Participant>, name: Seq<char>) -> bool {
    exists|i: int| 0 <= i < ps.len() && ps[i].name@ == name
}

/// No two listeners share a name.
pub open spec fn names_unique(ps: Seq<Participant>) -> bool {
    forall|i: int, j: int| 0 <= i < j < ps.len() ==> ps[i].name@ != ps[j].name@
}

/// A room with listeners has its host among them, and names are unique.
pub open spec fn room_wf(r: RoomView) -> bool {
    &&& r.participants.len() > 0 ==> has_id(r.participants, r.host_id)
    &&& names_unique(r.participants)
}

/// The listener list as the room state reports it.
pub open spec fn infos(r: RoomView) -> Seq<ParticipantInfo> {
    r.participants.map_values(
        |p: Participant| ParticipantInfo { name: p.name, is_host: p.id == r.host_id },
    )
}

/// The room state message for a room.
pub open spec fn state_view(r: RoomView) -> ServerMessageView {
    ServerMessageView::RoomState {
        room_id: r.id,
        item: r.item,
        position: r.position,
        playing: r.playing,
        speed: r.speed,
        participants: infos(r),
    }
}

/// The room a newly created room is: the host alone, paused at zero, at rate 1.
pub open spec fn new_room_view(id: Seq<char>, item: ItemInfo, host: Participant) -> RoomView {
    RoomView {
        id,
        item,
        position: 0,
        playing: false,
        speed: normal_rate(),
        host_id: host.id,
        participants: seq![host],
    }
}

/// The listeners once the first one with this id has left.
pub open spec fn participants_after_removal(ps: Seq<Participant>, id: u128) -> Seq<Participant> {
    if has_id(ps, id) {
        ps.remove(first_index(ps, id))
    } else {
        ps
    }
}

/// Whether the removal of this listener hands the host role on.
pub open spec fn removal_moves_host(r: RoomView, id: u128) -> bool {
    &&& has_id(r.participants, id)
    &&& r.host_id == id
    &&& participants_after_removal(r.participants, id).len() > 0
}

/// The room once the first listener with this id has left; the host role
/// passes to the first remaining listener when the host leaves.
pub open spec fn room_after_removal(r: RoomView, id: u128) -> RoomView {
    let ps = participants_after_removal(r.participants, id);
    if removal_moves_host(r, id) {
        RoomView { participants: ps, host_id: ps[0].id, ..r }
    } else {
        RoomView { participants: ps, ..r }
    }
}

/// What the removal announces: the new host's name, to every remaining listener.
pub open spec fn removal_notices(r: RoomView, id: u128) -> Seq<DeliveryView> {
    let ps = participants_after_removal(r.participants, id);
    if removal_moves_host(r, id) {
        seq![DeliveryView { to: ids(ps), message: ServerMessageView::HostChanged { name: ps[0].name@ } }]
    } else {
        Seq::empty()
    }
}

/// Where one listener has the id, there is a first one, and `first_index` names it.
pub proof fn lemma_first_exists(ps: Seq<Participant>, id: u128)
    requires
        has_id(ps, id),
    ensures
        is_first_with_id(ps, id, first_index(ps, id)),
    decreases ps.len(),
{
    let init = ps.drop_last();
    if has_id(init, id) {
        lemma_first_exists(init, id);
        let k = first_index(init, id);
        assert(init[k] == ps[k]);
        assert forall|j: int| 0 <= j < k implies ps[j].id != id by {
            assert(init[j] == ps[j]);
        }
        assert(is_first_with_id(ps, id, k));
    } else {
        let k = ps.len() - 1;
        let w = choose|i: int| 0 <= i < ps.len() && ps[i].id == id;
        if w < k {
            assert(init[w] == ps[w]);
        }
        assert forall|j: int| 0 <= j < k implies ps[j].id != id by {
            assert(init[j] == ps[j]);
        }
        assert(is_first_with_id(ps, id, k));
    }
}

/// The first listener with an id is unique.
pub proof fn lemma_first_is(ps: Seq<Participant>, id: u128, i: int)
    requires
        is_first_with_id(ps, id, i),
    ensures
        first_index(ps, id) == i,
        has_id(ps, id),
{
    let k = first_index(ps, id);
    assert(is_first_with_id(ps, id, k));
}

/// The index of the first listener with this id.
pub fn find_participant(ps: &Vec<Participant>, id: u128) -> (r: Option<usize>)
    ensures
        match r {
            Some(i) => is_first_with_id(ps@, id, i as int) && first_index(ps@, id) == i,
            None => !has_id(ps@, id),
        },
{
    let mut i: usize = 0;
    while i < ps.len()
        invariant
            i <= ps@.len(),
            forall|j: int| 0 <= j < i ==> ps@[j].id != id,
        decreases ps@.len() - i,
    {
        if ps[i].id == id {
            proof {
                lemma_first_is(ps@, id, i as int);
            }
            return Some(i);
        }
        i = i + 1;
    }
    None
}

/// The ids of the listeners, or of those other than `excluded`.
fn collect_ids(ps: &Vec<Participant>, excluded: Option<u128>) -> (r: Vec<u128>)
    ensures
        r@ == match excluded {
            Some(x) => ids_except(ps@, x),
            None => ids(ps@),
        },
{
    let mut out: Vec<u128> = Vec::new();
    let mut i: usize = 0;
    while i < ps.len()
        invariant
            i <= ps@.len(),
            out@ == match excluded {
                Some(x) => ids_except(ps@.take(i as int), x),
                None => ids(ps@.take(i as int)),
            },
        decreases ps@.len() - i,
    {
        let id = ps[i].id;
        proof {
            let pre = ps@.take(i as int);
            let post = ps@.take(i + 1);
            assert(post.drop_last() =~= pre);
            assert(ids(post) =~= ids(pre).push(id));
            assert(ids(post).drop_last() =~= ids(pre));
            assert(ids(post).last() == id);
            if let Some(x) = excluded {
                let f = other_than(x);
                reveal(Seq::filter);
                assert(ids(post).filter(f) == if f(id) {
                    ids(post).drop_last().filter(f).push(id)
                } else {
                    ids(post).drop_last().filter(f)
                });
                assert(ids_except(post, x) == if id != x {
                    ids_except(pre, x).push(id)
                } else {
                    ids_except(pre, x)
                });
            }
        }
        match excluded {
            Some(x) => {
                if id != x {
                    out.push(id);
                }
            },
            None => {
                out.push(id);
            },
        }
        i = i + 1;
    }
    assert(ps@.take(ps@.len() as int) =~= ps@);
    out
}

/// The system clock's reading, an outside type carried through opaquely.
#[verifier::external_type_specification]
#[verifier::external_body]
pub struct ExSystemTime(std::time::SystemTime);

/// Reads the system clock once.
///
/// Calls `std::time::SystemTime::now`. Nothing is claimed of the reading.
#[verifier::external_body]
fn system_time_now() -> std::time::SystemTime {
    std::time::SystemTime::now()
}

/// The time elapsed from the Unix epoch to `t`.
///
/// Calls `SystemTime::duration_since` with `std::time::UNIX_EPOCH`; its `Err`,
/// which it returns where `t` lies before the epoch, becomes `None`. Nothing is
/// claimed of the duration.
#[verifier::external_body]
fn since_unix_epoch(t: &std::time::SystemTime) -> Option<std::time::Duration> {
    t.duration_since(std::time::UNIX_EPOCH).ok()
}

/// The whole milliseconds in a duration.
///
/// Calls `Duration::as_millis`. Nothing is claimed of the value, which depends on
/// a duration that Verus sees as opaque.
#[verifier::external_body]
fn whole_millis(d: &std::time::Duration) -> u128 {
    d.as_millis()
}

/// The millisecond timestamp reported for an elapsed time since the epoch:
/// its low 64 bits, or zero where the clock reads before the epoch.
pub fn epoch_millis(elapsed: Option<u128>) -> (r: u64)
    ensures
        r == match elapsed {
            Some(m) => m as u64,
            None => 0u64,
        },
{
    match elapsed {
        Some(m) => m as u64,
        None => 0,
    }
}

/// Milliseconds since the Unix epoch, by the system clock (zero before the epoch).
pub fn now_millis() -> (r: u64)
    ensures
        exists|elapsed: Option<u128>| r == epoch_millis_spec(elapsed),
{
    let now = system_time_now();
    let elapsed = match since_unix_epoch(&now) {
        Some(d) => Some(whole_millis(&d)),
        None => None,
    };
    let r = epoch_millis(elapsed);
    assert(r == epoch_millis_spec(elapsed));
    r
}

/// The value of `epoch_millis` for an elapsed time.
pub open spec fn epoch_millis_spec(elapsed: Option<u128>) -> u64 {
    match elapsed {
        Some(m) => m as u64,
        None => 0u64,
    }
}

impl Room {
    /// A room with its host as the only listener, paused at zero, at rate 1.
    pub fn new(id: String, item: ItemInfo, host: Participant) -> (r: Room)
        ensures
            r@ == new_room_view(id@, item, host),
    {
        let host_id = host.id;
        let mut participants: Vec<Participant> = Vec::new();
        participants.push(host);
        Room {
            id,
            item,
            position: 0,
            playing: false,
            speed: 0x3FF0_0000_0000_0000,
            host_id,
            participants,
        }
    }

    /// The listeners, each with whether it is the host.
    pub fn participant_infos(&self) -> (r: Vec<ParticipantInfo>)
        ensures
            r@ == infos(self@),
    {
        let mut out: Vec<ParticipantInfo> = Vec::new();
        let mut i: usize = 0;
        while i < self.participants.len()
            invariant
                i <= self@.participants.len(),
                out@ =~= infos(self@).take(i as int),
            decreases self@.participants.len() - i,
        {
            let p = &self.participants[i];
            out.push(ParticipantInfo { name: p.name.clone(), is_host: p.id == self.host_id });
            i = i + 1;
        }
        out
    }

    /// The message to every listener.
    pub fn broadcast(&self, msg: ServerMessage) -> (r: Delivery)
        ensures
            r@ == (DeliveryView { to: ids(self@.participants), message: msg@ }),
    {
        Delivery { to: collect_ids(&self.participants, None), message: msg }
    }

    /// The message to every listener but those with the excluded id.
    pub fn broadcast_except(&self, exclude_id: u128, msg: ServerMessage) -> (r: Delivery)
        ensures
            r@ == (DeliveryView { to: ids_except(self@.participants, exclude_id), message: msg@ }),
    {
        Delivery { to: collect_ids(&self.participants, Some(exclude_id)), message: msg }
    }

    /// The message to one listener, where the room has it.
    pub fn send_to(&self, participant_id: u128, msg: ServerMessage) -> (r: Option<Delivery>)
        ensures
            r is Some == has_id(self@.participants, participant_id),
            r matches Some(d) ==> d@ == (DeliveryView { to: seq![participant_id], message: msg@ }),
    {
        match find_participant(&self.participants, participant_id) {
            Some(_) => {
                let mut to: Vec<u128> = Vec::new();
                to.push(participant_id);
                Some(Delivery { to, message: msg })
            },
            None => None,
        }
    }

    /// Removes the first listener with this id and returns its name. Where it
    /// was the host and listeners remain, the first of them becomes host and
    /// every remaining listener is told so (appended to `outbox`).
    pub fn remove_participant(&mut self, id: u128, outbox: &mut Vec<Delivery>) -> (r: Option<String>)
        ensures
            final(self)@ == room_after_removal(old(self)@, id),
            final(outbox)@.map_values(|d: Delivery| d@) == old(outbox)@.map_values(|d: Delivery| d@)
                + removal_notices(old(self)@, id),
            r is Some == has_id(old(self)@.participants, id),
            has_id(old(self)@.participants, id) ==> is_first_with_id(
                old(self)@.participants,
                id,
                first_index(old(self)@.participants, id),
            ),
            r matches Some(name) ==> name == old(self)@.participants[first_index(old(self)@.participants, id)].name,
    {
        match find_participant(&self.participants, id) {
            Some(pos) => {
                let removed = self.participants.remove(pos);
                if self.host_id == id {
                    if self.participants.len() > 0 {
                        let next_id = self.participants[0].id;
                        let new_host_name = self.participants[0].name.clone();
                        self.host_id = next_id;
                        let d = self.broadcast(ServerMessage::HostChanged { name: new_host_name });
                        outbox.push(d);
                        proof {
                            assert(old(outbox)@.push(d).map_values(|d: Delivery| d@) =~= old(outbox)@.map_values(|d: Delivery| d@).push(d@));
                        }
                    }
                }
                Some(removed.name)
            },
            None => None,
        }
    }

    /// Whether no listener is left.
    pub fn is_empty(&self) -> (r: bool)
        ensures
            r == (self@.participants.len() == 0),
    {
        self.participants.len() == 0
    }

    /// Whether this id is the host's.
    pub fn is_host(&self, id: u128) -> (r: bool)
        ensures
            r == (self@.host_id == id),
    {
        self.host_id == id
    }

    /// The full room state, as a listener receives it on joining.
    pub fn state_message(&self) -> (r: ServerMessage)
        ensures
            r@ == state_view(self@),
    {
        ServerMessage::RoomState {
            room_id: self.id.clone(),
            item: self.item.clone(),
            position: self.position,
            playing: self.playing,
            speed: self.speed,
            participants: self.participant_infos(),
        }
    }
}

} // verus!
