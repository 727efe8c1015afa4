//! Properties of the room bus that hold across operations.
use crate::hub::{
    command_accepted, create_outcome, join_outcome, leave_outcome, lemma_room_id_check,
    playback_outcome, room_id_check, room_with, valid_room_id, name_taken_error, command_applied,
    PlaybackCommand,
};
use crate::models::{ServerMessageView, DeliveryView};
use crate::proxy::proxy_allowed;
use crate::room::{
    has_id, has_name, ids, other_than, is_first_with_id, lemma_first_exists, lemma_first_is,
    first_index, participants_after_removal, removal_moves_host, room_after_removal,
    room_wf, Participant, RoomView, new_room_view,
};
use crate::session::{join_step, participant_for, SessionView};
use crate::models::AbsMeResponse;
use crate::text::{has_prefix, has_suffix, occurs_in};
use vstd::prelude::*;

verus! {

/// Every open room is stored under its own id, a valid room id; it has
/// listeners, its host is one of them, and no two of them share a name.
pub open spec fn rooms_wf(rooms: Map<Seq<char>, RoomView>) -> bool {
    forall|k: Seq<char>|
        #[trigger] rooms.contains_key(k) ==> {
            &&& valid_room_id(k)
            &&& rooms[k].id == k
            &&& rooms[k].participants.len() > 0
            &&& room_wf(rooms[k])
        }
}

/// No room is open at the start.
pub proof fn law_no_rooms_is_well_formed()
    ensures
        rooms_wf(Map::<Seq<char>, RoomView>::empty()),
{
}

/// Removing a listener keeps a room well formed: the host stays, or passes to
/// a remaining listener, and names stay unique.
pub proof fn law_removal_keeps_room_wf(r: RoomView, id: u128)
    requires
        room_wf(r),
    ensures
        room_wf(room_after_removal(r, id)),
{
    let ps = r.participants;
    if has_id(ps, id) {
        lemma_first_exists(ps, id);
        let i = first_index(ps, id);
        let ps2 = participants_after_removal(ps, id);
        assert(ps2 == ps.remove(i));
        assert forall|a: int, b: int| 0 <= a < b < ps2.len() implies ps2[a].name@ != ps2[b].name@ by {
            let a2 = if a < i { a } else { a + 1 };
            let b2 = if b < i { b } else { b + 1 };
            assert(ps2[a] == ps[a2]);
            assert(ps2[b] == ps[b2]);
        }
        let r1 = room_after_removal(r, id);
        if !removal_moves_host(r, id) && ps2.len() > 0 {
            assert(r.host_id != id);
            let k = choose|k: int| 0 <= k < ps.len() && ps[k].id == r.host_id;
            let k2 = if k < i { k } else { k - 1 };
            assert(ps2[k2] == ps[k]);
            assert(has_id(r1.participants, r1.host_id));
        }
        if removal_moves_host(r, id) {
            assert(r1.participants[0].id == r1.host_id);
        }
    }
}

/// Joining keeps the open rooms well formed.
pub proof fn law_join_keeps_rooms_wf(rooms: Map<Seq<char>, RoomView>, id: Seq<char>, p: Participant)
    requires
        rooms_wf(rooms),
    ensures
        rooms_wf(join_outcome(rooms, id, p).rooms),
{
    let o = join_outcome(rooms, id, p);
    if o.result is Ok {
        let r = rooms[id];
        let r2 = room_with(r, p);
        assert(!has_name(r.participants, p.name@));
        let ps2 = r2.participants;
        assert forall|a: int, b: int| 0 <= a < b < ps2.len() implies ps2[a].name@ != ps2[b].name@ by {
            if b == ps2.len() - 1 {
                assert(ps2[a] == r.participants[a]);
            }
        }
        let k = choose|k: int| 0 <= k < r.participants.len() && r.participants[k].id == r.host_id;
        assert(ps2[k] == r.participants[k]);
        assert forall|k2: Seq<char>| #[trigger] o.rooms.contains_key(k2) implies {
            &&& valid_room_id(k2)
            &&& o.rooms[k2].id == k2
            &&& o.rooms[k2].participants.len() > 0
            &&& room_wf(o.rooms[k2])
        } by {
            if k2 != id {
                assert(rooms.contains_key(k2));
            }
        }
    }
}

/// Creating a room keeps the open rooms well formed.
pub proof fn law_create_keeps_rooms_wf(
    rooms: Map<Seq<char>, RoomView>,
    id: Seq<char>,
    item: crate::models::ItemInfo,
    host: Participant,
)
    requires
        rooms_wf(rooms),
        id.len() <= usize::MAX,
    ensures
        rooms_wf(create_outcome(rooms, id, item, host).rooms),
{
    lemma_room_id_check(id);
    law_join_keeps_rooms_wf(rooms, id, host);
    let o = create_outcome(rooms, id, item, host);
    if room_id_check(id) is Ok && !rooms.contains_key(id) {
        let r = new_room_view(id, item, host);
        assert(r.participants[0].id == r.host_id);
        assert forall|k2: Seq<char>| #[trigger] o.rooms.contains_key(k2) implies {
            &&& valid_room_id(k2)
            &&& o.rooms[k2].id == k2
            &&& o.rooms[k2].participants.len() > 0
            &&& room_wf(o.rooms[k2])
        } by {
            if k2 != id {
                assert(rooms.contains_key(k2));
            }
        }
    }
}

/// Playback commands keep the open rooms well formed.
pub proof fn law_playback_keeps_rooms_wf(
    rooms: Map<Seq<char>, RoomView>,
    id: Seq<char>,
    sender: u128,
    c: PlaybackCommand,
    host_time: u64,
)
    requires
        rooms_wf(rooms),
    ensures
        rooms_wf(playback_outcome(rooms, id, sender, c, host_time).rooms),
{
    let o = playback_outcome(rooms, id, sender, c, host_time);
    if command_accepted(rooms, id, sender, c) {
        let r1 = command_applied(rooms[id], c);
        assert(r1.participants == rooms[id].participants);
        assert forall|k2: Seq<char>| #[trigger] o.rooms.contains_key(k2) implies {
            &&& valid_room_id(k2)
            &&& o.rooms[k2].id == k2
            &&& o.rooms[k2].participants.len() > 0
            &&& room_wf(o.rooms[k2])
        } by {
            if k2 != id {
                assert(rooms.contains_key(k2));
            }
        }
    }
}

/// Leaving keeps the open rooms well formed; in particular a room left empty
/// is closed.
pub proof fn law_leave_keeps_rooms_wf(rooms: Map<Seq<char>, RoomView>, id: Seq<char>, pid: u128)
    requires
        rooms_wf(rooms),
    ensures
        rooms_wf(leave_outcome(rooms, id, pid).rooms),
{
    let o = leave_outcome(rooms, id, pid);
    if rooms.contains_key(id) {
        law_removal_keeps_room_wf(rooms[id], pid);
        assert forall|k2: Seq<char>| #[trigger] o.rooms.contains_key(k2) implies {
            &&& valid_room_id(k2)
            &&& o.rooms[k2].id == k2
            &&& o.rooms[k2].participants.len() > 0
            &&& room_wf(o.rooms[k2])
        } by {
            if k2 != id {
                assert(rooms.contains_key(k2));
            }
        }
    }
}

/// A guest who joins a room and leaves again leaves the rooms as they were,
/// and everyone in the room learns that the guest left.
pub proof fn law_guest_join_then_leave_restores(rooms: Map<Seq<char>, RoomView>, id: Seq<char>, p: Participant)
    requires
        rooms_wf(rooms),
        rooms.contains_key(id),
        !has_id(rooms[id].participants, p.id),
        join_outcome(rooms, id, p).result is Ok,
    ensures
        leave_outcome(join_outcome(rooms, id, p).rooms, id, p.id).rooms == rooms,
        leave_outcome(join_outcome(rooms, id, p).rooms, id, p.id).sent == seq![
            DeliveryView {
                to: ids(rooms[id].participants),
                message: ServerMessageView::ParticipantLeft { name: p.name@ },
            },
        ],
{
    let r = rooms[id];
    let ps = r.participants;
    let j = join_outcome(rooms, id, p);
    let r2 = room_with(r, p);
    assert(j.rooms[id] == r2);
    let n = ps.len() as int;
    assert(r2.participants[n] == p);
    assert forall|jj: int| 0 <= jj < n implies r2.participants[jj].id != p.id by {
        assert(r2.participants[jj] == ps[jj]);
    }
    assert(is_first_with_id(r2.participants, p.id, n));
    lemma_first_is(r2.participants, p.id, n);
    assert(r2.participants.remove(n) =~= ps);
    let k = choose|k: int| 0 <= k < ps.len() && ps[k].id == r.host_id;
    assert(r.host_id != p.id);
    assert(!removal_moves_host(r2, p.id));
    let r1 = room_after_removal(r2, p.id);
    assert(r1 == r);
    let o = leave_outcome(j.rooms, id, p.id);
    assert(o.rooms =~= rooms);
    assert(o.sent =~= seq![
        DeliveryView {
            to: ids(rooms[id].participants),
            message: ServerMessageView::ParticipantLeft { name: p.name@ },
        },
    ]);
}

/// When the last listener leaves, the room closes and the other rooms stay.
pub proof fn law_last_listener_closes_room(rooms: Map<Seq<char>, RoomView>, id: Seq<char>, pid: u128)
    requires
        rooms.contains_key(id),
        rooms[id].participants.len() == 1,
        rooms[id].participants[0].id == pid,
    ensures
        leave_outcome(rooms, id, pid).rooms == rooms.remove(id),
{
    let ps = rooms[id].participants;
    assert(is_first_with_id(ps, pid, 0));
    lemma_first_is(ps, pid, 0);
}

/// When the host leaves and listeners remain, the first remaining listener
/// (the earliest to have joined) becomes host, and every remaining listener is
/// told its name.
pub proof fn law_host_leaving_hands_over(rooms: Map<Seq<char>, RoomView>, id: Seq<char>, pid: u128)
    requires
        rooms_wf(rooms),
        rooms.contains_key(id),
        rooms[id].host_id == pid,
        rooms[id].participants.len() > 1,
    ensures
        ({
            let o = leave_outcome(rooms, id, pid);
            let r1 = o.rooms[id];
            &&& o.rooms.contains_key(id)
            &&& r1.participants.len() == rooms[id].participants.len() - 1
            &&& r1.host_id == r1.participants[0].id
            &&& o.sent[0] == (DeliveryView {
                to: ids(r1.participants),
                message: ServerMessageView::HostChanged { name: r1.participants[0].name@ },
            })
        }),
{
    let r = rooms[id];
    assert(has_id(r.participants, pid));
    lemma_first_exists(r.participants, pid);
    assert(removal_moves_host(r, pid));
}

/// A guest can neither seek nor change the rate: nothing changes and nothing
/// is sent.
pub proof fn law_guest_cannot_seek_or_set_speed(
    rooms: Map<Seq<char>, RoomView>,
    id: Seq<char>,
    sender: u128,
    c: PlaybackCommand,
    host_time: u64,
)
    requires
        rooms.contains_key(id),
        rooms[id].host_id != sender,
        c is Seek || c is Speed,
    ensures
        playback_outcome(rooms, id, sender, c, host_time).rooms == rooms,
        playback_outcome(rooms, id, sender, c, host_time).sent.len() == 0,
{
}

/// A guest cannot pause: nothing changes and nothing is sent.
pub proof fn law_guest_cannot_pause(
    rooms: Map<Seq<char>, RoomView>,
    id: Seq<char>,
    sender: u128,
    position: u64,
    host_time: u64,
)
    requires
        rooms.contains_key(id),
        rooms[id].host_id != sender,
    ensures
        playback_outcome(rooms, id, sender, PlaybackCommand::Pause { position }, host_time).rooms == rooms,
        playback_outcome(rooms, id, sender, PlaybackCommand::Pause { position }, host_time).sent.len() == 0,
{
}

/// A refused command (an invalid position or rate, a closed room, or a guest
/// pausing, seeking or setting the rate) changes nothing and sends nothing.
pub proof fn law_refused_command_changes_nothing(
    rooms: Map<Seq<char>, RoomView>,
    id: Seq<char>,
    sender: u128,
    c: PlaybackCommand,
    host_time: u64,
)
    requires
        !command_accepted(rooms, id, sender, c),
    ensures
        playback_outcome(rooms, id, sender, c, host_time).rooms == rooms,
        playback_outcome(rooms, id, sender, c, host_time).sent.len() == 0,
{
}

/// A playback command is never sent back to its sender.
pub proof fn law_command_not_echoed(
    rooms: Map<Seq<char>, RoomView>,
    id: Seq<char>,
    sender: u128,
    c: PlaybackCommand,
    host_time: u64,
)
    ensures
        forall|k: int|
            0 <= k < playback_outcome(rooms, id, sender, c, host_time).sent.len() ==> !(
            #[trigger] playback_outcome(rooms, id, sender, c, host_time).sent[k]).to.contains(sender),
{
    let o = playback_outcome(rooms, id, sender, c, host_time);
    if command_accepted(rooms, id, sender, c) {
        let ps = rooms[id].participants;
        let pred = other_than(sender);
        let to = ids(ps).filter(pred);
        assert(o.sent[0].to == to);
        if to.contains(sender) {
            let i = choose|i: int| 0 <= i < to.len() && to[i] == sender;
            ids(ps).lemma_filter_pred(pred, i);
        }
    }
}

/// A join under a name already in the room is refused and changes nothing.
pub proof fn law_taken_name_refused(rooms: Map<Seq<char>, RoomView>, id: Seq<char>, p: Participant)
    requires
        room_id_check(id) is Ok,
        rooms.contains_key(id),
        has_name(rooms[id].participants, p.name@),
    ensures
        join_outcome(rooms, id, p).rooms == rooms,
        join_outcome(rooms, id, p).result == Err::<(), Seq<char>>(name_taken_error()),
{
}

/// Creating a room under the id of an open room joins it: the same rooms and
/// deliveries as a join, `Ok(false)` where the join succeeds.
pub proof fn law_create_on_open_room_joins(
    rooms: Map<Seq<char>, RoomView>,
    id: Seq<char>,
    item: crate::models::ItemInfo,
    host: Participant,
)
    requires
        rooms.contains_key(id),
    ensures
        create_outcome(rooms, id, item, host).rooms == join_outcome(rooms, id, host).rooms,
        create_outcome(rooms, id, item, host).sent == join_outcome(rooms, id, host).sent,
        (create_outcome(rooms, id, item, host).result == Ok::<bool, Seq<char>>(false))
            == (join_outcome(rooms, id, host).result is Ok),
{
}

/// The proxy never forwards a path that holds `..`.
pub proof fn law_proxy_refuses_parent_paths(method: Seq<char>, path: Seq<char>)
    requires
        occurs_in(path, ".."@),
    ensures
        !proxy_allowed(method, path),
{
}

/// The proxy forwards GET and POST calls only.
pub proof fn law_proxy_only_get_and_post(method: Seq<char>, path: Seq<char>)
    requires
        method != "GET"@,
        method != "POST"@,
    ensures
        !proxy_allowed(method, path),
{
}

/// A listener's display name is its Audiobookshelf user name: after a
/// successful join, the room's newest listener carries the identity's name.
pub proof fn law_display_name_is_abs_username(
    rooms: Map<Seq<char>, RoomView>,
    s: SessionView,
    rid: Seq<char>,
    token: String,
    me: AbsMeResponse,
)
    requires
        join_outcome(rooms, rid, participant_for(s.participant_id, token, me)).result is Ok,
    ensures
        ({
            let o = join_step(rooms, s, Some(rid), token, Ok(me));
            let ps = o.rooms[rid].participants;
            &&& o.session.current_room == Some(rid)
            &&& ps[ps.len() - 1].name == me.username
            &&& ps[ps.len() - 1].id == s.participant_id
        }),
{
}

/// Every eight-character id made of the digits `0`-`9` and the ASCII letters
/// `a`-`z` and `A`-`Z` passes the room id check.
pub proof fn law_room_id_accepts_letters_and_digits(id: Seq<char>)
    requires
        id.len() == 8,
        forall|i: int|
            0 <= i < 8 ==> ('0' <= #[trigger] id[i] && id[i] <= '9') || ('a' <= id[i] && id[i] <= 'z')
                || ('A' <= id[i] && id[i] <= 'Z'),
    ensures
        room_id_check(id) == Ok::<(), Seq<char>>(()),
{
    broadcast use vstd::utf8::is_ascii_chars_encode_utf8;

    assert(vstd::utf8::is_ascii_chars(id));
}

/// An id holding a character outside `0`-`9`, `a`-`z` and `A`-`Z` is refused.
pub proof fn law_room_id_refuses_other_characters(id: Seq<char>, i: int)
    requires
        0 <= i < id.len(),
        !(('0' <= id[i] && id[i] <= '9') || ('a' <= id[i] && id[i] <= 'z') || ('A' <= id[i] && id[i] <= 'Z')),
    ensures
        room_id_check(id) is Err,
{
}

/// A successful join sends the newcomer the state of the room it joined, and
/// tells every listener already there, and no one else, the newcomer's name.
pub proof fn law_join_announces_newcomer_to_everyone_present(
    rooms: Map<Seq<char>, RoomView>,
    id: Seq<char>,
    p: Participant,
)
    requires
        join_outcome(rooms, id, p).result is Ok,
    ensures
        ({
            let o = join_outcome(rooms, id, p);
            let before = rooms[id].participants;
            &&& o.rooms[id].participants == before.push(p)
            &&& o.sent.len() == 2
            &&& o.sent[0].to == seq![p.id]
            &&& o.sent[0].message is RoomState
            &&& o.sent[1].message == (ServerMessageView::ParticipantJoined { name: p.name@ })
            &&& forall|k: int|
                0 <= k < before.len() && before[k].id != p.id ==> o.sent[1].to.contains(#[trigger] before[k].id)
            &&& !o.sent[1].to.contains(p.id)
            &&& forall|x: u128|
                #[trigger] o.sent[1].to.contains(x) ==> exists|k: int| 0 <= k < before.len() && before[k].id == x
        }),
{
    let o = join_outcome(rooms, id, p);
    let before = rooms[id].participants;
    let after = before.push(p);
    let all = ids(after);
    let pred = other_than(p.id);
    assert(o.sent[1].to == all.filter(pred));
    assert forall|k: int| 0 <= k < before.len() && before[k].id != p.id implies o.sent[1].to.contains(
        #[trigger] before[k].id,
    ) by {
        assert(all[k] == before[k].id);
        all.lemma_filter_contains(pred, k);
    }
    if o.sent[1].to.contains(p.id) {
        let i = choose|i: int| 0 <= i < o.sent[1].to.len() && o.sent[1].to[i] == p.id;
        all.lemma_filter_pred(pred, i);
    }
    assert forall|x: u128| #[trigger] o.sent[1].to.contains(x) implies exists|k: int|
        0 <= k < before.len() && before[k].id == x by {
        all.lemma_filter_contains_rev(pred, x);
        let i = choose|i: int| 0 <= i < all.len() && all[i] == x;
        let j = choose|j: int| 0 <= j < o.sent[1].to.len() && o.sent[1].to[j] == x;
        all.lemma_filter_pred(pred, j);
        assert(i != before.len());
        assert(before[i].id == x);
    }
}

/// An accepted command is relayed with the very position or rate it carried,
/// which the room now holds; a play is relayed with the clock value given.
pub proof fn law_accepted_command_relays_its_value(
    rooms: Map<Seq<char>, RoomView>,
    id: Seq<char>,
    sender: u128,
    c: PlaybackCommand,
    host_time: u64,
)
    requires
        command_accepted(rooms, id, sender, c),
    ensures
        ({
            let o = playback_outcome(rooms, id, sender, c, host_time);
            let r = o.rooms[id];
            &&& o.sent.len() == 1
            &&& r.participants == rooms[id].participants
            &&& r.host_id == rooms[id].host_id
            &&& match c {
                PlaybackCommand::Play { position } => {
                    &&& r.position == position
                    &&& r.playing
                    &&& o.sent[0].message matches ServerMessageView::Play { position: p2, host_time: t2, .. }
                        && p2 == position && t2 == host_time
                },
                PlaybackCommand::Pause { position } => {
                    &&& r.position == position
                    &&& !r.playing
                    &&& o.sent[0].message matches ServerMessageView::Pause { position: p2, .. } && p2 == position
                },
                PlaybackCommand::Seek { position } => {
                    &&& r.position == position
                    &&& r.playing == rooms[id].playing
                    &&& o.sent[0].message matches ServerMessageView::Seek { position: p2, .. } && p2 == position
                },
                PlaybackCommand::Speed { rate } => {
                    &&& r.speed == rate
                    &&& r.position == rooms[id].position
                    &&& o.sent[0].message matches ServerMessageView::Speed { rate: r2, .. } && r2 == rate
                },
            }
        }),
{
}

/// The proxy forwards every call on its list whose path holds no `..`: GET on
/// `api/me`, `api/libraries`, `api/libraries/<id>/items`,
/// `api/libraries/<id>/search`, anything under `api/items/` and under
/// `api/me/progress/`; POST on `api/me/item/<id>/bookmark`,
/// `api/items/<id>/play`, `api/session/<id>/sync` and `api/session/<id>/close`.
pub proof fn law_proxy_forwards_listed_calls(path: Seq<char>)
    requires
        !occurs_in(path, ".."@),
    ensures
        path == "api/me"@ ==> proxy_allowed("GET"@, path),
        path == "api/libraries"@ ==> proxy_allowed("GET"@, path),
        has_prefix(path, "api/libraries/"@) && has_suffix(path, "/items"@) ==> proxy_allowed("GET"@, path),
        has_prefix(path, "api/libraries/"@) && has_suffix(path, "/search"@) ==> proxy_allowed("GET"@, path),
        has_prefix(path, "api/items/"@) ==> proxy_allowed("GET"@, path),
        has_prefix(path, "api/me/progress/"@) ==> proxy_allowed("GET"@, path),
        has_prefix(path, "api/me/item/"@) && has_suffix(path, "/bookmark"@) ==> proxy_allowed("POST"@, path),
        has_prefix(path, "api/items/"@) && has_suffix(path, "/play"@) ==> proxy_allowed("POST"@, path),
        has_prefix(path, "api/session/"@) && has_suffix(path, "/sync"@) ==> proxy_allowed("POST"@, path),
        has_prefix(path, "api/session/"@) && has_suffix(path, "/close"@) ==> proxy_allowed("POST"@, path),
{
    reveal_strlit("GET");
    reveal_strlit("POST");
    assert("POST"@.len() == 4);
    assert("GET"@.len() == 3);
    assert("POST"@ != "GET"@);
}

} // verus!
