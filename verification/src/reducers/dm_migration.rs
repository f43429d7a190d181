//! Clean-up of direct-message rooms: rooms without members go, duplicate
//! rooms of one pair of users are merged (keeping one that has messages),
//! and each remaining room is named "dm:<a>:<b>" after its sorted pair.

use vstd::prelude::*;
use crate::context::{Caller, ChatError};
use crate::db::{ChatDb, ChatDbV};
use crate::tables::{Room, RoomV, RoomMember, Message, MessageV, opt_view};
use crate::store::{rows, without_key, remove_key, insert_new, retain_keyed, position, lemma_without_key};
use crate::common::{any_row, clone_opt};
use crate::reducers::rooms::member_elsewhere;
use crate::reducers::private_rooms::{room_user_ids, room_user_ids_exec};
use crate::text::{seq_lt, str_lt, join2, concat2};

verus! {

/// The key of a pair of users: the two ids in sorted order, joined by ':'.
pub open spec fn dm_pair_key(a: Seq<char>, b: Seq<char>) -> Seq<char> {
    if seq_lt(b, a) { b + ":"@ + a } else { a + ":"@ + b }
}

/// The room last recorded for `key` among `seen` (key, room) entries.
pub open spec fn pair_lookup(seen: Seq<(Seq<char>, Seq<char>)>, key: Seq<char>) -> Option<Seq<char>>
    decreases seen.len(),
{
    if seen.len() == 0 {
        None
    } else if seen.last().0 == key {
        Some(seen.last().1)
    } else {
        pair_lookup(seen.drop_last(), key)
    }
}

/// Room `room` has at least one message.
pub open spec fn has_messages(db: ChatDbV, room: Seq<char>) -> bool {
    any_row(db.messages, |m: MessageV| m.room_id == room)
}

/// The database without room `room` and its memberships.
pub open spec fn without_room(db: ChatDbV, room: Seq<char>) -> ChatDbV {
    ChatDbV {
        room_members: db.room_members.filter(member_elsewhere(room)),
        rooms: without_key(db.rooms, room),
        ..db
    }
}

/// The database with `room` (re)stored under `name`, placed last, where its
/// name differs.
pub open spec fn renamed(db: ChatDbV, room: RoomV, name: Seq<char>) -> ChatDbV {
    if room.name != name {
        ChatDbV { rooms: without_key(db.rooms, room.id).push(RoomV { name: name, ..room }), ..db }
    } else {
        db
    }
}

/// One step of the clean-up, on direct-message room `room` with the pairs
/// seen so far.
pub open spec fn dm_step(st: (ChatDbV, Seq<(Seq<char>, Seq<char>)>), room: RoomV) -> (ChatDbV, Seq<(Seq<char>, Seq<char>)>) {
    let db = st.0;
    let seen = st.1;
    let users = room_user_ids(db.room_members, room.id);
    if users.len() == 0 {
        (ChatDbV { rooms: without_key(db.rooms, room.id), ..db }, seen)
    } else if users.len() != 2 {
        (db, seen)
    } else {
        let key = dm_pair_key(users[0], users[1]);
        let name = "dm:"@ + key;
        match pair_lookup(seen, key) {
            Some(kept) => if has_messages(db, room.id) && !has_messages(db, kept) {
                (renamed(without_room(db, kept), room, name), seen.push((key, room.id)))
            } else {
                (without_room(db, room.id), seen)
            },
            None => (renamed(db, room, name), seen.push((key, room.id))),
        }
    }
}

/// The clean-up over the direct-message rooms `rooms`, in order.
pub open spec fn dm_sweep(db: ChatDbV, rooms: Seq<RoomV>) -> (ChatDbV, Seq<(Seq<char>, Seq<char>)>)
    decreases rooms.len(),
{
    if rooms.len() == 0 {
        (db, Seq::empty())
    } else {
        dm_step(dm_sweep(db, rooms.drop_last()), rooms.last())
    }
}

/// Direct-message rooms.
pub open spec fn is_dm_room() -> spec_fn(RoomV) -> bool {
    |r: RoomV| r.is_dm
}

/// The database after the clean-up of all its direct-message rooms, taken
/// in table order as they were before it.
pub open spec fn dm_migrated(db: ChatDbV) -> ChatDbV {
    dm_sweep(db, db.rooms.filter(is_dm_room())).0
}

/// A copy of a room row.
pub fn copy_room(r: &Room) -> (c: Room)
    ensures
        c@ == r@,
{
    Room {
        id: r.id.clone(),
        name: r.name.clone(),
        created_by: r.created_by.clone(),
        is_private: r.is_private,
        is_dm: r.is_dm,
        created_at: r.created_at,
        server_id: clone_opt(&r.server_id),
        required_tier: clone_opt(&r.required_tier),
        description: clone_opt(&r.description),
        sort_order: r.sort_order,
        room_type: r.room_type.clone(),
        category_id: clone_opt(&r.category_id),
        topic: clone_opt(&r.topic),
        slowmode_seconds: r.slowmode_seconds,
        nsfw: r.nsfw,
        parent_room_id: clone_opt(&r.parent_room_id),
        archived: r.archived,
        locked: r.locked,
        auto_archive_minutes: r.auto_archive_minutes,
        default_sort_order: clone_opt(&r.default_sort_order),
        allow_attachments: r.allow_attachments,
        allow_embeds: r.allow_embeds,
        allow_reactions: r.allow_reactions,
        rules_text: clone_opt(&r.rules_text),
    }
}

/// Copies of the direct-message rooms, in table order.
fn dm_rooms(db: &ChatDb) -> (v: Vec<Room>)
    ensures
        rows(v@) == db@.rooms.filter(is_dm_room()),
{
    let mut v: Vec<Room> = Vec::new();
    let mut i: usize = 0;
    while i < db.rooms.len()
        invariant
            i <= db@.rooms.len(),
            rows(v@) == db@.rooms.take(i as int).filter(is_dm_room()),
        decreases db.rooms.len() - i,
    {
        proof {
            assert(db@.rooms.take(i + 1).drop_last() =~= db@.rooms.take(i as int));
            assert(db@.rooms.take(i + 1).last() == db@.rooms[i as int]);
            reveal_with_fuel(Seq::filter, 1);
        }
        let ghost before = v@;
        if db.rooms[i].is_dm {
            v.push(copy_room(&db.rooms[i]));
            assert(rows(v@) =~= rows(before).push(db@.rooms[i as int]));
        }
        i = i + 1;
    }
    assert(db@.rooms.take(db@.rooms.len() as int) =~= db@.rooms);
    v
}

/// Whether `room` has at least one message.
fn room_has_messages(db: &ChatDb, room: &String) -> (b: bool)
    ensures
        b == has_messages(db@, room@),
{
    let test = |m: &Message| -> (b: bool)
        ensures
            b == (m@.room_id == room@),
        { m.room_id == *room };
    let p = position(&db.messages, test, Ghost(|m: MessageV| m.room_id == room@));
    match p {
        Some(i) => {
            assert((|m: MessageV| m.room_id == room@)(db@.messages[i as int]));
            true
        },
        None => false,
    }
}

/// The (key, room) entries of `seen`, by view.
pub open spec fn pair_views(seen: Seq<(String, String)>) -> Seq<(Seq<char>, Seq<char>)> {
    seen.map_values(|e: (String, String)| (e.0@, e.1@))
}

/// The room last recorded for `key` (see [`pair_lookup`]).
fn find_pair(seen: &Vec<(String, String)>, key: &String) -> (r: Option<String>)
    ensures
        opt_view(r) == pair_lookup(pair_views(seen@), key@),
{
    let ghost sv = pair_views(seen@);
    let mut j: usize = seen.len();
    assert(sv.take(j as int) =~= sv);
    while j > 0
        invariant
            j <= seen@.len(),
            sv == pair_views(seen@),
            pair_lookup(sv, key@) == pair_lookup(sv.take(j as int), key@),
        decreases j,
    {
        proof {
            assert(sv.take(j as int).last() == sv[j - 1]);
            assert(sv.take(j as int).drop_last() =~= sv.take(j - 1));
        }
        if seen[j - 1].0 == *key {
            return Some(seen[j - 1].1.clone());
        }
        j = j - 1;
    }
    None
}

/// Remove room `room` and its memberships.
fn drop_room(db: &mut ChatDb, room: &String)
    requires
        old(db)@.wf(),
    ensures
        final(db)@.wf(),
        final(db)@ == without_room(old(db)@, room@),
{
    let keep = |m: &RoomMember| -> (b: bool)
        ensures
            b == member_elsewhere(room@)(m@),
        { m.room_id != *room };
    retain_keyed(&mut db.room_members, keep, Ghost(member_elsewhere(room@)));
    remove_key(&mut db.rooms, room);
}

/// Store `room` under `name` where its name differs (see [`renamed`]).
fn rename_room(db: &mut ChatDb, room: &Room, name: String)
    requires
        old(db)@.wf(),
    ensures
        final(db)@.wf(),
        final(db)@ == renamed(old(db)@, room@, name@),
{
    if room.name != name {
        remove_key(&mut db.rooms, &room.id);
        proof {
            lemma_without_key(old(db)@.rooms, room@.id);
        }
        let r = Room { name, ..copy_room(room) };
        insert_new(&mut db.rooms, r);
    }
}

/// Clean up the direct-message rooms (platform administrators and the
/// service only): see [`dm_migrated`].
pub fn migrate_dm_rooms(db: &mut ChatDb, caller: &Caller) -> (r: Result<(), ChatError>)
    requires
        old(db)@.wf(),
    ensures
        final(db)@.wf(),
        r is Err <==> !caller@.is_platform_admin && !caller@.is_system,
        r is Err ==> r == Err::<(), ChatError>(ChatError::NotPermitted) && final(db)@ == old(db)@,
        r is Ok ==> final(db)@ == dm_migrated(old(db)@),
{
    if !caller.is_platform_admin && !caller.is_system {
        return Err(ChatError::NotPermitted);
    }
    let ghost o = db@;
    let dms = dm_rooms(db);
    let ghost all = rows(dms@);
    let mut seen: Vec<(String, String)> = Vec::new();
    let mut i: usize = 0;
    while i < dms.len()
        invariant
            i <= dms@.len(),
            all == rows(dms@),
            db@.wf(),
            db@ == dm_sweep(o, all.take(i as int)).0,
            pair_views(seen@) == dm_sweep(o, all.take(i as int)).1,
        decreases dms.len() - i,
    {
        let room = &dms[i];
        proof {
            assert(all.take(i + 1).drop_last() =~= all.take(i as int));
            assert(all.take(i + 1).last() == room@);
        }
        let ghost st = (db@, pair_views(seen@));
        let users = room_user_ids_exec(db, &room.id);
        if users.len() == 0 {
            remove_key(&mut db.rooms, &room.id);
        } else if users.len() == 2 {
            let key = if str_lt(users[1].as_str(), users[0].as_str()) {
                join2(users[1].as_str(), ":", users[0].as_str())
            } else {
                join2(users[0].as_str(), ":", users[1].as_str())
            };
            let name = concat2("dm:", key.as_str());
            match find_pair(&seen, &key) {
                Some(kept) => {
                    if room_has_messages(db, &room.id) && !room_has_messages(db, &kept) {
                        drop_room(db, &kept);
                        rename_room(db, room, name);
                        let ghost sv = seen@;
                        seen.push((key, room.id.clone()));
                        assert(pair_views(seen@) =~= pair_views(sv).push((key@, room@.id)));
                    } else {
                        drop_room(db, &room.id);
                    }
                },
                None => {
                    rename_room(db, room, name);
                    let ghost sv = seen@;
                    seen.push((key, room.id.clone()));
                    assert(pair_views(seen@) =~= pair_views(sv).push((key@, room@.id)));
                },
            }
        }
        assert((db@, pair_views(seen@)) == dm_step(st, room@));
        i = i + 1;
    }
    assert(all.take(dms@.len() as int) =~= all);
    Ok(())
}

} // verus!
