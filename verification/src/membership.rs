//! Joining a user to a list of rooms, as several provisioning requests do.

use vstd::prelude::*;
use crate::db::{ChatDb, ChatDbV};
use crate::tables::{RoomMember, RoomMemberV, RoomV, opt_view};
use crate::store::{lookup, has_key, find_key, contains_key, insert_new};
use crate::text::{join2, to_owned_string};
use crate::lookups::{first_match, member_of, find_membership};

verus! {

/// The id of the membership of `user` in `room`: "<room>-<user>".
pub open spec fn member_id(room: Seq<char>, user: Seq<char>) -> Seq<char> {
    room + "-"@ + user
}

/// A room membership row with role `role` joined at `now`.
pub open spec fn member_row(room: Seq<char>, user: Seq<char>, role: Seq<char>, now: u64) -> RoomMemberV {
    RoomMemberV { id: member_id(room, user), room_id: room, user_id: user, role: role, joined_at: now }
}

/// Room `rid` exists and, when `server` is given, belongs to that server.
pub open spec fn joinable(rooms: Seq<RoomV>, rid: Seq<char>, server: Option<Seq<char>>) -> bool {
    match lookup(rooms, rid) {
        None => false,
        Some(r) => match server {
            None => true,
            Some(sid) => r.server_id == Some(sid),
        },
    }
}

/// Memberships after joining `user` as "member" to each room of `ids` in turn,
/// skipping rooms that are not joinable and rooms the user already has a
/// membership row for.
pub open spec fn join_rooms(
    members: Seq<RoomMemberV>,
    rooms: Seq<RoomV>,
    ids: Seq<Seq<char>>,
    server: Option<Seq<char>>,
    user: Seq<char>,
    now: u64,
) -> Seq<RoomMemberV>
    decreases ids.len(),
{
    if ids.len() == 0 {
        members
    } else {
        let m = join_rooms(members, rooms, ids.drop_last(), server, user, now);
        let rid = ids.last();
        if !joinable(rooms, rid, server) || has_key(m, member_id(rid, user)) {
            m
        } else {
            m.push(member_row(rid, user, "member"@, now))
        }
    }
}

/// The characters of each string of a list.
pub open spec fn views(v: Seq<String>) -> Seq<Seq<char>> {
    v.map_values(|s: String| s@)
}

/// A membership row of `user` in `room` with role `role`.
pub fn make_member(room: &String, user: &String, role: &str, now: u64) -> (m: RoomMember)
    ensures
        m@ == member_row(room@, user@, role@, now),
{
    RoomMember {
        id: join2(room.as_str(), "-", user.as_str()),
        room_id: room.clone(),
        user_id: user.clone(),
        role: to_owned_string(role),
        joined_at: now,
    }
}

/// Join `user` to the rooms of `ids` (see [`join_rooms`]).
pub fn join_room_list(db: &mut ChatDb, ids: &Vec<String>, server: &Option<String>, user: &String, now: u64)
    requires
        old(db)@.wf(),
    ensures
        final(db)@.wf(),
        final(db)@ == (ChatDbV {
            room_members: join_rooms(old(db)@.room_members, old(db)@.rooms, views(ids@), opt_view(*server), user@, now),
            ..old(db)@
        }),
{
    let mut i: usize = 0;
    while i < ids.len()
        invariant
            i <= ids@.len(),
            db@.wf(),
            db@ == (ChatDbV {
                room_members: join_rooms(old(db)@.room_members, old(db)@.rooms, views(ids@).take(i as int), opt_view(*server), user@, now),
                ..old(db)@
            }),
        decreases ids.len() - i,
    {
        let rid = &ids[i];
        proof {
            assert(views(ids@).take(i + 1).drop_last() =~= views(ids@).take(i as int));
            assert(views(ids@).take(i + 1).last() == rid@);
        }
        let ok = match find_key(&db.rooms, rid) {
            None => false,
            Some(ri) => match server {
                None => true,
                Some(sid) => match &db.rooms[ri].server_id {
                    Some(s) => *s == *sid,
                    None => false,
                },
            },
        };
        if ok {
            let mid = join2(rid.as_str(), "-", user.as_str());
            if !contains_key(&db.room_members, &mid) {
                let m = make_member(rid, user, "member", now);
                insert_new(&mut db.room_members, m);
            }
        }
        i = i + 1;
    }
    proof {
        assert(views(ids@).take(ids@.len() as int) =~= views(ids@));
    }
}

/// The memberships after placing `user` (as "member", row id
/// "<room><sep><user>") in each room of `ids` in turn where it has no
/// membership yet and, when `sponsor` is given, the sponsor has one; `None`
/// where a new row's id is already taken.
pub open spec fn place_in_rooms(
    members: Seq<RoomMemberV>,
    ids: Seq<Seq<char>>,
    sponsor: Option<Seq<char>>,
    user: Seq<char>,
    sep: Seq<char>,
    now: u64,
) -> Option<Seq<RoomMemberV>>
    decreases ids.len(),
{
    if ids.len() == 0 {
        Some(members)
    } else {
        match place_in_rooms(members, ids.drop_last(), sponsor, user, sep, now) {
            None => None,
            Some(m) => {
                let rid = ids.last();
                let wanted = first_match(m, member_of(rid, user)) is None && match sponsor {
                    Some(o) => first_match(m, member_of(rid, o)) is Some,
                    None => true,
                };
                if !wanted {
                    Some(m)
                } else if has_key(m, rid + sep + user) {
                    None
                } else {
                    Some(m.push(RoomMemberV { id: rid + sep + user, room_id: rid, user_id: user, role: "member"@, joined_at: now }))
                }
            },
        }
    }
}

proof fn lemma_place_prefix(
    members: Seq<RoomMemberV>,
    ids: Seq<Seq<char>>,
    sponsor: Option<Seq<char>>,
    user: Seq<char>,
    sep: Seq<char>,
    now: u64,
    k: int,
)
    requires
        0 <= k <= ids.len(),
        place_in_rooms(members, ids, sponsor, user, sep, now) is Some,
    ensures
        place_in_rooms(members, ids.take(k), sponsor, user, sep, now) is Some,
    decreases ids.len(),
{
    if k == ids.len() {
        assert(ids.take(k) =~= ids);
    } else {
        assert(ids.drop_last().take(k) =~= ids.take(k));
        lemma_place_prefix(members, ids.drop_last(), sponsor, user, sep, now, k);
    }
}

/// Place `user` in the rooms of `ids` (see [`place_in_rooms`]).
pub fn place_user_in_rooms(db: &mut ChatDb, ids: &Vec<String>, sponsor: &Option<String>, user: &String, sep: &str, now: u64)
    requires
        old(db)@.wf(),
        place_in_rooms(old(db)@.room_members, views(ids@), opt_view(*sponsor), user@, sep@, now) is Some,
    ensures
        final(db)@.wf(),
        final(db)@ == (ChatDbV {
            room_members: place_in_rooms(old(db)@.room_members, views(ids@), opt_view(*sponsor), user@, sep@, now).unwrap(),
            ..old(db)@
        }),
{
    let ghost o = db@;
    let ghost iv = views(ids@);
    let mut i: usize = 0;
    assert(iv.take(0) =~= Seq::<Seq<char>>::empty());
    while i < ids.len()
        invariant
            i <= ids@.len(),
            iv == views(ids@),
            place_in_rooms(o.room_members, iv, opt_view(*sponsor), user@, sep@, now) is Some,
            db@.wf(),
            place_in_rooms(o.room_members, iv.take(i as int), opt_view(*sponsor), user@, sep@, now) is Some,
            db@ == (ChatDbV {
                room_members: place_in_rooms(o.room_members, iv.take(i as int), opt_view(*sponsor), user@, sep@, now).unwrap(),
                ..o
            }),
        decreases ids.len() - i,
    {
        let rid = &ids[i];
        proof {
            assert(iv.take(i + 1).drop_last() =~= iv.take(i as int));
            assert(iv.take(i + 1).last() == rid@);
            lemma_place_prefix(o.room_members, iv, opt_view(*sponsor), user@, sep@, now, i + 1);
        }
        let absent = find_membership(db, rid, user).is_none();
        let backed = match sponsor {
            Some(s) => find_membership(db, rid, s).is_some(),
            None => true,
        };
        if absent && backed {
            let m = RoomMember {
                id: join2(rid.as_str(), sep, user.as_str()),
                room_id: rid.clone(),
                user_id: user.clone(),
                role: to_owned_string("member"),
                joined_at: now,
            };
            insert_new(&mut db.room_members, m);
        }
        i = i + 1;
    }
    assert(iv.take(ids@.len() as int) =~= iv);
}

} // verus!
