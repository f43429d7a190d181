//! Where users place their own bots: the owner of a bot adds it to or
//! removes it from servers and rooms the owner belongs to.

use vstd::prelude::*;
use crate::context::{Caller, CallerV, ChatError};
use crate::db::{ChatDb, ChatDbV};
use crate::tables::{RoomMember, RoomMemberV, ServerMemberV};
use crate::store::{lookup, has_key, without_key, find_key, contains_key, insert_new, remove_key, retain_keyed,
    str_in};
use crate::lookups::{first_match, server_member_of, room_membership, server_membership, find_membership,
    find_server_membership};
use crate::membership::{place_in_rooms, place_user_in_rooms};
use crate::reducers::servers::{server_member_id, server_member_row, make_server_member, public_room_ids,
    collect_public_room_ids, server_room_ids, collect_server_room_ids};
use crate::text::{join2, to_owned_string};
use crate::common::str_eq;

verus! {

/// Whether the caller may place bot `agent`: the caller is registered and
/// the bot exists, is a bot, and is owned by the caller; `Ok` carries the
/// caller's user id.
pub open spec fn ownership_verdict(db: ChatDbV, c: CallerV, agent: Seq<char>) -> Result<Seq<char>, ChatError> {
    match c.user_id {
        None => Err(ChatError::NotRegistered),
        Some(uid) => match lookup(db.chat_users, agent) {
            None => Err(ChatError::NotFound),
            Some(b) => if b.is_bot != Some(true) || b.bot_owner_user_id != Some(uid) {
                Err(ChatError::NotPermitted)
            } else {
                Ok(uid)
            },
        },
    }
}

/// Check that the caller owns bot `agent` (see [`ownership_verdict`]).
fn verify_agent_ownership(db: &ChatDb, caller: &Caller, agent: &String) -> (r: Result<String, ChatError>)
    requires
        db@.wf(),
    ensures
        match r {
            Ok(uid) => ownership_verdict(db@, caller@, agent@) == Ok::<Seq<char>, ChatError>(uid@),
            Err(e) => ownership_verdict(db@, caller@, agent@) == Err::<Seq<char>, ChatError>(e),
        },
{
    let uid = match &caller.user_id {
        Some(u) => u,
        None => return Err(ChatError::NotRegistered),
    };
    let i = match find_key(&db.chat_users, agent) {
        Some(i) => i,
        None => return Err(ChatError::NotFound),
    };
    let b = &db.chat_users[i];
    if b.is_bot != Some(true) {
        return Err(ChatError::NotPermitted);
    }
    match &b.bot_owner_user_id {
        Some(o) => if *o != *uid {
            return Err(ChatError::NotPermitted);
        },
        None => return Err(ChatError::NotPermitted),
    }
    Ok(uid.clone())
}

/// Outcome of [`add_own_agent_to_server`]: `Ok(true)` where the bot is
/// added, `Ok(false)` where it already belongs to the server (not banned).
pub open spec fn add_to_server_verdict(db: ChatDbV, c: CallerV, agent: Seq<char>, server: Seq<char>) -> Result<bool, ChatError> {
    match ownership_verdict(db, c, agent) {
        Err(e) => Err(e),
        Ok(uid) => if !has_key(db.chat_servers, server) {
            Err(ChatError::NotFound)
        } else if server_membership(db, server, uid) is None {
            Err(ChatError::NotPermitted)
        } else {
            match server_membership(db, server, agent) {
                Some(m) => Ok(m.role == "banned"@),
                None => Ok(true),
            }
        },
    }
}

/// Server memberships once bot `agent` joins `server` as "member" (a banned
/// row of it dropped first); `None` where the new row's id is taken.
pub open spec fn agent_admitted(members: Seq<ServerMemberV>, server: Seq<char>, agent: Seq<char>, now: u64) -> Option<Seq<ServerMemberV>> {
    let m = match first_match(members, server_member_of(server, agent)) {
        Some(e) => without_key(members, e.id),
        None => members,
    };
    if has_key(m, server_member_id(server, agent)) {
        None
    } else {
        Some(m.push(server_member_row(server, agent, "member"@, now)))
    }
}

/// Add the caller's own bot to a server the caller belongs to (a ban of the
/// bot is lifted); the bot also joins each room of the server that is not
/// private and that the owner belongs to.
pub fn add_own_agent_to_server(db: &mut ChatDb, caller: &Caller, now: u64, agent_user_id: String, server_id: String) -> (r: Result<bool, ChatError>)
    requires
        old(db)@.wf(),
        add_to_server_verdict(old(db)@, caller@, agent_user_id@, server_id@) == Ok::<bool, ChatError>(true) ==> {
            &&& agent_admitted(old(db)@.server_members, server_id@, agent_user_id@, now) is Some
            &&& place_in_rooms(old(db)@.room_members, public_room_ids(old(db)@.rooms, server_id@),
                    Some(caller@.user_id.unwrap()), agent_user_id@, ":"@, now) is Some
        },
    ensures
        final(db)@.wf(),
        r == add_to_server_verdict(old(db)@, caller@, agent_user_id@, server_id@),
        r != Ok::<bool, ChatError>(true) ==> final(db)@ == old(db)@,
        r == Ok::<bool, ChatError>(true) ==> final(db)@ == (ChatDbV {
            server_members: agent_admitted(old(db)@.server_members, server_id@, agent_user_id@, now).unwrap(),
            room_members: place_in_rooms(old(db)@.room_members, public_room_ids(old(db)@.rooms, server_id@),
                Some(caller@.user_id.unwrap()), agent_user_id@, ":"@, now).unwrap(),
            ..old(db)@
        }),
{
    let uid = match verify_agent_ownership(db, caller, &agent_user_id) {
        Ok(u) => u,
        Err(e) => return Err(e),
    };
    if !contains_key(&db.chat_servers, &server_id) {
        return Err(ChatError::NotFound);
    }
    if find_server_membership(db, &server_id, &uid).is_none() {
        return Err(ChatError::NotPermitted);
    }
    match find_server_membership(db, &server_id, &agent_user_id) {
        Some(i) => {
            if !str_eq(db.server_members[i].role.as_str(), "banned") {
                return Ok(false);
            }
            let id = db.server_members[i].id.clone();
            remove_key(&mut db.server_members, &id);
        },
        None => {},
    }
    let m = make_server_member(&server_id, &agent_user_id, "member", now);
    insert_new(&mut db.server_members, m);
    let ids = collect_public_room_ids(db, &server_id);
    let sponsor = Some(uid);
    place_user_in_rooms(db, &ids, &sponsor, &agent_user_id, ":", now);
    Ok(true)
}

/// Outcome of [`add_own_agent_to_room`]: `Ok(true)` where the bot is added,
/// `Ok(false)` where it already has a membership there.
pub open spec fn add_to_room_verdict(db: ChatDbV, c: CallerV, agent: Seq<char>, room: Seq<char>) -> Result<bool, ChatError> {
    match ownership_verdict(db, c, agent) {
        Err(e) => Err(e),
        Ok(uid) => match lookup(db.rooms, room) {
            None => Err(ChatError::NotFound),
            Some(r) => if (match r.server_id {
                Some(sid) => server_membership(db, sid, agent) is None,
                None => false,
            }) {
                Err(ChatError::NotPermitted)
            } else if room_membership(db, room, uid) is None {
                Err(ChatError::NotPermitted)
            } else {
                Ok(room_membership(db, room, agent) is None)
            },
        },
    }
}

/// The membership row of a placed bot: id "<room>:<bot>", role "member".
pub open spec fn placed_row(room: Seq<char>, agent: Seq<char>, now: u64) -> RoomMemberV {
    RoomMemberV { id: room + ":"@ + agent, room_id: room, user_id: agent, role: "member"@, joined_at: now }
}

/// Add the caller's own bot to a room the caller belongs to; in a server's
/// room the bot must already belong to the server.
pub fn add_own_agent_to_room(db: &mut ChatDb, caller: &Caller, now: u64, agent_user_id: String, room_id: String) -> (r: Result<bool, ChatError>)
    requires
        old(db)@.wf(),
        add_to_room_verdict(old(db)@, caller@, agent_user_id@, room_id@) == Ok::<bool, ChatError>(true)
            ==> !has_key(old(db)@.room_members, room_id@ + ":"@ + agent_user_id@),
    ensures
        final(db)@.wf(),
        r == add_to_room_verdict(old(db)@, caller@, agent_user_id@, room_id@),
        r != Ok::<bool, ChatError>(true) ==> final(db)@ == old(db)@,
        r == Ok::<bool, ChatError>(true) ==> final(db)@ == (ChatDbV {
            room_members: old(db)@.room_members.push(placed_row(room_id@, agent_user_id@, now)),
            ..old(db)@
        }),
{
    let uid = match verify_agent_ownership(db, caller, &agent_user_id) {
        Ok(u) => u,
        Err(e) => return Err(e),
    };
    let ri = match find_key(&db.rooms, &room_id) {
        Some(i) => i,
        None => return Err(ChatError::NotFound),
    };
    match &db.rooms[ri].server_id {
        Some(sid) => {
            if find_server_membership(db, sid, &agent_user_id).is_none() {
                return Err(ChatError::NotPermitted);
            }
        },
        None => {},
    }
    if find_membership(db, &room_id, &uid).is_none() {
        return Err(ChatError::NotPermitted);
    }
    if find_membership(db, &room_id, &agent_user_id).is_some() {
        return Ok(false);
    }
    let m = RoomMember {
        id: join2(room_id.as_str(), ":", agent_user_id.as_str()),
        room_id,
        user_id: agent_user_id,
        role: to_owned_string("member"),
        joined_at: now,
    };
    insert_new(&mut db.room_members, m);
    Ok(true)
}

/// Memberships other than those of `agent` in the rooms of `ids`.
pub open spec fn not_agent_in(ids: Seq<Seq<char>>, agent: Seq<char>) -> spec_fn(RoomMemberV) -> bool {
    |m: RoomMemberV| !(ids.contains(m.room_id) && m.user_id == agent)
}

/// Remove the caller's own bot from a server: its server membership (by
/// id "<server>-<bot>") and its memberships in every room of the server.
pub fn remove_own_agent_from_server(db: &mut ChatDb, caller: &Caller, agent_user_id: String, server_id: String) -> (r: Result<(), ChatError>)
    requires
        old(db)@.wf(),
    ensures
        final(db)@.wf(),
        match ownership_verdict(old(db)@, caller@, agent_user_id@) {
            Err(e) => r == Err::<(), ChatError>(e) && final(db)@ == old(db)@,
            Ok(_) => r is Ok && final(db)@ == (ChatDbV {
                server_members: without_key(old(db)@.server_members, server_member_id(server_id@, agent_user_id@)),
                room_members: old(db)@.room_members.filter(
                    not_agent_in(crate::reducers::servers::server_room_ids(old(db)@.rooms, server_id@), agent_user_id@)),
                ..old(db)@
            }),
        },
{
    match verify_agent_ownership(db, caller, &agent_user_id) {
        Ok(_) => {},
        Err(e) => return Err(e),
    }
    let mid = join2(server_id.as_str(), "-", agent_user_id.as_str());
    remove_key(&mut db.server_members, &mid);
    let ids = collect_server_room_ids(db, &server_id);
    let keep = |m: &RoomMember| -> (b: bool)
        ensures
            b == not_agent_in(ids@.map_values(|x: String| x@), agent_user_id@)(m@),
        { !(str_in(&ids, &m.room_id) && m.user_id == agent_user_id) };
    retain_keyed(&mut db.room_members, keep, Ghost(not_agent_in(ids@.map_values(|x: String| x@), agent_user_id@)));
    Ok(())
}

/// Memberships other than those of `agent` in `room`.
pub open spec fn not_agent_of(room: Seq<char>, agent: Seq<char>) -> spec_fn(RoomMemberV) -> bool {
    |m: RoomMemberV| !(m.room_id == room && m.user_id == agent)
}

/// Remove the caller's own bot from one room.
pub fn remove_own_agent_from_room(db: &mut ChatDb, caller: &Caller, agent_user_id: String, room_id: String) -> (r: Result<(), ChatError>)
    requires
        old(db)@.wf(),
    ensures
        final(db)@.wf(),
        match ownership_verdict(old(db)@, caller@, agent_user_id@) {
            Err(e) => r == Err::<(), ChatError>(e) && final(db)@ == old(db)@,
            Ok(_) => r is Ok && final(db)@ == (ChatDbV {
                room_members: old(db)@.room_members.filter(not_agent_of(room_id@, agent_user_id@)),
                ..old(db)@
            }),
        },
{
    match verify_agent_ownership(db, caller, &agent_user_id) {
        Ok(_) => {},
        Err(e) => return Err(e),
    }
    let keep = |m: &RoomMember| -> (b: bool)
        ensures
            b == not_agent_of(room_id@, agent_user_id@)(m@),
        { !(m.room_id == room_id && m.user_id == agent_user_id) };
    retain_keyed(&mut db.room_members, keep, Ghost(not_agent_of(room_id@, agent_user_id@)));
    Ok(())
}

} // verus!
