//! Per-user bus channels: one channel per user on a shared server, where the
//! user's personas and trusted users coordinate work.

use vstd::prelude::*;
use crate::context::{Caller, CallerV, ChatError};
use crate::db::{ChatDb, ChatDbV};
use crate::tables::{Room, RoomV, RoomMember};
use crate::store::{lookup, has_key, without_key, contains_key, insert_new, remove_key, retain_keyed, find_key};
use crate::membership::{member_id, member_row, make_member};
use crate::accounts::ensure_chat_user;
use crate::lookups::{is_server_admin, require_server_admin};
use crate::reducers::rooms::{with_caller_user, member_elsewhere};
use crate::reducers::servers::server_member_id;
use crate::text::{to_owned_string, join2, concat2};

verus! {

/// The first twelve characters of `uid` (all of it when shorter).
pub open spec fn short_id(uid: Seq<char>) -> Seq<char> {
    if uid.len() <= 12 {
        uid
    } else {
        uid.subrange(0, 12)
    }
}

/// Id of the bus channel of `user` on `server`: "bus-user-<user>-<server>".
pub open spec fn bus_channel_id(user: Seq<char>, server: Seq<char>) -> Seq<char> {
    "bus-user-"@ + user + "-"@ + server
}

/// The bus channel room of `user` on `server`.
pub open spec fn bus_room_row(user: Seq<char>, server: Seq<char>, invite_only: bool, now: u64) -> RoomV {
    RoomV {
        id: bus_channel_id(user, server),
        name: "bus-user-"@ + short_id(user),
        created_by: user,
        is_private: invite_only,
        is_dm: false,
        created_at: now,
        server_id: Some(server),
        required_tier: None,
        description: Some("Agent bus lane for user "@ + short_id(user) + " — personas coordinate workflows here"@),
        sort_order: None,
        room_type: "text"@,
        category_id: None,
        topic: None,
        slowmode_seconds: None,
        nsfw: false,
        parent_room_id: None,
        archived: false,
        locked: false,
        auto_archive_minutes: None,
        default_sort_order: None,
        allow_attachments: None,
        allow_embeds: None,
        allow_reactions: None,
        rules_text: None,
    }
}

/// Outcome of [`create_user_bus_channel`].
pub open spec fn bus_channel_verdict(db: ChatDbV, c: CallerV, server: Seq<char>) -> Result<(), ChatError> {
    if server.len() == 0 {
        Err(ChatError::Invalid)
    } else {
        match c.user_id {
            None => Err(ChatError::NotRegistered),
            Some(uid) => if !has_key(db.server_members, server_member_id(server, uid)) {
                Err(ChatError::NotPermitted)
            } else {
                Ok(())
            },
        }
    }
}

/// The database after the bus channel of `uid` on `server` is opened: an
/// existing channel gets `uid` back as admin if the membership row is
/// missing; otherwise the channel is created with `uid` as admin.
pub open spec fn bus_opened(db: ChatDbV, uid: Seq<char>, server: Seq<char>, invite_only: bool, now: u64) -> ChatDbV {
    let cid = bus_channel_id(uid, server);
    let joined = ChatDbV { room_members: db.room_members.push(member_row(cid, uid, "admin"@, now)), ..db };
    if has_key(db.rooms, cid) {
        if has_key(db.room_members, member_id(cid, uid)) { db } else { joined }
    } else {
        ChatDbV { rooms: db.rooms.push(bus_room_row(uid, server, invite_only, now)), ..joined }
    }
}

fn short_of(uid: &String) -> (s: &str)
    ensures
        s@ == short_id(uid@),
{
    let u = uid.as_str();
    if u.unicode_len() <= 12 {
        u
    } else {
        u.substring_char(0, 12)
    }
}

/// Open the caller's bus channel on a server they belong to (by the
/// membership id "<server>-<user>"): channel "bus-user-<first 12 characters of
/// the user id>" with id "bus-user-<user>-<server>", public unless `invite_only`,
/// the caller as admin. Opening again only restores a missing admin row.
pub fn create_user_bus_channel(db: &mut ChatDb, caller: &Caller, now: u64, server_id: String, invite_only: bool) -> (r: Result<(), ChatError>)
    requires
        old(db)@.wf(),
        bus_channel_verdict(old(db)@, caller@, server_id@) is Ok ==> {
            let uid = caller@.user_id.unwrap();
            let cid = bus_channel_id(uid, server_id@);
            &&& !has_key(old(db)@.rooms, cid) ==> !has_key(old(db)@.room_members, member_id(cid, uid))
        },
    ensures
        final(db)@.wf(),
        r == bus_channel_verdict(old(db)@, caller@, server_id@),
        r is Err ==> final(db)@ == old(db)@,
        r is Ok ==> final(db)@ == bus_opened(with_caller_user(old(db)@, caller@, now), caller@.user_id.unwrap(), server_id@, invite_only, now),
{
    if server_id.unicode_len() == 0 {
        return Err(ChatError::Invalid);
    }
    let uid = match &caller.user_id {
        Some(u) => u.clone(),
        None => return Err(ChatError::NotRegistered),
    };
    let smid = join2(server_id.as_str(), "-", uid.as_str());
    if !contains_key(&db.server_members, &smid) {
        return Err(ChatError::NotPermitted);
    }
    let _ = ensure_chat_user(db, &uid, &caller.identity, now);
    let short = short_of(&uid);
    let name = concat2("bus-user-", short);
    let mut cid = concat2("bus-user-", uid.as_str());
    cid.append("-");
    cid.append(server_id.as_str());
    let rmid = join2(cid.as_str(), "-", uid.as_str());
    if contains_key(&db.rooms, &cid) {
        if !contains_key(&db.room_members, &rmid) {
            insert_new(&mut db.room_members, make_member(&cid, &uid, "admin", now));
        }
        return Ok(());
    }
    let mut description = concat2("Agent bus lane for user ", short);
    description.append(" — personas coordinate workflows here");
    let room = Room {
        id: cid.clone(),
        name,
        created_by: uid.clone(),
        is_private: invite_only,
        is_dm: false,
        created_at: now,
        server_id: Some(server_id.clone()),
        required_tier: None,
        description: Some(description),
        sort_order: None,
        room_type: to_owned_string("text"),
        category_id: None,
        topic: None,
        slowmode_seconds: None,
        nsfw: false,
        parent_room_id: None,
        archived: false,
        locked: false,
        auto_archive_minutes: None,
        default_sort_order: None,
        allow_attachments: None,
        allow_embeds: None,
        allow_reactions: None,
        rules_text: None,
    };
    insert_new(&mut db.rooms, room);
    insert_new(&mut db.room_members, make_member(&cid, &uid, "admin", now));
    Ok(())
}

/// Outcome of [`delete_user_bus_channel`].
pub open spec fn delete_bus_verdict(db: ChatDbV, c: CallerV, server: Seq<char>) -> Result<(), ChatError> {
    match c.user_id {
        None => Err(ChatError::NotRegistered),
        Some(uid) => match lookup(db.rooms, bus_channel_id(uid, server)) {
            None => Err(ChatError::NotFound),
            Some(r) => if r.created_by != uid && !is_server_admin(db, server, uid) {
                Err(ChatError::NotPermitted)
            } else {
                Ok(())
            },
        },
    }
}

/// Close the caller's bus channel on a server (its creator, or an admin or
/// the owner of that server): its memberships and the room go.
pub fn delete_user_bus_channel(db: &mut ChatDb, caller: &Caller, server_id: String) -> (r: Result<(), ChatError>)
    requires
        old(db)@.wf(),
    ensures
        final(db)@.wf(),
        r == delete_bus_verdict(old(db)@, caller@, server_id@),
        r is Err ==> final(db)@ == old(db)@,
        r is Ok ==> ({
            let cid = bus_channel_id(caller@.user_id.unwrap(), server_id@);
            final(db)@ == (ChatDbV {
                room_members: old(db)@.room_members.filter(member_elsewhere(cid)),
                rooms: without_key(old(db)@.rooms, cid),
                ..old(db)@
            })
        }),
{
    let uid = match &caller.user_id {
        Some(u) => u.clone(),
        None => return Err(ChatError::NotRegistered),
    };
    let mut cid = concat2("bus-user-", uid.as_str());
    cid.append("-");
    cid.append(server_id.as_str());
    let ri = match find_key(&db.rooms, &cid) {
        Some(i) => i,
        None => return Err(ChatError::NotFound),
    };
    if db.rooms[ri].created_by != uid && !require_server_admin(db, &server_id, &uid) {
        return Err(ChatError::NotPermitted);
    }
    let keep = |m: &RoomMember| -> (b: bool)
        ensures
            b == member_elsewhere(cid@)(m@),
        { m.room_id != cid };
    retain_keyed(&mut db.room_members, keep, Ghost(member_elsewhere(cid@)));
    remove_key(&mut db.rooms, &cid);
    Ok(())
}

} // verus!
