//! Servers: settings, deletion, joining, leaving, moderation of members.

use vstd::prelude::*;
use crate::context::{Caller, CallerV, ChatError};
use crate::db::{ChatDb, ChatDbV};
use crate::tables::{ServerMember, ServerMemberV, Room, RoomV, RoomMember, RoomMemberV, ChatServer, ChatServerV};
use crate::store::{lookup, has_key, replace_row, without_key, find_key, contains_key, insert_new, upsert,
    remove_key, retain_keyed, map_rows, lemma_map_unique, str_in, lemma_without_key};
use crate::membership::{views, place_in_rooms, place_user_in_rooms};
use crate::store::{keys_where, collect_keys};
use crate::lookups::{first_match, server_member_of, server_membership, is_server_admin, is_server_owner,
    find_server_membership, require_server_admin, require_server_owner};
use crate::text::{trim, byte_len, trim_str, utf8_len, to_owned_string, join2};
use crate::common::str_eq;

verus! {

/// Longest room or server name, in bytes.
pub const MAX_ROOM_NAME_LEN: usize = 100;

/// A name is acceptable: non-empty after trimming and at most [`MAX_ROOM_NAME_LEN`] bytes.
pub open spec fn valid_name(name: Seq<char>) -> bool {
    trim(name).len() > 0 && byte_len(trim(name)) <= MAX_ROOM_NAME_LEN
}

/// Whether `name` is acceptable as a room or server name.
pub fn check_name(name: &str) -> (b: bool)
    ensures
        b == valid_name(name@),
{
    let t = trim_str(name);
    t.unicode_len() > 0 && utf8_len(t) <= MAX_ROOM_NAME_LEN
}

/// The id of the membership of `user` in `server`: "<server>-<user>".
pub open spec fn server_member_id(server: Seq<char>, user: Seq<char>) -> Seq<char> {
    server + "-"@ + user
}

/// A server membership row with role `role` joined at `now`.
pub open spec fn server_member_row(server: Seq<char>, user: Seq<char>, role: Seq<char>, now: u64) -> ServerMemberV {
    ServerMemberV {
        id: server_member_id(server, user),
        server_id: server,
        user_id: user,
        role: role,
        joined_at: now,
        nickname: None,
        timeout_until: None,
        deaf: false,
        mute: false,
    }
}

/// Build a server membership row (see [`server_member_row`]).
pub fn make_server_member(server: &String, user: &String, role: &str, now: u64) -> (m: ServerMember)
    ensures
        m@ == server_member_row(server@, user@, role@, now),
{
    ServerMember {
        id: join2(server.as_str(), "-", user.as_str()),
        server_id: server.clone(),
        user_id: user.clone(),
        role: to_owned_string(role),
        joined_at: now,
        nickname: None,
        timeout_until: None,
        deaf: false,
        mute: false,
    }
}

/// Rooms of `server`.
pub open spec fn in_server(server: Seq<char>) -> spec_fn(RoomV) -> bool {
    |r: RoomV| r.server_id == Some(server)
}

/// Ids of the rooms of `server`.
pub open spec fn server_room_ids(rooms: Seq<RoomV>, server: Seq<char>) -> Seq<Seq<char>> {
    rooms.filter(in_server(server)).map_values(|r: RoomV| r.id)
}

/// Ids of the rooms of `server`, in table order.
pub fn collect_server_room_ids(db: &ChatDb, server: &String) -> (ids: Vec<String>)
    ensures
        ids@.map_values(|x: String| x@) == server_room_ids(db@.rooms, server@),
{
    let mut ids: Vec<String> = Vec::new();
    let mut i: usize = 0;
    while i < db.rooms.len()
        invariant
            i <= db@.rooms.len(),
            ids@.map_values(|x: String| x@) == server_room_ids(db@.rooms.take(i as int), server@),
        decreases db.rooms.len() - i,
    {
        let r = &db.rooms[i];
        proof {
            assert(db@.rooms.take(i + 1).drop_last() =~= db@.rooms.take(i as int));
            assert(db@.rooms.take(i + 1).last() == r@);
            reveal_with_fuel(Seq::filter, 1);
        }
        let ghost before = ids@;
        let hit = match &r.server_id {
            Some(s) => *s == *server,
            None => false,
        };
        if hit {
            ids.push(r.id.clone());
            assert(ids@.map_values(|x: String| x@) =~= before.map_values(|x: String| x@).push(r.id@));
        }
        proof {
            assert(server_room_ids(db@.rooms.take(i + 1), server@) =~= (if hit {
                server_room_ids(db@.rooms.take(i as int), server@).push(r@.id)
            } else {
                server_room_ids(db@.rooms.take(i as int), server@)
            }));
        }
        i = i + 1;
    }
    assert(db@.rooms.take(db@.rooms.len() as int) =~= db@.rooms);
    ids
}

/// Outcome of [`update_server`].
pub open spec fn update_server_verdict(db: ChatDbV, c: CallerV, server: Seq<char>, name: Seq<char>) -> Result<(), ChatError> {
    match c.user_id {
        None => Err(ChatError::NotRegistered),
        Some(uid) => if !is_server_admin(db, server, uid) {
            Err(ChatError::NotPermitted)
        } else if !has_key(db.chat_servers, server) {
            Err(ChatError::NotFound)
        } else if !valid_name(name) {
            Err(ChatError::Invalid)
        } else {
            Ok(())
        },
    }
}

/// Update server settings (server owner or admin).
pub fn update_server(
    db: &mut ChatDb,
    caller: &Caller,
    now: u64,
    server_id: String,
    name: String,
    description: String,
    audience_id: String,
    is_public: bool,
    default_tier: String,
    icon_url: String,
) -> (r: Result<(), ChatError>)
    requires
        old(db)@.wf(),
    ensures
        final(db)@.wf(),
        r == update_server_verdict(old(db)@, caller@, server_id@, name@),
        r is Err ==> final(db)@ == old(db)@,
        r is Ok ==> final(db)@ == (ChatDbV {
            chat_servers: replace_row(old(db)@.chat_servers, ChatServerV {
                name: trim(name@),
                description: description@,
                audience_id: audience_id@,
                is_public: is_public,
                default_tier: default_tier@,
                icon_url: icon_url@,
                updated_at: now,
                ..lookup(old(db)@.chat_servers, server_id@).unwrap()
            }),
            ..old(db)@
        }),
{
    let uid = match &caller.user_id {
        Some(u) => u,
        None => return Err(ChatError::NotRegistered),
    };
    if !require_server_admin(db, &server_id, uid) {
        return Err(ChatError::NotPermitted);
    }
    let i = match find_key(&db.chat_servers, &server_id) {
        Some(i) => i,
        None => return Err(ChatError::NotFound),
    };
    if !check_name(name.as_str()) {
        return Err(ChatError::Invalid);
    }
    let e = &db.chat_servers[i];
    let row = ChatServer {
        id: e.id.clone(),
        name: to_owned_string(trim_str(name.as_str())),
        description,
        audience_id,
        owner_user_id: e.owner_user_id.clone(),
        is_public,
        default_tier,
        icon_url,
        created_at: e.created_at,
        updated_at: now,
        template: crate::common::clone_opt(&e.template),
    };
    upsert(&mut db.chat_servers, row);
    Ok(())
}

/// A room detached from its server.
pub open spec fn detach_room(server: Seq<char>) -> spec_fn(RoomV) -> RoomV {
    |r: RoomV| if r.server_id == Some(server) { RoomV { server_id: None, ..r } } else { r }
}

/// Memberships of other servers.
pub open spec fn not_member_of_server(server: Seq<char>) -> spec_fn(ServerMemberV) -> bool {
    |m: ServerMemberV| m.server_id != server
}

/// Outcome of [`delete_server`].
pub open spec fn delete_server_verdict(db: ChatDbV, c: CallerV, server: Seq<char>) -> Result<(), ChatError> {
    match c.user_id {
        None => Err(ChatError::NotRegistered),
        Some(uid) => if !is_server_owner(db, server, uid) && !c.is_platform_admin {
            Err(ChatError::NotPermitted)
        } else {
            Ok(())
        },
    }
}

/// Delete a server (owner or platform admin): its rooms stay, detached from
/// it; its memberships go.
pub fn delete_server(db: &mut ChatDb, caller: &Caller, server_id: String) -> (r: Result<(), ChatError>)
    requires
        old(db)@.wf(),
    ensures
        final(db)@.wf(),
        r == delete_server_verdict(old(db)@, caller@, server_id@),
        r is Err ==> final(db)@ == old(db)@,
        r is Ok ==> final(db)@ == (ChatDbV {
            rooms: old(db)@.rooms.map_values(detach_room(server_id@)),
            server_members: old(db)@.server_members.filter(not_member_of_server(server_id@)),
            chat_servers: without_key(old(db)@.chat_servers, server_id@),
            ..old(db)@
        }),
{
    let uid = match &caller.user_id {
        Some(u) => u,
        None => return Err(ChatError::NotRegistered),
    };
    if !require_server_owner(db, &server_id, uid) && !caller.is_platform_admin {
        return Err(ChatError::NotPermitted);
    }
    let detach = |r: Room| -> (o: Room)
        ensures
            o@ == detach_room(server_id@)(r@),
        {
            let hit = match &r.server_id {
                Some(s) => *s == server_id,
                None => false,
            };
            if hit { Room { server_id: None, ..r } } else { r }
        };
    proof {
        lemma_map_unique(db@.rooms, detach_room(server_id@));
    }
    map_rows(&mut db.rooms, detach, Ghost(detach_room(server_id@)));
    let keep = |m: &ServerMember| -> (b: bool)
        ensures
            b == not_member_of_server(server_id@)(m@),
        { m.server_id != server_id };
    retain_keyed(&mut db.server_members, keep, Ghost(not_member_of_server(server_id@)));
    remove_key(&mut db.chat_servers, &server_id);
    Ok(())
}

/// Outcome of [`join_server`] (joining again changes nothing).
pub open spec fn join_server_verdict(db: ChatDbV, c: CallerV, server: Seq<char>) -> Result<(), ChatError> {
    match c.user_id {
        None => Err(ChatError::NotRegistered),
        Some(uid) => if !has_key(db.chat_servers, server) {
            Err(ChatError::NotFound)
        } else {
            match server_membership(db, server, uid) {
                Some(m) => if m.role == "banned"@ { Err(ChatError::NotPermitted) } else { Ok(()) },
                None => Ok(()),
            }
        },
    }
}

/// Join a server as "member"; a banned user is refused.
pub fn join_server(db: &mut ChatDb, caller: &Caller, now: u64, server_id: String) -> (r: Result<(), ChatError>)
    requires
        old(db)@.wf(),
        join_server_verdict(old(db)@, caller@, server_id@) is Ok
            && server_membership(old(db)@, server_id@, caller@.user_id.unwrap()) is None
            ==> !has_key(old(db)@.server_members, server_member_id(server_id@, caller@.user_id.unwrap())),
    ensures
        final(db)@.wf(),
        r == join_server_verdict(old(db)@, caller@, server_id@),
        r is Err ==> final(db)@ == old(db)@,
        r is Ok ==> ({
            let uid = caller@.user_id.unwrap();
            if server_membership(old(db)@, server_id@, uid) is Some {
                final(db)@ == old(db)@
            } else {
                final(db)@ == (ChatDbV {
                    server_members: old(db)@.server_members.push(server_member_row(server_id@, uid, "member"@, now)),
                    ..old(db)@
                })
            }
        }),
{
    let uid = match &caller.user_id {
        Some(u) => u,
        None => return Err(ChatError::NotRegistered),
    };
    if !contains_key(&db.chat_servers, &server_id) {
        return Err(ChatError::NotFound);
    }
    match find_server_membership(db, &server_id, uid) {
        Some(i) => {
            if str_eq(db.server_members[i].role.as_str(), "banned") {
                return Err(ChatError::NotPermitted);
            }
            return Ok(());
        },
        None => {},
    }
    let m = make_server_member(&server_id, uid, "member", now);
    insert_new(&mut db.server_members, m);
    Ok(())
}

/// Outcome of [`leave_server`]: the owner cannot leave.
pub open spec fn leave_server_verdict(db: ChatDbV, c: CallerV, server: Seq<char>) -> Result<(), ChatError> {
    match c.user_id {
        None => Err(ChatError::NotRegistered),
        Some(uid) => match server_membership(db, server, uid) {
            Some(m) => if m.role == "owner"@ { Err(ChatError::NotPermitted) } else { Ok(()) },
            None => Ok(()),
        },
    }
}

/// Leave a server. The owner cannot leave (it must delete the server).
pub fn leave_server(db: &mut ChatDb, caller: &Caller, server_id: String) -> (r: Result<(), ChatError>)
    requires
        old(db)@.wf(),
    ensures
        final(db)@.wf(),
        r == leave_server_verdict(old(db)@, caller@, server_id@),
        r is Err ==> final(db)@ == old(db)@,
        r is Ok ==> (match server_membership(old(db)@, server_id@, caller@.user_id.unwrap()) {
            Some(m) => final(db)@ == (ChatDbV { server_members: without_key(old(db)@.server_members, m.id), ..old(db)@ }),
            None => final(db)@ == old(db)@,
        }),
{
    let uid = match &caller.user_id {
        Some(u) => u,
        None => return Err(ChatError::NotRegistered),
    };
    match find_server_membership(db, &server_id, uid) {
        Some(i) => {
            if str_eq(db.server_members[i].role.as_str(), "owner") {
                return Err(ChatError::NotPermitted);
            }
            let mid = db.server_members[i].id.clone();
            remove_key(&mut db.server_members, &mid);
            Ok(())
        },
        None => Ok(()),
    }
}

/// Memberships that are not of `user` in one of the rooms `ids`.
pub open spec fn not_member_in(ids: Seq<Seq<char>>, user: Seq<char>) -> spec_fn(RoomMemberV) -> bool {
    |m: RoomMemberV| !(m.user_id == user && ids.contains(m.room_id))
}

/// The caller may moderate `server`: platform admin, or server owner or admin.
pub open spec fn can_moderate_server(db: ChatDbV, c: CallerV, server: Seq<char>) -> bool {
    c.is_platform_admin || is_server_admin(db, server, c.user_id.unwrap())
}

/// Outcome of [`kick_from_server`].
pub open spec fn kick_from_server_verdict(db: ChatDbV, c: CallerV, server: Seq<char>, target: Seq<char>) -> Result<(), ChatError> {
    if c.user_id is None {
        Err(ChatError::NotRegistered)
    } else if !can_moderate_server(db, c, server) {
        Err(ChatError::NotPermitted)
    } else {
        match server_membership(db, server, target) {
            None => Err(ChatError::NotFound),
            Some(m) => if m.role == "owner"@ || m.role == "admin"@ { Err(ChatError::NotPermitted) } else { Ok(()) },
        }
    }
}

/// Kick a member from a server (platform admin, server owner or admin); owners
/// and admins cannot be kicked. The member also leaves every room of the server.
pub fn kick_from_server(db: &mut ChatDb, caller: &Caller, server_id: String, target_user_id: String) -> (r: Result<(), ChatError>)
    requires
        old(db)@.wf(),
    ensures
        final(db)@.wf(),
        r == kick_from_server_verdict(old(db)@, caller@, server_id@, target_user_id@),
        r is Err ==> final(db)@ == old(db)@,
        r is Ok ==> final(db)@ == (ChatDbV {
            server_members: without_key(
                old(db)@.server_members,
                server_membership(old(db)@, server_id@, target_user_id@).unwrap().id,
            ),
            room_members: old(db)@.room_members.filter(
                not_member_in(server_room_ids(old(db)@.rooms, server_id@), target_user_id@),
            ),
            ..old(db)@
        }),
{
    let uid = match &caller.user_id {
        Some(u) => u,
        None => return Err(ChatError::NotRegistered),
    };
    if !caller.is_platform_admin && !require_server_admin(db, &server_id, uid) {
        return Err(ChatError::NotPermitted);
    }
    let i = match find_server_membership(db, &server_id, &target_user_id) {
        Some(i) => i,
        None => return Err(ChatError::NotFound),
    };
    if str_eq(db.server_members[i].role.as_str(), "owner") || str_eq(db.server_members[i].role.as_str(), "admin") {
        return Err(ChatError::NotPermitted);
    }
    let mid = db.server_members[i].id.clone();
    remove_key(&mut db.server_members, &mid);
    let ids = collect_server_room_ids(db, &server_id);
    let keep = |m: &RoomMember| -> (b: bool)
        ensures
            b == not_member_in(ids@.map_values(|x: String| x@), target_user_id@)(m@),
        { !(m.user_id == target_user_id && str_in(&ids, &m.room_id)) };
    retain_keyed(&mut db.room_members, keep, Ghost(not_member_in(ids@.map_values(|x: String| x@), target_user_id@)));
    Ok(())
}

/// Outcome of [`ban_from_server`]: the owner cannot be banned.
pub open spec fn ban_from_server_verdict(db: ChatDbV, c: CallerV, server: Seq<char>, target: Seq<char>) -> Result<(), ChatError> {
    if c.user_id is None {
        Err(ChatError::NotRegistered)
    } else if !can_moderate_server(db, c, server) {
        Err(ChatError::NotPermitted)
    } else {
        match lookup(db.server_members, server_member_id(server, target)) {
            Some(m) => if m.role == "owner"@ { Err(ChatError::NotPermitted) } else { Ok(()) },
            None => Ok(()),
        }
    }
}

/// Ban a user from a server (platform admin, server owner or admin), member or
/// not: its membership row gets the role "banned".
pub fn ban_from_server(db: &mut ChatDb, caller: &Caller, now: u64, server_id: String, target_user_id: String) -> (r: Result<(), ChatError>)
    requires
        old(db)@.wf(),
    ensures
        final(db)@.wf(),
        r == ban_from_server_verdict(old(db)@, caller@, server_id@, target_user_id@),
        r is Err ==> final(db)@ == old(db)@,
        r is Ok ==> final(db)@ == (ChatDbV {
            server_members: match lookup(old(db)@.server_members, server_member_id(server_id@, target_user_id@)) {
                Some(m) => replace_row(old(db)@.server_members, ServerMemberV { role: "banned"@, ..m }),
                None => old(db)@.server_members.push(server_member_row(server_id@, target_user_id@, "banned"@, now)),
            },
            ..old(db)@
        }),
{
    let uid = match &caller.user_id {
        Some(u) => u,
        None => return Err(ChatError::NotRegistered),
    };
    if !caller.is_platform_admin && !require_server_admin(db, &server_id, uid) {
        return Err(ChatError::NotPermitted);
    }
    let mid = join2(server_id.as_str(), "-", target_user_id.as_str());
    match find_key(&db.server_members, &mid) {
        Some(i) => {
            if str_eq(db.server_members[i].role.as_str(), "owner") {
                return Err(ChatError::NotPermitted);
            }
            let t = take_member(db, &mid);
            proof {
                lemma_without_key(old(db)@.server_members, mid@);
            }
            insert_new(&mut db.server_members, ServerMember { role: to_owned_string("banned"), ..t });
        },
        None => {
            let m = make_server_member(&server_id, &target_user_id, "banned", now);
            insert_new(&mut db.server_members, m);
        },
    }
    Ok(())
}

fn take_member(db: &mut ChatDb, mid: &String) -> (m: ServerMember)
    requires
        old(db)@.wf(),
        has_key(old(db)@.server_members, mid@),
    ensures
        final(db)@.wf(),
        lookup(old(db)@.server_members, mid@) == Some(m@),
        final(db)@ == (ChatDbV { server_members: without_key(old(db)@.server_members, mid@), ..old(db)@ }),
{
    crate::store::take_key(&mut db.server_members, mid).unwrap()
}

/// Roles an owner may give to a server member.
pub open spec fn settable_server_role(role: Seq<char>) -> bool {
    role == "admin"@ || role == "moderator"@ || role == "member"@ || role == "banned"@
}

/// Outcome of [`set_server_member_role`].
pub open spec fn set_server_member_role_verdict(db: ChatDbV, c: CallerV, server: Seq<char>, target: Seq<char>, role: Seq<char>) -> Result<(), ChatError> {
    match c.user_id {
        None => Err(ChatError::NotRegistered),
        Some(uid) => if !c.is_platform_admin && !is_server_owner(db, server, uid) {
            Err(ChatError::NotPermitted)
        } else if !settable_server_role(role) {
            Err(ChatError::Invalid)
        } else {
            match lookup(db.server_members, server_member_id(server, target)) {
                None => Err(ChatError::NotFound),
                Some(m) => if m.role == "owner"@ { Err(ChatError::NotPermitted) } else { Ok(()) },
            }
        },
    }
}

/// Set a server member's role (server owner or platform admin); the owner's role is fixed.
pub fn set_server_member_role(db: &mut ChatDb, caller: &Caller, server_id: String, target_user_id: String, role: String) -> (r: Result<(), ChatError>)
    requires
        old(db)@.wf(),
    ensures
        final(db)@.wf(),
        r == set_server_member_role_verdict(old(db)@, caller@, server_id@, target_user_id@, role@),
        r is Err ==> final(db)@ == old(db)@,
        r is Ok ==> final(db)@ == (ChatDbV {
            server_members: replace_row(old(db)@.server_members, ServerMemberV {
                role: role@,
                ..lookup(old(db)@.server_members, server_member_id(server_id@, target_user_id@)).unwrap()
            }),
            ..old(db)@
        }),
{
    let uid = match &caller.user_id {
        Some(u) => u,
        None => return Err(ChatError::NotRegistered),
    };
    if !caller.is_platform_admin && !require_server_owner(db, &server_id, uid) {
        return Err(ChatError::NotPermitted);
    }
    let r = role.as_str();
    if !(str_eq(r, "admin") || str_eq(r, "moderator") || str_eq(r, "member") || str_eq(r, "banned")) {
        return Err(ChatError::Invalid);
    }
    let mid = join2(server_id.as_str(), "-", target_user_id.as_str());
    let i = match find_key(&db.server_members, &mid) {
        Some(i) => i,
        None => return Err(ChatError::NotFound),
    };
    if str_eq(db.server_members[i].role.as_str(), "owner") {
        return Err(ChatError::NotPermitted);
    }
    let t = take_member(db, &mid);
    proof {
        lemma_without_key(old(db)@.server_members, mid@);
    }
    insert_new(&mut db.server_members, ServerMember { role, ..t });
    Ok(())
}

/// Rooms of `server` that are not private.
pub open spec fn public_in_server(server: Seq<char>) -> spec_fn(RoomV) -> bool {
    |r: RoomV| r.server_id == Some(server) && !r.is_private
}

/// Ids of the rooms of `server` that are not private, in table order.
pub open spec fn public_room_ids(rooms: Seq<RoomV>, server: Seq<char>) -> Seq<Seq<char>> {
    keys_where(rooms, public_in_server(server))
}

/// Ids of the rooms of `server` that are not private, in table order.
pub fn collect_public_room_ids(db: &ChatDb, server: &String) -> (ids: Vec<String>)
    ensures
        views(ids@) == public_room_ids(db@.rooms, server@),
{
    let test = |r: &Room| -> (b: bool)
        ensures
            b == public_in_server(server@)(r@),
        {
            let here = match &r.server_id {
                Some(s) => *s == *server,
                None => false,
            };
            here && !r.is_private
        };
    let ids = collect_keys(&db.rooms, test, Ghost(public_in_server(server@)));
    assert(views(ids@) =~= ids@.map_values(|x: String| x@));
    ids
}

/// Server memberships once a ban of `user` from `server` is lifted by dropping its row.
pub open spec fn lift_ban(members: Seq<ServerMemberV>, server: Seq<char>, user: Seq<char>) -> Seq<ServerMemberV> {
    match first_match(members, server_member_of(server, user)) {
        Some(e) => if e.role == "banned"@ { without_key(members, e.id) } else { members },
        None => members,
    }
}

/// Server memberships after an admin admits `user` to `server`: a ban is
/// lifted and a "member" row is added where no membership remains; `None`
/// where that row's id is already taken.
pub open spec fn admitted(members: Seq<ServerMemberV>, server: Seq<char>, user: Seq<char>, now: u64) -> Option<Seq<ServerMemberV>> {
    let m = lift_ban(members, server, user);
    if first_match(m, server_member_of(server, user)) is Some {
        Some(m)
    } else if has_key(m, server_member_id(server, user)) {
        None
    } else {
        Some(m.push(server_member_row(server, user, "member"@, now)))
    }
}

/// Outcome of [`admin_add_to_server`].
pub open spec fn admin_add_to_server_verdict(db: ChatDbV, c: CallerV, server: Seq<char>, user: Seq<char>) -> Result<(), ChatError> {
    if !c.is_platform_admin {
        Err(ChatError::NotPermitted)
    } else if !has_key(db.chat_servers, server) || !has_key(db.chat_users, user) {
        Err(ChatError::NotFound)
    } else {
        Ok(())
    }
}

/// Lift a ban of `user` from `server` by dropping the banned row.
fn drop_ban(db: &mut ChatDb, server: &String, user: &String)
    requires
        old(db)@.wf(),
    ensures
        final(db)@.wf(),
        final(db)@ == (ChatDbV { server_members: lift_ban(old(db)@.server_members, server@, user@), ..old(db)@ }),
{
    match find_server_membership(db, server, user) {
        Some(i) => {
            if str_eq(db.server_members[i].role.as_str(), "banned") {
                let id = db.server_members[i].id.clone();
                remove_key(&mut db.server_members, &id);
            }
        },
        None => {},
    }
}

/// Add a user to a server (platform admin only), lifting a ban, and join it
/// to every room of the server that is not private.
pub fn admin_add_to_server(db: &mut ChatDb, caller: &Caller, now: u64, server_id: String, target_user_id: String) -> (r: Result<(), ChatError>)
    requires
        old(db)@.wf(),
        admin_add_to_server_verdict(old(db)@, caller@, server_id@, target_user_id@) is Ok ==> {
            &&& admitted(old(db)@.server_members, server_id@, target_user_id@, now) is Some
            &&& place_in_rooms(old(db)@.room_members, public_room_ids(old(db)@.rooms, server_id@), None, target_user_id@, "-"@, now) is Some
        },
    ensures
        final(db)@.wf(),
        r == admin_add_to_server_verdict(old(db)@, caller@, server_id@, target_user_id@),
        r is Err ==> final(db)@ == old(db)@,
        r is Ok ==> final(db)@ == (ChatDbV {
            server_members: admitted(old(db)@.server_members, server_id@, target_user_id@, now).unwrap(),
            room_members: place_in_rooms(old(db)@.room_members, public_room_ids(old(db)@.rooms, server_id@), None, target_user_id@, "-"@, now).unwrap(),
            ..old(db)@
        }),
{
    if !caller.is_platform_admin {
        return Err(ChatError::NotPermitted);
    }
    if !contains_key(&db.chat_servers, &server_id) || !contains_key(&db.chat_users, &target_user_id) {
        return Err(ChatError::NotFound);
    }
    drop_ban(db, &server_id, &target_user_id);
    if find_server_membership(db, &server_id, &target_user_id).is_none() {
        let m = make_server_member(&server_id, &target_user_id, "member", now);
        insert_new(&mut db.server_members, m);
    }
    let ids = collect_public_room_ids(db, &server_id);
    let none: Option<String> = None;
    place_user_in_rooms(db, &ids, &none, &target_user_id, "-", now);
    Ok(())
}

} // verus!
