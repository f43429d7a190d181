//! Discord-style permission bits and their resolution.
//!
//! A member's server permissions are the bits of the server's default
//! ("@everyone") roles OR-ed with the bits of every role assigned to the
//! member; ADMINISTRATOR grants every bit. In a room, role overrides of the
//! roles the member holds apply first (deny, then allow), then the overrides
//! for the member itself. The server owner has every permission.

use vstd::prelude::*;
use crate::db::{ChatDb, ChatDbV};
use crate::tables::{ServerRoleV, MemberRoleV, ChannelOverrideV};
use crate::store::{lookup, find_key};
use crate::lookups::{server_membership, is_server_owner, find_server_membership, require_server_owner};
use crate::common::str_eq;

verus! {

pub const PERM_SEND_MESSAGES: u64 = 1 << 0;
pub const PERM_ADD_REACTIONS: u64 = 1 << 1;
pub const PERM_ATTACH_FILES: u64 = 1 << 2;
pub const PERM_MENTION_EVERYONE: u64 = 1 << 3;
pub const PERM_CREATE_THREADS: u64 = 1 << 4;
pub const PERM_CREATE_POLLS: u64 = 1 << 5;
pub const PERM_CREATE_INVITES: u64 = 1 << 6;
pub const PERM_PIN_MESSAGES: u64 = 1 << 7;
pub const PERM_MANAGE_MESSAGES: u64 = 1 << 8;
pub const PERM_MANAGE_THREADS: u64 = 1 << 9;
pub const PERM_MANAGE_CHANNELS: u64 = 1 << 10;
pub const PERM_MANAGE_ROLES: u64 = 1 << 11;
pub const PERM_MANAGE_EMOJIS: u64 = 1 << 12;
pub const PERM_MANAGE_WEBHOOKS: u64 = 1 << 13;
pub const PERM_MANAGE_SERVER: u64 = 1 << 14;
pub const PERM_MODERATE_MEMBERS: u64 = 1 << 15;
pub const PERM_KICK_MEMBERS: u64 = 1 << 16;
pub const PERM_BAN_MEMBERS: u64 = 1 << 17;
pub const PERM_VIEW_AUDIT_LOG: u64 = 1 << 18;
pub const PERM_READ_HISTORY: u64 = 1 << 19;
pub const PERM_ADMINISTRATOR: u64 = 1 << 31;

/// Every permission bit.
pub const ALL_PERMS: u64 = 0xffff_ffff_ffff_ffff;

/// Bits of a new server's "@everyone" role: send, react, attach, create
/// threads, polls and invites, read history.
pub const DEFAULT_EVERYONE_PERMS: u64 = (1 << 0) | (1 << 1) | (1 << 2) | (1 << 4) | (1 << 5) | (1 << 6) | (1 << 19);

/// Default roles of `server`.
pub open spec fn is_everyone_role(r: ServerRoleV, server: Seq<char>) -> bool {
    r.server_id == server && r.is_default
}

/// OR of the bits of the default roles of `server` among `roles`.
pub open spec fn everyone_bits(roles: Seq<ServerRoleV>, server: Seq<char>) -> u64
    decreases roles.len(),
{
    if roles.len() == 0 {
        0
    } else {
        everyone_bits(roles.drop_last(), server) | (if is_everyone_role(roles.last(), server) {
            roles.last().permissions
        } else {
            0
        })
    }
}

/// Bits of role `rid` (0 when there is no such role).
pub open spec fn role_bits(roles: Seq<ServerRoleV>, rid: Seq<char>) -> u64 {
    match lookup(roles, rid) {
        Some(r) => r.permissions,
        None => 0,
    }
}

/// Assignments of a role of `server` to `user`.
pub open spec fn assigned_to(a: MemberRoleV, server: Seq<char>, user: Seq<char>) -> bool {
    a.server_id == server && a.user_id == user
}

/// OR of the bits of the roles assigned to `user` in `server`.
pub open spec fn assigned_bits(assignments: Seq<MemberRoleV>, roles: Seq<ServerRoleV>, server: Seq<char>, user: Seq<char>) -> u64
    decreases assignments.len(),
{
    if assignments.len() == 0 {
        0
    } else {
        assigned_bits(assignments.drop_last(), roles, server, user) | (if assigned_to(assignments.last(), server, user) {
            role_bits(roles, assignments.last().role_id)
        } else {
            0
        })
    }
}

/// Server-level bits of `user` in `server`, before the ADMINISTRATOR rule.
pub open spec fn base_bits(db: ChatDbV, server: Seq<char>, user: Seq<char>) -> u64 {
    everyone_bits(db.server_roles, server) | assigned_bits(db.member_roles, db.server_roles, server, user)
}

/// `user` holds role `rid` in `server`: it is a default role of the server or assigned to the user.
pub open spec fn holds_role(db: ChatDbV, server: Seq<char>, user: Seq<char>, rid: Seq<char>) -> bool {
    (exists|i: int| 0 <= i < db.server_roles.len() && #[trigger] db.server_roles[i].id == rid && is_everyone_role(db.server_roles[i], server))
    || (exists|i: int| 0 <= i < db.member_roles.len() && assigned_to(#[trigger] db.member_roles[i], server, user) && db.member_roles[i].role_id == rid)
}

/// The override applies to a role that `user` holds, in `room`.
pub open spec fn role_override_applies(db: ChatDbV, server: Seq<char>, room: Seq<char>, user: Seq<char>, o: ChannelOverrideV) -> bool {
    o.room_id == room && o.target_type == "role"@ && holds_role(db, server, user, o.target_id)
}

/// The override is for `user` itself, in `room`.
pub open spec fn member_override_applies(room: Seq<char>, user: Seq<char>, o: ChannelOverrideV) -> bool {
    o.room_id == room && o.target_type == "member"@ && o.target_id == user
}

/// OR of the allow bits (`allow` true) or deny bits of the role overrides that apply.
pub open spec fn role_override_bits(db: ChatDbV, os: Seq<ChannelOverrideV>, server: Seq<char>, room: Seq<char>, user: Seq<char>, allow: bool) -> u64
    decreases os.len(),
{
    if os.len() == 0 {
        0
    } else {
        role_override_bits(db, os.drop_last(), server, room, user, allow) | (if role_override_applies(db, server, room, user, os.last()) {
            if allow { os.last().allow } else { os.last().deny }
        } else {
            0
        })
    }
}

/// OR of the allow bits (`allow` true) or deny bits of the member overrides that apply.
pub open spec fn member_override_bits(os: Seq<ChannelOverrideV>, room: Seq<char>, user: Seq<char>, allow: bool) -> u64
    decreases os.len(),
{
    if os.len() == 0 {
        0
    } else {
        member_override_bits(os.drop_last(), room, user, allow) | (if member_override_applies(room, user, os.last()) {
            if allow { os.last().allow } else { os.last().deny }
        } else {
            0
        })
    }
}

/// Effective bits of `user` in `room` of `server`.
pub open spec fn room_bits(db: ChatDbV, server: Seq<char>, room: Seq<char>, user: Seq<char>) -> u64 {
    let base = base_bits(db, server, user);
    if base & PERM_ADMINISTRATOR != 0 {
        ALL_PERMS
    } else {
        let os = db.channel_overrides;
        let p1 = (base & !role_override_bits(db, os, server, room, user, false)) | role_override_bits(db, os, server, room, user, true);
        (p1 & !member_override_bits(os, room, user, false)) | member_override_bits(os, room, user, true)
    }
}

/// `user` is a member of `server` who is not banned.
pub open spec fn active_server_member(db: ChatDbV, server: Seq<char>, user: Seq<char>) -> bool {
    match server_membership(db, server, user) {
        Some(m) => m.role != "banned"@,
        None => false,
    }
}

/// `user` may do what `perm` stands for in `room` of `server`.
pub open spec fn has_room_permission(db: ChatDbV, server: Seq<char>, room: Seq<char>, user: Seq<char>, perm: u64) -> bool {
    is_server_owner(db, server, user) || (active_server_member(db, server, user) && room_bits(db, server, room, user) & perm != 0)
}

/// `user` may do what `perm` stands for anywhere in `server`.
pub open spec fn has_server_permission(db: ChatDbV, server: Seq<char>, user: Seq<char>, perm: u64) -> bool {
    is_server_owner(db, server, user) || (active_server_member(db, server, user) && {
        let base = base_bits(db, server, user);
        base & PERM_ADMINISTRATOR != 0 || base & perm != 0
    })
}

fn everyone_bits_exec(db: &ChatDb, server: &String) -> (b: u64)
    ensures
        b == everyone_bits(db@.server_roles, server@),
{
    let mut acc: u64 = 0;
    let mut i: usize = 0;
    while i < db.server_roles.len()
        invariant
            i <= db@.server_roles.len(),
            acc == everyone_bits(db@.server_roles.take(i as int), server@),
        decreases db.server_roles.len() - i,
    {
        let r = &db.server_roles[i];
        proof {
            assert(db@.server_roles.take(i + 1).drop_last() =~= db@.server_roles.take(i as int));
            assert(db@.server_roles.take(i + 1).last() == r@);
        }
        if r.is_default && r.server_id == *server {
            acc = acc | r.permissions;
        } else {
            acc = acc | 0;
        }
        i = i + 1;
    }
    assert(db@.server_roles.take(db@.server_roles.len() as int) =~= db@.server_roles);
    acc
}

fn role_bits_exec(db: &ChatDb, rid: &String) -> (b: u64)
    requires
        db@.wf(),
    ensures
        b == role_bits(db@.server_roles, rid@),
{
    match find_key(&db.server_roles, rid) {
        Some(i) => db.server_roles[i].permissions,
        None => 0,
    }
}

fn assigned_bits_exec(db: &ChatDb, server: &String, user: &String) -> (b: u64)
    requires
        db@.wf(),
    ensures
        b == assigned_bits(db@.member_roles, db@.server_roles, server@, user@),
{
    let mut acc: u64 = 0;
    let mut i: usize = 0;
    while i < db.member_roles.len()
        invariant
            db@.wf(),
            i <= db@.member_roles.len(),
            acc == assigned_bits(db@.member_roles.take(i as int), db@.server_roles, server@, user@),
        decreases db.member_roles.len() - i,
    {
        let a = &db.member_roles[i];
        proof {
            assert(db@.member_roles.take(i + 1).drop_last() =~= db@.member_roles.take(i as int));
            assert(db@.member_roles.take(i + 1).last() == a@);
        }
        if a.server_id == *server && a.user_id == *user {
            acc = acc | role_bits_exec(db, &a.role_id);
        } else {
            acc = acc | 0;
        }
        i = i + 1;
    }
    assert(db@.member_roles.take(db@.member_roles.len() as int) =~= db@.member_roles);
    acc
}

/// Server-level bits of `user` in `server` (see [`base_bits`]).
pub fn base_permissions(db: &ChatDb, server: &String, user: &String) -> (b: u64)
    requires
        db@.wf(),
    ensures
        b == base_bits(db@, server@, user@),
{
    everyone_bits_exec(db, server) | assigned_bits_exec(db, server, user)
}

fn holds_role_exec(db: &ChatDb, server: &String, user: &String, rid: &String) -> (b: bool)
    ensures
        b == holds_role(db@, server@, user@, rid@),
{
    let mut i: usize = 0;
    while i < db.server_roles.len()
        invariant
            i <= db@.server_roles.len(),
            forall|j: int| 0 <= j < i ==> !(#[trigger] db@.server_roles[j].id == rid@ && is_everyone_role(db@.server_roles[j], server@)),
        decreases db.server_roles.len() - i,
    {
        let r = &db.server_roles[i];
        if r.id == *rid && r.server_id == *server && r.is_default {
            assert(db@.server_roles[i as int].id == rid@ && is_everyone_role(db@.server_roles[i as int], server@));
            return true;
        }
        i = i + 1;
    }
    let mut k: usize = 0;
    while k < db.member_roles.len()
        invariant
            k <= db@.member_roles.len(),
            forall|j: int| 0 <= j < k ==> !(assigned_to(#[trigger] db@.member_roles[j], server@, user@) && db@.member_roles[j].role_id == rid@),
        decreases db.member_roles.len() - k,
    {
        let a = &db.member_roles[k];
        if a.server_id == *server && a.user_id == *user && a.role_id == *rid {
            assert(assigned_to(db@.member_roles[k as int], server@, user@) && db@.member_roles[k as int].role_id == rid@);
            return true;
        }
        k = k + 1;
    }
    false
}

fn role_override_bits_exec(db: &ChatDb, server: &String, room: &String, user: &String, allow: bool) -> (b: u64)
    ensures
        b == role_override_bits(db@, db@.channel_overrides, server@, room@, user@, allow),
{
    let mut acc: u64 = 0;
    let mut i: usize = 0;
    while i < db.channel_overrides.len()
        invariant
            i <= db@.channel_overrides.len(),
            acc == role_override_bits(db@, db@.channel_overrides.take(i as int), server@, room@, user@, allow),
        decreases db.channel_overrides.len() - i,
    {
        let o = &db.channel_overrides[i];
        proof {
            assert(db@.channel_overrides.take(i + 1).drop_last() =~= db@.channel_overrides.take(i as int));
            assert(db@.channel_overrides.take(i + 1).last() == o@);
        }
        if o.room_id == *room && str_eq(o.target_type.as_str(), "role") && holds_role_exec(db, server, user, &o.target_id) {
            acc = acc | (if allow { o.allow } else { o.deny });
        } else {
            acc = acc | 0;
        }
        i = i + 1;
    }
    assert(db@.channel_overrides.take(db@.channel_overrides.len() as int) =~= db@.channel_overrides);
    acc
}

fn member_override_bits_exec(db: &ChatDb, room: &String, user: &String, allow: bool) -> (b: u64)
    ensures
        b == member_override_bits(db@.channel_overrides, room@, user@, allow),
{
    let mut acc: u64 = 0;
    let mut i: usize = 0;
    while i < db.channel_overrides.len()
        invariant
            i <= db@.channel_overrides.len(),
            acc == member_override_bits(db@.channel_overrides.take(i as int), room@, user@, allow),
        decreases db.channel_overrides.len() - i,
    {
        let o = &db.channel_overrides[i];
        proof {
            assert(db@.channel_overrides.take(i + 1).drop_last() =~= db@.channel_overrides.take(i as int));
            assert(db@.channel_overrides.take(i + 1).last() == o@);
        }
        if o.room_id == *room && str_eq(o.target_type.as_str(), "member") && o.target_id == *user {
            acc = acc | (if allow { o.allow } else { o.deny });
        } else {
            acc = acc | 0;
        }
        i = i + 1;
    }
    assert(db@.channel_overrides.take(db@.channel_overrides.len() as int) =~= db@.channel_overrides);
    acc
}

/// Effective bits of `user` in `room` of `server` (see [`room_bits`]).
pub fn room_permissions(db: &ChatDb, server: &String, room: &String, user: &String) -> (b: u64)
    requires
        db@.wf(),
    ensures
        b == room_bits(db@, server@, room@, user@),
{
    let base = base_permissions(db, server, user);
    if base & PERM_ADMINISTRATOR != 0 {
        return ALL_PERMS;
    }
    let rd = role_override_bits_exec(db, server, room, user, false);
    let ra = role_override_bits_exec(db, server, room, user, true);
    let md = member_override_bits_exec(db, room, user, false);
    let ma = member_override_bits_exec(db, room, user, true);
    let p1 = (base & !rd) | ra;
    (p1 & !md) | ma
}

fn active_member(db: &ChatDb, server: &String, user: &String) -> (b: bool)
    ensures
        b == active_server_member(db@, server@, user@),
{
    match find_server_membership(db, server, user) {
        Some(i) => !str_eq(db.server_members[i].role.as_str(), "banned"),
        None => false,
    }
}

/// Whether `user` may do what `perm` stands for in `room` of `server`.
pub fn has_permission(db: &ChatDb, server: &String, room: &String, user: &String, perm: u64) -> (b: bool)
    requires
        db@.wf(),
    ensures
        b == has_room_permission(db@, server@, room@, user@, perm),
{
    require_server_owner(db, server, user) || (active_member(db, server, user) && room_permissions(db, server, room, user) & perm != 0)
}

/// Whether `user` may do what `perm` stands for anywhere in `server`.
pub fn require_server_permission(db: &ChatDb, server: &String, user: &String, perm: u64) -> (b: bool)
    requires
        db@.wf(),
    ensures
        b == has_server_permission(db@, server@, user@, perm),
{
    if require_server_owner(db, server, user) {
        return true;
    }
    if !active_member(db, server, user) {
        return false;
    }
    let base = base_permissions(db, server, user);
    base & PERM_ADMINISTRATOR != 0 || base & perm != 0
}

/// ADMINISTRATOR bypass: an active member whose roles grant ADMINISTRATOR has
/// every permission in every room of the server, whatever the overrides say.
pub proof fn lemma_administrator_has_every_room_permission(db: ChatDbV, server: Seq<char>, room: Seq<char>, user: Seq<char>, perm: u64)
    requires
        active_server_member(db, server, user),
        base_bits(db, server, user) & PERM_ADMINISTRATOR != 0,
        perm != 0,
    ensures
        has_room_permission(db, server, room, user, perm),
{
    assert(ALL_PERMS & perm != 0) by (bit_vector)
        requires
            perm != 0,
    ;
}

/// A member-specific deny wins over every role: a bit denied to the member
/// in a room and allowed to it by no member override is not granted there,
/// unless the member's roles grant ADMINISTRATOR.
pub proof fn lemma_member_deny_wins(db: ChatDbV, server: Seq<char>, room: Seq<char>, user: Seq<char>, perm: u64)
    requires
        base_bits(db, server, user) & PERM_ADMINISTRATOR == 0,
        member_override_bits(db.channel_overrides, room, user, false) & perm == perm,
        member_override_bits(db.channel_overrides, room, user, true) & perm == 0,
    ensures
        room_bits(db, server, room, user) & perm == 0,
{
    let base = base_bits(db, server, user);
    let os = db.channel_overrides;
    let p1 = (base & !role_override_bits(db, os, server, room, user, false)) | role_override_bits(db, os, server, room, user, true);
    let md = member_override_bits(os, room, user, false);
    let ma = member_override_bits(os, room, user, true);
    assert(((p1 & !md) | ma) & perm == 0) by (bit_vector)
        requires
            md & perm == perm,
            ma & perm == 0,
    ;
}


/// Member-specific overrides come last: a bit allowed to the member in a
/// room is granted there whatever its roles and their overrides say.
pub proof fn lemma_member_allow_wins(db: ChatDbV, server: Seq<char>, room: Seq<char>, user: Seq<char>, perm: u64)
    requires
        member_override_bits(db.channel_overrides, room, user, true) & perm == perm,
    ensures
        room_bits(db, server, room, user) & perm == perm,
{
    let base = base_bits(db, server, user);
    let os = db.channel_overrides;
    let p1 = (base & !role_override_bits(db, os, server, room, user, false)) | role_override_bits(db, os, server, room, user, true);
    let md = member_override_bits(os, room, user, false);
    let ma = member_override_bits(os, room, user, true);
    assert(((p1 & !md) | ma) & perm == perm) by (bit_vector)
        requires
            ma & perm == perm,
    ;
    assert(ALL_PERMS & perm == perm) by (bit_vector);
}

/// Without member overrides on a bit, a role allow on it wins over role
/// denies: a bit allowed to one of the member's roles in a room is granted
/// there.
pub proof fn lemma_role_allow_wins_over_role_deny(db: ChatDbV, server: Seq<char>, room: Seq<char>, user: Seq<char>, perm: u64)
    requires
        role_override_bits(db, db.channel_overrides, server, room, user, true) & perm == perm,
        member_override_bits(db.channel_overrides, room, user, false) & perm == 0,
    ensures
        room_bits(db, server, room, user) & perm == perm,
{
    let base = base_bits(db, server, user);
    let os = db.channel_overrides;
    let rd = role_override_bits(db, os, server, room, user, false);
    let ra = role_override_bits(db, os, server, room, user, true);
    let md = member_override_bits(os, room, user, false);
    let ma = member_override_bits(os, room, user, true);
    assert(((((base & !rd) | ra) & !md) | ma) & perm == perm) by (bit_vector)
        requires
            ra & perm == perm,
            md & perm == 0,
    ;
    assert(ALL_PERMS & perm == perm) by (bit_vector);
}

} // verus!
