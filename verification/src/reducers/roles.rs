//! Server roles: creation, editing, deletion, assignment.

use vstd::prelude::*;
use crate::context::{Caller, CallerV, ChatError};
use crate::db::{ChatDb, ChatDbV};
use crate::tables::{ServerRole, ServerRoleV, MemberRole, MemberRoleV, ChannelOverride, ChannelOverrideV};
use crate::store::{lookup, has_key, replace_row, without_key, find_key, contains_key, insert_new, upsert,
    remove_key, retain_keyed};
use crate::permissions::{has_server_permission, require_server_permission, PERM_MANAGE_ROLES, DEFAULT_EVERYONE_PERMS};
use crate::lookups::{server_membership, find_server_membership};
use crate::text::{trim, byte_len, trim_str, utf8_len, to_owned_string, join2};
use crate::common::str_eq;

verus! {

/// Longest role name, in bytes.
pub const MAX_ROLE_NAME_LEN: usize = 64;

/// Id of the default role of a server: "<server>-everyone".
pub open spec fn everyone_role_id(server: Seq<char>) -> Seq<char> {
    server + "-everyone"@
}

/// The "@everyone" role of a new server.
pub open spec fn default_role_row(server: Seq<char>, now: u64) -> ServerRoleV {
    ServerRoleV {
        id: everyone_role_id(server),
        server_id: server,
        name: "@everyone"@,
        color: Seq::empty(),
        permissions: DEFAULT_EVERYONE_PERMS,
        sort_order: 0,
        is_default: true,
        mentionable: false,
        created_at: now,
    }
}

/// Create the "@everyone" default role of a new server.
pub fn create_default_role(db: &mut ChatDb, now: u64, server_id: &str)
    requires
        old(db)@.wf(),
        !has_key(old(db)@.server_roles, everyone_role_id(server_id@)),
    ensures
        final(db)@.wf(),
        final(db)@ == (ChatDbV { server_roles: old(db)@.server_roles.push(default_role_row(server_id@, now)), ..old(db)@ }),
{
    let mut id = to_owned_string(server_id);
    id.append("-everyone");
    let role = ServerRole {
        id,
        server_id: to_owned_string(server_id),
        name: to_owned_string("@everyone"),
        color: String::new(),
        permissions: DEFAULT_EVERYONE_PERMS,
        sort_order: 0,
        is_default: true,
        mentionable: false,
        created_at: now,
    };
    insert_new(&mut db.server_roles, role);
}

/// A role name is acceptable: non-empty after trimming and at most 64 bytes.
pub open spec fn valid_role_name(name: Seq<char>) -> bool {
    trim(name).len() > 0 && byte_len(trim(name)) <= MAX_ROLE_NAME_LEN
}

fn check_role_name(name: &str) -> (b: bool)
    ensures
        b == valid_role_name(name@),
{
    let t = trim_str(name);
    t.unicode_len() > 0 && utf8_len(t) <= MAX_ROLE_NAME_LEN
}

/// Largest sort order among the roles of `server` (0 when it has none).
pub open spec fn max_sort(roles: Seq<ServerRoleV>, server: Seq<char>) -> u32
    decreases roles.len(),
{
    if roles.len() == 0 {
        0
    } else {
        let m = max_sort(roles.drop_last(), server);
        if roles.last().server_id == server && roles.last().sort_order > m {
            roles.last().sort_order
        } else {
            m
        }
    }
}

/// The sort order after `m` (wrapping to 0 after the largest value).
pub open spec fn next_sort(m: u32) -> u32 {
    if m == u32::MAX { 0 } else { (m + 1) as u32 }
}

fn max_sort_exec(db: &ChatDb, server: &String) -> (m: u32)
    ensures
        m == max_sort(db@.server_roles, server@),
{
    let mut m: u32 = 0;
    let mut i: usize = 0;
    while i < db.server_roles.len()
        invariant
            i <= db@.server_roles.len(),
            m == max_sort(db@.server_roles.take(i as int), server@),
        decreases db.server_roles.len() - i,
    {
        let r = &db.server_roles[i];
        proof {
            assert(db@.server_roles.take(i + 1).drop_last() =~= db@.server_roles.take(i as int));
            assert(db@.server_roles.take(i + 1).last() == r@);
        }
        if r.server_id == *server && r.sort_order > m {
            m = r.sort_order;
        }
        i = i + 1;
    }
    assert(db@.server_roles.take(db@.server_roles.len() as int) =~= db@.server_roles);
    m
}

/// The caller is registered and may manage roles of `server`.
pub open spec fn role_manager_verdict(db: ChatDbV, c: CallerV, server: Seq<char>) -> Result<(), ChatError> {
    match c.user_id {
        None => Err(ChatError::NotRegistered),
        Some(uid) => if !has_server_permission(db, server, uid, PERM_MANAGE_ROLES) {
            Err(ChatError::NotPermitted)
        } else {
            Ok(())
        },
    }
}

/// Outcome of [`create_role`].
pub open spec fn create_role_verdict(db: ChatDbV, c: CallerV, id: Seq<char>, server: Seq<char>, name: Seq<char>) -> Result<(), ChatError> {
    if role_manager_verdict(db, c, server) is Err {
        role_manager_verdict(db, c, server)
    } else if !valid_role_name(name) {
        Err(ChatError::Invalid)
    } else if has_key(db.server_roles, id) {
        Err(ChatError::AlreadyExists)
    } else {
        Ok(())
    }
}

/// Create a role in a server (MANAGE_ROLES); it sorts after the server's other roles.
pub fn create_role(
    db: &mut ChatDb,
    caller: &Caller,
    now: u64,
    id: String,
    server_id: String,
    name: String,
    color: String,
    permissions: u64,
    mentionable: bool,
) -> (r: Result<(), ChatError>)
    requires
        old(db)@.wf(),
    ensures
        final(db)@.wf(),
        r == create_role_verdict(old(db)@, caller@, id@, server_id@, name@),
        r is Err ==> final(db)@ == old(db)@,
        r is Ok ==> final(db)@ == (ChatDbV {
            server_roles: old(db)@.server_roles.push(ServerRoleV {
                id: id@,
                server_id: server_id@,
                name: trim(name@),
                color: color@,
                permissions: permissions,
                sort_order: next_sort(max_sort(old(db)@.server_roles, server_id@)),
                is_default: false,
                mentionable: mentionable,
                created_at: now,
            }),
            ..old(db)@
        }),
{
    let uid = match &caller.user_id {
        Some(u) => u,
        None => return Err(ChatError::NotRegistered),
    };
    if !require_server_permission(db, &server_id, uid, PERM_MANAGE_ROLES) {
        return Err(ChatError::NotPermitted);
    }
    if !check_role_name(name.as_str()) {
        return Err(ChatError::Invalid);
    }
    if contains_key(&db.server_roles, &id) {
        return Err(ChatError::AlreadyExists);
    }
    let m = max_sort_exec(db, &server_id);
    let role = ServerRole {
        id,
        server_id,
        name: to_owned_string(trim_str(name.as_str())),
        color,
        permissions,
        sort_order: if m == u32::MAX { 0 } else { m + 1 },
        is_default: false,
        mentionable,
        created_at: now,
    };
    insert_new(&mut db.server_roles, role);
    Ok(())
}

/// Outcome of [`update_role`].
pub open spec fn update_role_verdict(db: ChatDbV, c: CallerV, id: Seq<char>, name: Seq<char>) -> Result<(), ChatError> {
    match c.user_id {
        None => Err(ChatError::NotRegistered),
        Some(uid) => match lookup(db.server_roles, id) {
            None => Err(ChatError::NotFound),
            Some(role) => if !has_server_permission(db, role.server_id, uid, PERM_MANAGE_ROLES) {
                Err(ChatError::NotPermitted)
            } else if !valid_role_name(name) {
                Err(ChatError::Invalid)
            } else {
                Ok(())
            },
        },
    }
}

/// Update a role's name, color, bits, sort order and mentionability (MANAGE_ROLES).
pub fn update_role(
    db: &mut ChatDb,
    caller: &Caller,
    id: String,
    name: String,
    color: String,
    permissions: u64,
    sort_order: u32,
    mentionable: bool,
) -> (r: Result<(), ChatError>)
    requires
        old(db)@.wf(),
    ensures
        final(db)@.wf(),
        r == update_role_verdict(old(db)@, caller@, id@, name@),
        r is Err ==> final(db)@ == old(db)@,
        r is Ok ==> final(db)@ == (ChatDbV {
            server_roles: replace_row(old(db)@.server_roles, ServerRoleV {
                name: trim(name@),
                color: color@,
                permissions: permissions,
                sort_order: sort_order,
                mentionable: mentionable,
                ..lookup(old(db)@.server_roles, id@).unwrap()
            }),
            ..old(db)@
        }),
{
    let uid = match &caller.user_id {
        Some(u) => u,
        None => return Err(ChatError::NotRegistered),
    };
    let i = match find_key(&db.server_roles, &id) {
        Some(i) => i,
        None => return Err(ChatError::NotFound),
    };
    let sid = db.server_roles[i].server_id.clone();
    if !require_server_permission(db, &sid, uid, PERM_MANAGE_ROLES) {
        return Err(ChatError::NotPermitted);
    }
    if !check_role_name(name.as_str()) {
        return Err(ChatError::Invalid);
    }
    let role = ServerRole {
        id: db.server_roles[i].id.clone(),
        server_id: sid,
        name: to_owned_string(trim_str(name.as_str())),
        color,
        permissions,
        sort_order,
        is_default: db.server_roles[i].is_default,
        mentionable,
        created_at: db.server_roles[i].created_at,
    };
    upsert(&mut db.server_roles, role);
    Ok(())
}

/// Assignments of a role other than `id`.
pub open spec fn not_assignment_of(id: Seq<char>) -> spec_fn(MemberRoleV) -> bool {
    |a: MemberRoleV| a.role_id != id
}

/// Overrides that are not for role `id`.
pub open spec fn not_override_of_role(id: Seq<char>) -> spec_fn(ChannelOverrideV) -> bool {
    |o: ChannelOverrideV| !(o.target_type == "role"@ && o.target_id == id)
}

/// Outcome of [`delete_role`].
pub open spec fn delete_role_verdict(db: ChatDbV, c: CallerV, id: Seq<char>) -> Result<(), ChatError> {
    match c.user_id {
        None => Err(ChatError::NotRegistered),
        Some(uid) => match lookup(db.server_roles, id) {
            None => Err(ChatError::NotFound),
            Some(role) => if role.is_default {
                Err(ChatError::NotPermitted)
            } else if !has_server_permission(db, role.server_id, uid, PERM_MANAGE_ROLES) {
                Err(ChatError::NotPermitted)
            } else {
                Ok(())
            },
        },
    }
}

/// Delete a role (never "@everyone"), with its assignments and channel overrides.
pub fn delete_role(db: &mut ChatDb, caller: &Caller, id: String) -> (r: Result<(), ChatError>)
    requires
        old(db)@.wf(),
    ensures
        final(db)@.wf(),
        r == delete_role_verdict(old(db)@, caller@, id@),
        r is Err ==> final(db)@ == old(db)@,
        r is Ok ==> final(db)@ == (ChatDbV {
            member_roles: old(db)@.member_roles.filter(not_assignment_of(id@)),
            channel_overrides: old(db)@.channel_overrides.filter(not_override_of_role(id@)),
            server_roles: without_key(old(db)@.server_roles, id@),
            ..old(db)@
        }),
{
    let uid = match &caller.user_id {
        Some(u) => u,
        None => return Err(ChatError::NotRegistered),
    };
    let i = match find_key(&db.server_roles, &id) {
        Some(i) => i,
        None => return Err(ChatError::NotFound),
    };
    if db.server_roles[i].is_default {
        return Err(ChatError::NotPermitted);
    }
    let sid = db.server_roles[i].server_id.clone();
    if !require_server_permission(db, &sid, uid, PERM_MANAGE_ROLES) {
        return Err(ChatError::NotPermitted);
    }
    let keep_a = |a: &MemberRole| -> (b: bool)
        ensures
            b == not_assignment_of(id@)(a@),
        { a.role_id != id };
    retain_keyed(&mut db.member_roles, keep_a, Ghost(not_assignment_of(id@)));
    let keep_o = |o: &ChannelOverride| -> (b: bool)
        ensures
            b == not_override_of_role(id@)(o@),
        { !(str_eq(o.target_type.as_str(), "role") && o.target_id == id) };
    retain_keyed(&mut db.channel_overrides, keep_o, Ghost(not_override_of_role(id@)));
    remove_key(&mut db.server_roles, &id);
    Ok(())
}

/// Id of an assignment: "<server>-<user>-<role>".
pub open spec fn assignment_id(server: Seq<char>, user: Seq<char>, role: Seq<char>) -> Seq<char> {
    server + "-"@ + user + "-"@ + role
}

fn make_assignment_id(server: &String, user: &String, role: &String) -> (r: String)
    ensures
        r@ == assignment_id(server@, user@, role@),
{
    let mut s = join2(server.as_str(), "-", user.as_str());
    s.append("-");
    s.append(role.as_str());
    s
}

/// Outcome of [`assign_role`] (assigning an assigned role changes nothing).
pub open spec fn assign_role_verdict(db: ChatDbV, c: CallerV, server: Seq<char>, target: Seq<char>, role_id: Seq<char>) -> Result<(), ChatError> {
    if role_manager_verdict(db, c, server) is Err {
        role_manager_verdict(db, c, server)
    } else {
        match lookup(db.server_roles, role_id) {
            None => Err(ChatError::NotFound),
            Some(role) => if role.server_id != server {
                Err(ChatError::Invalid)
            } else if server_membership(db, server, target) is None {
                Err(ChatError::NotFound)
            } else {
                Ok(())
            },
        }
    }
}

/// Assign a role of the server to one of its members (MANAGE_ROLES).
pub fn assign_role(
    db: &mut ChatDb,
    caller: &Caller,
    now: u64,
    server_id: String,
    target_user_id: String,
    role_id: String,
) -> (r: Result<(), ChatError>)
    requires
        old(db)@.wf(),
    ensures
        final(db)@.wf(),
        r == assign_role_verdict(old(db)@, caller@, server_id@, target_user_id@, role_id@),
        r is Err ==> final(db)@ == old(db)@,
        r is Ok ==> ({
            let aid = assignment_id(server_id@, target_user_id@, role_id@);
            if has_key(old(db)@.member_roles, aid) {
                final(db)@ == old(db)@
            } else {
                final(db)@ == (ChatDbV {
                    member_roles: old(db)@.member_roles.push(MemberRoleV {
                        id: aid,
                        server_id: server_id@,
                        user_id: target_user_id@,
                        role_id: role_id@,
                        assigned_at: now,
                    }),
                    ..old(db)@
                })
            }
        }),
{
    let uid = match &caller.user_id {
        Some(u) => u,
        None => return Err(ChatError::NotRegistered),
    };
    if !require_server_permission(db, &server_id, uid, PERM_MANAGE_ROLES) {
        return Err(ChatError::NotPermitted);
    }
    let i = match find_key(&db.server_roles, &role_id) {
        Some(i) => i,
        None => return Err(ChatError::NotFound),
    };
    if db.server_roles[i].server_id != server_id {
        return Err(ChatError::Invalid);
    }
    if find_server_membership(db, &server_id, &target_user_id).is_none() {
        return Err(ChatError::NotFound);
    }
    let aid = make_assignment_id(&server_id, &target_user_id, &role_id);
    if contains_key(&db.member_roles, &aid) {
        return Ok(());
    }
    let a = MemberRole { id: aid, server_id, user_id: target_user_id, role_id, assigned_at: now };
    insert_new(&mut db.member_roles, a);
    Ok(())
}

/// Remove a role from a server member (MANAGE_ROLES).
pub fn remove_role(db: &mut ChatDb, caller: &Caller, server_id: String, target_user_id: String, role_id: String) -> (r: Result<(), ChatError>)
    requires
        old(db)@.wf(),
    ensures
        final(db)@.wf(),
        r == role_manager_verdict(old(db)@, caller@, server_id@),
        r is Err ==> final(db)@ == old(db)@,
        r is Ok ==> final(db)@ == (ChatDbV {
            member_roles: without_key(old(db)@.member_roles, assignment_id(server_id@, target_user_id@, role_id@)),
            ..old(db)@
        }),
{
    let uid = match &caller.user_id {
        Some(u) => u,
        None => return Err(ChatError::NotRegistered),
    };
    if !require_server_permission(db, &server_id, uid, PERM_MANAGE_ROLES) {
        return Err(ChatError::NotPermitted);
    }
    let aid = make_assignment_id(&server_id, &target_user_id, &role_id);
    remove_key(&mut db.member_roles, &aid);
    Ok(())
}

} // verus!
