//! Founding servers (by platform admins or by users of a paying tier), and
//! adding users to servers with their public rooms.

use vstd::prelude::*;
use crate::context::{Caller, CallerV, ChatError};
use crate::db::{ChatDb, ChatDbV};
use crate::tables::{ChatServer, ChatServerV, ChannelCategory, ChannelCategoryV, Room, RoomV,
    ChatServerV as ServerRowV};
use crate::store::{lookup, has_key, find_key, contains_key, insert_new, count_rows};

use crate::membership::{member_id, member_row, make_member};
use crate::accounts::ensure_chat_user;
use crate::reducers::rooms::with_caller_user;
use crate::reducers::servers::{valid_name, check_name, server_member_id, server_member_row, make_server_member};
use crate::reducers::roles::{everyone_role_id, default_role_row, create_default_role};
use crate::common::{str_eq, or_default, tier_of, user_tier, spawn_limit};
use crate::text::{trim, trim_str, to_owned_string, concat2};

verus! {

/// Id of the first category of a new server: "<server>-general-cat".
pub open spec fn general_category_id(server: Seq<char>) -> Seq<char> {
    server + "-general-cat"@
}

/// Id of the #general room of a user's new server: "<server>-general".
pub open spec fn general_room_id(server: Seq<char>) -> Seq<char> {
    server + "-general"@
}

/// The first category of a new server.
pub open spec fn general_category_row(server: Seq<char>, now: u64) -> ChannelCategoryV {
    ChannelCategoryV { id: general_category_id(server), server_id: server, name: "Text Channels"@, sort_order: 0, created_at: now }
}

/// The server row of a newly founded server.
pub open spec fn founded_server_row(id: Seq<char>, name: Seq<char>, audience: Seq<char>, owner: Seq<char>, is_public: bool, default_tier: Seq<char>, now: u64) -> ServerRowV {
    ChatServerV {
        id: id,
        name: trim(name),
        description: Seq::empty(),
        audience_id: audience,
        owner_user_id: owner,
        is_public: is_public,
        default_tier: default_tier,
        icon_url: Seq::empty(),
        created_at: now,
        updated_at: now,
        template: None,
    }
}

/// The database with a server founded: its row, the owner's membership, the
/// "@everyone" role and the "Text Channels" category.
pub open spec fn founded(db: ChatDbV, s: ChatServerV, now: u64) -> ChatDbV {
    ChatDbV {
        chat_servers: db.chat_servers.push(s),
        server_members: db.server_members.push(server_member_row(s.id, s.owner_user_id, "owner"@, now)),
        server_roles: db.server_roles.push(default_role_row(s.id, now)),
        channel_categories: db.channel_categories.push(general_category_row(s.id, now)),
        ..db
    }
}

/// The keys a founded server adds are new.
pub open spec fn founding_keys_free(db: ChatDbV, server: Seq<char>, owner: Seq<char>) -> bool {
    &&& !has_key(db.server_members, server_member_id(server, owner))
    &&& !has_key(db.server_roles, everyone_role_id(server))
    &&& !has_key(db.channel_categories, general_category_id(server))
}

fn found_server(db: &mut ChatDb, s: ChatServer, now: u64)
    requires
        old(db)@.wf(),
        !has_key(old(db)@.chat_servers, s@.id),
        founding_keys_free(old(db)@, s@.id, s@.owner_user_id),
    ensures
        final(db)@.wf(),
        final(db)@ == founded(old(db)@, s@, now),
{
    let id = s.id.clone();
    let owner = s.owner_user_id.clone();
    insert_new(&mut db.chat_servers, s);
    insert_new(&mut db.server_members, make_server_member(&id, &owner, "owner", now));
    create_default_role(db, now, id.as_str());
    let cat = ChannelCategory {
        id: concat2(id.as_str(), "-general-cat"),
        server_id: id.clone(),
        name: to_owned_string("Text Channels"),
        sort_order: 0,
        created_at: now,
    };
    insert_new(&mut db.channel_categories, cat);
}

/// Outcome of [`create_server`], judged after the caller's chat user row exists.
pub open spec fn create_server_verdict(db: ChatDbV, c: CallerV, id: Seq<char>, name: Seq<char>) -> Result<(), ChatError> {
    if c.user_id is None {
        Err(ChatError::NotRegistered)
    } else if !c.is_platform_admin {
        Err(ChatError::NotPermitted)
    } else if !valid_name(name) {
        Err(ChatError::Invalid)
    } else if has_key(db.chat_servers, id) {
        Err(ChatError::AlreadyExists)
    } else {
        Ok(())
    }
}

/// Create a server (platform admin only); the creator becomes its owner, and
/// it gets the "@everyone" role and a "Text Channels" category. A platform
/// admin's chat user row is made sure of before the name is checked.
pub fn create_server(
    db: &mut ChatDb,
    caller: &Caller,
    now: u64,
    id: String,
    name: String,
    audience_id: String,
    is_public: bool,
    default_tier: String,
) -> (r: Result<(), ChatError>)
    requires
        old(db)@.wf(),
        create_server_verdict(old(db)@, caller@, id@, name@) is Ok ==> founding_keys_free(old(db)@, id@, caller@.user_id.unwrap()),
    ensures
        final(db)@.wf(),
        r == create_server_verdict(old(db)@, caller@, id@, name@),
        r is Err ==> final(db)@ == if caller@.user_id is Some && caller@.is_platform_admin {
            with_caller_user(old(db)@, caller@, now)
        } else {
            old(db)@
        },
        r is Ok ==> final(db)@ == founded(with_caller_user(old(db)@, caller@, now),
            founded_server_row(id@, name@, audience_id@, caller@.user_id.unwrap(), is_public, default_tier@, now), now),
{
    let uid = match &caller.user_id {
        Some(u) => u.clone(),
        None => return Err(ChatError::NotRegistered),
    };
    if !caller.is_platform_admin {
        return Err(ChatError::NotPermitted);
    }
    let _ = ensure_chat_user(db, &uid, &caller.identity, now);
    if !check_name(name.as_str()) {
        return Err(ChatError::Invalid);
    }
    if contains_key(&db.chat_servers, &id) {
        return Err(ChatError::AlreadyExists);
    }
    let s = ChatServer {
        id,
        name: to_owned_string(trim_str(name.as_str())),
        description: String::new(),
        audience_id,
        owner_user_id: uid,
        is_public,
        default_tier,
        icon_url: String::new(),
        created_at: now,
        updated_at: now,
        template: None,
    };
    found_server(db, s, now);
    Ok(())
}

/// Platform role of a user row ("" when unset or unknown user).
pub open spec fn platform_role_of(db: ChatDbV, uid: Seq<char>) -> Seq<char> {
    match lookup(db.chat_users, uid) {
        Some(u) => or_default(u.platform_role, Seq::empty()),
        None => Seq::empty(),
    }
}

/// A platform admin or developer by platform role.
pub open spec fn privileged(db: ChatDbV, uid: Seq<char>) -> bool {
    platform_role_of(db, uid) == "admin"@ || platform_role_of(db, uid) == "developer"@
}

/// A tier that may found servers.
pub open spec fn server_tier(t: Seq<char>) -> bool {
    t == "pro"@ || t == "creator"@ || t == "team"@ || t == "admin"@ || t == "developer"@
}

/// Servers owned by `uid`.
pub open spec fn owned_server(uid: Seq<char>) -> spec_fn(ChatServerV) -> bool {
    |s: ChatServerV| s.owner_user_id == uid
}

/// How many servers the tier allows (0 when unset).
pub open spec fn server_quota(db: ChatDbV, tier: Seq<char>) -> u32 {
    match lookup(db.agent_spawn_limits, tier) {
        Some(l) => match l.max_servers {
            Some(m) => m,
            None => 0,
        },
        None => 0,
    }
}

/// The checks of [`create_user_server`] made before the caller's row is made sure of.
pub open spec fn user_server_gate(db: ChatDbV, c: CallerV) -> Result<(), ChatError> {
    match c.user_id {
        None => Err(ChatError::NotRegistered),
        Some(uid) => if privileged(db, uid) {
            Ok(())
        } else if !server_tier(tier_of(db.chat_users, uid)) {
            Err(ChatError::NotPermitted)
        } else if db.chat_servers.filter(owned_server(uid)).len() as u32 >= server_quota(db, tier_of(db.chat_users, uid)) {
            Err(ChatError::LimitReached)
        } else {
            Ok(())
        },
    }
}

/// Outcome of [`create_user_server`].
pub open spec fn create_user_server_verdict(db: ChatDbV, c: CallerV, id: Seq<char>, name: Seq<char>) -> Result<(), ChatError> {
    if user_server_gate(db, c) is Err {
        user_server_gate(db, c)
    } else if !valid_name(name) {
        Err(ChatError::Invalid)
    } else if has_key(db.chat_servers, id) {
        Err(ChatError::AlreadyExists)
    } else {
        Ok(())
    }
}

/// The #general room of a user's new server.
pub open spec fn general_room_row(server: Seq<char>, owner: Seq<char>, now: u64) -> RoomV {
    RoomV {
        id: general_room_id(server),
        name: "general"@,
        created_by: owner,
        is_private: false,
        is_dm: false,
        created_at: now,
        server_id: Some(server),
        required_tier: None,
        description: Some("General discussion"@),
        sort_order: Some(0),
        room_type: "text"@,
        category_id: Some(general_category_id(server)),
        topic: None,
        slowmode_seconds: None,
        nsfw: false,
        parent_room_id: None,
        archived: false,
        locked: false,
        auto_archive_minutes: None,
        default_sort_order: None,
        allow_attachments: None,
        allow_embeds: None,
        allow_reactions: None,
        rules_text: None,
    }
}

/// Create a server owned by the caller. Platform admins and developers may
/// always; others need a pro-or-better tier ("pro", "creator", "team",
/// "admin" or "developer") and stay within
/// their tier's server quota. The caller becomes owner, and the server gets
/// the "@everyone" role, a "Text Channels" category and a #general room with
/// the owner as admin.
pub fn create_user_server(db: &mut ChatDb, caller: &Caller, now: u64, id: String, name: String, is_public: bool) -> (r: Result<(), ChatError>)
    requires
        old(db)@.wf(),
        create_user_server_verdict(old(db)@, caller@, id@, name@) is Ok ==> {
            &&& founding_keys_free(old(db)@, id@, caller@.user_id.unwrap())
            &&& !has_key(old(db)@.rooms, general_room_id(id@))
            &&& !has_key(old(db)@.room_members, member_id(general_room_id(id@), caller@.user_id.unwrap()))
        },
    ensures
        final(db)@.wf(),
        r == create_user_server_verdict(old(db)@, caller@, id@, name@),
        r is Err ==> final(db)@ == if user_server_gate(old(db)@, caller@) is Ok {
            with_caller_user(old(db)@, caller@, now)
        } else {
            old(db)@
        },
        r is Ok ==> ({
            let uid = caller@.user_id.unwrap();
            let f = founded(with_caller_user(old(db)@, caller@, now),
                founded_server_row(id@, name@, Seq::empty(), uid, is_public, "free"@, now), now);
            final(db)@ == (ChatDbV {
                rooms: f.rooms.push(general_room_row(id@, uid, now)),
                room_members: f.room_members.push(member_row(general_room_id(id@), uid, "admin"@, now)),
                ..f
            })
        }),
{
    let uid = match &caller.user_id {
        Some(u) => u.clone(),
        None => return Err(ChatError::NotRegistered),
    };
    let tier = user_tier(&db.chat_users, &uid);
    let role = match find_key(&db.chat_users, &uid) {
        Some(i) => match &db.chat_users[i].platform_role {
            Some(r) => r.clone(),
            None => String::new(),
        },
        None => String::new(),
    };
    let is_privileged = str_eq(role.as_str(), "admin") || str_eq(role.as_str(), "developer");
    if !is_privileged {
        if !(str_eq(tier.as_str(), "pro") || str_eq(tier.as_str(), "creator") || str_eq(tier.as_str(), "team")
            || str_eq(tier.as_str(), "admin") || str_eq(tier.as_str(), "developer")) {
            return Err(ChatError::NotPermitted);
        }
        let test = |s: &ChatServer| -> (b: bool)
            ensures
                b == owned_server(uid@)(s@),
            { s.owner_user_id == uid };
        let owned = count_rows(&db.chat_servers, test, Ghost(owned_server(uid@)));
        let quota = match spawn_limit(&db.agent_spawn_limits, &tier) {
            Some(i) => match db.agent_spawn_limits[i].max_servers {
                Some(m) => m,
                None => 0,
            },
            None => 0,
        };
        if owned as u32 >= quota {
            return Err(ChatError::LimitReached);
        }
    }
    let _ = ensure_chat_user(db, &uid, &caller.identity, now);
    if !check_name(name.as_str()) {
        return Err(ChatError::Invalid);
    }
    if contains_key(&db.chat_servers, &id) {
        return Err(ChatError::AlreadyExists);
    }
    let s = ChatServer {
        id: id.clone(),
        name: to_owned_string(trim_str(name.as_str())),
        description: String::new(),
        audience_id: String::new(),
        owner_user_id: uid.clone(),
        is_public,
        default_tier: to_owned_string("free"),
        icon_url: String::new(),
        created_at: now,
        updated_at: now,
        template: None,
    };
    found_server(db, s, now);
    let rid = concat2(id.as_str(), "-general");
    let room = Room {
        id: rid.clone(),
        name: to_owned_string("general"),
        created_by: uid.clone(),
        is_private: false,
        is_dm: false,
        created_at: now,
        server_id: Some(id.clone()),
        required_tier: None,
        description: Some(to_owned_string("General discussion")),
        sort_order: Some(0),
        room_type: to_owned_string("text"),
        category_id: Some(concat2(id.as_str(), "-general-cat")),
        topic: None,
        slowmode_seconds: None,
        nsfw: false,
        parent_room_id: None,
        archived: false,
        locked: false,
        auto_archive_minutes: None,
        default_sort_order: None,
        allow_attachments: None,
        allow_embeds: None,
        allow_reactions: None,
        rules_text: None,
    };
    insert_new(&mut db.rooms, room);
    insert_new(&mut db.room_members, make_member(&rid, &uid, "admin", now));
    Ok(())
}

} // verus!
