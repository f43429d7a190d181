use nexus_chat::context::{Caller, ChatError};
use nexus_chat::db::ChatDb;
use nexus_chat::reducers::personal::BlockHashes;
use nexus_chat::permissions::{PERM_ADMINISTRATOR, PERM_SEND_MESSAGES, PERM_MANAGE_EMOJIS};
use nexus_chat::reducers::messages::{send_message, AutoModAction, Mentions, SendChecks};
use nexus_chat::reducers::community::create_server_emoji;
use nexus_chat::tables::{ChannelOverride, ChatUser, MemberRole, Room, RoomMember, ServerMember, ServerRole};

fn user(id: &str, bot: bool) -> ChatUser {
    ChatUser {
        user_id: id.to_string(),
        stdb_identity: format!("ident-{}", id),
        display_name: id.to_string(),
        status: "online".to_string(),
        online: true,
        last_message_at: 0,
        last_typing_at: 0,
        last_seen_at: 0,
        created_at: 0,
        tier: None,
        avatar_data: None,
        custom_status: None,
        custom_status_emoji: None,
        platform_role: None,
        is_bot: if bot { Some(true) } else { None },
        is_platform_agent: None,
        bot_owner_user_id: None,
        is_swarm_member: None,
        is_steward_projection: None,
    }
}

fn room(id: &str, name: &str, dm: bool) -> Room {
    Room {
        id: id.to_string(),
        name: name.to_string(),
        created_by: "system".to_string(),
        is_private: dm,
        is_dm: dm,
        created_at: 0,
        server_id: None,
        required_tier: None,
        description: None,
        sort_order: None,
        room_type: "text".to_string(),
        category_id: None,
        topic: None,
        slowmode_seconds: None,
        nsfw: false,
        parent_room_id: None,
        archived: false,
        locked: false,
        auto_archive_minutes: None,
        default_sort_order: None,
        allow_attachments: None,
        allow_embeds: None,
        allow_reactions: None,
        rules_text: None,
    }
}

fn member(room: &str, user: &str) -> RoomMember {
    RoomMember {
        id: format!("{}-{}", room, user),
        room_id: room.to_string(),
        user_id: user.to_string(),
        role: "member".to_string(),
        joined_at: 0,
    }
}

fn caller(user: Option<&str>, admin: bool, system: bool) -> Caller {
    Caller {
        user_id: user.map(|u| u.to_string()),
        identity: "caller-ident".to_string(),
        is_platform_admin: admin,
        is_system: system,
    }
}

fn server_member(server: &str, user: &str, role: &str) -> ServerMember {
    ServerMember {
        id: format!("{}-{}", server, user),
        server_id: server.to_string(),
        user_id: user.to_string(),
        role: role.to_string(),
        joined_at: 0,
        nickname: None,
        timeout_until: None,
        deaf: false,
        mute: false,
    }
}

fn no_mentions() -> Mentions {
    Mentions { everyone: false, here: false, user_ids_json: None, role_ids_json: None }
}

fn hashes(forward: &str, reverse: &str) -> BlockHashes {
    BlockHashes { forward: forward.to_string(), reverse: reverse.to_string() }
}

fn checks() -> SendChecks {
    SendChecks { dm_block_hashes: hashes("fwd", "rev"), tier_ok: true, rate_ok: true, auto_mod: AutoModAction::Allow, mentions: no_mentions() }
}

fn role(id: &str, bits: u64, default: bool) -> ServerRole {
    ServerRole {
        id: id.to_string(),
        server_id: "srv".to_string(),
        name: id.to_string(),
        color: String::new(),
        permissions: bits,
        sort_order: 0,
        is_default: default,
        mentionable: false,
        created_at: 0,
    }
}

fn override_for(id: &str, kind: &str, target: &str, allow: u64, deny: u64) -> ChannelOverride {
    ChannelOverride {
        id: id.to_string(),
        room_id: "hall".to_string(),
        target_type: kind.to_string(),
        target_id: target.to_string(),
        allow,
        deny,
    }
}

fn guild() -> ChatDb {
    let mut db = ChatDb::new();
    for u in ["owner", "bob", "carol"] {
        db.chat_users.push(user(u, false));
        db.server_members.push(server_member("srv", u, if u == "owner" { "owner" } else { "member" }));
    }
    db.server_roles.push(role("everyone", PERM_SEND_MESSAGES, true));
    let mut hall = room("hall", "hall", false);
    hall.server_id = Some("srv".to_string());
    db.rooms.push(hall);
    for u in ["owner", "bob", "carol"] {
        db.room_members.push(member("hall", u));
    }
    db
}

fn send(db: &mut ChatDb, who: &str, id: &str) -> Result<(), ChatError> {
    send_message(db, &caller(Some(who), false, false), 1, id.to_string(), "hall".to_string(), "hi".to_string(), None, checks())
}

#[test]
fn everyone_bits_let_members_send() {
    let mut db = guild();
    assert_eq!(send(&mut db, "bob", "m1"), Ok(()));
}

#[test]
fn a_member_deny_overrides_the_roles() {
    let mut db = guild();
    db.channel_overrides.push(override_for("o1", "member", "bob", 0, PERM_SEND_MESSAGES));
    assert_eq!(send(&mut db, "bob", "m1"), Err(ChatError::NotPermitted));
    // Others are unaffected, and the server owner may always send.
    assert_eq!(send(&mut db, "carol", "m2"), Ok(()));
    db.channel_overrides.push(override_for("o2", "member", "owner", 0, PERM_SEND_MESSAGES));
    assert_eq!(send(&mut db, "owner", "m3"), Ok(()));
}

#[test]
fn a_member_allow_comes_last() {
    let mut db = guild();
    db.server_roles[0].permissions = 0;
    assert_eq!(send(&mut db, "bob", "m1"), Err(ChatError::NotPermitted));
    db.channel_overrides.push(override_for("o1", "member", "bob", PERM_SEND_MESSAGES, PERM_SEND_MESSAGES));
    assert_eq!(send(&mut db, "bob", "m1"), Ok(()));
}

#[test]
fn role_overrides_apply_to_holders_of_the_role() {
    let mut db = guild();
    db.server_roles.push(role("muted", 0, false));
    db.member_roles.push(MemberRole { id: "a1".to_string(), server_id: "srv".to_string(), user_id: "bob".to_string(),
        role_id: "muted".to_string(), assigned_at: 0 });
    db.channel_overrides.push(override_for("o1", "role", "muted", 0, PERM_SEND_MESSAGES));
    assert_eq!(send(&mut db, "bob", "m1"), Err(ChatError::NotPermitted));
    assert_eq!(send(&mut db, "carol", "m2"), Ok(()));
}

#[test]
fn administrators_bypass_every_override() {
    let mut db = guild();
    db.server_roles.push(role("admins", PERM_ADMINISTRATOR, false));
    db.member_roles.push(MemberRole { id: "a1".to_string(), server_id: "srv".to_string(), user_id: "carol".to_string(),
        role_id: "admins".to_string(), assigned_at: 0 });
    db.channel_overrides.push(override_for("o1", "member", "carol", 0, PERM_SEND_MESSAGES));
    assert_eq!(send(&mut db, "carol", "m1"), Ok(()));
    let carol = caller(Some("carol"), false, false);
    assert_eq!(create_server_emoji(&mut db, &carol, 1, "e1".to_string(), "srv".to_string(), "wave".to_string(),
        "x".to_string(), false), Ok(()));
}

#[test]
fn an_assigned_role_grants_its_bits() {
    let mut db = guild();
    let bob = caller(Some("bob"), false, false);
    assert_eq!(create_server_emoji(&mut db, &bob, 1, "e1".to_string(), "srv".to_string(), "wave".to_string(),
        "x".to_string(), false), Err(ChatError::NotPermitted));
    db.server_roles.push(role("emoji", PERM_MANAGE_EMOJIS, false));
    db.member_roles.push(MemberRole { id: "a1".to_string(), server_id: "srv".to_string(), user_id: "bob".to_string(),
        role_id: "emoji".to_string(), assigned_at: 0 });
    assert_eq!(create_server_emoji(&mut db, &bob, 1, "e1".to_string(), "srv".to_string(), "wave".to_string(),
        "x".to_string(), false), Ok(()));
}

#[test]
fn a_role_allow_wins_over_a_role_deny() {
    let mut db = guild();
    db.server_roles.push(role("muted", 0, false));
    db.server_roles.push(role("speaker", 0, false));
    for (id, r) in [("a1", "muted"), ("a2", "speaker")] {
        db.member_roles.push(MemberRole { id: id.to_string(), server_id: "srv".to_string(), user_id: "bob".to_string(),
            role_id: r.to_string(), assigned_at: 0 });
    }
    db.channel_overrides.push(override_for("o1", "role", "muted", 0, PERM_SEND_MESSAGES));
    db.channel_overrides.push(override_for("o2", "role", "speaker", PERM_SEND_MESSAGES, 0));
    assert_eq!(send(&mut db, "bob", "m1"), Ok(()));
}
