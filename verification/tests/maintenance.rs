use nexus_chat::context::{Caller, ChatError};
use nexus_chat::db::ChatDb;
use nexus_chat::reducers::agents::{admin_backfill_swarm_member_flag, seed_agent_spawn_limits};
use nexus_chat::reducers::bot_placement::{
    add_own_agent_to_room, add_own_agent_to_server, remove_own_agent_from_room, remove_own_agent_from_server,
};
use nexus_chat::reducers::dm_migration::migrate_dm_rooms;
use nexus_chat::reducers::index_backfill::{backfill_message_edit_room_index, backfill_reaction_room_index};
use nexus_chat::reducers::servers::admin_add_to_server;
use nexus_chat::reducers::sessions::register_identity_link;
use nexus_chat::tables::{
    AgentSpawnLimit, ChatServer, ChatUser, Message, MessageEdit, Reaction, ReactionRoomIndex, Room, RoomMember, ServerMember,
    UserIdentityLink,
};

fn user(id: &str, bot: bool) -> ChatUser {
    ChatUser {
        user_id: id.to_string(),
        stdb_identity: format!("ident-{}", id),
        display_name: id.to_string(),
        status: "online".to_string(),
        online: true,
        last_message_at: 0,
        last_typing_at: 0,
        last_seen_at: 0,
        created_at: 0,
        tier: None,
        avatar_data: None,
        custom_status: None,
        custom_status_emoji: None,
        platform_role: None,
        is_bot: if bot { Some(true) } else { None },
        is_platform_agent: None,
        bot_owner_user_id: None,
        is_swarm_member: None,
        is_steward_projection: None,
    }
}

fn room(id: &str, name: &str, dm: bool) -> Room {
    Room {
        id: id.to_string(),
        name: name.to_string(),
        created_by: "system".to_string(),
        is_private: dm,
        is_dm: dm,
        created_at: 0,
        server_id: None,
        required_tier: None,
        description: None,
        sort_order: None,
        room_type: "text".to_string(),
        category_id: None,
        topic: None,
        slowmode_seconds: None,
        nsfw: false,
        parent_room_id: None,
        archived: false,
        locked: false,
        auto_archive_minutes: None,
        default_sort_order: None,
        allow_attachments: None,
        allow_embeds: None,
        allow_reactions: None,
        rules_text: None,
    }
}

fn member(room: &str, user: &str) -> RoomMember {
    RoomMember {
        id: format!("{}-{}", room, user),
        room_id: room.to_string(),
        user_id: user.to_string(),
        role: "member".to_string(),
        joined_at: 0,
    }
}

fn message(id: &str, room: &str, author: &str) -> Message {
    Message {
        id: id.to_string(),
        room_id: room.to_string(),
        author_id: author.to_string(),
        content: "hi".to_string(),
        created_at: 0,
        edited_at: None,
        parent_message_id: None,
        is_ephemeral: false,
        expires_at: None,
        message_type: "default".to_string(),
        reply_to_id: None,
        sticker_ids: None,
        mention_everyone: false,
        mentioned_user_ids: None,
        mentioned_role_ids: None,
        flags: 0,
        is_bot_author: None,
    }
}

fn caller(user: Option<&str>, admin: bool, system: bool) -> Caller {
    Caller {
        user_id: user.map(|u| u.to_string()),
        identity: "caller-ident".to_string(),
        is_platform_admin: admin,
        is_system: system,
    }
}

fn server_member(server: &str, user: &str, role: &str) -> ServerMember {
    ServerMember {
        id: format!("{}-{}", server, user),
        server_id: server.to_string(),
        user_id: user.to_string(),
        role: role.to_string(),
        joined_at: 0,
        nickname: None,
        timeout_until: None,
        deaf: false,
        mute: false,
    }
}

fn chat_server(id: &str, owner: &str) -> ChatServer {
    ChatServer {
        id: id.to_string(),
        name: id.to_string(),
        description: String::new(),
        audience_id: String::new(),
        owner_user_id: owner.to_string(),
        is_public: true,
        default_tier: "free".to_string(),
        icon_url: String::new(),
        created_at: 0,
        updated_at: 0,
        template: None,
    }
}

fn server_room(id: &str, server: &str, private: bool) -> Room {
    let mut r = room(id, id, false);
    r.server_id = Some(server.to_string());
    r.is_private = private;
    r
}

#[test]
fn seeding_spawn_limits_keeps_existing_rows_and_is_idempotent() {
    let mut db = ChatDb::new();
    db.agent_spawn_limits.push(AgentSpawnLimit { tier: "pro".to_string(), max_concurrent_agents: 7, bot_rate_limit_ms: None, max_servers: None });
    assert_eq!(seed_agent_spawn_limits(&mut db, &caller(Some("u"), false, false)), Err(ChatError::NotPermitted));
    assert_eq!(db.agent_spawn_limits.len(), 1);
    let admin = caller(Some("root"), true, false);
    assert_eq!(seed_agent_spawn_limits(&mut db, &admin), Ok(()));
    let tiers: Vec<(String, u32)> = db.agent_spawn_limits.iter().map(|l| (l.tier.clone(), l.max_concurrent_agents)).collect();
    assert_eq!(tiers, vec![
        ("pro".to_string(), 7),
        ("free".to_string(), 0),
        ("creator".to_string(), 10),
        ("team".to_string(), 25),
        ("admin".to_string(), 1000),
        ("developer".to_string(), 1000),
    ]);
    assert_eq!(db.agent_spawn_limits[1].bot_rate_limit_ms, Some(5000));
    assert_eq!(db.agent_spawn_limits[2].max_servers, Some(10));
    assert_eq!(seed_agent_spawn_limits(&mut db, &admin), Ok(()));
    assert_eq!(db.agent_spawn_limits.len(), 6);
}

#[test]
fn swarm_flags_are_set_once_on_swarm_bots_only() {
    let mut db = ChatDb::new();
    db.chat_users.push(user("swarm-bot-1", true));
    db.chat_users.push(user("swarm-bot-2", false));
    db.chat_users.push(user("helper", true));
    let mut done = user("swarm-bot-3", true);
    done.is_swarm_member = Some(false);
    db.chat_users.push(done);
    assert_eq!(admin_backfill_swarm_member_flag(&mut db, &caller(Some("u"), false, false)), Err(ChatError::NotPermitted));
    assert_eq!(db.chat_users[0].is_swarm_member, None);
    let admin = caller(Some("root"), true, false);
    assert_eq!(admin_backfill_swarm_member_flag(&mut db, &admin), Ok(()));
    let flags: Vec<Option<bool>> = db.chat_users.iter().map(|u| u.is_swarm_member).collect();
    assert_eq!(flags, vec![Some(true), None, None, Some(false)]);
    assert_eq!(admin_backfill_swarm_member_flag(&mut db, &admin), Ok(()));
    let again: Vec<Option<bool>> = db.chat_users.iter().map(|u| u.is_swarm_member).collect();
    assert_eq!(again, flags);
}

#[test]
fn reaction_index_backfill_skips_indexed_and_roomless_rows() {
    let mut db = ChatDb::new();
    let r = |id: &str, room: Option<&str>| Reaction { id: id.to_string(), message_id: "m".to_string(), user_id: "u".to_string(),
        emoji: "x".to_string(), created_at: 4, room_id: room.map(|s| s.to_string()) };
    db.reactions.push(r("r1", Some("a")));
    db.reactions.push(r("r2", None));
    db.reactions.push(r("r3", Some("b")));
    db.reaction_room_index.push(ReactionRoomIndex { reaction_id: "r3".to_string(), room_id: "old".to_string(),
        message_id: "m".to_string(), user_id: "u".to_string(), emoji: "x".to_string(), created_at: 4 });
    assert_eq!(backfill_reaction_room_index(&mut db, &caller(Some("u"), false, false)), Err(ChatError::NotPermitted));
    let admin = caller(Some("root"), true, false);
    assert_eq!(backfill_reaction_room_index(&mut db, &admin), Ok(()));
    let idx: Vec<(String, String)> = db.reaction_room_index.iter().map(|e| (e.reaction_id.clone(), e.room_id.clone())).collect();
    assert_eq!(idx, vec![("r3".to_string(), "old".to_string()), ("r1".to_string(), "a".to_string())]);
    assert_eq!(backfill_reaction_room_index(&mut db, &admin), Ok(()));
    assert_eq!(db.reaction_room_index.len(), 2);
}

#[test]
fn edit_index_backfill_copies_the_new_content() {
    let mut db = ChatDb::new();
    db.message_edits.push(MessageEdit { id: "e1".to_string(), message_id: "m".to_string(), editor_id: "u".to_string(),
        old_content: "a".to_string(), new_content: "b".to_string(), edited_at: 9, room_id: Some("room".to_string()) });
    let admin = caller(Some("root"), true, false);
    assert_eq!(backfill_message_edit_room_index(&mut db, &admin), Ok(()));
    assert_eq!(db.message_edit_room_index.len(), 1);
    assert_eq!(db.message_edit_room_index[0].new_content, "b");
    assert_eq!(db.message_edit_room_index[0].edited_at, 9);
    assert_eq!(backfill_message_edit_room_index(&mut db, &admin), Ok(()));
    assert_eq!(db.message_edit_room_index.len(), 1);
}

#[test]
fn the_first_link_of_an_identity_wins() {
    let mut db = ChatDb::new();
    register_identity_link(&mut db, &"id-1".to_string(), &"alice".to_string(), 1);
    register_identity_link(&mut db, &"id-1".to_string(), &"mallory".to_string(), 2);
    assert_eq!(db.user_identity_links.len(), 1);
    assert_eq!(db.user_identity_links[0].user_id, "alice");
    assert_eq!(db.user_identity_links[0].linked_at, 1);
}

#[test]
fn a_user_keeps_the_ten_newest_links() {
    let mut db = ChatDb::new();
    for i in 0..10u64 {
        db.user_identity_links.push(UserIdentityLink { stdb_identity: format!("id-{}", i), user_id: "alice".to_string(), linked_at: 100 - i });
    }
    db.user_identity_links.push(UserIdentityLink { stdb_identity: "bob-1".to_string(), user_id: "bob".to_string(), linked_at: 0 });
    register_identity_link(&mut db, &"id-new".to_string(), &"alice".to_string(), 200);
    let alice: Vec<String> = db.user_identity_links.iter().filter(|l| l.user_id == "alice").map(|l| l.stdb_identity.clone()).collect();
    assert_eq!(alice.len(), 10);
    // The oldest link (linked at 91) is the one dropped.
    assert!(!alice.contains(&"id-9".to_string()));
    assert!(alice.contains(&"id-new".to_string()));
    assert!(db.user_identity_links.iter().any(|l| l.stdb_identity == "bob-1"));
}

fn bot_of(id: &str, owner: &str) -> ChatUser {
    let mut b = user(id, true);
    b.bot_owner_user_id = Some(owner.to_string());
    b
}

fn placement_world() -> ChatDb {
    let mut db = ChatDb::new();
    db.chat_users.push(user("owner", false));
    db.chat_users.push(bot_of("bot", "owner"));
    db.chat_users.push(user("plain", false));
    db.chat_servers.push(chat_server("srv", "owner"));
    db.server_members.push(server_member("srv", "owner", "owner"));
    db.rooms.push(server_room("pub1", "srv", false));
    db.rooms.push(server_room("pub2", "srv", false));
    db.rooms.push(server_room("priv", "srv", true));
    db.room_members.push(member("pub1", "owner"));
    db.room_members.push(member("priv", "owner"));
    db
}

#[test]
fn an_owner_places_a_bot_in_a_server_and_its_rooms() {
    let mut db = placement_world();
    let owner = caller(Some("owner"), false, false);
    assert_eq!(add_own_agent_to_server(&mut db, &caller(Some("plain"), false, false), 5, "bot".to_string(), "srv".to_string()),
        Err(ChatError::NotPermitted));
    assert_eq!(add_own_agent_to_server(&mut db, &owner, 5, "plain".to_string(), "srv".to_string()), Err(ChatError::NotPermitted));
    assert_eq!(add_own_agent_to_server(&mut db, &owner, 5, "ghost".to_string(), "srv".to_string()), Err(ChatError::NotFound));
    assert_eq!(add_own_agent_to_server(&mut db, &owner, 5, "bot".to_string(), "nosrv".to_string()), Err(ChatError::NotFound));
    assert_eq!(add_own_agent_to_server(&mut db, &owner, 5, "bot".to_string(), "srv".to_string()), Ok(true));
    assert!(db.server_members.iter().any(|m| m.id == "srv-bot" && m.role == "member" && m.joined_at == 5));
    // Only the public room the owner is in.
    let rooms: Vec<String> = db.room_members.iter().filter(|m| m.user_id == "bot").map(|m| m.id.clone()).collect();
    assert_eq!(rooms, vec!["pub1:bot".to_string()]);
    assert_eq!(add_own_agent_to_server(&mut db, &owner, 6, "bot".to_string(), "srv".to_string()), Ok(false));
    assert_eq!(db.server_members.len(), 2);
}

#[test]
fn an_owner_places_and_removes_a_bot_in_rooms() {
    let mut db = placement_world();
    let owner = caller(Some("owner"), false, false);
    // The bot must belong to the server first.
    assert_eq!(add_own_agent_to_room(&mut db, &owner, 1, "bot".to_string(), "pub1".to_string()), Err(ChatError::NotPermitted));
    db.server_members.push(server_member("srv", "bot", "member"));
    assert_eq!(add_own_agent_to_room(&mut db, &owner, 1, "bot".to_string(), "pub2".to_string()), Err(ChatError::NotPermitted));
    assert_eq!(add_own_agent_to_room(&mut db, &owner, 1, "bot".to_string(), "priv".to_string()), Ok(true));
    assert_eq!(add_own_agent_to_room(&mut db, &owner, 2, "bot".to_string(), "priv".to_string()), Ok(false));
    assert_eq!(add_own_agent_to_room(&mut db, &owner, 2, "bot".to_string(), "pub1".to_string()), Ok(true));
    assert_eq!(remove_own_agent_from_room(&mut db, &owner, "bot".to_string(), "priv".to_string()), Ok(()));
    let rooms: Vec<String> = db.room_members.iter().filter(|m| m.user_id == "bot").map(|m| m.room_id.clone()).collect();
    assert_eq!(rooms, vec!["pub1".to_string()]);
    assert_eq!(remove_own_agent_from_server(&mut db, &owner, "bot".to_string(), "srv".to_string()), Ok(()));
    assert!(db.room_members.iter().all(|m| m.user_id != "bot"));
    assert!(db.server_members.iter().all(|m| m.user_id != "bot"));
    assert_eq!(remove_own_agent_from_room(&mut db, &caller(None, false, false), "bot".to_string(), "pub1".to_string()),
        Err(ChatError::NotRegistered));
}

#[test]
fn an_admin_adds_a_user_to_a_server_lifting_a_ban() {
    let mut db = placement_world();
    db.server_members.push(server_member("srv", "plain", "banned"));
    assert_eq!(admin_add_to_server(&mut db, &caller(Some("owner"), false, false), 3, "srv".to_string(), "plain".to_string()),
        Err(ChatError::NotPermitted));
    let admin = caller(Some("root"), true, false);
    assert_eq!(admin_add_to_server(&mut db, &admin, 3, "srv".to_string(), "nobody".to_string()), Err(ChatError::NotFound));
    assert_eq!(admin_add_to_server(&mut db, &admin, 3, "srv".to_string(), "plain".to_string()), Ok(()));
    let m: Vec<(String, String)> = db.server_members.iter().filter(|m| m.user_id == "plain").map(|m| (m.id.clone(), m.role.clone())).collect();
    assert_eq!(m, vec![("srv-plain".to_string(), "member".to_string())]);
    let rooms: Vec<String> = db.room_members.iter().filter(|m| m.user_id == "plain").map(|m| m.id.clone()).collect();
    assert_eq!(rooms, vec!["pub1-plain".to_string(), "pub2-plain".to_string()]);
    // Running it again adds nothing.
    assert_eq!(admin_add_to_server(&mut db, &admin, 4, "srv".to_string(), "plain".to_string()), Ok(()));
    assert_eq!(db.room_members.iter().filter(|m| m.user_id == "plain").count(), 2);
}

#[test]
fn dm_rooms_are_cleaned_up() {
    let mut db = ChatDb::new();
    db.rooms.push(room("empty", "old", true));
    db.rooms.push(room("d1", "legacy name", true));
    db.rooms.push(room("d2", "dup", true));
    db.rooms.push(room("d3", "group", true));
    db.rooms.push(room("plain", "plain", false));
    db.room_members.push(member("d1", "zed"));
    db.room_members.push(member("d1", "amy"));
    db.room_members.push(member("d2", "amy"));
    db.room_members.push(member("d2", "zed"));
    db.room_members.push(member("d3", "amy"));
    db.messages.push(message("m", "d2", "amy"));
    assert_eq!(migrate_dm_rooms(&mut db, &caller(None, false, false)), Err(ChatError::NotPermitted));
    assert_eq!(migrate_dm_rooms(&mut db, &caller(Some("amy"), false, false)), Err(ChatError::NotPermitted));
    assert_eq!(db.rooms.len(), 5);
    assert_eq!(migrate_dm_rooms(&mut db, &caller(Some("amy"), true, false)), Ok(()));
    // The empty room goes; d1 (no messages) gives way to d2, which is renamed.
    let rooms: Vec<(String, String)> = db.rooms.iter().map(|r| (r.id.clone(), r.name.clone())).collect();
    assert_eq!(rooms, vec![
        ("d3".to_string(), "group".to_string()),
        ("plain".to_string(), "plain".to_string()),
        ("d2".to_string(), "dm:amy:zed".to_string()),
    ]);
    assert!(db.room_members.iter().all(|m| m.room_id != "d1"));
    // Running it again changes nothing.
    let names: Vec<String> = db.rooms.iter().map(|r| r.name.clone()).collect();
    assert_eq!(migrate_dm_rooms(&mut db, &caller(None, false, true)), Ok(()));
    let again: Vec<String> = db.rooms.iter().map(|r| r.name.clone()).collect();
    assert_eq!(again, names);
}
