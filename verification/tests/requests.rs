use nexus_chat::context::{Caller, ChatError};
use nexus_chat::db::ChatDb;
use nexus_chat::reducers::personal::BlockHashes;
use nexus_chat::reducers::private_rooms::start_dm;
use nexus_chat::reducers::server_setup::create_user_server;
use nexus_chat::reducers::swarm::system_write_agent_identity;
use nexus_chat::reducers::system::system_start_bot_typing;
use nexus_chat::reducers::user_bus::{create_user_bus_channel, delete_user_bus_channel};
use nexus_chat::tables::{AgentConfig, AgentSpawnLimit, ChatUser, RoomMember, ScheduleAt, ServerMember, UserBlock};

fn user(id: &str, bot: bool) -> ChatUser {
    ChatUser {
        user_id: id.to_string(),
        stdb_identity: format!("ident-{}", id),
        display_name: id.to_string(),
        status: "online".to_string(),
        online: true,
        last_message_at: 0,
        last_typing_at: 0,
        last_seen_at: 0,
        created_at: 0,
        tier: None,
        avatar_data: None,
        custom_status: None,
        custom_status_emoji: None,
        platform_role: None,
        is_bot: if bot { Some(true) } else { None },
        is_platform_agent: None,
        bot_owner_user_id: None,
        is_swarm_member: None,
        is_steward_projection: None,
    }
}

fn caller(user: Option<&str>, admin: bool, system: bool) -> Caller {
    Caller {
        user_id: user.map(|u| u.to_string()),
        identity: "caller-ident".to_string(),
        is_platform_admin: admin,
        is_system: system,
    }
}

fn server_member(server: &str, user: &str, role: &str) -> ServerMember {
    ServerMember {
        id: format!("{}-{}", server, user),
        server_id: server.to_string(),
        user_id: user.to_string(),
        role: role.to_string(),
        joined_at: 0,
        nickname: None,
        timeout_until: None,
        deaf: false,
        mute: false,
    }
}

fn hashes(forward: &str, reverse: &str) -> BlockHashes {
    BlockHashes { forward: forward.to_string(), reverse: reverse.to_string() }
}

#[test]
fn a_second_start_of_a_dm_reuses_the_room() {
    let mut db = ChatDb::new();
    db.chat_users.push(user("amy", false));
    db.chat_users.push(user("zed", false));
    let zed = caller(Some("zed"), false, false);
    let amy = caller(Some("amy"), false, false);
    assert_eq!(start_dm(&mut db, &zed, 1, "dm1".to_string(), "zed".to_string(), hashes("a", "b")), Err(ChatError::Invalid));
    assert_eq!(start_dm(&mut db, &zed, 1, "dm1".to_string(), "amy".to_string(), hashes("a", "b")), Ok(()));
    assert_eq!(db.rooms.len(), 1);
    assert_eq!(db.rooms[0].name, "dm:amy:zed");
    assert!(db.rooms[0].is_dm && db.rooms[0].is_private);
    let members: Vec<(String, String)> = db.room_members.iter().map(|m| (m.user_id.clone(), m.role.clone())).collect();
    assert_eq!(members, vec![("zed".to_string(), "admin".to_string()), ("amy".to_string(), "admin".to_string())]);
    // The other user starts it again under another id: the same room serves.
    assert_eq!(start_dm(&mut db, &amy, 2, "dm2".to_string(), "zed".to_string(), hashes("c", "d")), Ok(()));
    assert_eq!(db.rooms.len(), 1);
    assert_eq!(db.rooms[0].id, "dm1");
    assert_eq!(db.rooms[0].name, "dm:amy:zed");
    assert_eq!(db.room_members.len(), 2);
}

#[test]
fn a_block_either_way_refuses_a_dm() {
    let mut db = ChatDb::new();
    db.chat_users.push(user("amy", false));
    db.chat_users.push(user("zed", false));
    // Zed blocked Amy, recorded under his hash of her.
    db.user_blocks.push(UserBlock { id: "zed:h-za".to_string(), blocker_id: "zed".to_string(), blocked_id: "h-za".to_string(), created_at: 0 });
    let amy = caller(Some("amy"), false, false);
    assert_eq!(start_dm(&mut db, &amy, 1, "dm1".to_string(), "zed".to_string(), hashes("h-az", "h-za")), Err(ChatError::NotPermitted));
    assert!(db.rooms.is_empty());
    // The same record refuses Zed too, as his forward hash.
    let zed = caller(Some("zed"), false, false);
    assert_eq!(start_dm(&mut db, &zed, 1, "dm1".to_string(), "amy".to_string(), hashes("h-za", "h-az")), Err(ChatError::NotPermitted));
    // Under other hashes there is no block.
    assert_eq!(start_dm(&mut db, &amy, 1, "dm1".to_string(), "zed".to_string(), hashes("x", "y")), Ok(()));
}

fn config(agent: &str) -> AgentConfig {
    AgentConfig {
        agent_user_id: agent.to_string(),
        owner_user_id: "owner".to_string(),
        persona_prompt: Some("calm".to_string()),
        personality_preset: None,
        default_model: Some("m".to_string()),
        temperature: None,
        max_tokens: None,
        can_send_messages: Some(false),
        can_reply_to_threads: None,
        can_react: None,
        can_send_gifs: None,
        can_share_vfs_files: None,
        can_share_vfs_media: None,
        can_use_embeds: None,
        can_create_polls: None,
        can_pin_messages: None,
        can_manage_threads: None,
        require_share_review: None,
        max_file_size_bytes: None,
        allowed_share_types: None,
        shares_per_hour: None,
        auto_respond_mentions: None,
        owner_only_mentions: None,
        respond_in_threads_only: None,
        max_responses_per_minute: None,
        max_message_length: None,
        heartbeat_interval_ms: None,
        loop_detection_enabled: None,
        mentorship_stage: None,
        created_at: 0,
        updated_at: 0,
        personality_vector_json: Some("[1]".to_string()),
        soul_document: Some("old soul".to_string()),
        domain: Some("old domain".to_string()),
        demographics_json: None,
    }
}

#[test]
fn writing_an_identity_overwrites_the_four_fields() {
    let mut db = ChatDb::new();
    db.chat_users.push(user("bot", true));
    db.agent_configs.push(config("bot"));
    let admin = caller(Some("root"), true, false);
    assert_eq!(system_write_agent_identity(&mut db, &caller(Some("x"), false, false), 7, "t".to_string(), "bot".to_string(),
        String::new(), String::new(), String::new(), String::new()), Err(ChatError::NotPermitted));
    assert_eq!(system_write_agent_identity(&mut db, &admin, 7, "t".to_string(), "nobody".to_string(),
        String::new(), String::new(), String::new(), String::new()), Err(ChatError::Invalid));
    assert_eq!(system_write_agent_identity(&mut db, &admin, 7, "t".to_string(), "bot".to_string(),
        "[2]".to_string(), "{}".to_string(), "new soul".to_string(), String::new()), Ok(()));
    assert_eq!(db.agent_configs.len(), 1);
    let c = &db.agent_configs[0];
    assert_eq!(c.personality_vector_json, Some("[2]".to_string()));
    assert_eq!(c.demographics_json, Some("{}".to_string()));
    assert_eq!(c.soul_document, Some("new soul".to_string()));
    // An empty text leaves the field without a value.
    assert_eq!(c.domain, None);
    assert_eq!(c.updated_at, 7);
    // The other settings stay.
    assert_eq!(c.persona_prompt, Some("calm".to_string()));
    assert_eq!(c.default_model, Some("m".to_string()));
    assert_eq!(c.can_send_messages, Some(false));
}

#[test]
fn a_bot_types_for_ten_seconds() {
    let mut db = ChatDb::new();
    db.chat_users.push(user("bot", true));
    db.chat_users.push(user("amy", false));
    let admin = caller(Some("root"), true, false);
    assert_eq!(system_start_bot_typing(&mut db, &admin, 1_000, "amy".to_string(), "lobby".to_string(), "t".to_string()),
        Err(ChatError::Invalid));
    assert_eq!(system_start_bot_typing(&mut db, &admin, 1_000, "bot".to_string(), "lobby".to_string(), "t".to_string()), Ok(()));
    assert_eq!(db.typing_indicators.len(), 1);
    assert_eq!(db.typing_indicators[0].id, "typing:lobby:bot");
    assert_eq!(db.typing_indicators[0].expires_at, 11_000);
    assert_eq!(db.typing_expiry_jobs.len(), 1);
    assert!(matches!(db.typing_expiry_jobs[0].scheduled_at, ScheduleAt::Time(11_000_000)));
    // Starting again refreshes the one marker.
    assert_eq!(system_start_bot_typing(&mut db, &admin, 2_000, "bot".to_string(), "lobby".to_string(), "t".to_string()), Ok(()));
    assert_eq!(db.typing_indicators.len(), 1);
    assert_eq!(db.typing_indicators[0].expires_at, 12_000);
}

#[test]
fn a_bus_channel_is_named_after_twelve_characters() {
    let mut db = ChatDb::new();
    let uid = "äöüäöüäöüäöüxyz";
    db.chat_users.push(user(uid, false));
    db.server_members.push(server_member("srv", uid, "member"));
    let me = caller(Some(uid), false, false);
    assert_eq!(create_user_bus_channel(&mut db, &me, 3, String::new(), false), Err(ChatError::Invalid));
    assert_eq!(create_user_bus_channel(&mut db, &me, 3, "other".to_string(), false), Err(ChatError::NotPermitted));
    assert_eq!(create_user_bus_channel(&mut db, &me, 3, "srv".to_string(), true), Ok(()));
    assert_eq!(db.rooms.len(), 1);
    assert_eq!(db.rooms[0].name, "bus-user-äöüäöüäöüäöü");
    assert_eq!(db.rooms[0].id, format!("bus-user-{}-srv", uid));
    assert!(db.rooms[0].is_private);
    assert_eq!(db.room_members.len(), 1);
    assert_eq!(db.room_members[0].role, "admin");
}

#[test]
fn a_server_admin_may_delete_a_bus_channel() {
    let mut db = ChatDb::new();
    db.chat_users.push(user("amy", false));
    db.server_members.push(server_member("srv", "amy", "member"));
    let amy = caller(Some("amy"), false, false);
    assert_eq!(create_user_bus_channel(&mut db, &amy, 3, "srv".to_string(), false), Ok(()));
    // The room under Amy's channel id was made by someone else.
    db.rooms[0].created_by = "zed".to_string();
    assert_eq!(delete_user_bus_channel(&mut db, &amy, "srv".to_string()), Err(ChatError::NotPermitted));
    assert_eq!(delete_user_bus_channel(&mut db, &amy, "none".to_string()), Err(ChatError::NotFound));
    // As an admin of the server she may.
    db.server_members[0].role = "admin".to_string();
    assert_eq!(delete_user_bus_channel(&mut db, &amy, "srv".to_string()), Ok(()));
    assert!(db.rooms.is_empty());
    assert!(db.room_members.is_empty());
}

#[test]
fn admin_and_developer_tiers_may_found_servers() {
    for tier in ["admin", "developer"] {
        let mut db = ChatDb::new();
        let mut u = user("amy", false);
        u.tier = Some(tier.to_string());
        db.chat_users.push(u);
        db.agent_spawn_limits.push(AgentSpawnLimit { tier: tier.to_string(), max_concurrent_agents: 1, bot_rate_limit_ms: None, max_servers: Some(1) });
        let amy = caller(Some("amy"), false, false);
        assert_eq!(create_user_server(&mut db, &amy, 1, "s1".to_string(), "Home".to_string(), true), Ok(()));
        assert_eq!(db.chat_servers.len(), 1);
        assert_eq!(db.chat_servers[0].owner_user_id, "amy");
        // The tier's quota of one server is used up.
        assert_eq!(create_user_server(&mut db, &amy, 2, "s2".to_string(), "Second".to_string(), true), Err(ChatError::LimitReached));
    }
    let mut db = ChatDb::new();
    let mut u = user("amy", false);
    u.tier = Some("free".to_string());
    db.chat_users.push(u);
    assert_eq!(create_user_server(&mut db, &caller(Some("amy"), false, false), 1, "s1".to_string(), "Home".to_string(), true),
        Err(ChatError::NotPermitted));
}

#[test]
fn a_stray_membership_of_the_new_room_id_defeats_the_reuse() {
    let mut db = ChatDb::new();
    db.chat_users.push(user("amy", false));
    db.chat_users.push(user("zed", false));
    // A membership row already names the room id the first start uses.
    db.room_members.push(RoomMember { id: "stray".to_string(), room_id: "dm1".to_string(), user_id: "cal".to_string(),
        role: "member".to_string(), joined_at: 0 });
    let zed = caller(Some("zed"), false, false);
    let amy = caller(Some("amy"), false, false);
    assert_eq!(start_dm(&mut db, &zed, 1, "dm1".to_string(), "amy".to_string(), hashes("a", "b")), Ok(()));
    // Room dm1 has three users, so it is no room of the pair: a second start makes another.
    assert_eq!(start_dm(&mut db, &amy, 2, "dm2".to_string(), "zed".to_string(), hashes("c", "d")), Ok(()));
    assert_eq!(db.rooms.len(), 2);
}
