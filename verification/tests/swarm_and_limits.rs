use nexus_chat::context::{Caller, ChatError};
use nexus_chat::db::ChatDb;
use nexus_chat::json::JsonValue;
use nexus_chat::reducers::agents::provision_user_agent;
use nexus_chat::reducers::personal::block_user;
use nexus_chat::reducers::community::create_server_emoji;
use nexus_chat::reducers::swarm::{system_add_bot_to_server, system_bulk_provision_swarm};
use nexus_chat::tables::{AgentSpawnLimit, ChatServer, ChatUser, Room, ServerEmoji, ServerMember, UserBlock};

fn user(id: &str, bot: bool) -> ChatUser {
    ChatUser {
        user_id: id.to_string(),
        stdb_identity: format!("ident-{}", id),
        display_name: id.to_string(),
        status: "online".to_string(),
        online: true,
        last_message_at: 0,
        last_typing_at: 0,
        last_seen_at: 0,
        created_at: 0,
        tier: None,
        avatar_data: None,
        custom_status: None,
        custom_status_emoji: None,
        platform_role: None,
        is_bot: if bot { Some(true) } else { None },
        is_platform_agent: None,
        bot_owner_user_id: None,
        is_swarm_member: None,
        is_steward_projection: None,
    }
}

fn room(id: &str, name: &str, dm: bool) -> Room {
    Room {
        id: id.to_string(),
        name: name.to_string(),
        created_by: "system".to_string(),
        is_private: dm,
        is_dm: dm,
        created_at: 0,
        server_id: None,
        required_tier: None,
        description: None,
        sort_order: None,
        room_type: "text".to_string(),
        category_id: None,
        topic: None,
        slowmode_seconds: None,
        nsfw: false,
        parent_room_id: None,
        archived: false,
        locked: false,
        auto_archive_minutes: None,
        default_sort_order: None,
        allow_attachments: None,
        allow_embeds: None,
        allow_reactions: None,
        rules_text: None,
    }
}

fn caller(user: Option<&str>, admin: bool, system: bool) -> Caller {
    Caller {
        user_id: user.map(|u| u.to_string()),
        identity: "caller-ident".to_string(),
        is_platform_admin: admin,
        is_system: system,
    }
}

fn server_member(server: &str, user: &str, role: &str) -> ServerMember {
    ServerMember {
        id: format!("{}-{}", server, user),
        server_id: server.to_string(),
        user_id: user.to_string(),
        role: role.to_string(),
        joined_at: 0,
        nickname: None,
        timeout_until: None,
        deaf: false,
        mute: false,
    }
}

fn bot_spec(id: &str, name: &str, rooms: &[&str]) -> JsonValue {
    JsonValue::Object(vec![
        ("bot_user_id".to_string(), JsonValue::Str(id.to_string())),
        ("display_name".to_string(), JsonValue::Str(name.to_string())),
        ("persona_prompt".to_string(), JsonValue::Object(vec![("some".to_string(), JsonValue::Str("calm".to_string()))])),
        ("rooms".to_string(), JsonValue::Array(rooms.iter().map(|r| JsonValue::Str(r.to_string())).collect())),
    ])
}

fn swarm_world() -> ChatDb {
    let mut db = ChatDb::new();
    db.chat_users.push(user("owner", false));
    db.chat_servers.push(ChatServer {
        id: "srv".to_string(), name: "srv".to_string(), description: String::new(), audience_id: String::new(),
        owner_user_id: "owner".to_string(), is_public: true, default_tier: "free".to_string(), icon_url: String::new(),
        created_at: 0, updated_at: 0, template: None,
    });
    let mut r1 = room("r1", "r1", false);
    r1.server_id = Some("srv".to_string());
    db.rooms.push(r1);
    db.rooms.push(room("elsewhere", "elsewhere", false));
    db
}

#[test]
fn a_second_bulk_provisioning_adds_no_rows() {
    let mut db = swarm_world();
    let admin = caller(Some("root"), true, false);
    let bots = JsonValue::Array(vec![bot_spec("b1", "Bee One", &["r1", "elsewhere"]), bot_spec("b2", "Bee Two", &[])]);
    assert_eq!(system_bulk_provision_swarm(&mut db, &caller(Some("x"), false, false), 5, "t".to_string(), "srv".to_string(),
        "owner".to_string(), Some(bots.clone_list())), Err(ChatError::NotPermitted));
    assert_eq!(system_bulk_provision_swarm(&mut db, &admin, 5, "t".to_string(), "srv".to_string(), "owner".to_string(), None),
        Err(ChatError::Invalid));
    assert_eq!(system_bulk_provision_swarm(&mut db, &admin, 5, "t".to_string(), "nosrv".to_string(), "owner".to_string(),
        Some(bots.clone_list())), Err(ChatError::NotFound));
    assert_eq!(system_bulk_provision_swarm(&mut db, &admin, 5, "t".to_string(), "srv".to_string(), "owner".to_string(),
        Some(bots.clone_list())), Ok(()));
    assert_eq!(db.chat_users.len(), 3);
    assert_eq!(db.agent_credentials.len(), 2);
    assert_eq!(db.server_members.len(), 2);
    // Only the listed room that belongs to the server is joined.
    let rooms: Vec<String> = db.room_members.iter().map(|m| m.id.clone()).collect();
    assert_eq!(rooms, vec!["r1-b1".to_string()]);
    assert_eq!(db.agent_configs.len(), 2);
    assert_eq!(db.agent_configs[0].persona_prompt, Some("calm".to_string()));
    let users = db.chat_users.len();
    let members = db.room_members.len();
    assert_eq!(system_bulk_provision_swarm(&mut db, &admin, 9, "t".to_string(), "srv".to_string(), "owner".to_string(),
        Some(bots.clone_list())), Ok(()));
    assert_eq!(db.chat_users.len(), users);
    assert_eq!(db.agent_credentials.len(), 2);
    assert_eq!(db.server_members.len(), 2);
    assert_eq!(db.room_members.len(), members);
    // The configurations already hold the given identity: none is written again.
    assert!(db.agent_configs.iter().all(|c| c.updated_at == 5));
    let order: Vec<String> = db.agent_configs.iter().map(|c| c.agent_user_id.clone()).collect();
    assert_eq!(order, vec!["b1".to_string(), "b2".to_string()]);
    // A description with a new persona rewrites that bot's configuration only.
    let mut changed = bot_spec("b1", "Bee One", &["r1"]);
    if let JsonValue::Object(fields) = &mut changed {
        fields[2].1 = JsonValue::Object(vec![("some".to_string(), JsonValue::Str("bold".to_string()))]);
    }
    assert_eq!(system_bulk_provision_swarm(&mut db, &admin, 12, "t".to_string(), "srv".to_string(), "owner".to_string(),
        Some(JsonValue::Array(vec![changed]))), Ok(()));
    let b1 = db.agent_configs.iter().find(|c| c.agent_user_id == "b1").unwrap();
    assert_eq!(b1.persona_prompt, Some("bold".to_string()));
    assert_eq!(b1.updated_at, 12);
    let b2 = db.agent_configs.iter().find(|c| c.agent_user_id == "b2").unwrap();
    assert_eq!(b2.updated_at, 5);
}

trait CloneList {
    fn clone_list(&self) -> JsonValue;
}

impl CloneList for JsonValue {
    fn clone_list(&self) -> JsonValue {
        match self {
            JsonValue::Array(items) => JsonValue::Array(items.iter().map(|i| i.clone_list()).collect()),
            JsonValue::Object(fields) => JsonValue::Object(fields.iter().map(|(k, v)| (k.clone(), v.clone_list())).collect()),
            JsonValue::Str(s) => JsonValue::Str(s.clone()),
            JsonValue::Number(n) => JsonValue::Number(*n),
            JsonValue::Bool(b) => JsonValue::Bool(*b),
            JsonValue::Null => JsonValue::Null,
        }
    }
}

#[test]
fn a_user_is_held_to_two_hundred_blocks() {
    let mut db = ChatDb::new();
    db.chat_users.push(user("alice", false));
    for i in 0..200u64 {
        db.user_blocks.push(UserBlock { id: format!("alice:h{}", i), blocker_id: "alice".to_string(), blocked_id: format!("h{}", i), created_at: i });
    }
    let alice = caller(Some("alice"), false, false);
    assert_eq!(block_user(&mut db, &alice, 1, "bob".to_string(), "hb".to_string()), Err(ChatError::LimitReached));
    // An existing block is still acknowledged.
    assert_eq!(block_user(&mut db, &alice, 1, "x".to_string(), "h3".to_string()), Ok(()));
    assert_eq!(db.user_blocks.len(), 200);
}

#[test]
fn a_server_is_held_to_fifty_emojis() {
    let mut db = ChatDb::new();
    db.server_members.push(server_member("srv", "alice", "owner"));
    for i in 0..50u64 {
        db.server_emojis.push(ServerEmoji { id: format!("e{}", i), server_id: "srv".to_string(), name: format!("e{}", i),
            image_data: String::new(), animated: false, uploaded_by: "alice".to_string(), created_at: 0 });
    }
    let alice = caller(Some("alice"), false, false);
    assert_eq!(create_server_emoji(&mut db, &alice, 1, "new".to_string(), "srv".to_string(), "fresh".to_string(),
        "x".to_string(), false), Err(ChatError::LimitReached));
    assert_eq!(db.server_emojis.len(), 50);
}

#[test]
fn agents_count_against_the_tier_quota() {
    let mut db = ChatDb::new();
    let mut me = user("alice", false);
    me.tier = Some("pro".to_string());
    db.chat_users.push(me);
    db.agent_spawn_limits.push(AgentSpawnLimit { tier: "pro".to_string(), max_concurrent_agents: 1, bot_rate_limit_ms: None, max_servers: None });
    let alice = caller(Some("alice"), false, false);
    assert_eq!(provision_user_agent(&mut db, &alice, 1, "a1".to_string(), "Helper One".to_string(), "s".to_string()), Ok(()));
    assert_eq!(db.chat_users[1].is_bot, Some(true));
    assert_eq!(db.chat_users[1].bot_owner_user_id, Some("alice".to_string()));
    assert_eq!(provision_user_agent(&mut db, &alice, 2, "a2".to_string(), "Helper Two".to_string(), "s".to_string()),
        Err(ChatError::LimitReached));
    assert_eq!(db.agent_credentials.len(), 1);
}

#[test]
fn two_descriptions_of_one_bot_are_written_on_every_run() {
    let mut db = swarm_world();
    let admin = caller(Some("root"), true, false);
    let mut bold = bot_spec("b1", "Bee One", &[]);
    if let JsonValue::Object(fields) = &mut bold {
        fields[2].1 = JsonValue::Object(vec![("some".to_string(), JsonValue::Str("bold".to_string()))]);
    }
    let bots = JsonValue::Array(vec![bot_spec("b1", "Bee One", &[]), bold]);
    assert_eq!(system_bulk_provision_swarm(&mut db, &admin, 5, "t".to_string(), "srv".to_string(), "owner".to_string(),
        Some(bots.clone_list())), Ok(()));
    assert_eq!(db.agent_configs.len(), 1);
    assert_eq!(db.agent_configs[0].persona_prompt, Some("bold".to_string()));
    assert_eq!(system_bulk_provision_swarm(&mut db, &admin, 9, "t".to_string(), "srv".to_string(), "owner".to_string(),
        Some(bots.clone_list())), Ok(()));
    // The same persona in the end, but written again.
    assert_eq!(db.agent_configs[0].persona_prompt, Some("bold".to_string()));
    assert_eq!(db.agent_configs[0].updated_at, 9);
}

#[test]
fn an_added_bot_joins_the_listed_rooms_of_the_server() {
    let mut db = swarm_world();
    db.chat_users.push(user("b1", true));
    let admin = caller(Some("root"), true, false);
    let ids = r#"["r1","elsewhere","missing"]"#.to_string();
    assert_eq!(system_add_bot_to_server(&mut db, &caller(Some("x"), false, false), 3, "t".to_string(), "b1".to_string(),
        "srv".to_string(), ids.clone()), Err(ChatError::NotPermitted));
    assert_eq!(system_add_bot_to_server(&mut db, &admin, 3, "t".to_string(), "owner".to_string(), "srv".to_string(), ids.clone()),
        Err(ChatError::Invalid));
    assert_eq!(system_add_bot_to_server(&mut db, &admin, 3, "t".to_string(), "b1".to_string(), "nosrv".to_string(), ids.clone()),
        Err(ChatError::NotFound));
    assert_eq!(system_add_bot_to_server(&mut db, &admin, 3, "t".to_string(), "b1".to_string(), "srv".to_string(), ids.clone()),
        Ok(()));
    let server_members: Vec<String> = db.server_members.iter().map(|m| m.id.clone()).collect();
    assert_eq!(server_members, vec!["srv-b1".to_string()]);
    // Only the listed room of this server is joined; adding again adds nothing.
    let rooms: Vec<String> = db.room_members.iter().map(|m| m.id.clone()).collect();
    assert_eq!(rooms, vec!["r1-b1".to_string()]);
    assert_eq!(system_add_bot_to_server(&mut db, &admin, 4, "t".to_string(), "b1".to_string(), "srv".to_string(), ids), Ok(()));
    assert_eq!(db.room_members.len(), 1);
    assert_eq!(db.server_members.len(), 1);
}
