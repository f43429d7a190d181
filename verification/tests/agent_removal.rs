use nexus_chat::context::{Caller, ChatError};
use nexus_chat::db::ChatDb;
use nexus_chat::reducers::agent_removal::{
    admin_force_delete_bot, agent_tree_ids, cleanup_idle_agents, deprovision_agent,
};
use nexus_chat::tables::{
    AgentCleanupJob, AgentConfig, AgentCredential, ChatUser, Message, Room, RoomMember, ScheduleAt, UserIdentityLink,
};

fn user(id: &str, bot: bool) -> ChatUser {
    ChatUser {
        user_id: id.to_string(),
        stdb_identity: format!("ident-{}", id),
        display_name: id.to_string(),
        status: "online".to_string(),
        online: true,
        last_message_at: 0,
        last_typing_at: 0,
        last_seen_at: 0,
        created_at: 0,
        tier: None,
        avatar_data: None,
        custom_status: None,
        custom_status_emoji: None,
        platform_role: None,
        is_bot: if bot { Some(true) } else { None },
        is_platform_agent: None,
        bot_owner_user_id: None,
        is_swarm_member: None,
        is_steward_projection: None,
    }
}

fn cred(agent: &str, owner: &str, parent: Option<&str>, last_active: u64) -> AgentCredential {
    AgentCredential {
        agent_user_id: agent.to_string(),
        owner_user_id: owner.to_string(),
        parent_agent_id: parent.map(|p| p.to_string()),
        owner_secret: "secret".to_string(),
        can_spawn: true,
        created_at: 0,
        last_active_at: last_active,
        is_platform_agent: None,
    }
}

fn config(agent: &str, owner: &str) -> AgentConfig {
    AgentConfig {
        agent_user_id: agent.to_string(),
        owner_user_id: owner.to_string(),
        persona_prompt: None,
        personality_preset: None,
        default_model: None,
        temperature: None,
        max_tokens: None,
        can_send_messages: None,
        can_reply_to_threads: None,
        can_react: None,
        can_send_gifs: None,
        can_share_vfs_files: None,
        can_share_vfs_media: None,
        can_use_embeds: None,
        can_create_polls: None,
        can_pin_messages: None,
        can_manage_threads: None,
        require_share_review: None,
        max_file_size_bytes: None,
        allowed_share_types: None,
        shares_per_hour: None,
        auto_respond_mentions: None,
        owner_only_mentions: None,
        respond_in_threads_only: None,
        max_responses_per_minute: None,
        max_message_length: None,
        heartbeat_interval_ms: None,
        loop_detection_enabled: None,
        mentorship_stage: None,
        created_at: 0,
        updated_at: 0,
        personality_vector_json: None,
        soul_document: None,
        domain: None,
        demographics_json: None,
    }
}

fn room(id: &str, name: &str, dm: bool) -> Room {
    Room {
        id: id.to_string(),
        name: name.to_string(),
        created_by: "system".to_string(),
        is_private: dm,
        is_dm: dm,
        created_at: 0,
        server_id: None,
        required_tier: None,
        description: None,
        sort_order: None,
        room_type: "text".to_string(),
        category_id: None,
        topic: None,
        slowmode_seconds: None,
        nsfw: false,
        parent_room_id: None,
        archived: false,
        locked: false,
        auto_archive_minutes: None,
        default_sort_order: None,
        allow_attachments: None,
        allow_embeds: None,
        allow_reactions: None,
        rules_text: None,
    }
}

fn member(room: &str, user: &str) -> RoomMember {
    RoomMember {
        id: format!("{}-{}", room, user),
        room_id: room.to_string(),
        user_id: user.to_string(),
        role: "member".to_string(),
        joined_at: 0,
    }
}

fn message(id: &str, room: &str, author: &str) -> Message {
    Message {
        id: id.to_string(),
        room_id: room.to_string(),
        author_id: author.to_string(),
        content: "hi".to_string(),
        created_at: 0,
        edited_at: None,
        parent_message_id: None,
        is_ephemeral: false,
        expires_at: None,
        message_type: "default".to_string(),
        reply_to_id: None,
        sticker_ids: None,
        mention_everyone: false,
        mentioned_user_ids: None,
        mentioned_role_ids: None,
        flags: 0,
        is_bot_author: None,
    }
}

fn caller(user: Option<&str>, admin: bool, system: bool) -> Caller {
    Caller {
        user_id: user.map(|u| u.to_string()),
        identity: "caller-ident".to_string(),
        is_platform_admin: admin,
        is_system: system,
    }
}

/// Owner "owner" with agent "agentA", its sub-agent "agentB", whose
/// sub-agent is "agentC"; "other" is an unrelated agent. A DM room names
/// agentB; "general" is a normal room.
fn fleet() -> ChatDb {
    let mut db = ChatDb::new();
    for (id, bot) in [("owner", false), ("agentA", true), ("agentB", true), ("agentC", true), ("other", true)] {
        db.chat_users.push(user(id, bot));
    }
    db.agent_credentials.push(cred("agentA", "owner", None, 0));
    db.agent_credentials.push(cred("agentB", "owner", Some("agentA"), 0));
    db.agent_credentials.push(cred("agentC", "owner", Some("agentB"), 0));
    db.agent_credentials.push(cred("other", "owner", None, 0));
    db.agent_configs.push(config("agentA", "owner"));
    db.agent_configs.push(config("agentC", "owner"));
    db.agent_configs.push(config("other", "owner"));
    db.user_identity_links.push(UserIdentityLink { stdb_identity: "i-a".to_string(), user_id: "agentA".to_string(), linked_at: 0 });
    db.user_identity_links.push(UserIdentityLink { stdb_identity: "i-o".to_string(), user_id: "other".to_string(), linked_at: 0 });
    db.rooms.push(room("general", "general", false));
    db.rooms.push(room("dm1", "dm:agentB:owner", true));
    db.room_members.push(member("general", "agentA"));
    db.room_members.push(member("general", "owner"));
    db.room_members.push(member("general", "other"));
    db.room_members.push(member("dm1", "agentB"));
    db.room_members.push(member("dm1", "owner"));
    db.messages.push(message("m1", "dm1", "owner"));
    db.messages.push(message("m2", "general", "owner"));
    db
}

fn ids_of_users(db: &ChatDb) -> Vec<String> {
    db.chat_users.iter().map(|u| u.user_id.clone()).collect()
}

#[test]
fn deprovision_removes_agent_tree_and_its_dm_rooms() {
    let mut db = fleet();
    let r = deprovision_agent(&mut db, &caller(Some("owner"), false, false), "agentA".to_string());
    assert_eq!(r, Ok(()));
    assert_eq!(ids_of_users(&db), vec!["owner".to_string(), "other".to_string()]);
    let creds: Vec<String> = db.agent_credentials.iter().map(|c| c.agent_user_id.clone()).collect();
    assert_eq!(creds, vec!["other".to_string()]);
    let configs: Vec<String> = db.agent_configs.iter().map(|c| c.agent_user_id.clone()).collect();
    assert_eq!(configs, vec!["other".to_string()]);
    assert_eq!(db.user_identity_links.len(), 1);
    assert_eq!(db.user_identity_links[0].user_id, "other");
    let rooms: Vec<String> = db.rooms.iter().map(|r| r.id.clone()).collect();
    assert_eq!(rooms, vec!["general".to_string()]);
    let members: Vec<String> = db.room_members.iter().map(|m| m.id.clone()).collect();
    assert_eq!(members, vec!["general-owner".to_string(), "general-other".to_string()]);
    let messages: Vec<String> = db.messages.iter().map(|m| m.id.clone()).collect();
    assert_eq!(messages, vec!["m2".to_string()]);
}

#[test]
fn deprovision_of_a_leaf_keeps_its_parent() {
    let mut db = fleet();
    assert_eq!(deprovision_agent(&mut db, &caller(Some("owner"), false, false), "agentC".to_string()), Ok(()));
    let creds: Vec<String> = db.agent_credentials.iter().map(|c| c.agent_user_id.clone()).collect();
    assert_eq!(creds, vec!["agentA".to_string(), "agentB".to_string(), "other".to_string()]);
    assert_eq!(db.rooms.len(), 2);
}

#[test]
fn deprovision_refusals_change_nothing() {
    let mut db = fleet();
    assert_eq!(deprovision_agent(&mut db, &caller(None, false, false), "agentA".to_string()), Err(ChatError::NotRegistered));
    assert_eq!(deprovision_agent(&mut db, &caller(Some("owner"), false, false), "ghost".to_string()), Err(ChatError::NotFound));
    assert_eq!(deprovision_agent(&mut db, &caller(Some("mallory"), false, false), "agentA".to_string()), Err(ChatError::NotPermitted));
    assert_eq!(db.agent_credentials.len(), 4);
    assert_eq!(db.chat_users.len(), 5);
    // A platform admin may deprovision any agent.
    assert_eq!(deprovision_agent(&mut db, &caller(Some("mallory"), true, false), "other".to_string()), Ok(()));
    assert_eq!(db.agent_credentials.len(), 3);
}

#[test]
fn agent_tree_lists_every_descendant_once() {
    let db = fleet();
    let mut ids = agent_tree_ids(&db.agent_credentials, &"agentA".to_string());
    ids.sort();
    assert_eq!(ids, vec!["agentA".to_string(), "agentB".to_string(), "agentC".to_string()]);
}

#[test]
fn agent_tree_ends_on_a_cycle_of_parents() {
    let mut db = ChatDb::new();
    db.agent_credentials.push(cred("x", "o", Some("y"), 0));
    db.agent_credentials.push(cred("y", "o", Some("x"), 0));
    let mut ids = agent_tree_ids(&db.agent_credentials, &"x".to_string());
    ids.sort();
    assert_eq!(ids, vec!["x".to_string(), "y".to_string()]);
}

#[test]
fn sweep_removes_idle_sub_agents_and_reschedules() {
    let mut db = fleet();
    // agentB idle since t=0, agentC active recently; main agents are exempt.
    db.agent_credentials[2].last_active_at = 5_000_000;
    let job = AgentCleanupJob { scheduled_id: 1, scheduled_at: ScheduleAt::Interval(300_000_000) };
    assert_eq!(cleanup_idle_agents(&mut db, &caller(None, false, false), 5_000_000, &job), Err(ChatError::NotPermitted));
    assert_eq!(db.agent_cleanup_jobs.len(), 0);
    assert_eq!(cleanup_idle_agents(&mut db, &caller(None, false, true), 5_000_000, &job), Ok(()));
    let creds: Vec<String> = db.agent_credentials.iter().map(|c| c.agent_user_id.clone()).collect();
    // agentB goes, and agentC with it as its sub-agent.
    assert_eq!(creds, vec!["agentA".to_string(), "other".to_string()]);
    assert_eq!(db.agent_cleanup_jobs.len(), 1);
    assert!(matches!(db.agent_cleanup_jobs[0].scheduled_at, ScheduleAt::Interval(300_000_000)));
    assert_eq!(db.agent_cleanup_jobs[0].scheduled_id, 0);
}

#[test]
fn sweep_threshold_saturates_at_zero() {
    let mut db = fleet();
    let job = AgentCleanupJob { scheduled_id: 1, scheduled_at: ScheduleAt::Interval(300_000_000) };
    // Less than an hour since the epoch: nothing is idle.
    assert_eq!(cleanup_idle_agents(&mut db, &caller(None, false, true), 1_000, &job), Ok(()));
    assert_eq!(db.agent_credentials.len(), 4);
}

#[test]
fn force_delete_removes_rows_without_credentials() {
    let mut db = fleet();
    db.chat_users.push(user("stray", true));
    db.room_members.push(member("general", "stray"));
    db.messages.push(message("m-stray", "general", "stray"));
    assert_eq!(admin_force_delete_bot(&mut db, &caller(Some("owner"), false, false), "stray".to_string()), Err(ChatError::NotPermitted));
    assert_eq!(admin_force_delete_bot(&mut db, &caller(Some("owner"), true, false), "nobody".to_string()), Err(ChatError::NotFound));
    assert_eq!(admin_force_delete_bot(&mut db, &caller(Some("owner"), true, false), "stray".to_string()), Ok(()));
    assert!(db.chat_users.iter().all(|u| u.user_id != "stray"));
    assert!(db.room_members.iter().all(|m| m.user_id != "stray"));
    // The bot's own message goes; the others stay.
    assert_eq!(db.messages.len(), 2);
    assert!(db.messages.iter().all(|m| m.author_id != "stray"));
}
