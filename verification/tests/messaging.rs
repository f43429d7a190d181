use nexus_chat::context::{Caller, ChatError};
use nexus_chat::db::ChatDb;
use nexus_chat::reducers::personal::BlockHashes;
use nexus_chat::reducers::messages::{
    delete_message, edit_message, send_ephemeral_message, send_message, AutoModAction, Mentions, SendChecks,
};
use nexus_chat::tables::{ChatUser, Message, Room, RoomMember, ScheduleAt, UserBlock};

fn user(id: &str, bot: bool) -> ChatUser {
    ChatUser {
        user_id: id.to_string(),
        stdb_identity: format!("ident-{}", id),
        display_name: id.to_string(),
        status: "online".to_string(),
        online: true,
        last_message_at: 0,
        last_typing_at: 0,
        last_seen_at: 0,
        created_at: 0,
        tier: None,
        avatar_data: None,
        custom_status: None,
        custom_status_emoji: None,
        platform_role: None,
        is_bot: if bot { Some(true) } else { None },
        is_platform_agent: None,
        bot_owner_user_id: None,
        is_swarm_member: None,
        is_steward_projection: None,
    }
}

fn room(id: &str, name: &str, dm: bool) -> Room {
    Room {
        id: id.to_string(),
        name: name.to_string(),
        created_by: "system".to_string(),
        is_private: dm,
        is_dm: dm,
        created_at: 0,
        server_id: None,
        required_tier: None,
        description: None,
        sort_order: None,
        room_type: "text".to_string(),
        category_id: None,
        topic: None,
        slowmode_seconds: None,
        nsfw: false,
        parent_room_id: None,
        archived: false,
        locked: false,
        auto_archive_minutes: None,
        default_sort_order: None,
        allow_attachments: None,
        allow_embeds: None,
        allow_reactions: None,
        rules_text: None,
    }
}

fn member(room: &str, user: &str) -> RoomMember {
    RoomMember {
        id: format!("{}-{}", room, user),
        room_id: room.to_string(),
        user_id: user.to_string(),
        role: "member".to_string(),
        joined_at: 0,
    }
}

fn message(id: &str, room: &str, author: &str) -> Message {
    Message {
        id: id.to_string(),
        room_id: room.to_string(),
        author_id: author.to_string(),
        content: "hi".to_string(),
        created_at: 0,
        edited_at: None,
        parent_message_id: None,
        is_ephemeral: false,
        expires_at: None,
        message_type: "default".to_string(),
        reply_to_id: None,
        sticker_ids: None,
        mention_everyone: false,
        mentioned_user_ids: None,
        mentioned_role_ids: None,
        flags: 0,
        is_bot_author: None,
    }
}

fn caller(user: Option<&str>, admin: bool, system: bool) -> Caller {
    Caller {
        user_id: user.map(|u| u.to_string()),
        identity: "caller-ident".to_string(),
        is_platform_admin: admin,
        is_system: system,
    }
}

fn no_mentions() -> Mentions {
    Mentions { everyone: false, here: false, user_ids_json: None, role_ids_json: None }
}

fn hashes(forward: &str, reverse: &str) -> BlockHashes {
    BlockHashes { forward: forward.to_string(), reverse: reverse.to_string() }
}

fn checks() -> SendChecks {
    SendChecks { dm_block_hashes: hashes("fwd", "rev"), tier_ok: true, rate_ok: true, auto_mod: AutoModAction::Allow, mentions: no_mentions() }
}

fn chat() -> ChatDb {
    let mut db = ChatDb::new();
    db.chat_users.push(user("alice", false));
    db.chat_users.push(user("bob", false));
    db.rooms.push(room("lobby", "lobby", false));
    db.room_members.push(member("lobby", "alice"));
    db.room_members.push(member("lobby", "bob"));
    db
}

#[test]
fn a_member_sends_a_trimmed_message() {
    let mut db = chat();
    let alice = caller(Some("alice"), false, false);
    let mut k = checks();
    k.mentions = Mentions { everyone: true, here: false, user_ids_json: Some("[\"bob\"]".to_string()), role_ids_json: None };
    assert_eq!(send_message(&mut db, &alice, 1_000, "m1".to_string(), "lobby".to_string(), "  hello  ".to_string(), None, k), Ok(()));
    assert_eq!(db.messages.len(), 1);
    let m = &db.messages[0];
    assert_eq!(m.content, "hello");
    assert_eq!(m.message_type, "default");
    assert_eq!(m.created_at, 1_000);
    // Outside servers anyone may mention everyone.
    assert!(m.mention_everyone);
    assert_eq!(m.mentioned_user_ids, Some("[\"bob\"]".to_string()));
    assert_eq!(m.is_bot_author, None);
    let a = db.chat_users.iter().find(|u| u.user_id == "alice").unwrap();
    assert_eq!(a.last_message_at, 1_000);
    assert_eq!(a.last_seen_at, 1_000);
    // A reply names its parent.
    assert_eq!(send_message(&mut db, &alice, 2_000, "m2".to_string(), "lobby".to_string(), "re".to_string(), Some("m1".to_string()), checks()), Ok(()));
    assert_eq!(db.messages[1].message_type, "reply");
}

#[test]
fn sending_is_refused_for_each_rule() {
    let mut db = chat();
    let alice = caller(Some("alice"), false, false);
    let send = |db: &mut ChatDb, c: &Caller, content: &str, k: SendChecks| {
        send_message(db, c, 10_000, "x".to_string(), "lobby".to_string(), content.to_string(), None, k)
    };
    assert_eq!(send(&mut db, &caller(None, false, false), "hi", checks()), Err(ChatError::NotRegistered));
    assert_eq!(send(&mut db, &caller(Some("carol"), false, false), "hi", checks()), Err(ChatError::NotPermitted));
    assert_eq!(send(&mut db, &alice, "   ", checks()), Err(ChatError::Invalid));
    assert_eq!(send(&mut db, &alice, &"x".repeat(4001), checks()), Err(ChatError::Invalid));
    let mut k = checks();
    k.tier_ok = false;
    assert_eq!(send(&mut db, &alice, "hi", k), Err(ChatError::NotPermitted));
    let mut k = checks();
    k.rate_ok = false;
    assert_eq!(send(&mut db, &alice, "hi", k), Err(ChatError::RateLimited));
    db.rooms[0].locked = true;
    assert_eq!(send(&mut db, &alice, "hi", checks()), Err(ChatError::NotPermitted));
    db.rooms[0].locked = false;
    db.rooms[0].slowmode_seconds = Some(5);
    db.chat_users[0].last_message_at = 8_000;
    assert_eq!(send(&mut db, &alice, "hi", checks()), Err(ChatError::RateLimited));
    db.rooms[0].slowmode_seconds = None;
    assert_eq!(send_message(&mut db, &alice, 10_000, "x".to_string(), "lobby".to_string(), "hi".to_string(),
        Some("nope".to_string()), checks()), Err(ChatError::NotFound));
    assert!(db.messages.is_empty());
}

#[test]
fn ephemeral_life_is_clamped_and_its_removal_scheduled() {
    let mut db = chat();
    let alice = caller(Some("alice"), false, false);
    assert_eq!(send_ephemeral_message(&mut db, &alice, 5_000, "e1".to_string(), "lobby".to_string(), "poof".to_string(), 1, true, true), Ok(()));
    assert_eq!(db.messages[0].expires_at, Some(5_000 + 10 * 1000));
    assert!(db.messages[0].is_ephemeral);
    assert_eq!(db.ephemeral_cleanup_jobs.len(), 1);
    assert!(matches!(db.ephemeral_cleanup_jobs[0].scheduled_at, ScheduleAt::Time(t) if t == 15_000 * 1000));
    assert_eq!(db.ephemeral_cleanup_jobs[0].message_id, "e1");
    assert_eq!(send_ephemeral_message(&mut db, &alice, 5_000, "e2".to_string(), "lobby".to_string(), "poof".to_string(), 99_999, true, true), Ok(()));
    assert_eq!(db.messages[1].expires_at, Some(5_000 + 3600 * 1000));
    assert_eq!(send_ephemeral_message(&mut db, &alice, 5_000, "e3".to_string(), "lobby".to_string(), "poof".to_string(), 60, true, false),
        Err(ChatError::RateLimited));
    assert_eq!(send_ephemeral_message(&mut db, &alice, 5_000, "e3".to_string(), "lobby".to_string(), "".to_string(), 60, true, true),
        Err(ChatError::Invalid));
}

#[test]
fn the_author_edits_and_the_history_keeps_the_old_text() {
    let mut db = chat();
    db.messages.push(message("m1", "lobby", "alice"));
    let alice = caller(Some("alice"), false, false);
    assert_eq!(edit_message(&mut db, &caller(Some("bob"), false, false), 7, "m1".to_string(), "x".to_string(), no_mentions()),
        Err(ChatError::NotPermitted));
    assert_eq!(edit_message(&mut db, &alice, 7, "nope".to_string(), "x".to_string(), no_mentions()), Err(ChatError::NotFound));
    assert_eq!(edit_message(&mut db, &alice, 7, "m1".to_string(), " changed ".to_string(), no_mentions()), Ok(()));
    let m = db.messages.iter().find(|m| m.id == "m1").unwrap();
    assert_eq!(m.content, "changed");
    assert_eq!(m.edited_at, Some(7));
    assert_eq!(db.message_edits.len(), 1);
    assert_eq!(db.message_edits[0].id, "m1-edit-7");
    assert_eq!(db.message_edits[0].old_content, "hi");
    assert_eq!(db.message_edits[0].new_content, "changed");
    assert_eq!(db.message_edit_room_index[0].room_id, "lobby");
}

#[test]
fn authors_and_room_admins_delete_messages() {
    let mut db = chat();
    db.messages.push(message("m1", "lobby", "alice"));
    db.messages.push(message("m2", "lobby", "bob"));
    let alice = caller(Some("alice"), false, false);
    assert_eq!(delete_message(&mut db, &alice, 3, "m2".to_string()), Err(ChatError::NotPermitted));
    assert_eq!(delete_message(&mut db, &alice, 3, "m1".to_string()), Ok(()));
    assert_eq!(db.messages.len(), 1);
    db.room_members[0].role = "admin".to_string();
    assert_eq!(delete_message(&mut db, &alice, 4, "m2".to_string()), Ok(()));
    assert!(db.messages.is_empty());
    assert_eq!(delete_message(&mut db, &alice, 5, "m2".to_string()), Err(ChatError::NotFound));
    // Outside servers no audit entry is written.
    assert!(db.audit_log.is_empty());
}

fn block(blocker: &str, hash: &str) -> UserBlock {
    UserBlock {
        id: format!("{}:{}", blocker, hash),
        blocker_id: blocker.to_string(),
        blocked_id: hash.to_string(),
        created_at: 0,
    }
}

#[test]
fn a_block_either_way_refuses_a_direct_message() {
    let mut db = chat();
    db.rooms.push(room("dm", "dm:alice:bob", true));
    db.room_members.push(member("dm", "alice"));
    db.room_members.push(member("dm", "bob"));
    let alice = caller(Some("alice"), false, false);
    let send = |db: &mut ChatDb, room: &str, id: &str| {
        send_message(db, &alice, 1_000, id.to_string(), room.to_string(), "hi".to_string(), None, checks())
    };
    // Bob blocked Alice: his record is under his id and his hash of her.
    db.user_blocks.push(block("bob", "rev"));
    assert_eq!(send(&mut db, "dm", "m1"), Err(ChatError::NotPermitted));
    // The block does not reach a room that is not a direct message.
    assert_eq!(send(&mut db, "lobby", "m2"), Ok(()));
    // A block by Alice under her hash of Bob refuses as well.
    db.user_blocks.clear();
    db.user_blocks.push(block("alice", "fwd"));
    assert_eq!(send(&mut db, "dm", "m3"), Err(ChatError::NotPermitted));
    // A record under another hash is no block between these two.
    db.user_blocks.clear();
    db.user_blocks.push(block("alice", "other"));
    assert_eq!(send(&mut db, "dm", "m4"), Ok(()));
    let ids: Vec<String> = db.messages.iter().map(|m| m.id.clone()).collect();
    assert_eq!(ids, vec!["m2".to_string(), "m4".to_string()]);
}
