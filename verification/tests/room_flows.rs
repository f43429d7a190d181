use nexus_chat::context::{Caller, ChatError};
use nexus_chat::db::ChatDb;
use nexus_chat::reducers::content::toggle_reaction;
use nexus_chat::reducers::rooms::{delete_room, join_room, leave_room};
use nexus_chat::reducers::personal::{block_user, star_channel, unblock_user, unstar_channel};
use nexus_chat::reducers::users::set_display_name;
use nexus_chat::reducers::community::create_server_emoji;
use nexus_chat::tables::{
    ChatUser, Draft, ForumPostTag, Message, MessageEdit, PinnedMessage, Reaction, ReactionRoomIndex, Room, RoomMember,
    ServerMember, TypingIndicator, WebhookMessage,
};

fn user(id: &str, bot: bool) -> ChatUser {
    ChatUser {
        user_id: id.to_string(),
        stdb_identity: format!("ident-{}", id),
        display_name: id.to_string(),
        status: "online".to_string(),
        online: true,
        last_message_at: 0,
        last_typing_at: 0,
        last_seen_at: 0,
        created_at: 0,
        tier: None,
        avatar_data: None,
        custom_status: None,
        custom_status_emoji: None,
        platform_role: None,
        is_bot: if bot { Some(true) } else { None },
        is_platform_agent: None,
        bot_owner_user_id: None,
        is_swarm_member: None,
        is_steward_projection: None,
    }
}

fn room(id: &str, name: &str, dm: bool) -> Room {
    Room {
        id: id.to_string(),
        name: name.to_string(),
        created_by: "system".to_string(),
        is_private: dm,
        is_dm: dm,
        created_at: 0,
        server_id: None,
        required_tier: None,
        description: None,
        sort_order: None,
        room_type: "text".to_string(),
        category_id: None,
        topic: None,
        slowmode_seconds: None,
        nsfw: false,
        parent_room_id: None,
        archived: false,
        locked: false,
        auto_archive_minutes: None,
        default_sort_order: None,
        allow_attachments: None,
        allow_embeds: None,
        allow_reactions: None,
        rules_text: None,
    }
}

fn member(room: &str, user: &str) -> RoomMember {
    RoomMember {
        id: format!("{}-{}", room, user),
        room_id: room.to_string(),
        user_id: user.to_string(),
        role: "member".to_string(),
        joined_at: 0,
    }
}

fn message(id: &str, room: &str, author: &str) -> Message {
    Message {
        id: id.to_string(),
        room_id: room.to_string(),
        author_id: author.to_string(),
        content: "hi".to_string(),
        created_at: 0,
        edited_at: None,
        parent_message_id: None,
        is_ephemeral: false,
        expires_at: None,
        message_type: "default".to_string(),
        reply_to_id: None,
        sticker_ids: None,
        mention_everyone: false,
        mentioned_user_ids: None,
        mentioned_role_ids: None,
        flags: 0,
        is_bot_author: None,
    }
}

fn caller(user: Option<&str>, admin: bool, system: bool) -> Caller {
    Caller {
        user_id: user.map(|u| u.to_string()),
        identity: "caller-ident".to_string(),
        is_platform_admin: admin,
        is_system: system,
    }
}

fn server_member(server: &str, user: &str, role: &str) -> ServerMember {
    ServerMember {
        id: format!("{}-{}", server, user),
        server_id: server.to_string(),
        user_id: user.to_string(),
        role: role.to_string(),
        joined_at: 0,
        nickname: None,
        timeout_until: None,
        deaf: false,
        mute: false,
    }
}

fn lounge() -> ChatDb {
    let mut db = ChatDb::new();
    db.chat_users.push(user("alice", false));
    db.chat_users.push(user("bob", false));
    db.rooms.push(room("lobby", "lobby", false));
    db.rooms.push(room("side", "side", false));
    db.room_members.push(member("lobby", "alice"));
    db.room_members.push(member("lobby", "bob"));
    db.messages.push(message("m1", "lobby", "alice"));
    db
}

#[test]
fn reacting_twice_restores_the_reactions() {
    let mut db = lounge();
    let bob = caller(Some("bob"), false, false);
    assert_eq!(toggle_reaction(&mut db, &bob, 10, "m1".to_string(), "👍".to_string(), true), Ok(()));
    assert_eq!(db.reactions.len(), 1);
    assert_eq!(db.reactions[0].id, "m1-bob-👍");
    assert_eq!(db.reactions[0].room_id, Some("lobby".to_string()));
    assert_eq!(db.reaction_room_index.len(), 1);
    assert_eq!(db.reaction_room_index[0].room_id, "lobby");
    assert_eq!(toggle_reaction(&mut db, &bob, 20, "m1".to_string(), "👍".to_string(), true), Ok(()));
    assert_eq!(db.reactions.len(), 0);
    assert_eq!(db.reaction_room_index.len(), 0);
}

#[test]
fn reaction_refusals() {
    let mut db = lounge();
    assert_eq!(toggle_reaction(&mut db, &caller(None, false, false), 1, "m1".to_string(), "x".to_string(), true), Err(ChatError::NotRegistered));
    assert_eq!(toggle_reaction(&mut db, &caller(Some("bob"), false, false), 1, "m1".to_string(), "x".to_string(), false), Err(ChatError::Invalid));
    assert_eq!(toggle_reaction(&mut db, &caller(Some("bob"), false, false), 1, "nope".to_string(), "x".to_string(), true), Err(ChatError::NotFound));
    assert_eq!(toggle_reaction(&mut db, &caller(Some("carol"), false, false), 1, "m1".to_string(), "x".to_string(), true), Err(ChatError::NotPermitted));
    assert_eq!(db.reactions.len(), 0);
}

#[test]
fn deleting_a_room_leaves_nothing_of_it() {
    let mut db = lounge();
    db.rooms[0].created_by = "alice".to_string();
    db.reactions.push(Reaction { id: "r1".to_string(), message_id: "m1".to_string(), user_id: "bob".to_string(),
        emoji: "x".to_string(), created_at: 0, room_id: Some("lobby".to_string()) });
    db.reaction_room_index.push(ReactionRoomIndex { reaction_id: "r1".to_string(), room_id: "lobby".to_string(),
        message_id: "m1".to_string(), user_id: "bob".to_string(), emoji: "x".to_string(), created_at: 0 });
    db.pinned_messages.push(PinnedMessage { id: "p1".to_string(), room_id: "lobby".to_string(), message_id: "m1".to_string(),
        pinned_by: "alice".to_string(), pinned_at: 0 });
    db.typing_indicators.push(TypingIndicator { id: "t1".to_string(), room_id: "lobby".to_string(), user_id: "bob".to_string(), expires_at: 9 });
    db.drafts.push(Draft { id: "d1".to_string(), user_id: "bob".to_string(), room_id: "lobby".to_string(), content: "x".to_string(), updated_at: 0 });
    db.room_members.push(member("side", "bob"));
    // Rows that name the room only through its message, and rows of its own kinds.
    db.reactions.push(Reaction { id: "r2".to_string(), message_id: "m1".to_string(), user_id: "alice".to_string(),
        emoji: "y".to_string(), created_at: 0, room_id: None });
    db.message_edits.push(MessageEdit { id: "e1".to_string(), message_id: "m1".to_string(), editor_id: "alice".to_string(),
        old_content: "a".to_string(), new_content: "b".to_string(), edited_at: 0, room_id: None });
    let webhook_message = |id: &str, room: &str| WebhookMessage { id: id.to_string(), room_id: room.to_string(),
        webhook_id: "w".to_string(), webhook_name: "w".to_string(), webhook_avatar: None, content: "x".to_string(),
        created_at: 0, sender_name: None, sender_avatar: None };
    db.webhook_messages.push(webhook_message("wm1", "lobby"));
    db.webhook_messages.push(webhook_message("wm2", "side"));
    db.forum_post_tags.push(ForumPostTag { id: "ft1".to_string(), thread_room_id: "lobby".to_string(), tag_id: "t".to_string() });
    db.forum_post_tags.push(ForumPostTag { id: "ft2".to_string(), thread_room_id: "side".to_string(), tag_id: "t".to_string() });
    assert_eq!(delete_room(&mut db, &caller(Some("bob"), false, false), 5, "lobby".to_string()), Err(ChatError::NotPermitted));
    assert_eq!(delete_room(&mut db, &caller(Some("alice"), false, false), 5, "lobby".to_string()), Ok(()));
    assert_eq!(db.rooms.len(), 1);
    assert_eq!(db.rooms[0].id, "side");
    assert!(db.messages.is_empty());
    assert!(db.reactions.is_empty());
    assert!(db.reaction_room_index.is_empty());
    assert!(db.pinned_messages.is_empty());
    assert!(db.typing_indicators.is_empty());
    assert!(db.drafts.is_empty());
    assert!(db.message_edits.is_empty());
    assert_eq!(db.webhook_messages.len(), 1);
    assert_eq!(db.webhook_messages[0].id, "wm2");
    assert_eq!(db.forum_post_tags.len(), 1);
    assert_eq!(db.forum_post_tags[0].id, "ft2");
    assert_eq!(db.room_members.len(), 1);
    assert_eq!(db.room_members[0].room_id, "side");
    // Rooms outside servers leave no audit entry.
    assert!(db.audit_log.is_empty());
}

#[test]
fn joining_then_leaving_restores_the_memberships() {
    let mut db = lounge();
    let bob = caller(Some("bob"), false, false);
    let before = db.room_members.len();
    assert_eq!(join_room(&mut db, &bob, 3, "side".to_string(), true), Ok(()));
    assert_eq!(db.room_members.len(), before + 1);
    assert_eq!(db.room_members[before].id, "side-bob");
    // Joining again changes nothing.
    assert_eq!(join_room(&mut db, &bob, 4, "side".to_string(), true), Ok(()));
    assert_eq!(db.room_members.len(), before + 1);
    assert_eq!(leave_room(&mut db, &bob, "side".to_string()), Ok(()));
    assert_eq!(db.room_members.len(), before);
    assert!(db.room_members.iter().all(|m| !(m.room_id == "side" && m.user_id == "bob")));
}

#[test]
fn joining_is_refused_where_the_rules_say_so() {
    let mut db = lounge();
    db.rooms[1].locked = true;
    let bob = caller(Some("bob"), false, false);
    assert_eq!(join_room(&mut db, &bob, 3, "side".to_string(), true), Err(ChatError::NotPermitted));
    assert_eq!(join_room(&mut db, &bob, 3, "none".to_string(), true), Err(ChatError::NotFound));
    db.rooms[1].locked = false;
    assert_eq!(join_room(&mut db, &bob, 3, "side".to_string(), false), Err(ChatError::NotPermitted));
    assert_eq!(join_room(&mut db, &caller(None, false, false), 3, "side".to_string(), true), Err(ChatError::NotRegistered));
}

#[test]
fn starring_is_idempotent_and_undone_by_unstarring() {
    let mut db = lounge();
    let alice = caller(Some("alice"), false, false);
    assert_eq!(star_channel(&mut db, &alice, 1, "lobby".to_string()), Ok(()));
    assert_eq!(star_channel(&mut db, &alice, 2, "lobby".to_string()), Ok(()));
    assert_eq!(db.starred_channels.len(), 1);
    assert_eq!(db.starred_channels[0].id, "alice:lobby");
    assert_eq!(db.starred_channels[0].starred_at, 1);
    assert_eq!(unstar_channel(&mut db, &alice, "lobby".to_string()), Ok(()));
    assert!(db.starred_channels.is_empty());
}

#[test]
fn blocking_then_unblocking_restores_the_blocks() {
    let mut db = lounge();
    let alice = caller(Some("alice"), false, false);
    assert_eq!(block_user(&mut db, &alice, 1, "alice".to_string(), "h".to_string()), Err(ChatError::Invalid));
    assert_eq!(block_user(&mut db, &alice, 1, "bob".to_string(), "hash-ab".to_string()), Ok(()));
    assert_eq!(block_user(&mut db, &alice, 2, "bob".to_string(), "hash-ab".to_string()), Ok(()));
    assert_eq!(db.user_blocks.len(), 1);
    assert_eq!(db.user_blocks[0].id, "alice:hash-ab");
    assert_eq!(unblock_user(&mut db, &alice, "bob".to_string(), "hash-ab".to_string()), Ok(()));
    assert!(db.user_blocks.is_empty());
}

#[test]
fn display_names_clash_ignoring_case() {
    let mut db = lounge();
    db.chat_users[1].display_name = "Robert".to_string();
    let alice = caller(Some("alice"), false, false);
    // Lower-casing is what makes these two equal.
    assert_eq!(set_display_name(&mut db, &alice, 1, "ROBERT".to_string()), Err(ChatError::AlreadyExists));
    assert_eq!(set_display_name(&mut db, &alice, 1, "   ".to_string()), Err(ChatError::Invalid));
    assert_eq!(set_display_name(&mut db, &alice, 1, "a\u{200B}b".to_string()), Err(ChatError::Invalid));
    assert_eq!(set_display_name(&mut db, &alice, 7, "  Alicia ".to_string()), Ok(()));
    let a = db.chat_users.iter().find(|u| u.user_id == "alice").unwrap();
    assert_eq!(a.display_name, "Alicia");
    assert_eq!(a.last_seen_at, 7);
}

#[test]
fn emoji_codes_are_trimmed_and_lower_cased() {
    let mut db = lounge();
    db.server_members.push(server_member("srv", "alice", "owner"));
    db.server_members.push(server_member("srv", "bob", "member"));
    let alice = caller(Some("alice"), false, false);
    assert_eq!(create_server_emoji(&mut db, &caller(Some("bob"), false, false), 1, "e0".to_string(), "srv".to_string(),
        "Party".to_string(), "data".to_string(), false), Err(ChatError::NotPermitted));
    assert_eq!(create_server_emoji(&mut db, &alice, 1, "e1".to_string(), "srv".to_string(), " PartyParrot ".to_string(),
        "data".to_string(), true), Ok(()));
    assert_eq!(db.server_emojis.len(), 1);
    assert_eq!(db.server_emojis[0].name, "partyparrot");
    assert_eq!(create_server_emoji(&mut db, &alice, 2, "e2".to_string(), "srv".to_string(), "partyPARROT".to_string(),
        "data".to_string(), false), Err(ChatError::AlreadyExists));
    assert_eq!(create_server_emoji(&mut db, &alice, 2, "e3".to_string(), "srv".to_string(), "bad-name".to_string(),
        "data".to_string(), false), Err(ChatError::Invalid));
    // Letters beyond ASCII count as letters; the code is lower-cased in full.
    assert_eq!(create_server_emoji(&mut db, &alice, 3, "e4".to_string(), "srv".to_string(), "CAFÉ_2".to_string(),
        "data".to_string(), false), Ok(()));
    assert_eq!(db.server_emojis[1].name, "café_2");
}
