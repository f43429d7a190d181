//! System requests made by other services with the shared system token (or by
//! a platform admin): bot messages, typing, provisioning and clean-up.

use vstd::prelude::*;
use crate::context::{Caller, CallerV, ChatError};
use crate::db::{ChatDb, ChatDbV};
use crate::tables::{ChatUser, ChatUserV, Message, MessageV, SystemConfig, SystemConfigV, RoomMember, RoomMemberV,
    Room, RoomV, TypingIndicator, TypingIndicatorV, TypingExpiryJob, TypingExpiryJobV, ScheduleAt, ServerMember,
    ServerMemberV, ChannelCategory, ChannelCategoryV, UserIdentityLink, UserIdentityLinkV};
use crate::store::{lookup, has_key, replace_row, without_key, rows, find_key, contains_key, insert_new, upsert,
    remove_key, retain_keyed, position, str_in, lemma_without_key};
use crate::common::{any_row, is_set, flag, str_eq};
use crate::text::{trim, byte_len, trim_str, utf8_len, to_owned_string};
use crate::reducers::agents::{bot_named, is_bot_name_taken, new_bot_row, new_credential, make_bot_user,
    make_credential};
use crate::reducers::servers::{server_room_ids, collect_server_room_ids, not_member_of_server};

verus! {

/// The key under which the system token is configured.
pub open spec fn system_token_key() -> Seq<char> {
    "cortex_system_token"@
}

/// `token` is non-empty and equals the configured system token.
pub open spec fn token_valid(db: ChatDbV, token: Seq<char>) -> bool {
    token.len() > 0 && match lookup(db.system_config, system_token_key()) {
        Some(cfg) => cfg.value == token,
        None => false,
    }
}

/// The request carries the system token or comes from a platform admin.
pub open spec fn system_authorized(db: ChatDbV, c: CallerV, token: Seq<char>) -> bool {
    token_valid(db, token) || c.is_platform_admin
}

/// Whether `token` is the configured system token (an empty token never is).
pub fn validate_system_token(db: &ChatDb, token: &str) -> (b: bool)
    requires
        db@.wf(),
    ensures
        b == token_valid(db@, token@),
{
    if token.unicode_len() == 0 {
        return false;
    }
    let key = to_owned_string("cortex_system_token");
    match find_key(&db.system_config, &key) {
        Some(i) => str_eq(db.system_config[i].value.as_str(), token),
        None => false,
    }
}

/// Set a system configuration value (system caller or platform admin).
pub fn set_system_config(db: &mut ChatDb, caller: &Caller, now: u64, key: String, value: String) -> (r: Result<(), ChatError>)
    requires
        old(db)@.wf(),
    ensures
        final(db)@.wf(),
        r is Err <==> !caller.is_system && !caller.is_platform_admin,
        r is Err ==> r == Err::<(), ChatError>(ChatError::NotPermitted) && final(db)@ == old(db)@,
        r is Ok ==> final(db)@ == (ChatDbV {
            system_config: replace_row(old(db)@.system_config, SystemConfigV { key: key@, value: value@, updated_at: now }),
            ..old(db)@
        }),
{
    if !caller.is_system && !caller.is_platform_admin {
        return Err(ChatError::NotPermitted);
    }
    upsert(&mut db.system_config, SystemConfig { key, value, updated_at: now });
    Ok(())
}

/// `user` is a bot.
pub open spec fn is_bot_user(db: ChatDbV, user: Seq<char>) -> bool {
    match lookup(db.chat_users, user) {
        Some(u) => is_set(u.is_bot),
        None => false,
    }
}

fn check_bot(db: &ChatDb, user: &String) -> (b: bool)
    requires
        db@.wf(),
    ensures
        b == is_bot_user(db@, user@),
{
    match find_key(&db.chat_users, user) {
        Some(i) => flag(db.chat_users[i].is_bot),
        None => false,
    }
}

/// Non-banned memberships of `user` in `room`.
pub open spec fn active_member_row(room: Seq<char>, user: Seq<char>) -> spec_fn(RoomMemberV) -> bool {
    |m: RoomMemberV| m.room_id == room && m.user_id == user && m.role != "banned"@
}

/// Longest bot message, in bytes.
pub const MAX_BOT_MESSAGE_LEN: usize = 16000;

/// Outcome of [`system_send_bot_message`].
pub open spec fn bot_message_verdict(db: ChatDbV, c: CallerV, bot: Seq<char>, room: Seq<char>, content: Seq<char>, token: Seq<char>) -> Result<(), ChatError> {
    if !system_authorized(db, c, token) {
        Err(ChatError::NotPermitted)
    } else if !is_bot_user(db, bot) {
        Err(ChatError::Invalid)
    } else if !any_row(db.room_members, active_member_row(room, bot)) {
        Err(ChatError::NotPermitted)
    } else if trim(content).len() == 0 || byte_len(trim(content)) > MAX_BOT_MESSAGE_LEN {
        Err(ChatError::Invalid)
    } else {
        Ok(())
    }
}

/// A plain message row posted at `now`.
pub open spec fn plain_message(id: Seq<char>, room: Seq<char>, author: Seq<char>, content: Seq<char>, now: u64, message_type: Seq<char>, bot: Option<bool>) -> MessageV {
    MessageV {
        id: id,
        room_id: room,
        author_id: author,
        content: content,
        created_at: now,
        edited_at: None,
        parent_message_id: None,
        is_ephemeral: false,
        expires_at: None,
        message_type: message_type,
        reply_to_id: None,
        sticker_ids: None,
        mention_everyone: false,
        mentioned_user_ids: None,
        mentioned_role_ids: None,
        flags: 0,
        is_bot_author: bot,
    }
}

/// Build a plain message row (see [`plain_message`]).
pub fn make_plain_message(id: String, room: String, author: String, content: String, now: u64, message_type: &str, bot: Option<bool>) -> (m: Message)
    ensures
        m@ == plain_message(id@, room@, author@, content@, now, message_type@, bot),
{
    Message {
        id,
        room_id: room,
        author_id: author,
        content,
        created_at: now,
        edited_at: None,
        parent_message_id: None,
        is_ephemeral: false,
        expires_at: None,
        message_type: to_owned_string(message_type),
        reply_to_id: None,
        sticker_ids: None,
        mention_everyone: false,
        mentioned_user_ids: None,
        mentioned_role_ids: None,
        flags: 0,
        is_bot_author: bot,
    }
}

/// Post a message as a bot (system token or platform admin). The bot must be a
/// non-banned member of the room; the content is trimmed and must hold 1 to
/// 16000 bytes. The message is marked as written by a bot.
pub fn system_send_bot_message(
    db: &mut ChatDb,
    caller: &Caller,
    now: u64,
    bot_user_id: String,
    room_id: String,
    content: String,
    message_id: String,
    system_token: String,
) -> (r: Result<(), ChatError>)
    requires
        old(db)@.wf(),
        bot_message_verdict(old(db)@, caller@, bot_user_id@, room_id@, content@, system_token@) is Ok
            ==> !has_key(old(db)@.messages, message_id@),
    ensures
        final(db)@.wf(),
        r == bot_message_verdict(old(db)@, caller@, bot_user_id@, room_id@, content@, system_token@),
        r is Err ==> final(db)@ == old(db)@,
        r is Ok ==> final(db)@ == (ChatDbV {
            messages: old(db)@.messages.push(
                plain_message(message_id@, room_id@, bot_user_id@, trim(content@), now, "default"@, Some(true)),
            ),
            chat_users: replace_row(old(db)@.chat_users, ChatUserV {
                last_message_at: now,
                ..lookup(old(db)@.chat_users, bot_user_id@).unwrap()
            }),
            ..old(db)@
        }),
{
    if !validate_system_token(db, system_token.as_str()) && !caller.is_platform_admin {
        return Err(ChatError::NotPermitted);
    }
    if !check_bot(db, &bot_user_id) {
        return Err(ChatError::Invalid);
    }
    let test = |m: &RoomMember| -> (b: bool)
        ensures
            b == active_member_row(room_id@, bot_user_id@)(m@),
        { m.room_id == room_id && m.user_id == bot_user_id && !str_eq(m.role.as_str(), "banned") };
    match position(&db.room_members, test, Ghost(active_member_row(room_id@, bot_user_id@))) {
        Some(i) => {},
        None => return Err(ChatError::NotPermitted),
    }
    let t = trim_str(content.as_str());
    if t.unicode_len() == 0 || utf8_len(t) > MAX_BOT_MESSAGE_LEN {
        return Err(ChatError::Invalid);
    }
    let trimmed = to_owned_string(t);
    let msg = make_plain_message(message_id, room_id, bot_user_id.clone(), trimmed, now, "default", Some(true));
    insert_new(&mut db.messages, msg);
    let bot = crate::store::take_key(&mut db.chat_users, &bot_user_id).unwrap();
    proof {
        lemma_without_key(old(db)@.chat_users, bot_user_id@);
    }
    insert_new(&mut db.chat_users, ChatUser { last_message_at: now, ..bot });
    Ok(())
}

/// Memberships of rooms other than `room`.
pub open spec fn member_not_in_room(room: Seq<char>) -> spec_fn(RoomMemberV) -> bool {
    |m: RoomMemberV| m.room_id != room
}

/// Messages of rooms other than `room`.
pub open spec fn message_not_in_room(room: Seq<char>) -> spec_fn(MessageV) -> bool {
    |m: MessageV| m.room_id != room
}

/// Remove a room with its memberships and messages.
pub fn purge_room(db: &mut ChatDb, room_id: &String)
    requires
        old(db)@.wf(),
    ensures
        final(db)@.wf(),
        final(db)@ == (ChatDbV {
            room_members: old(db)@.room_members.filter(member_not_in_room(room_id@)),
            messages: old(db)@.messages.filter(message_not_in_room(room_id@)),
            rooms: without_key(old(db)@.rooms, room_id@),
            ..old(db)@
        }),
{
    let keep_m = |m: &RoomMember| -> (b: bool)
        ensures
            b == member_not_in_room(room_id@)(m@),
        { m.room_id != *room_id };
    retain_keyed(&mut db.room_members, keep_m, Ghost(member_not_in_room(room_id@)));
    let keep_g = |m: &Message| -> (b: bool)
        ensures
            b == message_not_in_room(room_id@)(m@),
        { m.room_id != *room_id };
    retain_keyed(&mut db.messages, keep_g, Ghost(message_not_in_room(room_id@)));
    remove_key(&mut db.rooms, room_id);
}

/// System-level room deletion (system token or platform admin): removes the
/// room, its memberships and its messages; an unknown room changes nothing.
pub fn system_delete_room(db: &mut ChatDb, caller: &Caller, room_id: String, system_token: String) -> (r: Result<(), ChatError>)
    requires
        old(db)@.wf(),
    ensures
        final(db)@.wf(),
        r is Err <==> !system_authorized(old(db)@, caller@, system_token@),
        r is Err ==> r == Err::<(), ChatError>(ChatError::NotPermitted) && final(db)@ == old(db)@,
        r is Ok ==> if has_key(old(db)@.rooms, room_id@) {
            final(db)@ == (ChatDbV {
                room_members: old(db)@.room_members.filter(member_not_in_room(room_id@)),
                messages: old(db)@.messages.filter(message_not_in_room(room_id@)),
                rooms: without_key(old(db)@.rooms, room_id@),
                ..old(db)@
            })
        } else {
            final(db)@ == old(db)@
        },
{
    if !validate_system_token(db, system_token.as_str()) && !caller.is_platform_admin {
        return Err(ChatError::NotPermitted);
    }
    if contains_key(&db.rooms, &room_id) {
        purge_room(db, &room_id);
    }
    Ok(())
}

/// Id of the typing marker of `user` in `room`: "typing:<room>:<user>".
pub open spec fn typing_id(room: Seq<char>, user: Seq<char>) -> Seq<char> {
    "typing:"@ + room + ":"@ + user
}

fn make_typing_id(room: &String, user: &String) -> (r: String)
    ensures
        r@ == typing_id(room@, user@),
{
    let mut s = to_owned_string("typing:");
    s.append(room.as_str());
    s.append(":");
    s.append(user.as_str());
    s
}

/// How long a bot's typing marker lives (10 seconds, in milliseconds).
pub const BOT_TYPING_TTL: u64 = 10_000;

/// Latest time stamp (milliseconds) at which a bot can start typing: the
/// expiry of its marker in microseconds must fit a signed 64-bit integer.
pub const LATEST_BOT_TYPING_START: u64 = 9223372036854775 - 10_000;

/// Outcome of [`system_start_bot_typing`].
pub open spec fn bot_typing_verdict(db: ChatDbV, c: CallerV, bot: Seq<char>, token: Seq<char>) -> Result<(), ChatError> {
    if !system_authorized(db, c, token) {
        Err(ChatError::NotPermitted)
    } else if !is_bot_user(db, bot) {
        Err(ChatError::Invalid)
    } else {
        Ok(())
    }
}

/// Start (or refresh) a bot's typing marker for ten seconds and schedule its
/// expiry for the moment the marker runs out (`now` in milliseconds, the job's
/// time in microseconds).
pub fn system_start_bot_typing(
    db: &mut ChatDb,
    caller: &Caller,
    now: u64,
    bot_user_id: String,
    room_id: String,
    system_token: String,
) -> (r: Result<(), ChatError>)
    requires
        old(db)@.wf(),
        now <= LATEST_BOT_TYPING_START,
    ensures
        final(db)@.wf(),
        r == bot_typing_verdict(old(db)@, caller@, bot_user_id@, system_token@),
        r is Err ==> final(db)@ == old(db)@,
        r is Ok ==> final(db)@ == (ChatDbV {
            typing_indicators: replace_row(old(db)@.typing_indicators, TypingIndicatorV {
                id: typing_id(room_id@, bot_user_id@),
                room_id: room_id@,
                user_id: bot_user_id@,
                expires_at: (now + BOT_TYPING_TTL) as u64,
            }),
            typing_expiry_jobs: old(db)@.typing_expiry_jobs.push(TypingExpiryJobV {
                scheduled_id: 0,
                scheduled_at: ScheduleAt::Time(((now + BOT_TYPING_TTL) * 1000) as u64),
                typing_indicator_id: typing_id(room_id@, bot_user_id@),
            }),
            ..old(db)@
        }),
{
    if !validate_system_token(db, system_token.as_str()) && !caller.is_platform_admin {
        return Err(ChatError::NotPermitted);
    }
    if !check_bot(db, &bot_user_id) {
        return Err(ChatError::Invalid);
    }
    let expires_at = now + BOT_TYPING_TTL;
    let tid = make_typing_id(&room_id, &bot_user_id);
    let ind = TypingIndicator { id: tid.clone(), room_id, user_id: bot_user_id, expires_at };
    upsert(&mut db.typing_indicators, ind);
    let job = TypingExpiryJob { scheduled_id: 0, scheduled_at: ScheduleAt::Time(expires_at * 1000), typing_indicator_id: tid };
    let ghost jobs = db@.typing_expiry_jobs;
    db.typing_expiry_jobs.push(job);
    assert(db@.typing_expiry_jobs =~= jobs.push(job@));
    Ok(())
}

/// Clear a bot's typing marker in a room (system token or platform admin).
pub fn system_stop_bot_typing(db: &mut ChatDb, caller: &Caller, bot_user_id: String, room_id: String, system_token: String) -> (r: Result<(), ChatError>)
    requires
        old(db)@.wf(),
    ensures
        final(db)@.wf(),
        r is Err <==> !system_authorized(old(db)@, caller@, system_token@),
        r is Err ==> r == Err::<(), ChatError>(ChatError::NotPermitted) && final(db)@ == old(db)@,
        r is Ok ==> final(db)@ == (ChatDbV {
            typing_indicators: without_key(old(db)@.typing_indicators, typing_id(room_id@, bot_user_id@)),
            ..old(db)@
        }),
{
    if !validate_system_token(db, system_token.as_str()) && !caller.is_platform_admin {
        return Err(ChatError::NotPermitted);
    }
    let tid = make_typing_id(&room_id, &bot_user_id);
    remove_key(&mut db.typing_indicators, &tid);
    Ok(())
}

/// A trimmed bot display name of 2 to 32 bytes.
pub open spec fn valid_system_bot_name(name: Seq<char>) -> bool {
    byte_len(trim(name)) >= 2 && byte_len(trim(name)) <= 32
}

/// Outcome of [`system_provision_bot`].
pub open spec fn system_provision_bot_verdict(db: ChatDbV, c: CallerV, token: Seq<char>, bot: Seq<char>, name: Seq<char>) -> Result<(), ChatError> {
    if !system_authorized(db, c, token) {
        Err(ChatError::NotPermitted)
    } else if !valid_system_bot_name(name) {
        Err(ChatError::Invalid)
    } else if any_row(db.chat_users, bot_named(trim(name))) {
        Err(ChatError::AlreadyExists)
    } else if has_key(db.chat_users, bot) {
        Err(ChatError::AlreadyExists)
    } else {
        Ok(())
    }
}

/// Provision a swarm bot (system token or platform admin): an offline bot
/// flagged as a swarm member, with credentials.
pub fn system_provision_bot(
    db: &mut ChatDb,
    caller: &Caller,
    now: u64,
    system_token: String,
    bot_user_id: String,
    display_name: String,
    owner_user_id: String,
    owner_secret: String,
) -> (r: Result<(), ChatError>)
    requires
        old(db)@.wf(),
        system_provision_bot_verdict(old(db)@, caller@, system_token@, bot_user_id@, display_name@) is Ok
            ==> !has_key(old(db)@.agent_credentials, bot_user_id@),
    ensures
        final(db)@.wf(),
        r == system_provision_bot_verdict(old(db)@, caller@, system_token@, bot_user_id@, display_name@),
        r is Err ==> final(db)@ == old(db)@,
        r is Ok ==> final(db)@ == (ChatDbV {
            chat_users: old(db)@.chat_users.push(
                new_bot_row(bot_user_id@, trim(display_name@), "offline"@, now, None, owner_user_id@, true),
            ),
            agent_credentials: old(db)@.agent_credentials.push(
                new_credential(bot_user_id@, owner_user_id@, None, owner_secret@, false, now, None),
            ),
            ..old(db)@
        }),
{
    if !validate_system_token(db, system_token.as_str()) && !caller.is_platform_admin {
        return Err(ChatError::NotPermitted);
    }
    let t = trim_str(display_name.as_str());
    let n = utf8_len(t);
    if n < 2 || n > 32 {
        return Err(ChatError::Invalid);
    }
    if is_bot_name_taken(db, t) {
        return Err(ChatError::AlreadyExists);
    }
    if contains_key(&db.chat_users, &bot_user_id) {
        return Err(ChatError::AlreadyExists);
    }
    let trimmed = to_owned_string(t);
    let user = make_bot_user(bot_user_id.clone(), trimmed, "offline", now, None, owner_user_id.clone(), true);
    insert_new(&mut db.chat_users, user);
    let cred = make_credential(bot_user_id, owner_user_id, None, owner_secret, false, now, None);
    insert_new(&mut db.agent_credentials, cred);
    Ok(())
}

/// Room memberships of users other than `user`.
pub open spec fn member_not_user(user: Seq<char>) -> spec_fn(RoomMemberV) -> bool {
    |m: RoomMemberV| m.user_id != user
}

/// Server memberships of users other than `user`.
pub open spec fn server_member_not_user(user: Seq<char>) -> spec_fn(ServerMemberV) -> bool {
    |m: ServerMemberV| m.user_id != user
}

/// Identity links of users other than `user`.
pub open spec fn link_not_user(user: Seq<char>) -> spec_fn(UserIdentityLinkV) -> bool {
    |l: UserIdentityLinkV| l.user_id != user
}

/// The database without a bot's credentials, configuration, room memberships,
/// identity links and chat user row.
pub open spec fn without_bot(db: ChatDbV, bot: Seq<char>) -> ChatDbV {
    ChatDbV {
        agent_credentials: without_key(db.agent_credentials, bot),
        agent_configs: without_key(db.agent_configs, bot),
        room_members: db.room_members.filter(member_not_user(bot)),
        user_identity_links: db.user_identity_links.filter(link_not_user(bot)),
        chat_users: without_key(db.chat_users, bot),
        ..db
    }
}

/// Remove a bot's credentials, configuration, room memberships, identity links
/// and chat user row.
pub fn remove_bot_rows(db: &mut ChatDb, bot: &String)
    requires
        old(db)@.wf(),
    ensures
        final(db)@.wf(),
        final(db)@ == without_bot(old(db)@, bot@),
{
    remove_key(&mut db.agent_credentials, bot);
    remove_key(&mut db.agent_configs, bot);
    let keep_m = |m: &RoomMember| -> (b: bool)
        ensures
            b == member_not_user(bot@)(m@),
        { m.user_id != *bot };
    retain_keyed(&mut db.room_members, keep_m, Ghost(member_not_user(bot@)));
    let keep_l = |l: &UserIdentityLink| -> (b: bool)
        ensures
            b == link_not_user(bot@)(l@),
        { l.user_id != *bot };
    retain_keyed(&mut db.user_identity_links, keep_l, Ghost(link_not_user(bot@)));
    remove_key(&mut db.chat_users, bot);
}

/// Outcome of [`system_deprovision_bot`].
pub open spec fn system_deprovision_bot_verdict(db: ChatDbV, c: CallerV, token: Seq<char>, bot: Seq<char>) -> Result<(), ChatError> {
    if !system_authorized(db, c, token) {
        Err(ChatError::NotPermitted)
    } else if !has_key(db.chat_users, bot) {
        Err(ChatError::NotFound)
    } else {
        Ok(())
    }
}

/// Deprovision a bot (system token or platform admin): removes its rows
/// everywhere, server memberships included.
pub fn system_deprovision_bot(db: &mut ChatDb, caller: &Caller, system_token: String, bot_user_id: String) -> (r: Result<(), ChatError>)
    requires
        old(db)@.wf(),
    ensures
        final(db)@.wf(),
        r == system_deprovision_bot_verdict(old(db)@, caller@, system_token@, bot_user_id@),
        r is Err ==> final(db)@ == old(db)@,
        r is Ok ==> final(db)@ == (ChatDbV {
            server_members: old(db)@.server_members.filter(server_member_not_user(bot_user_id@)),
            ..without_bot(old(db)@, bot_user_id@)
        }),
{
    if !validate_system_token(db, system_token.as_str()) && !caller.is_platform_admin {
        return Err(ChatError::NotPermitted);
    }
    if !contains_key(&db.chat_users, &bot_user_id) {
        return Err(ChatError::NotFound);
    }
    remove_bot_rows(db, &bot_user_id);
    let keep_s = |m: &ServerMember| -> (b: bool)
        ensures
            b == server_member_not_user(bot_user_id@)(m@),
        { m.user_id != bot_user_id };
    retain_keyed(&mut db.server_members, keep_s, Ghost(server_member_not_user(bot_user_id@)));
    Ok(())
}

/// Rows that do not belong to a room of `ids`.
pub open spec fn member_outside(ids: Seq<Seq<char>>) -> spec_fn(RoomMemberV) -> bool {
    |m: RoomMemberV| !ids.contains(m.room_id)
}

/// Messages that do not belong to a room of `ids`.
pub open spec fn message_outside(ids: Seq<Seq<char>>) -> spec_fn(MessageV) -> bool {
    |m: MessageV| !ids.contains(m.room_id)
}

/// Rooms not of `server`.
pub open spec fn room_not_in_server(server: Seq<char>) -> spec_fn(RoomV) -> bool {
    |r: RoomV| r.server_id != Some(server)
}

/// Categories not of `server`.
pub open spec fn category_not_in_server(server: Seq<char>) -> spec_fn(ChannelCategoryV) -> bool {
    |c: ChannelCategoryV| c.server_id != server
}

/// Outcome of [`system_delete_server`].
pub open spec fn system_delete_server_verdict(db: ChatDbV, c: CallerV, token: Seq<char>, server: Seq<char>) -> Result<(), ChatError> {
    if !system_authorized(db, c, token) {
        Err(ChatError::NotPermitted)
    } else if !has_key(db.chat_servers, server) {
        Err(ChatError::NotFound)
    } else {
        Ok(())
    }
}

/// Delete a server with full cascade (system token or platform admin): its
/// rooms with their messages and memberships, its memberships, its categories.
pub fn system_delete_server(db: &mut ChatDb, caller: &Caller, system_token: String, server_id: String) -> (r: Result<(), ChatError>)
    requires
        old(db)@.wf(),
    ensures
        final(db)@.wf(),
        r == system_delete_server_verdict(old(db)@, caller@, system_token@, server_id@),
        r is Err ==> final(db)@ == old(db)@,
        r is Ok ==> ({
            let ids = server_room_ids(old(db)@.rooms, server_id@);
            final(db)@ == (ChatDbV {
                messages: old(db)@.messages.filter(message_outside(ids)),
                room_members: old(db)@.room_members.filter(member_outside(ids)),
                rooms: old(db)@.rooms.filter(room_not_in_server(server_id@)),
                server_members: old(db)@.server_members.filter(not_member_of_server(server_id@)),
                channel_categories: old(db)@.channel_categories.filter(category_not_in_server(server_id@)),
                chat_servers: without_key(old(db)@.chat_servers, server_id@),
                ..old(db)@
            })
        }),
{
    if !validate_system_token(db, system_token.as_str()) && !caller.is_platform_admin {
        return Err(ChatError::NotPermitted);
    }
    if !contains_key(&db.chat_servers, &server_id) {
        return Err(ChatError::NotFound);
    }
    let ids = collect_server_room_ids(db, &server_id);
    let keep_g = |m: &Message| -> (b: bool)
        ensures
            b == message_outside(ids@.map_values(|x: String| x@))(m@),
        { !str_in(&ids, &m.room_id) };
    retain_keyed(&mut db.messages, keep_g, Ghost(message_outside(ids@.map_values(|x: String| x@))));
    let keep_m = |m: &RoomMember| -> (b: bool)
        ensures
            b == member_outside(ids@.map_values(|x: String| x@))(m@),
        { !str_in(&ids, &m.room_id) };
    retain_keyed(&mut db.room_members, keep_m, Ghost(member_outside(ids@.map_values(|x: String| x@))));
    let keep_r = |r: &Room| -> (b: bool)
        ensures
            b == room_not_in_server(server_id@)(r@),
        {
            match &r.server_id {
                Some(s) => *s != server_id,
                None => true,
            }
        };
    retain_keyed(&mut db.rooms, keep_r, Ghost(room_not_in_server(server_id@)));
    let keep_s = |m: &ServerMember| -> (b: bool)
        ensures
            b == not_member_of_server(server_id@)(m@),
        { m.server_id != server_id };
    retain_keyed(&mut db.server_members, keep_s, Ghost(not_member_of_server(server_id@)));
    let keep_c = |c: &ChannelCategory| -> (b: bool)
        ensures
            b == category_not_in_server(server_id@)(c@),
        { c.server_id != server_id };
    retain_keyed(&mut db.channel_categories, keep_c, Ghost(category_not_in_server(server_id@)));
    remove_key(&mut db.chat_servers, &server_id);
    Ok(())
}

} // verus!
