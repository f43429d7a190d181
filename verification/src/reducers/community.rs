//! Server extras: webhooks, stickers, custom emojis and invite codes.

use vstd::prelude::*;
use crate::context::{Caller, CallerV, ChatError};
use crate::db::{ChatDb, ChatDbV};
use crate::tables::{Webhook, WebhookV, WebhookMessage, WebhookMessageV, Sticker, StickerV, ServerEmoji, ServerEmojiV,
    ServerInvite, ServerInviteV, AutoModRule, AutoModRuleV, opt_view};
use crate::store::{lookup, has_key, without_key, replace_row, rows, find_key, contains_key, insert_new, remove_key,
    take_key, position, count_rows, lemma_without_key};
use crate::lookups::{server_membership, find_server_membership};
use crate::permissions::{has_server_permission, require_server_permission, PERM_MANAGE_WEBHOOKS, PERM_MANAGE_EMOJIS,
    PERM_CREATE_INVITES, PERM_MANAGE_SERVER};
use crate::accounts::ensure_chat_user;
use crate::reducers::rooms::with_caller_user;
use crate::reducers::servers::{server_member_id, server_member_row, make_server_member};
use crate::reducers::messages::MAX_MESSAGE_LEN;
use crate::unicode::{lowercase, to_lower, alphanumeric, is_alphanumeric};
use crate::common::{any_row, str_eq};
use crate::text::{trim, byte_len, trim_str, utf8_len, chars_of, to_owned_string, concat2, decimal, decimal_string};

verus! {

/// In room `room`, if it exists and belongs to a server, `user` holds `perm`
/// in that server.
pub open spec fn room_server_allows(db: ChatDbV, room: Seq<char>, user: Seq<char>, perm: u64) -> bool {
    match lookup(db.rooms, room) {
        Some(r) => match r.server_id {
            Some(sid) => has_server_permission(db, sid, user, perm),
            None => true,
        },
        None => true,
    }
}

fn check_room_server(db: &ChatDb, room: &String, user: &String, perm: u64) -> (b: bool)
    requires
        db@.wf(),
    ensures
        b == room_server_allows(db@, room@, user@, perm),
{
    match find_key(&db.rooms, room) {
        Some(ri) => match &db.rooms[ri].server_id {
            Some(sid) => require_server_permission(db, sid, user, perm),
            None => true,
        },
        None => true,
    }
}

/// Longest webhook name, in bytes.
pub const MAX_WEBHOOK_NAME_LEN: usize = 80;
/// Longest webhook token, in bytes.
pub const MAX_WEBHOOK_TOKEN_LEN: usize = 256;
/// Most webhooks per room.
pub const MAX_WEBHOOKS_PER_ROOM: usize = 10;

/// Webhooks of `room`.
pub open spec fn webhook_in(room: Seq<char>) -> spec_fn(WebhookV) -> bool {
    |w: WebhookV| w.room_id == room
}

/// Outcome of [`create_webhook`].
pub open spec fn create_webhook_verdict(db: ChatDbV, c: CallerV, room: Seq<char>, name: Seq<char>, token: Seq<char>) -> Result<(), ChatError> {
    match c.user_id {
        None => Err(ChatError::NotRegistered),
        Some(uid) => if !has_key(db.rooms, room) {
            Err(ChatError::NotFound)
        } else if !room_server_allows(db, room, uid, PERM_MANAGE_WEBHOOKS) {
            Err(ChatError::NotPermitted)
        } else if trim(name).len() == 0 || byte_len(trim(name)) > MAX_WEBHOOK_NAME_LEN {
            Err(ChatError::Invalid)
        } else if token.len() == 0 || byte_len(token) > MAX_WEBHOOK_TOKEN_LEN {
            Err(ChatError::Invalid)
        } else if db.webhooks.filter(webhook_in(room)).len() >= MAX_WEBHOOKS_PER_ROOM {
            Err(ChatError::LimitReached)
        } else {
            Ok(())
        },
    }
}

/// Create a webhook for a room (MANAGE_WEBHOOKS in a server): a trimmed name
/// of 1 to 80 bytes, a token of 1 to 256 bytes, at most 10 per room.
pub fn create_webhook(
    db: &mut ChatDb,
    caller: &Caller,
    now: u64,
    id: String,
    room_id: String,
    name: String,
    avatar_url: Option<String>,
    token: String,
) -> (r: Result<(), ChatError>)
    requires
        old(db)@.wf(),
        create_webhook_verdict(old(db)@, caller@, room_id@, name@, token@) is Ok ==> !has_key(old(db)@.webhooks, id@),
    ensures
        final(db)@.wf(),
        r == create_webhook_verdict(old(db)@, caller@, room_id@, name@, token@),
        r is Err ==> final(db)@ == old(db)@,
        r is Ok ==> final(db)@ == (ChatDbV {
            webhooks: old(db)@.webhooks.push(WebhookV {
                id: id@, room_id: room_id@, name: trim(name@), token: token@, created_by: caller@.user_id.unwrap(),
                avatar_url: opt_view(avatar_url), created_at: now,
            }),
            ..old(db)@
        }),
{
    let uid = match &caller.user_id {
        Some(u) => u.clone(),
        None => return Err(ChatError::NotRegistered),
    };
    if !contains_key(&db.rooms, &room_id) {
        return Err(ChatError::NotFound);
    }
    if !check_room_server(db, &room_id, &uid, PERM_MANAGE_WEBHOOKS) {
        return Err(ChatError::NotPermitted);
    }
    let t = trim_str(name.as_str());
    if t.unicode_len() == 0 || utf8_len(t) > MAX_WEBHOOK_NAME_LEN {
        return Err(ChatError::Invalid);
    }
    if token.unicode_len() == 0 || utf8_len(token.as_str()) > MAX_WEBHOOK_TOKEN_LEN {
        return Err(ChatError::Invalid);
    }
    let test = |w: &Webhook| -> (b: bool) ensures b == webhook_in(room_id@)(w@), { w.room_id == room_id };
    if count_rows(&db.webhooks, test, Ghost(webhook_in(room_id@))) >= MAX_WEBHOOKS_PER_ROOM {
        return Err(ChatError::LimitReached);
    }
    let w = Webhook { id, room_id, name: to_owned_string(t), token, created_by: uid, avatar_url, created_at: now };
    insert_new(&mut db.webhooks, w);
    Ok(())
}

/// Outcome of [`delete_webhook`].
pub open spec fn delete_webhook_verdict(db: ChatDbV, c: CallerV, id: Seq<char>) -> Result<(), ChatError> {
    match c.user_id {
        None => Err(ChatError::NotRegistered),
        Some(uid) => match lookup(db.webhooks, id) {
            None => Err(ChatError::NotFound),
            Some(w) => if !room_server_allows(db, w.room_id, uid, PERM_MANAGE_WEBHOOKS) { Err(ChatError::NotPermitted) } else { Ok(()) },
        },
    }
}

/// Delete a webhook (MANAGE_WEBHOOKS in a server).
pub fn delete_webhook(db: &mut ChatDb, caller: &Caller, id: String) -> (r: Result<(), ChatError>)
    requires
        old(db)@.wf(),
    ensures
        final(db)@.wf(),
        r == delete_webhook_verdict(old(db)@, caller@, id@),
        r is Err ==> final(db)@ == old(db)@,
        r is Ok ==> final(db)@ == (ChatDbV { webhooks: without_key(old(db)@.webhooks, id@), ..old(db)@ }),
{
    let uid = match &caller.user_id {
        Some(u) => u.clone(),
        None => return Err(ChatError::NotRegistered),
    };
    let wi = match find_key(&db.webhooks, &id) {
        Some(i) => i,
        None => return Err(ChatError::NotFound),
    };
    let room = db.webhooks[wi].room_id.clone();
    if !check_room_server(db, &room, &uid, PERM_MANAGE_WEBHOOKS) {
        return Err(ChatError::NotPermitted);
    }
    remove_key(&mut db.webhooks, &id);
    Ok(())
}

/// Id of a webhook message: "wh-<webhook>-<now>".
pub open spec fn webhook_message_id(webhook: Seq<char>, now: u64) -> Seq<char> {
    "wh-"@ + webhook + "-"@ + decimal(now as nat)
}

/// Outcome of [`send_webhook_message`].
pub open spec fn webhook_send_verdict(db: ChatDbV, webhook: Seq<char>, token: Seq<char>, content: Seq<char>) -> Result<(), ChatError> {
    match lookup(db.webhooks, webhook) {
        None => Err(ChatError::NotFound),
        Some(w) => if w.token != token {
            Err(ChatError::NotPermitted)
        } else if trim(content).len() == 0 || byte_len(trim(content)) > MAX_MESSAGE_LEN {
            Err(ChatError::Invalid)
        } else {
            Ok(())
        },
    }
}

/// Post a message through a webhook, authenticated by its token (no user
/// needed); the sender's name and avatar may be given per message.
pub fn send_webhook_message(
    db: &mut ChatDb,
    now: u64,
    webhook_id: String,
    token: String,
    content: String,
    sender_name: Option<String>,
    sender_avatar: Option<String>,
) -> (r: Result<(), ChatError>)
    requires
        old(db)@.wf(),
        webhook_send_verdict(old(db)@, webhook_id@, token@, content@) is Ok
            ==> !has_key(old(db)@.webhook_messages, webhook_message_id(webhook_id@, now)),
    ensures
        final(db)@.wf(),
        r == webhook_send_verdict(old(db)@, webhook_id@, token@, content@),
        r is Err ==> final(db)@ == old(db)@,
        r is Ok ==> ({
            let w = lookup(old(db)@.webhooks, webhook_id@).unwrap();
            final(db)@ == (ChatDbV {
                webhook_messages: old(db)@.webhook_messages.push(WebhookMessageV {
                    id: webhook_message_id(webhook_id@, now), room_id: w.room_id, webhook_id: webhook_id@,
                    webhook_name: w.name, webhook_avatar: w.avatar_url, content: trim(content@), created_at: now,
                    sender_name: opt_view(sender_name), sender_avatar: opt_view(sender_avatar),
                }),
                ..old(db)@
            })
        }),
{
    let wi = match find_key(&db.webhooks, &webhook_id) {
        Some(i) => i,
        None => return Err(ChatError::NotFound),
    };
    if db.webhooks[wi].token != token {
        return Err(ChatError::NotPermitted);
    }
    let t = trim_str(content.as_str());
    if t.unicode_len() == 0 || utf8_len(t) > MAX_MESSAGE_LEN {
        return Err(ChatError::Invalid);
    }
    let mut id = concat2("wh-", webhook_id.as_str());
    id.append("-");
    let stamp = decimal_string(now);
    id.append(stamp.as_str());
    let w = &db.webhooks[wi];
    let m = WebhookMessage {
        id,
        room_id: w.room_id.clone(),
        webhook_id,
        webhook_name: w.name.clone(),
        webhook_avatar: crate::common::clone_opt(&w.avatar_url),
        content: to_owned_string(t),
        created_at: now,
        sender_name,
        sender_avatar,
    };
    insert_new(&mut db.webhook_messages, m);
    Ok(())
}

/// Longest sticker name, in bytes.
pub const MAX_STICKER_NAME_LEN: usize = 32;
/// Longest sticker description, in bytes.
pub const MAX_STICKER_DESC_LEN: usize = 200;
/// Longest sticker image data, in bytes.
pub const MAX_STICKER_DATA_LEN: usize = 700000;
/// Most stickers per server.
pub const MAX_STICKERS_PER_SERVER: usize = 30;

/// Stickers of `server`.
pub open spec fn sticker_of(server: Seq<char>) -> spec_fn(StickerV) -> bool {
    |s: StickerV| s.server_id == server
}

/// Outcome of [`create_sticker`].
pub open spec fn create_sticker_verdict(db: ChatDbV, c: CallerV, server: Seq<char>, name: Seq<char>, description: Seq<char>, image: Seq<char>) -> Result<(), ChatError> {
    match c.user_id {
        None => Err(ChatError::NotRegistered),
        Some(uid) => if !has_server_permission(db, server, uid, PERM_MANAGE_EMOJIS) {
            Err(ChatError::NotPermitted)
        } else if trim(name).len() == 0 || byte_len(trim(name)) > MAX_STICKER_NAME_LEN {
            Err(ChatError::Invalid)
        } else if byte_len(description) > MAX_STICKER_DESC_LEN || byte_len(image) > MAX_STICKER_DATA_LEN {
            Err(ChatError::Invalid)
        } else if db.stickers.filter(sticker_of(server)).len() >= MAX_STICKERS_PER_SERVER {
            Err(ChatError::LimitReached)
        } else {
            Ok(())
        },
    }
}

/// Create a sticker for a server (MANAGE_EMOJIS): a trimmed name of 1 to 32
/// bytes, a description of at most 200, image data of at most 700000, at
/// most 30 stickers per server.
pub fn create_sticker(
    db: &mut ChatDb,
    caller: &Caller,
    now: u64,
    id: String,
    server_id: String,
    name: String,
    description: String,
    image_data: String,
    tags: String,
) -> (r: Result<(), ChatError>)
    requires
        old(db)@.wf(),
        create_sticker_verdict(old(db)@, caller@, server_id@, name@, description@, image_data@) is Ok ==> !has_key(old(db)@.stickers, id@),
    ensures
        final(db)@.wf(),
        r == create_sticker_verdict(old(db)@, caller@, server_id@, name@, description@, image_data@),
        r is Err ==> final(db)@ == old(db)@,
        r is Ok ==> final(db)@ == (ChatDbV {
            stickers: old(db)@.stickers.push(StickerV {
                id: id@, server_id: server_id@, name: trim(name@), description: description@, image_data: image_data@,
                tags: tags@, uploaded_by: caller@.user_id.unwrap(), created_at: now,
            }),
            ..old(db)@
        }),
{
    let uid = match &caller.user_id {
        Some(u) => u.clone(),
        None => return Err(ChatError::NotRegistered),
    };
    if !require_server_permission(db, &server_id, &uid, PERM_MANAGE_EMOJIS) {
        return Err(ChatError::NotPermitted);
    }
    let t = trim_str(name.as_str());
    if t.unicode_len() == 0 || utf8_len(t) > MAX_STICKER_NAME_LEN {
        return Err(ChatError::Invalid);
    }
    if utf8_len(description.as_str()) > MAX_STICKER_DESC_LEN || utf8_len(image_data.as_str()) > MAX_STICKER_DATA_LEN {
        return Err(ChatError::Invalid);
    }
    let test = |s: &Sticker| -> (b: bool) ensures b == sticker_of(server_id@)(s@), { s.server_id == server_id };
    if count_rows(&db.stickers, test, Ghost(sticker_of(server_id@))) >= MAX_STICKERS_PER_SERVER {
        return Err(ChatError::LimitReached);
    }
    let s = Sticker { id, server_id, name: to_owned_string(t), description, image_data, tags, uploaded_by: uid, created_at: now };
    insert_new(&mut db.stickers, s);
    Ok(())
}

/// Outcome of [`delete_sticker`].
pub open spec fn delete_sticker_verdict(db: ChatDbV, c: CallerV, id: Seq<char>) -> Result<(), ChatError> {
    match c.user_id {
        None => Err(ChatError::NotRegistered),
        Some(uid) => match lookup(db.stickers, id) {
            None => Err(ChatError::NotFound),
            Some(s) => if !has_server_permission(db, s.server_id, uid, PERM_MANAGE_EMOJIS) { Err(ChatError::NotPermitted) } else { Ok(()) },
        },
    }
}

/// Delete a sticker (MANAGE_EMOJIS in its server).
pub fn delete_sticker(db: &mut ChatDb, caller: &Caller, id: String) -> (r: Result<(), ChatError>)
    requires
        old(db)@.wf(),
    ensures
        final(db)@.wf(),
        r == delete_sticker_verdict(old(db)@, caller@, id@),
        r is Err ==> final(db)@ == old(db)@,
        r is Ok ==> final(db)@ == (ChatDbV { stickers: without_key(old(db)@.stickers, id@), ..old(db)@ }),
{
    let uid = match &caller.user_id {
        Some(u) => u.clone(),
        None => return Err(ChatError::NotRegistered),
    };
    let si = match find_key(&db.stickers, &id) {
        Some(i) => i,
        None => return Err(ChatError::NotFound),
    };
    let server = db.stickers[si].server_id.clone();
    if !require_server_permission(db, &server, &uid, PERM_MANAGE_EMOJIS) {
        return Err(ChatError::NotPermitted);
    }
    remove_key(&mut db.stickers, &id);
    Ok(())
}

/// Longest emoji short code, in bytes.
pub const MAX_EMOJI_NAME_LEN: usize = 32;
/// Longest emoji image data, in bytes.
pub const MAX_EMOJI_DATA_LEN: usize = 350000;
/// Most custom emojis per server.
pub const MAX_EMOJIS_PER_SERVER: usize = 50;

/// The short code an emoji name gives: trimmed, then lower-cased.
pub open spec fn emoji_code(name: Seq<char>) -> Seq<char> {
    lowercase(trim(name))
}

/// An acceptable short code: 1 to 32 bytes of letters, digits and underscores.
pub open spec fn valid_emoji_code(code: Seq<char>) -> bool {
    &&& code.len() > 0
    &&& byte_len(code) <= MAX_EMOJI_NAME_LEN
    &&& forall|i: int| 0 <= i < code.len() ==> (alphanumeric(#[trigger] code[i]) || code[i] == '_')
}

fn check_emoji_code(code: &str) -> (b: bool)
    ensures
        b == valid_emoji_code(code@),
{
    if code.unicode_len() == 0 || utf8_len(code) > MAX_EMOJI_NAME_LEN {
        return false;
    }
    let cs = chars_of(code);
    let mut i: usize = 0;
    while i < cs.len()
        invariant
            cs@ == code@,
            i <= cs@.len(),
            forall|j: int| 0 <= j < i ==> (alphanumeric(#[trigger] cs@[j]) || cs@[j] == '_'),
        decreases cs.len() - i,
    {
        if !(is_alphanumeric(cs[i]) || cs[i] == '_') {
            return false;
        }
        i = i + 1;
    }
    true
}

/// Emojis of `server`.
pub open spec fn emoji_of(server: Seq<char>) -> spec_fn(ServerEmojiV) -> bool {
    |e: ServerEmojiV| e.server_id == server
}

/// Emojis of `server` named `code`.
pub open spec fn emoji_named(server: Seq<char>, code: Seq<char>) -> spec_fn(ServerEmojiV) -> bool {
    |e: ServerEmojiV| e.server_id == server && e.name == code
}

/// Outcome of [`create_server_emoji`].
pub open spec fn create_emoji_verdict(db: ChatDbV, c: CallerV, server: Seq<char>, name: Seq<char>, image: Seq<char>) -> Result<(), ChatError> {
    match c.user_id {
        None => Err(ChatError::NotRegistered),
        Some(uid) => if !has_server_permission(db, server, uid, PERM_MANAGE_EMOJIS) {
            Err(ChatError::NotPermitted)
        } else if !valid_emoji_code(emoji_code(name)) {
            Err(ChatError::Invalid)
        } else if byte_len(image) > MAX_EMOJI_DATA_LEN {
            Err(ChatError::Invalid)
        } else if db.server_emojis.filter(emoji_of(server)).len() >= MAX_EMOJIS_PER_SERVER {
            Err(ChatError::LimitReached)
        } else if any_row(db.server_emojis, emoji_named(server, emoji_code(name))) {
            Err(ChatError::AlreadyExists)
        } else {
            Ok(())
        },
    }
}

/// Add a custom emoji to a server (MANAGE_EMOJIS): its short code is the
/// trimmed, lower-cased name (1 to 32 bytes of letters, digits and
/// underscores) and unique in the server; at most 50 emojis per server.
pub fn create_server_emoji(
    db: &mut ChatDb,
    caller: &Caller,
    now: u64,
    id: String,
    server_id: String,
    name: String,
    image_data: String,
    animated: bool,
) -> (r: Result<(), ChatError>)
    requires
        old(db)@.wf(),
        create_emoji_verdict(old(db)@, caller@, server_id@, name@, image_data@) is Ok ==> !has_key(old(db)@.server_emojis, id@),
    ensures
        final(db)@.wf(),
        r == create_emoji_verdict(old(db)@, caller@, server_id@, name@, image_data@),
        r is Err ==> final(db)@ == old(db)@,
        r is Ok ==> final(db)@ == (ChatDbV {
            server_emojis: old(db)@.server_emojis.push(ServerEmojiV {
                id: id@, server_id: server_id@, name: emoji_code(name@), image_data: image_data@, animated: animated,
                uploaded_by: caller@.user_id.unwrap(), created_at: now,
            }),
            ..old(db)@
        }),
{
    let uid = match &caller.user_id {
        Some(u) => u.clone(),
        None => return Err(ChatError::NotRegistered),
    };
    if !require_server_permission(db, &server_id, &uid, PERM_MANAGE_EMOJIS) {
        return Err(ChatError::NotPermitted);
    }
    let code = to_lower(trim_str(name.as_str()));
    if !check_emoji_code(code.as_str()) {
        return Err(ChatError::Invalid);
    }
    if utf8_len(image_data.as_str()) > MAX_EMOJI_DATA_LEN {
        return Err(ChatError::Invalid);
    }
    let mine = |e: &ServerEmoji| -> (b: bool) ensures b == emoji_of(server_id@)(e@), { e.server_id == server_id };
    if count_rows(&db.server_emojis, mine, Ghost(emoji_of(server_id@))) >= MAX_EMOJIS_PER_SERVER {
        return Err(ChatError::LimitReached);
    }
    let same = |e: &ServerEmoji| -> (b: bool) ensures b == emoji_named(server_id@, code@)(e@), { e.server_id == server_id && e.name == code };
    match position(&db.server_emojis, same, Ghost(emoji_named(server_id@, code@))) {
        Some(k) => {
            assert(db@.server_emojis[k as int] == rows(db.server_emojis@)[k as int]);
            return Err(ChatError::AlreadyExists);
        },
        None => {},
    }
    let e = ServerEmoji { id, server_id, name: code, image_data, animated, uploaded_by: uid, created_at: now };
    insert_new(&mut db.server_emojis, e);
    Ok(())
}

/// The caller manages the emojis of the server of emoji `id`.
pub open spec fn emoji_manager_verdict(db: ChatDbV, c: CallerV, id: Seq<char>) -> Result<(), ChatError> {
    match c.user_id {
        None => Err(ChatError::NotRegistered),
        Some(uid) => match lookup(db.server_emojis, id) {
            None => Err(ChatError::NotFound),
            Some(e) => if !has_server_permission(db, e.server_id, uid, PERM_MANAGE_EMOJIS) { Err(ChatError::NotPermitted) } else { Ok(()) },
        },
    }
}

/// Delete a custom emoji (MANAGE_EMOJIS in its server).
pub fn delete_server_emoji(db: &mut ChatDb, caller: &Caller, id: String) -> (r: Result<(), ChatError>)
    requires
        old(db)@.wf(),
    ensures
        final(db)@.wf(),
        r == emoji_manager_verdict(old(db)@, caller@, id@),
        r is Err ==> final(db)@ == old(db)@,
        r is Ok ==> final(db)@ == (ChatDbV { server_emojis: without_key(old(db)@.server_emojis, id@), ..old(db)@ }),
{
    let uid = match &caller.user_id {
        Some(u) => u.clone(),
        None => return Err(ChatError::NotRegistered),
    };
    let ei = match find_key(&db.server_emojis, &id) {
        Some(i) => i,
        None => return Err(ChatError::NotFound),
    };
    let server = db.server_emojis[ei].server_id.clone();
    if !require_server_permission(db, &server, &uid, PERM_MANAGE_EMOJIS) {
        return Err(ChatError::NotPermitted);
    }
    remove_key(&mut db.server_emojis, &id);
    Ok(())
}

/// Rename a custom emoji (MANAGE_EMOJIS in its server); the new short code
/// follows the rules of [`create_server_emoji`] (uniqueness is not checked).
pub fn rename_server_emoji(db: &mut ChatDb, caller: &Caller, id: String, name: String) -> (r: Result<(), ChatError>)
    requires
        old(db)@.wf(),
    ensures
        final(db)@.wf(),
        r == (if emoji_manager_verdict(old(db)@, caller@, id@) is Err {
            emoji_manager_verdict(old(db)@, caller@, id@)
        } else if !valid_emoji_code(emoji_code(name@)) {
            Err(ChatError::Invalid)
        } else {
            Ok(())
        }),
        r is Err ==> final(db)@ == old(db)@,
        r is Ok ==> final(db)@ == (ChatDbV {
            server_emojis: replace_row(old(db)@.server_emojis, ServerEmojiV { name: emoji_code(name@), ..lookup(old(db)@.server_emojis, id@).unwrap() }),
            ..old(db)@
        }),
{
    let uid = match &caller.user_id {
        Some(u) => u.clone(),
        None => return Err(ChatError::NotRegistered),
    };
    let ei = match find_key(&db.server_emojis, &id) {
        Some(i) => i,
        None => return Err(ChatError::NotFound),
    };
    let server = db.server_emojis[ei].server_id.clone();
    if !require_server_permission(db, &server, &uid, PERM_MANAGE_EMOJIS) {
        return Err(ChatError::NotPermitted);
    }
    let code = to_lower(trim_str(name.as_str()));
    if !check_emoji_code(code.as_str()) {
        return Err(ChatError::Invalid);
    }
    let e = take_key(&mut db.server_emojis, &id).unwrap();
    proof {
        lemma_without_key(old(db)@.server_emojis, id@);
    }
    insert_new(&mut db.server_emojis, ServerEmoji { name: code, ..e });
    Ok(())
}

/// An acceptable invite code: 4 to 16 bytes of letters and digits.
pub open spec fn valid_invite_code(code: Seq<char>) -> bool {
    &&& byte_len(code) >= 4
    &&& byte_len(code) <= 16
    &&& forall|i: int| 0 <= i < code.len() ==> alphanumeric(#[trigger] code[i])
}

fn check_invite_code(code: &str) -> (b: bool)
    ensures
        b == valid_invite_code(code@),
{
    let n = utf8_len(code);
    if n < 4 || n > 16 {
        return false;
    }
    let cs = chars_of(code);
    let mut i: usize = 0;
    while i < cs.len()
        invariant
            cs@ == code@,
            i <= cs@.len(),
            forall|j: int| 0 <= j < i ==> alphanumeric(#[trigger] cs@[j]),
        decreases cs.len() - i,
    {
        if !is_alphanumeric(cs[i]) {
            return false;
        }
        i = i + 1;
    }
    true
}

/// Outcome of [`create_server_invite`].
pub open spec fn create_invite_verdict(db: ChatDbV, c: CallerV, code: Seq<char>, server: Seq<char>) -> Result<(), ChatError> {
    match c.user_id {
        None => Err(ChatError::NotRegistered),
        Some(uid) => if !has_server_permission(db, server, uid, PERM_CREATE_INVITES) {
            Err(ChatError::NotPermitted)
        } else if !valid_invite_code(code) {
            Err(ChatError::Invalid)
        } else if has_key(db.server_invites, code) {
            Err(ChatError::AlreadyExists)
        } else {
            Ok(())
        },
    }
}

/// Create an invite code into a server (CREATE_INVITES), optionally limited
/// in uses and time.
pub fn create_server_invite(
    db: &mut ChatDb,
    caller: &Caller,
    now: u64,
    code: String,
    server_id: String,
    max_uses: Option<u32>,
    expires_at: Option<u64>,
) -> (r: Result<(), ChatError>)
    requires
        old(db)@.wf(),
    ensures
        final(db)@.wf(),
        r == create_invite_verdict(old(db)@, caller@, code@, server_id@),
        r is Err ==> final(db)@ == old(db)@,
        r is Ok ==> final(db)@ == (ChatDbV {
            server_invites: old(db)@.server_invites.push(ServerInviteV {
                code: code@, server_id: server_id@, created_by: caller@.user_id.unwrap(), max_uses: max_uses, uses: 0,
                expires_at: expires_at, created_at: now,
            }),
            ..old(db)@
        }),
{
    let uid = match &caller.user_id {
        Some(u) => u.clone(),
        None => return Err(ChatError::NotRegistered),
    };
    if !require_server_permission(db, &server_id, &uid, PERM_CREATE_INVITES) {
        return Err(ChatError::NotPermitted);
    }
    if !check_invite_code(code.as_str()) {
        return Err(ChatError::Invalid);
    }
    if contains_key(&db.server_invites, &code) {
        return Err(ChatError::AlreadyExists);
    }
    let inv = ServerInvite { code, server_id, created_by: uid, max_uses, uses: 0, expires_at, created_at: now };
    insert_new(&mut db.server_invites, inv);
    Ok(())
}

/// Outcome of [`delete_server_invite`].
pub open spec fn delete_invite_verdict(db: ChatDbV, c: CallerV, code: Seq<char>) -> Result<(), ChatError> {
    match c.user_id {
        None => Err(ChatError::NotRegistered),
        Some(uid) => match lookup(db.server_invites, code) {
            None => Err(ChatError::NotFound),
            Some(inv) => if inv.created_by != uid && !has_server_permission(db, inv.server_id, uid, PERM_MANAGE_SERVER) {
                Err(ChatError::NotPermitted)
            } else {
                Ok(())
            },
        },
    }
}

/// Delete an invite code (its creator, or MANAGE_SERVER).
pub fn delete_server_invite(db: &mut ChatDb, caller: &Caller, code: String) -> (r: Result<(), ChatError>)
    requires
        old(db)@.wf(),
    ensures
        final(db)@.wf(),
        r == delete_invite_verdict(old(db)@, caller@, code@),
        r is Err ==> final(db)@ == old(db)@,
        r is Ok ==> final(db)@ == (ChatDbV { server_invites: without_key(old(db)@.server_invites, code@), ..old(db)@ }),
{
    let uid = match &caller.user_id {
        Some(u) => u.clone(),
        None => return Err(ChatError::NotRegistered),
    };
    let ii = match find_key(&db.server_invites, &code) {
        Some(i) => i,
        None => return Err(ChatError::NotFound),
    };
    let server = db.server_invites[ii].server_id.clone();
    if db.server_invites[ii].created_by != uid && !require_server_permission(db, &server, &uid, PERM_MANAGE_SERVER) {
        return Err(ChatError::NotPermitted);
    }
    remove_key(&mut db.server_invites, &code);
    Ok(())
}

/// Outcome of [`use_server_invite`] (an expired invite is also removed).
pub open spec fn use_invite_verdict(db: ChatDbV, c: CallerV, code: Seq<char>, now: u64) -> Result<(), ChatError> {
    match c.user_id {
        None => Err(ChatError::NotRegistered),
        Some(uid) => match lookup(db.server_invites, code) {
            None => Err(ChatError::NotFound),
            Some(inv) => if inv.expires_at is Some && now > inv.expires_at.unwrap() {
                Err(ChatError::Invalid)
            } else if inv.max_uses is Some && inv.uses >= inv.max_uses.unwrap() {
                Err(ChatError::LimitReached)
            } else if !has_key(db.chat_servers, inv.server_id) {
                Err(ChatError::NotFound)
            } else {
                match server_membership(db, inv.server_id, uid) {
                    Some(m) => if m.role == "banned"@ { Err(ChatError::NotPermitted) } else { Err(ChatError::AlreadyExists) },
                    None => Ok(()),
                }
            },
        },
    }
}

/// Join a server with an invite code. An expired code is deleted; a code out
/// of uses, a missing server, a ban or an existing membership refuse. The
/// caller's chat user row is made sure of, they join as "member", and the
/// code counts one more use.
pub fn use_server_invite(db: &mut ChatDb, caller: &Caller, now: u64, code: String) -> (r: Result<(), ChatError>)
    requires
        old(db)@.wf(),
        use_invite_verdict(old(db)@, caller@, code@, now) is Ok ==> {
            let inv = lookup(old(db)@.server_invites, code@).unwrap();
            &&& !has_key(old(db)@.server_members, server_member_id(inv.server_id, caller@.user_id.unwrap()))
            &&& inv.uses < u32::MAX
        },
    ensures
        final(db)@.wf(),
        r == use_invite_verdict(old(db)@, caller@, code@, now),
        r is Err ==> final(db)@ == if r == Err::<(), ChatError>(ChatError::Invalid) {
            ChatDbV { server_invites: without_key(old(db)@.server_invites, code@), ..old(db)@ }
        } else {
            old(db)@
        },
        r is Ok ==> ({
            let inv = lookup(old(db)@.server_invites, code@).unwrap();
            let uid = caller@.user_id.unwrap();
            let mid = with_caller_user(old(db)@, caller@, now);
            final(db)@ == (ChatDbV {
                server_members: mid.server_members.push(server_member_row(inv.server_id, uid, "member"@, now)),
                server_invites: replace_row(mid.server_invites, ServerInviteV { uses: (inv.uses + 1) as u32, ..inv }),
                ..mid
            })
        }),
{
    let uid = match &caller.user_id {
        Some(u) => u.clone(),
        None => return Err(ChatError::NotRegistered),
    };
    let ii = match find_key(&db.server_invites, &code) {
        Some(i) => i,
        None => return Err(ChatError::NotFound),
    };
    match db.server_invites[ii].expires_at {
        Some(e) => {
            if now > e {
                remove_key(&mut db.server_invites, &code);
                return Err(ChatError::Invalid);
            }
        },
        None => {},
    }
    match db.server_invites[ii].max_uses {
        Some(m) => {
            if db.server_invites[ii].uses >= m {
                return Err(ChatError::LimitReached);
            }
        },
        None => {},
    }
    let server = db.server_invites[ii].server_id.clone();
    if !contains_key(&db.chat_servers, &server) {
        return Err(ChatError::NotFound);
    }
    match find_server_membership(db, &server, &uid) {
        Some(k) => {
            if str_eq(db.server_members[k].role.as_str(), "banned") {
                return Err(ChatError::NotPermitted);
            }
            return Err(ChatError::AlreadyExists);
        },
        None => {},
    }
    let _ = ensure_chat_user(db, &uid, &caller.identity, now);
    insert_new(&mut db.server_members, make_server_member(&server, &uid, "member", now));
    let inv = take_key(&mut db.server_invites, &code).unwrap();
    proof {
        lemma_without_key(old(db)@.server_invites, code@);
    }
    let uses = inv.uses + 1;
    insert_new(&mut db.server_invites, ServerInvite { uses, ..inv });
    Ok(())
}

/// Most auto-moderation rules per server.
pub const MAX_AUTO_MOD_RULES_PER_SERVER: usize = 20;

/// A kind of auto-moderation rule.
pub open spec fn valid_rule_type(t: Seq<char>) -> bool {
    t == "blocked_words"@ || t == "spam_filter"@ || t == "mention_limit"@ || t == "link_filter"@ || t == "caps_filter"@
}

/// What an auto-moderation rule does to a message it catches.
pub open spec fn valid_rule_action(a: Seq<char>) -> bool {
    a == "block"@ || a == "flag"@ || a == "timeout_60"@ || a == "timeout_300"@ || a == "timeout_3600"@
}

/// Rules of `server`.
pub open spec fn rule_of(server: Seq<char>) -> spec_fn(AutoModRuleV) -> bool {
    |r: AutoModRuleV| r.server_id == server
}

/// Outcome of [`create_auto_mod_rule`].
pub open spec fn create_rule_verdict(db: ChatDbV, c: CallerV, server: Seq<char>, rule_type: Seq<char>, action: Seq<char>) -> Result<(), ChatError> {
    match c.user_id {
        None => Err(ChatError::NotRegistered),
        Some(uid) => if !has_server_permission(db, server, uid, PERM_MANAGE_SERVER) {
            Err(ChatError::NotPermitted)
        } else if !valid_rule_type(rule_type) || !valid_rule_action(action) {
            Err(ChatError::Invalid)
        } else if db.auto_mod_rules.filter(rule_of(server)).len() >= MAX_AUTO_MOD_RULES_PER_SERVER {
            Err(ChatError::LimitReached)
        } else {
            Ok(())
        },
    }
}

/// Add an enabled auto-moderation rule to a server (MANAGE_SERVER); at most
/// 20 per server.
pub fn create_auto_mod_rule(
    db: &mut ChatDb,
    caller: &Caller,
    now: u64,
    id: String,
    server_id: String,
    rule_type: String,
    config: String,
    action: String,
    exempt_roles: String,
    exempt_channels: String,
) -> (r: Result<(), ChatError>)
    requires
        old(db)@.wf(),
        create_rule_verdict(old(db)@, caller@, server_id@, rule_type@, action@) is Ok ==> !has_key(old(db)@.auto_mod_rules, id@),
    ensures
        final(db)@.wf(),
        r == create_rule_verdict(old(db)@, caller@, server_id@, rule_type@, action@),
        r is Err ==> final(db)@ == old(db)@,
        r is Ok ==> final(db)@ == (ChatDbV {
            auto_mod_rules: old(db)@.auto_mod_rules.push(AutoModRuleV {
                id: id@, server_id: server_id@, rule_type: rule_type@, config: config@, enabled: true, action: action@,
                exempt_roles: exempt_roles@, exempt_channels: exempt_channels@, created_by: caller@.user_id.unwrap(), created_at: now,
            }),
            ..old(db)@
        }),
{
    let uid = match &caller.user_id {
        Some(u) => u.clone(),
        None => return Err(ChatError::NotRegistered),
    };
    if !require_server_permission(db, &server_id, &uid, PERM_MANAGE_SERVER) {
        return Err(ChatError::NotPermitted);
    }
    let t = rule_type.as_str();
    let a = action.as_str();
    if !(str_eq(t, "blocked_words") || str_eq(t, "spam_filter") || str_eq(t, "mention_limit") || str_eq(t, "link_filter")
        || str_eq(t, "caps_filter")) || !(str_eq(a, "block") || str_eq(a, "flag") || str_eq(a, "timeout_60")
        || str_eq(a, "timeout_300") || str_eq(a, "timeout_3600")) {
        return Err(ChatError::Invalid);
    }
    let test = |x: &AutoModRule| -> (b: bool) ensures b == rule_of(server_id@)(x@), { x.server_id == server_id };
    if count_rows(&db.auto_mod_rules, test, Ghost(rule_of(server_id@))) >= MAX_AUTO_MOD_RULES_PER_SERVER {
        return Err(ChatError::LimitReached);
    }
    let rule = AutoModRule {
        id, server_id, rule_type, config, enabled: true, action, exempt_roles, exempt_channels, created_by: uid, created_at: now,
    };
    insert_new(&mut db.auto_mod_rules, rule);
    Ok(())
}

/// The caller may manage the server of rule `id` (MANAGE_SERVER).
pub open spec fn rule_manager_verdict(db: ChatDbV, c: CallerV, id: Seq<char>) -> Result<(), ChatError> {
    match c.user_id {
        None => Err(ChatError::NotRegistered),
        Some(uid) => match lookup(db.auto_mod_rules, id) {
            None => Err(ChatError::NotFound),
            Some(rule) => if !has_server_permission(db, rule.server_id, uid, PERM_MANAGE_SERVER) { Err(ChatError::NotPermitted) } else { Ok(()) },
        },
    }
}

fn check_rule_manager(db: &ChatDb, caller: &Caller, id: &String) -> (r: Result<(), ChatError>)
    requires
        db@.wf(),
    ensures
        r == rule_manager_verdict(db@, caller@, id@),
{
    let uid = match &caller.user_id {
        Some(u) => u,
        None => return Err(ChatError::NotRegistered),
    };
    let ri = match find_key(&db.auto_mod_rules, id) {
        Some(i) => i,
        None => return Err(ChatError::NotFound),
    };
    if !require_server_permission(db, &db.auto_mod_rules[ri].server_id, uid, PERM_MANAGE_SERVER) {
        return Err(ChatError::NotPermitted);
    }
    Ok(())
}

/// Change an auto-moderation rule's settings (MANAGE_SERVER); its kind stays.
pub fn update_auto_mod_rule(
    db: &mut ChatDb,
    caller: &Caller,
    id: String,
    config: String,
    enabled: bool,
    action: String,
    exempt_roles: String,
    exempt_channels: String,
) -> (r: Result<(), ChatError>)
    requires
        old(db)@.wf(),
    ensures
        final(db)@.wf(),
        r == rule_manager_verdict(old(db)@, caller@, id@),
        r is Err ==> final(db)@ == old(db)@,
        r is Ok ==> final(db)@ == (ChatDbV {
            auto_mod_rules: replace_row(old(db)@.auto_mod_rules, AutoModRuleV {
                config: config@, enabled: enabled, action: action@, exempt_roles: exempt_roles@, exempt_channels: exempt_channels@,
                ..lookup(old(db)@.auto_mod_rules, id@).unwrap()
            }),
            ..old(db)@
        }),
{
    match check_rule_manager(db, caller, &id) {
        Err(e) => return Err(e),
        Ok(()) => {},
    }
    let rule = take_key(&mut db.auto_mod_rules, &id).unwrap();
    proof {
        lemma_without_key(old(db)@.auto_mod_rules, id@);
    }
    insert_new(&mut db.auto_mod_rules, AutoModRule { config, enabled, action, exempt_roles, exempt_channels, ..rule });
    Ok(())
}

/// Delete an auto-moderation rule (MANAGE_SERVER).
pub fn delete_auto_mod_rule(db: &mut ChatDb, caller: &Caller, id: String) -> (r: Result<(), ChatError>)
    requires
        old(db)@.wf(),
    ensures
        final(db)@.wf(),
        r == rule_manager_verdict(old(db)@, caller@, id@),
        r is Err ==> final(db)@ == old(db)@,
        r is Ok ==> final(db)@ == (ChatDbV { auto_mod_rules: without_key(old(db)@.auto_mod_rules, id@), ..old(db)@ }),
{
    match check_rule_manager(db, caller, &id) {
        Err(e) => return Err(e),
        Ok(()) => {},
    }
    remove_key(&mut db.auto_mod_rules, &id);
    Ok(())
}

} // verus!
