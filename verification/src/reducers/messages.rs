//! Messages: sending, with every check a message passes on its way in.

use vstd::prelude::*;
use crate::context::{Caller, CallerV, ChatError};
use crate::db::{ChatDb, ChatDbV};
use crate::tables::{ChatUser, ChatUserV, Message, MessageV, RoomV, PinnedMessage, PinnedMessageV, MessageAttachment,
    MessageAttachmentV, MessageEdit, MessageEditV, MessageEditRoomIndex, MessageEditRoomIndexV, EphemeralCleanupJob,
    EphemeralCleanupJobV, ScheduleAt, opt_view};
use crate::store::{lookup, has_key, replace_row, find_key, contains_key, insert_new, take_key, lemma_without_key};
use crate::lookups::{is_room_member, require_membership, is_server_owner, is_room_admin, require_server_owner,
    require_admin};
use crate::reducers::timed::{message_removed, remove_message_everywhere};
use crate::reducers::audit_log::{audit_entry, log_audit_event};
use crate::store::retain_keyed;
use crate::text::{decimal, decimal_string};
use crate::permissions::{has_room_permission, has_permission, PERM_SEND_MESSAGES, PERM_MENTION_EVERYONE,
    PERM_MANAGE_MESSAGES};
use crate::reducers::servers::server_member_id;
use crate::reducers::agents::{bot_rate_limit, get_bot_rate_limit_ms};
use crate::reducers::timeouts::{timeout_member, timeout_member_verdict, timed_out, timeout_id, timeout_audit_id,
    timeout_not_of, LATEST_TIMEOUT_START};
use crate::common::{is_set, flag, clone_opt};
use crate::reducers::personal::{BlockHashes, dm_blocked, dm_partner, find_dm_partner, is_blocked_between};
use crate::text::{trim, byte_len, trim_str, utf8_len, to_owned_string, join2, concat2};

verus! {

/// Longest message, in bytes.
pub const MAX_MESSAGE_LEN: usize = 4000;

/// What the server's auto-moderation rules decide about a message, with the
/// rule's reason.
#[derive(Clone, Debug)]
pub enum AutoModAction {
    /// The message passes.
    Allow,
    /// The message is refused.
    Block(String),
    /// The message passes and is marked for review.
    Flag(String),
    /// The message is refused and the sender timed out for so many seconds.
    Timeout(u64, String),
}

/// Mentions found in a message's text; the id lists are already rendered as
/// JSON arrays, and absent when empty. Reading mentions out of a text is the
/// caller's determination: the library stores what it is given.
#[derive(Clone, Debug)]
pub struct Mentions {
    pub everyone: bool,
    pub here: bool,
    pub user_ids_json: Option<String>,
    pub role_ids_json: Option<String>,
}

/// The findings of the service's content, tier and rate rules on a message,
/// which [`send_message`] acts on. Each finding is the caller's
/// determination (its tier rules, message rate, auto-moderation rules,
/// mention reading and block hashes): the contract of [`send_message`] holds
/// for whatever values are given, and states what is done with each.
#[derive(Clone, Debug)]
pub struct SendChecks {
    /// In a direct-message room: the block hashes between the sender and the
    /// room's other member (see [`dm_partner`]); not looked at elsewhere.
    pub dm_block_hashes: BlockHashes,
    /// The sender's tier meets the room's effective tier (true when the room requires none).
    pub tier_ok: bool,
    /// A sender who is not a bot is within the message rate.
    pub rate_ok: bool,
    /// The auto-moderation decision on the trimmed content (server rooms only).
    pub auto_mod: AutoModAction,
    /// Mentions parsed from the trimmed content.
    pub mentions: Mentions,
}

/// `a - b`, or 0 when `b` is larger.
pub open spec fn sat_sub(a: u64, b: u64) -> u64 {
    if a > b { (a - b) as u64 } else { 0 }
}

/// `user` is timed out in `server` at `now`.
pub open spec fn timed_out_at(db: ChatDbV, server: Seq<char>, user: Seq<char>, now: u64) -> bool {
    match lookup(db.server_members, server_member_id(server, user)) {
        Some(m) => match m.timeout_until {
            Some(t) => now < t,
            None => false,
        },
        None => false,
    }
}

/// Slow mode of room `r` holds back `user` at `now`.
pub open spec fn slowed(db: ChatDbV, r: RoomV, user: Seq<char>, now: u64) -> bool {
    match r.slowmode_seconds {
        Some(s) => s > 0 && match lookup(db.chat_users, user) {
            Some(u) => sat_sub(now, u.last_message_at) < s as u64 * 1000,
            None => false,
        },
        None => false,
    }
}

/// In a server room, the sender is timed out or lacks SEND_MESSAGES.
pub open spec fn server_refuses_sender(db: ChatDbV, r: RoomV, user: Seq<char>, now: u64) -> bool {
    match r.server_id {
        Some(sid) => timed_out_at(db, sid, user, now) || !has_room_permission(db, sid, r.id, user, PERM_SEND_MESSAGES),
        None => false,
    }
}

/// The checks on room `r` that a member's message passes before auto-moderation.
pub open spec fn room_gate(db: ChatDbV, r: RoomV, uid: Seq<char>, content: Seq<char>, now: u64, h: BlockHashes, tier_ok: bool) -> Result<(), ChatError> {
    if r.locked || r.archived {
        Err(ChatError::NotPermitted)
    } else if r.is_dm && dm_blocked(db, r.id, uid, h) {
        Err(ChatError::NotPermitted)
    } else if !tier_ok {
        Err(ChatError::NotPermitted)
    } else if server_refuses_sender(db, r, uid, now) {
        Err(ChatError::NotPermitted)
    } else if trim(content).len() == 0 || byte_len(trim(content)) > MAX_MESSAGE_LEN {
        Err(ChatError::Invalid)
    } else if slowed(db, r, uid, now) {
        Err(ChatError::RateLimited)
    } else {
        Ok(())
    }
}

/// The checks of [`send_message`] that come before auto-moderation; they change nothing.
pub open spec fn send_gate(db: ChatDbV, c: CallerV, room: Seq<char>, content: Seq<char>, now: u64, h: BlockHashes, tier_ok: bool) -> Result<(), ChatError> {
    match c.user_id {
        None => Err(ChatError::NotRegistered),
        Some(uid) => if !is_room_member(db, room, uid) {
            Err(ChatError::NotPermitted)
        } else {
            match lookup(db.rooms, room) {
                None => Err(ChatError::NotFound),
                Some(r) => room_gate(db, r, uid, content, now, h, tier_ok),
            }
        },
    }
}

/// The room of a message that passed [`send_gate`] is a server room and
/// auto-moderation refuses the message.
pub open spec fn auto_mod_refuses(db: ChatDbV, room: Seq<char>, action: AutoModAction) -> bool {
    (lookup(db.rooms, room).unwrap().server_id is Some) && ((action is Block) || (action is Timeout))
}

/// The sender is a bot.
pub open spec fn sender_is_bot(db: ChatDbV, user: Seq<char>) -> bool {
    match lookup(db.chat_users, user) {
        Some(u) => is_set(u.is_bot),
        None => false,
    }
}

/// The sender acts too often: a bot within its tier's bot rate limit of its
/// last message, or a person outside the message rate.
pub open spec fn rate_limited(db: ChatDbV, user: Seq<char>, now: u64, rate_ok: bool) -> bool {
    match lookup(db.chat_users, user) {
        Some(u) => if is_set(u.is_bot) {
            sat_sub(now, u.last_message_at) < bot_rate_limit(db, user)
        } else {
            !rate_ok
        },
        None => false,
    }
}

/// The database with the sender's last message and last seen times set to `now`.
pub open spec fn stamped_sender(db: ChatDbV, user: Seq<char>, now: u64) -> ChatDbV {
    match lookup(db.chat_users, user) {
        Some(u) => ChatDbV {
            chat_users: replace_row(db.chat_users, ChatUserV { last_message_at: now, last_seen_at: now, ..u }),
            ..db
        },
        None => db,
    }
}

/// The message may mention everyone: it asks to, and in a server room the
/// sender holds MENTION_EVERYONE.
pub open spec fn may_mention_everyone(db: ChatDbV, r: RoomV, user: Seq<char>, m: Mentions) -> bool {
    (m.everyone || m.here) && match r.server_id {
        Some(sid) => has_room_permission(db, sid, r.id, user, PERM_MENTION_EVERYONE),
        None => true,
    }
}

/// The message row [`send_message`] stores.
pub open spec fn sent_message(
    id: Seq<char>,
    room: Seq<char>,
    author: Seq<char>,
    content: Seq<char>,
    now: u64,
    parent: Option<Seq<char>>,
    everyone: bool,
    m: Mentions,
    bot: bool,
) -> MessageV {
    MessageV {
        id: id,
        room_id: room,
        author_id: author,
        content: trim(content),
        created_at: now,
        edited_at: None,
        parent_message_id: parent,
        is_ephemeral: false,
        expires_at: None,
        message_type: if parent is Some { "reply"@ } else { "default"@ },
        reply_to_id: None,
        sticker_ids: None,
        mention_everyone: everyone,
        mentioned_user_ids: opt_view(m.user_ids_json),
        mentioned_role_ids: opt_view(m.role_ids_json),
        flags: 0,
        is_bot_author: if bot { Some(true) } else { None },
    }
}

/// What [`send_message`] answers.
pub open spec fn send_outcome(db: ChatDbV, c: CallerV, room: Seq<char>, content: Seq<char>, parent: Option<Seq<char>>, now: u64, k: SendChecks) -> Result<(), ChatError> {
    let gate = send_gate(db, c, room, content, now, k.dm_block_hashes, k.tier_ok);
    if gate is Err {
        gate
    } else if auto_mod_refuses(db, room, k.auto_mod) {
        Err(ChatError::NotPermitted)
    } else if rate_limited(db, c.user_id.unwrap(), now, k.rate_ok) {
        Err(ChatError::RateLimited)
    } else if (parent is Some) && !has_key(db.messages, parent.unwrap()) {
        Err(ChatError::NotFound)
    } else {
        Ok(())
    }
}

/// The database after [`send_message`]. Failing [`send_gate`] or the rate
/// limit leaves it as it was; an auto-moderation timeout applies the timeout
/// with the sender's own rights; once past the rate limit the sender's times
/// are stamped, and the message is stored unless its parent is missing.
pub open spec fn send_state(db: ChatDbV, c: CallerV, id: Seq<char>, room: Seq<char>, content: Seq<char>, parent: Option<Seq<char>>, now: u64, k: SendChecks) -> ChatDbV {
    let uid = c.user_id.unwrap();
    let r = lookup(db.rooms, room).unwrap();
    if send_gate(db, c, room, content, now, k.dm_block_hashes, k.tier_ok) is Err {
        db
    } else if auto_mod_refuses(db, room, k.auto_mod) {
        match k.auto_mod {
            AutoModAction::Timeout(d, reason) => if timeout_member_verdict(db, c, r.server_id.unwrap(), uid) is Ok {
                timed_out(db, uid, r.server_id.unwrap(), uid, d, Some("Auto-mod: "@ + reason@), now)
            } else {
                db
            },
            _ => db,
        }
    } else if rate_limited(db, uid, now, k.rate_ok) {
        db
    } else {
        let stamped = stamped_sender(db, uid, now);
        if (parent is Some) && !has_key(db.messages, parent.unwrap()) {
            stamped
        } else {
            ChatDbV {
                messages: stamped.messages.push(sent_message(id, room, uid, content, now, parent,
                    may_mention_everyone(stamped, r, uid, k.mentions), k.mentions, sender_is_bot(db, uid))),
                ..stamped
            }
        }
    }
}

/// What [`send_message`] needs of the tables where auto-moderation times
/// the sender out in a server room: the timeout can be recorded.
pub open spec fn timeout_keys_free(db: ChatDbV, c: CallerV, room: Seq<char>, now: u64, k: SendChecks) -> bool {
    k.auto_mod is Timeout && lookup(db.rooms, room).unwrap().server_id is Some ==> {
        let sid = lookup(db.rooms, room).unwrap().server_id.unwrap();
        let uid = c.user_id.unwrap();
        &&& now <= LATEST_TIMEOUT_START
        &&& !has_key(db.member_timeouts.filter(timeout_not_of(sid, uid)), timeout_id(sid, uid, now))
        &&& !has_key(db.audit_log, timeout_audit_id(sid, now))
    }
}

fn is_timed_out(db: &ChatDb, server: &String, user: &String, now: u64) -> (b: bool)
    requires
        db@.wf(),
    ensures
        b == timed_out_at(db@, server@, user@, now),
{
    let mid = join2(server.as_str(), "-", user.as_str());
    match find_key(&db.server_members, &mid) {
        Some(i) => match db.server_members[i].timeout_until {
            Some(t) => now < t,
            None => false,
        },
        None => false,
    }
}

fn sub_or_zero(a: u64, b: u64) -> (r: u64)
    ensures
        r == sat_sub(a, b),
{
    if a > b { a - b } else { 0 }
}

/// Send a message to a room. The sender must be a member who is not banned;
/// the room must exist and be neither locked nor archived; a block between
/// the sender and the other member refuses a direct message; the tier must
/// suffice; a timed-out member of the room's server is refused, as is one
/// without SEND_MESSAGES there. The content is
/// trimmed and must hold 1 to 4000 bytes. Slow mode, auto-moderation (server
/// rooms) and the rate limit (stricter for bots) come next; a message that
/// passes stamps the sender's last message time, and is stored (as a reply
/// when it names a parent, which must exist) with its mentions, mentioning
/// everyone only where the sender may.
pub fn send_message(
    db: &mut ChatDb,
    caller: &Caller,
    now: u64,
    id: String,
    room_id: String,
    content: String,
    parent_message_id: Option<String>,
    checks: SendChecks,
) -> (r: Result<(), ChatError>)
    requires
        old(db)@.wf(),
        send_gate(old(db)@, caller@, room_id@, content@, now, checks.dm_block_hashes, checks.tier_ok) is Ok
            ==> timeout_keys_free(old(db)@, caller@, room_id@, now, checks),
        send_outcome(old(db)@, caller@, room_id@, content@, opt_view(parent_message_id), now, checks) is Ok
            ==> !has_key(old(db)@.messages, id@),
    ensures
        final(db)@.wf(),
        r == send_outcome(old(db)@, caller@, room_id@, content@, opt_view(parent_message_id), now, checks),
        final(db)@ == send_state(old(db)@, caller@, id@, room_id@, content@, opt_view(parent_message_id), now, checks),
{
    let uid = match &caller.user_id {
        Some(u) => u.clone(),
        None => return Err(ChatError::NotRegistered),
    };
    if !require_membership(db, &room_id, &uid) {
        return Err(ChatError::NotPermitted);
    }
    let ri = match find_key(&db.rooms, &room_id) {
        Some(i) => i,
        None => return Err(ChatError::NotFound),
    };
    if db.rooms[ri].locked || db.rooms[ri].archived {
        return Err(ChatError::NotPermitted);
    }
    if db.rooms[ri].is_dm {
        match find_dm_partner(db, &room_id, &uid) {
            Some(other) => {
                if is_blocked_between(db, &uid, &other, &checks.dm_block_hashes) {
                    return Err(ChatError::NotPermitted);
                }
            },
            None => {},
        }
    }
    if !checks.tier_ok {
        return Err(ChatError::NotPermitted);
    }
    let server = clone_opt(&db.rooms[ri].server_id);
    match &server {
        Some(sid) => {
            if is_timed_out(db, sid, &uid, now) {
                return Err(ChatError::NotPermitted);
            }
            if !has_permission(db, sid, &room_id, &uid, PERM_SEND_MESSAGES) {
                return Err(ChatError::NotPermitted);
            }
        },
        None => {},
    }
    let t = trim_str(content.as_str());
    if t.unicode_len() == 0 || utf8_len(t) > MAX_MESSAGE_LEN {
        return Err(ChatError::Invalid);
    }
    match db.rooms[ri].slowmode_seconds {
        Some(s) => {
            if s > 0 {
                match find_key(&db.chat_users, &uid) {
                    Some(ui) => {
                        if sub_or_zero(now, db.chat_users[ui].last_message_at) < (s as u64) * 1000 {
                            return Err(ChatError::RateLimited);
                        }
                    },
                    None => {},
                }
            }
        },
        None => {},
    }
    match &server {
        Some(sid) => match &checks.auto_mod {
            AutoModAction::Allow => {},
            AutoModAction::Flag(_) => {},
            AutoModAction::Block(_) => {
                return Err(ChatError::NotPermitted);
            },
            AutoModAction::Timeout(d, reason) => {
                let note = concat2("Auto-mod: ", reason.as_str());
                let _ = timeout_member(db, caller, now, sid.clone(), uid.clone(), *d, Some(note));
                return Err(ChatError::NotPermitted);
            },
        },
        None => {},
    }
    let ghost before_stamp = db@;
    let is_bot = match find_key(&db.chat_users, &uid) {
        Some(ui) => flag(db.chat_users[ui].is_bot),
        None => false,
    };
    match find_key(&db.chat_users, &uid) {
        Some(ui) => {
            if is_bot {
                let limit = get_bot_rate_limit_ms(db, uid.as_str());
                if sub_or_zero(now, db.chat_users[ui].last_message_at) < limit {
                    return Err(ChatError::RateLimited);
                }
            } else if !checks.rate_ok {
                return Err(ChatError::RateLimited);
            }
            let user = take_key(&mut db.chat_users, &uid).unwrap();
            proof {
                lemma_without_key(before_stamp.chat_users, uid@);
            }
            insert_new(&mut db.chat_users, ChatUser { last_message_at: now, last_seen_at: now, ..user });
        },
        None => {},
    }
    assert(db@ == stamped_sender(before_stamp, uid@, now));
    match &parent_message_id {
        Some(p) => {
            if !contains_key(&db.messages, p) {
                return Err(ChatError::NotFound);
            }
        },
        None => {},
    }
    let everyone = if checks.mentions.everyone || checks.mentions.here {
        match &server {
            Some(sid) => has_permission(db, sid, &room_id, &uid, PERM_MENTION_EVERYONE),
            None => true,
        }
    } else {
        false
    };
    let message_type = if parent_message_id.is_some() { to_owned_string("reply") } else { to_owned_string("default") };
    let msg = Message {
        id,
        room_id,
        author_id: uid,
        content: to_owned_string(t),
        created_at: now,
        edited_at: None,
        parent_message_id,
        is_ephemeral: false,
        expires_at: None,
        message_type,
        reply_to_id: None,
        sticker_ids: None,
        mention_everyone: everyone,
        mentioned_user_ids: clone_opt(&checks.mentions.user_ids_json),
        mentioned_role_ids: clone_opt(&checks.mentions.role_ids_json),
        flags: 0,
        is_bot_author: if is_bot { Some(true) } else { None },
    };
    insert_new(&mut db.messages, msg);
    Ok(())
}

/// Shortest life of an ephemeral message, in seconds.
pub const MIN_EPHEMERAL_TTL: u64 = 10;

/// Longest life of an ephemeral message, in seconds.
pub const MAX_EPHEMERAL_TTL: u64 = 3600;

/// A requested life brought into [10 s, 1 hour].
pub open spec fn clamp_ttl(t: u64) -> u64 {
    if t < MIN_EPHEMERAL_TTL { MIN_EPHEMERAL_TTL } else if t > MAX_EPHEMERAL_TTL { MAX_EPHEMERAL_TTL } else { t }
}

/// Latest time stamp at which an ephemeral message can be sent: its expiry,
/// in microseconds, must fit a signed 64-bit integer.
pub const LATEST_EPHEMERAL_SEND: u64 = 9223372036854775 - 3600000;

/// Outcome of [`send_ephemeral_message`]; `tier_ok` and `rate_ok` as for [`SendChecks`].
pub open spec fn ephemeral_verdict(db: ChatDbV, c: CallerV, room: Seq<char>, content: Seq<char>, tier_ok: bool, rate_ok: bool) -> Result<(), ChatError> {
    match c.user_id {
        None => Err(ChatError::NotRegistered),
        Some(uid) => if !is_room_member(db, room, uid) {
            Err(ChatError::NotPermitted)
        } else if has_key(db.rooms, room) && !tier_ok {
            Err(ChatError::NotPermitted)
        } else if trim(content).len() == 0 || byte_len(trim(content)) > MAX_MESSAGE_LEN {
            Err(ChatError::Invalid)
        } else if has_key(db.chat_users, uid) && !rate_ok {
            Err(ChatError::RateLimited)
        } else {
            Ok(())
        },
    }
}

/// The database after an ephemeral message: the sender's times are stamped,
/// the message (marked ephemeral, expiring after the clamped life) is stored,
/// and its removal is scheduled.
pub open spec fn ephemeral_sent(db: ChatDbV, id: Seq<char>, room: Seq<char>, user: Seq<char>, content: Seq<char>, ttl: u64, now: u64) -> ChatDbV {
    let expires = (now + clamp_ttl(ttl) * 1000) as u64;
    let stamped = stamped_sender(db, user, now);
    ChatDbV {
        messages: stamped.messages.push(MessageV {
            is_ephemeral: true,
            expires_at: Some(expires),
            ..crate::reducers::system::plain_message(id, room, user, trim(content), now, "default"@,
                if sender_is_bot(stamped, user) { Some(true) } else { None })
        }),
        ephemeral_cleanup_jobs: stamped.ephemeral_cleanup_jobs.push(EphemeralCleanupJobV {
            scheduled_id: 0,
            scheduled_at: ScheduleAt::Time((expires * 1000) as u64),
            message_id: id,
        }),
        ..stamped
    }
}

/// Send a message that vanishes after `ttl_seconds` (clamped to 10 s .. 1
/// hour) to a room the caller belongs to; tier and rate rules apply as for
/// [`send_message`].
pub fn send_ephemeral_message(
    db: &mut ChatDb,
    caller: &Caller,
    now: u64,
    id: String,
    room_id: String,
    content: String,
    ttl_seconds: u64,
    tier_ok: bool,
    rate_ok: bool,
) -> (r: Result<(), ChatError>)
    requires
        old(db)@.wf(),
        ephemeral_verdict(old(db)@, caller@, room_id@, content@, tier_ok, rate_ok) is Ok ==> {
            &&& now <= LATEST_EPHEMERAL_SEND
            &&& !has_key(old(db)@.messages, id@)
        },
    ensures
        final(db)@.wf(),
        r == ephemeral_verdict(old(db)@, caller@, room_id@, content@, tier_ok, rate_ok),
        r is Err ==> final(db)@ == old(db)@,
        r is Ok ==> final(db)@ == ephemeral_sent(old(db)@, id@, room_id@, caller@.user_id.unwrap(), content@, ttl_seconds, now),
{
    let uid = match &caller.user_id {
        Some(u) => u.clone(),
        None => return Err(ChatError::NotRegistered),
    };
    if !require_membership(db, &room_id, &uid) {
        return Err(ChatError::NotPermitted);
    }
    if contains_key(&db.rooms, &room_id) && !tier_ok {
        return Err(ChatError::NotPermitted);
    }
    let t = trim_str(content.as_str());
    if t.unicode_len() == 0 || utf8_len(t) > MAX_MESSAGE_LEN {
        return Err(ChatError::Invalid);
    }
    let ttl = if ttl_seconds < MIN_EPHEMERAL_TTL { MIN_EPHEMERAL_TTL } else if ttl_seconds > MAX_EPHEMERAL_TTL { MAX_EPHEMERAL_TTL } else { ttl_seconds };
    let ghost o = db@;
    match find_key(&db.chat_users, &uid) {
        Some(_) => {
            if !rate_ok {
                return Err(ChatError::RateLimited);
            }
            let user = take_key(&mut db.chat_users, &uid).unwrap();
            proof {
                lemma_without_key(o.chat_users, uid@);
            }
            insert_new(&mut db.chat_users, ChatUser { last_message_at: now, last_seen_at: now, ..user });
        },
        None => {},
    }
    assert(db@ == stamped_sender(o, uid@, now));
    let expires_at = now + ttl * 1000;
    let is_bot = match find_key(&db.chat_users, &uid) {
        Some(ui) => flag(db.chat_users[ui].is_bot),
        None => false,
    };
    let msg = Message {
        id: id.clone(),
        room_id,
        author_id: uid,
        content: to_owned_string(t),
        created_at: now,
        edited_at: None,
        parent_message_id: None,
        is_ephemeral: true,
        expires_at: Some(expires_at),
        message_type: to_owned_string("default"),
        reply_to_id: None,
        sticker_ids: None,
        mention_everyone: false,
        mentioned_user_ids: None,
        mentioned_role_ids: None,
        flags: 0,
        is_bot_author: if is_bot { Some(true) } else { None },
    };
    insert_new(&mut db.messages, msg);
    let ghost jobs = db@.ephemeral_cleanup_jobs;
    let job = EphemeralCleanupJob { scheduled_id: 0, scheduled_at: ScheduleAt::Time(expires_at * 1000), message_id: id };
    db.ephemeral_cleanup_jobs.push(job);
    assert(db@.ephemeral_cleanup_jobs =~= jobs.push(job@));
    Ok(())
}

/// Pins of other messages.
pub open spec fn pin_not_of(message: Seq<char>) -> spec_fn(PinnedMessageV) -> bool {
    |p: PinnedMessageV| p.message_id != message
}

/// Attachments of other messages.
pub open spec fn attachment_not_of(message: Seq<char>) -> spec_fn(MessageAttachmentV) -> bool {
    |a: MessageAttachmentV| a.message_id != message
}

/// The database without message `message` and what hangs on it: reactions
/// and edits (with their index rows), pins and attachments.
pub open spec fn message_deleted(db: ChatDbV, message: Seq<char>) -> ChatDbV {
    ChatDbV {
        pinned_messages: db.pinned_messages.filter(pin_not_of(message)),
        message_attachments: db.message_attachments.filter(attachment_not_of(message)),
        ..message_removed(db, message)
    }
}

/// `user` may delete message `m` written by someone else: in a server room
/// the server's owner or a holder of MANAGE_MESSAGES; elsewhere a room admin.
pub open spec fn may_delete_message(db: ChatDbV, m: MessageV, user: Seq<char>) -> bool {
    match lookup(db.rooms, m.room_id) {
        Some(r) => match r.server_id {
            Some(sid) => is_server_owner(db, sid, user) || has_room_permission(db, sid, m.room_id, user, PERM_MANAGE_MESSAGES),
            None => is_room_admin(db, m.room_id, user),
        },
        None => false,
    }
}

/// Outcome of [`delete_message`].
pub open spec fn delete_message_verdict(db: ChatDbV, c: CallerV, message: Seq<char>) -> Result<(), ChatError> {
    match c.user_id {
        None => Err(ChatError::NotRegistered),
        Some(uid) => match lookup(db.messages, message) {
            None => Err(ChatError::NotFound),
            Some(m) => if m.author_id != uid && !may_delete_message(db, m, uid) { Err(ChatError::NotPermitted) } else { Ok(()) },
        },
    }
}

/// Id of the audit entry of a moderator's message deletion: "audit-del-<message>-<now>".
pub open spec fn message_delete_audit_id(message: Seq<char>, now: u64) -> Seq<char> {
    "audit-del-"@ + message + "-"@ + decimal(now as nat)
}

/// The database after the audit entry of `user` deleting someone else's
/// message `m` in a server room (unchanged otherwise).
pub open spec fn with_message_delete_audit(db: ChatDbV, m: MessageV, user: Seq<char>, now: u64) -> ChatDbV {
    if m.author_id == user {
        db
    } else {
        match lookup(db.rooms, m.room_id) {
            Some(r) => match r.server_id {
                Some(sid) => ChatDbV {
                    audit_log: db.audit_log.push(audit_entry(message_delete_audit_id(m.id, now), sid, "message_delete"@, user, "message"@,
                        m.id, Some("Deleted message by "@ + m.author_id + " in room "@ + m.room_id), now)),
                    ..db
                },
                None => db,
            },
            None => db,
        }
    }
}

/// Delete a message with its reactions, edits, pins and attachments: its
/// author may; so may a server's owner or a holder of MANAGE_MESSAGES in a
/// server room (recorded in the audit log), or a room admin elsewhere.
pub fn delete_message(db: &mut ChatDb, caller: &Caller, now: u64, message_id: String) -> (r: Result<(), ChatError>)
    requires
        old(db)@.wf(),
        delete_message_verdict(old(db)@, caller@, message_id@) is Ok
            ==> !has_key(old(db)@.audit_log, message_delete_audit_id(message_id@, now)),
    ensures
        final(db)@.wf(),
        r == delete_message_verdict(old(db)@, caller@, message_id@),
        r is Err ==> final(db)@ == old(db)@,
        r is Ok ==> final(db)@ == message_deleted(
            with_message_delete_audit(old(db)@, lookup(old(db)@.messages, message_id@).unwrap(), caller@.user_id.unwrap(), now),
            message_id@,
        ),
{
    let uid = match &caller.user_id {
        Some(u) => u.clone(),
        None => return Err(ChatError::NotRegistered),
    };
    let mi = match find_key(&db.messages, &message_id) {
        Some(i) => i,
        None => return Err(ChatError::NotFound),
    };
    let author = db.messages[mi].author_id.clone();
    let room = db.messages[mi].room_id.clone();
    if author != uid {
        let server = match find_key(&db.rooms, &room) {
            Some(ri) => clone_opt(&db.rooms[ri].server_id),
            None => return Err(ChatError::NotPermitted),
        };
        let allowed = match &server {
            Some(sid) => require_server_owner(db, sid, &uid) || has_permission(db, sid, &room, &uid, PERM_MANAGE_MESSAGES),
            None => require_admin(db, &room, &uid),
        };
        if !allowed {
            return Err(ChatError::NotPermitted);
        }
        match &server {
            Some(sid) => {
                let mut audit_id = concat2("audit-del-", message_id.as_str());
                audit_id.append("-");
                let stamp = decimal_string(now);
                audit_id.append(stamp.as_str());
                let mut details = concat2("Deleted message by ", author.as_str());
                details.append(" in room ");
                details.append(room.as_str());
                log_audit_event(db, now, audit_id.as_str(), sid.as_str(), "message_delete", uid.as_str(), "message", message_id.as_str(), Some(details));
            },
            None => {},
        }
    }
    remove_message_everywhere(db, &message_id);
    let k1 = |p: &PinnedMessage| -> (b: bool) ensures b == pin_not_of(message_id@)(p@), { p.message_id != message_id };
    retain_keyed(&mut db.pinned_messages, k1, Ghost(pin_not_of(message_id@)));
    let k2 = |a: &MessageAttachment| -> (b: bool) ensures b == attachment_not_of(message_id@)(a@), { a.message_id != message_id };
    retain_keyed(&mut db.message_attachments, k2, Ghost(attachment_not_of(message_id@)));
    Ok(())
}

/// Outcome of [`edit_message`].
pub open spec fn edit_message_verdict(db: ChatDbV, c: CallerV, message: Seq<char>, content: Seq<char>) -> Result<(), ChatError> {
    match c.user_id {
        None => Err(ChatError::NotRegistered),
        Some(uid) => if trim(content).len() == 0 || byte_len(trim(content)) > MAX_MESSAGE_LEN {
            Err(ChatError::Invalid)
        } else {
            match lookup(db.messages, message) {
                None => Err(ChatError::NotFound),
                Some(m) => if m.author_id != uid { Err(ChatError::NotPermitted) } else { Ok(()) },
            }
        },
    }
}

/// Id of an edit: "<message>-edit-<now>".
pub open spec fn edit_id(message: Seq<char>, now: u64) -> Seq<char> {
    message + "-edit-"@ + decimal(now as nat)
}

/// The database after the author edits message `m` to `content` at `now`
/// (mentions as parsed from the new text): the edit history and its index
/// gain an entry, and the message takes the new text.
pub open spec fn message_edited(db: ChatDbV, m: MessageV, content: Seq<char>, mentions: Mentions, now: u64) -> ChatDbV {
    let eid = edit_id(m.id, now);
    ChatDbV {
        message_edits: db.message_edits.push(MessageEditV {
            id: eid, message_id: m.id, editor_id: m.author_id, old_content: m.content, new_content: trim(content), edited_at: now,
            room_id: Some(m.room_id),
        }),
        message_edit_room_index: db.message_edit_room_index.push(MessageEditRoomIndexV {
            edit_id: eid, room_id: m.room_id, message_id: m.id, editor_id: m.author_id, edited_at: now, new_content: trim(content),
        }),
        messages: replace_row(db.messages, MessageV {
            content: trim(content),
            edited_at: Some(now),
            mention_everyone: mentions.everyone || mentions.here,
            mentioned_user_ids: opt_view(mentions.user_ids_json),
            mentioned_role_ids: opt_view(mentions.role_ids_json),
            ..m
        }),
        ..db
    }
}

/// Edit one of the caller's messages (trimmed, 1 to 4000 bytes), keeping
/// the old text in the edit history. `mentions` are the mentions of the new
/// text as the caller reads them (see [`Mentions`]); they are stored as
/// given.
pub fn edit_message(db: &mut ChatDb, caller: &Caller, now: u64, message_id: String, new_content: String, mentions: Mentions) -> (r: Result<(), ChatError>)
    requires
        old(db)@.wf(),
        edit_message_verdict(old(db)@, caller@, message_id@, new_content@) is Ok ==> {
            &&& !has_key(old(db)@.message_edits, edit_id(message_id@, now))
            &&& !has_key(old(db)@.message_edit_room_index, edit_id(message_id@, now))
        },
    ensures
        final(db)@.wf(),
        r == edit_message_verdict(old(db)@, caller@, message_id@, new_content@),
        r is Err ==> final(db)@ == old(db)@,
        r is Ok ==> final(db)@ == message_edited(old(db)@, lookup(old(db)@.messages, message_id@).unwrap(), new_content@, mentions, now),
{
    let uid = match &caller.user_id {
        Some(u) => u.clone(),
        None => return Err(ChatError::NotRegistered),
    };
    let t = trim_str(new_content.as_str());
    if t.unicode_len() == 0 || utf8_len(t) > MAX_MESSAGE_LEN {
        return Err(ChatError::Invalid);
    }
    let mi = match find_key(&db.messages, &message_id) {
        Some(i) => i,
        None => return Err(ChatError::NotFound),
    };
    if db.messages[mi].author_id != uid {
        return Err(ChatError::NotPermitted);
    }
    let mut eid = concat2(message_id.as_str(), "-edit-");
    let stamp = decimal_string(now);
    eid.append(stamp.as_str());
    let room = db.messages[mi].room_id.clone();
    let old_content = db.messages[mi].content.clone();
    let text = to_owned_string(t);
    let edit = MessageEdit {
        id: eid.clone(),
        message_id: message_id.clone(),
        editor_id: uid.clone(),
        old_content,
        new_content: text.clone(),
        edited_at: now,
        room_id: Some(room.clone()),
    };
    insert_new(&mut db.message_edits, edit);
    let ix = MessageEditRoomIndex { edit_id: eid, room_id: room, message_id: message_id.clone(), editor_id: uid, edited_at: now, new_content: text.clone() };
    insert_new(&mut db.message_edit_room_index, ix);
    let m = take_key(&mut db.messages, &message_id).unwrap();
    proof {
        lemma_without_key(old(db)@.messages, message_id@);
    }
    let edited = Message {
        content: text,
        edited_at: Some(now),
        mention_everyone: mentions.everyone || mentions.here,
        mentioned_user_ids: mentions.user_ids_json,
        mentioned_role_ids: mentions.role_ids_json,
        ..m
    };
    insert_new(&mut db.messages, edited);
    Ok(())
}

} // verus!
