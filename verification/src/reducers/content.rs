//! What members add to messages: reactions, pins, attachments and polls.

use vstd::prelude::*;
use crate::context::{Caller, CallerV, ChatError};
use crate::db::{ChatDb, ChatDbV};
use crate::tables::{Reaction, ReactionV, ReactionRoomIndex, ReactionRoomIndexV, PinnedMessage, PinnedMessageV,
    MessageAttachment, MessageAttachmentV, Poll, PollV, PollVote, PollVoteV};
use crate::store::{lookup, has_key, without_key, replace_row, rows, find_key, contains_key, insert_new, remove_key,
    take_key, position, count_rows, retain_keyed, lemma_without_key};
use crate::lookups::{is_room_member, require_membership, first_match, lemma_first_match, lemma_filter_empty};
use crate::permissions::{has_room_permission, has_permission, PERM_ADD_REACTIONS, PERM_PIN_MESSAGES, PERM_ATTACH_FILES,
    PERM_MANAGE_MESSAGES, PERM_CREATE_POLLS};
use crate::common::{any_row, str_eq};
use crate::text::{trim, byte_len, trim_str, utf8_len, chars_of, to_owned_string, join2, decimal, decimal_string};

verus! {

/// In room `room`, if it exists and belongs to a server, `user` holds `perm`.
pub open spec fn server_room_allows(db: ChatDbV, room: Seq<char>, user: Seq<char>, perm: u64) -> bool {
    match lookup(db.rooms, room) {
        Some(r) => match r.server_id {
            Some(sid) => has_room_permission(db, sid, room, user, perm),
            None => true,
        },
        None => true,
    }
}

/// Whether the server permission check of [`server_room_allows`] passes.
pub fn check_server_room(db: &ChatDb, room: &String, user: &String, perm: u64) -> (b: bool)
    requires
        db@.wf(),
    ensures
        b == server_room_allows(db@, room@, user@, perm),
{
    match find_key(&db.rooms, room) {
        Some(ri) => match &db.rooms[ri].server_id {
            Some(sid) => has_permission(db, sid, room, user, perm),
            None => true,
        },
        None => true,
    }
}

/// `user` may act on a thing of `room` made by someone else: only in an
/// existing server room with `perm`; a missing room does not stop it.
pub open spec fn moderator_allows(db: ChatDbV, room: Seq<char>, user: Seq<char>, perm: u64) -> bool {
    match lookup(db.rooms, room) {
        Some(r) => match r.server_id {
            Some(sid) => has_room_permission(db, sid, room, user, perm),
            None => false,
        },
        None => true,
    }
}

fn check_moderator(db: &ChatDb, room: &String, user: &String, perm: u64) -> (b: bool)
    requires
        db@.wf(),
    ensures
        b == moderator_allows(db@, room@, user@, perm),
{
    match find_key(&db.rooms, room) {
        Some(ri) => match &db.rooms[ri].server_id {
            Some(sid) => has_permission(db, sid, room, user, perm),
            None => false,
        },
        None => true,
    }
}

/// Reactions of `user` with `emoji` on `message`.
pub open spec fn same_reaction(message: Seq<char>, user: Seq<char>, emoji: Seq<char>) -> spec_fn(ReactionV) -> bool {
    |r: ReactionV| r.message_id == message && r.user_id == user && r.emoji == emoji
}

/// Id of a reaction: "<message>-<user>-<emoji>".
pub open spec fn reaction_id(message: Seq<char>, user: Seq<char>, emoji: Seq<char>) -> Seq<char> {
    message + "-"@ + user + "-"@ + emoji
}

/// A custom emoji reference "custom:<id>" names an existing server emoji.
pub open spec fn custom_emoji_ok(db: ChatDbV, emoji: Seq<char>) -> bool {
    emoji.len() >= 7 && emoji.take(7) == "custom:"@ ==> has_key(db.server_emojis, emoji.skip(7))
}

/// Outcome of [`toggle_reaction`]; `emoji_ok` tells whether the emoji is
/// well formed (a Unicode emoji, ":name:", or "custom:<id>").
pub open spec fn reaction_verdict(db: ChatDbV, c: CallerV, message: Seq<char>, emoji: Seq<char>, emoji_ok: bool) -> Result<(), ChatError> {
    match c.user_id {
        None => Err(ChatError::NotRegistered),
        Some(uid) => if !emoji_ok {
            Err(ChatError::Invalid)
        } else if !custom_emoji_ok(db, emoji) {
            Err(ChatError::NotFound)
        } else {
            match lookup(db.messages, message) {
                None => Err(ChatError::NotFound),
                Some(m) => if !is_room_member(db, m.room_id, uid) {
                    Err(ChatError::NotPermitted)
                } else if !server_room_allows(db, m.room_id, uid, PERM_ADD_REACTIONS) {
                    Err(ChatError::NotPermitted)
                } else {
                    Ok(())
                },
            }
        },
    }
}

/// The database after the reaction is toggled: an existing reaction (and its
/// index row) goes, else the reaction is recorded with its index row.
pub open spec fn reaction_toggled(db: ChatDbV, message: Seq<char>, room: Seq<char>, user: Seq<char>, emoji: Seq<char>, now: u64) -> ChatDbV {
    match first_match(db.reactions, same_reaction(message, user, emoji)) {
        Some(r) => ChatDbV {
            reactions: without_key(db.reactions, r.id),
            reaction_room_index: without_key(db.reaction_room_index, r.id),
            ..db
        },
        None => {
            let id = reaction_id(message, user, emoji);
            ChatDbV {
                reactions: db.reactions.push(ReactionV { id: id, message_id: message, user_id: user, emoji: emoji, created_at: now, room_id: Some(room) }),
                reaction_room_index: db.reaction_room_index.push(ReactionRoomIndexV {
                    reaction_id: id, room_id: room, message_id: message, user_id: user, emoji: emoji, created_at: now,
                }),
                ..db
            }
        },
    }
}

/// React to a message with an emoji, or take the reaction back if it was
/// there. The caller must be a member of the message's room (with
/// ADD_REACTIONS in a server); a custom emoji must exist. `emoji_ok` is the
/// caller's determination that the emoji is well formed; the contract holds
/// for either value.
pub fn toggle_reaction(db: &mut ChatDb, caller: &Caller, now: u64, message_id: String, emoji: String, emoji_ok: bool) -> (r: Result<(), ChatError>)
    requires
        old(db)@.wf(),
        reaction_verdict(old(db)@, caller@, message_id@, emoji@, emoji_ok) is Ok
            && first_match(old(db)@.reactions, same_reaction(message_id@, caller@.user_id.unwrap(), emoji@)) is None ==> {
                let id = reaction_id(message_id@, caller@.user_id.unwrap(), emoji@);
                &&& !has_key(old(db)@.reactions, id)
                &&& !has_key(old(db)@.reaction_room_index, id)
            },
    ensures
        final(db)@.wf(),
        r == reaction_verdict(old(db)@, caller@, message_id@, emoji@, emoji_ok),
        r is Err ==> final(db)@ == old(db)@,
        r is Ok ==> final(db)@ == reaction_toggled(old(db)@, message_id@, lookup(old(db)@.messages, message_id@).unwrap().room_id,
            caller@.user_id.unwrap(), emoji@, now),
{
    let uid = match &caller.user_id {
        Some(u) => u.clone(),
        None => return Err(ChatError::NotRegistered),
    };
    if !emoji_ok {
        return Err(ChatError::Invalid);
    }
    let cs = chars_of(emoji.as_str());
    if cs.len() >= 7 && str_eq(emoji.as_str().substring_char(0, 7), "custom:") {
        let eid = to_owned_string(emoji.as_str().substring_char(7, cs.len()));
        assert(eid@ =~= emoji@.skip(7));
        assert(emoji@.subrange(0, 7) =~= emoji@.take(7));
        if !contains_key(&db.server_emojis, &eid) {
            return Err(ChatError::NotFound);
        }
    } else {
        proof {
            if emoji@.len() >= 7 {
                assert(emoji@.subrange(0, 7) =~= emoji@.take(7));
            }
        }
    }
    let mi = match find_key(&db.messages, &message_id) {
        Some(i) => i,
        None => return Err(ChatError::NotFound),
    };
    let room = db.messages[mi].room_id.clone();
    if !require_membership(db, &room, &uid) {
        return Err(ChatError::NotPermitted);
    }
    if !check_server_room(db, &room, &uid, PERM_ADD_REACTIONS) {
        return Err(ChatError::NotPermitted);
    }
    let test = |x: &Reaction| -> (b: bool)
        ensures
            b == same_reaction(message_id@, uid@, emoji@)(x@),
        { x.message_id == message_id && x.user_id == uid && x.emoji == emoji };
    let found = position(&db.reactions, test, Ghost(same_reaction(message_id@, uid@, emoji@)));
    proof {
        match found {
            Some(i) => lemma_first_match(db@.reactions, same_reaction(message_id@, uid@, emoji@), i as int),
            None => lemma_filter_empty(db@.reactions, same_reaction(message_id@, uid@, emoji@)),
        }
    }
    match found {
        Some(i) => {
            let id = db.reactions[i].id.clone();
            remove_key(&mut db.reactions, &id);
            remove_key(&mut db.reaction_room_index, &id);
        },
        None => {
            let mut id = join2(message_id.as_str(), "-", uid.as_str());
            id.append("-");
            id.append(emoji.as_str());
            let x = Reaction {
                id: id.clone(),
                message_id: message_id.clone(),
                user_id: uid.clone(),
                emoji: emoji.clone(),
                created_at: now,
                room_id: Some(room.clone()),
            };
            insert_new(&mut db.reactions, x);
            let ix = ReactionRoomIndex { reaction_id: id, room_id: room, message_id, user_id: uid, emoji, created_at: now };
            insert_new(&mut db.reaction_room_index, ix);
        },
    }
    Ok(())
}

/// Most pins per room.
pub const MAX_PINS_PER_ROOM: usize = 50;

/// Pins of `message` in `room`.
pub open spec fn pin_of(room: Seq<char>, message: Seq<char>) -> spec_fn(PinnedMessageV) -> bool {
    |p: PinnedMessageV| p.room_id == room && p.message_id == message
}

/// Pins of `room`.
pub open spec fn pin_in(room: Seq<char>) -> spec_fn(PinnedMessageV) -> bool {
    |p: PinnedMessageV| p.room_id == room
}

/// `user` may pin in `room`: PIN_MESSAGES in a server room, membership in
/// another room; a missing room does not stop it.
pub open spec fn may_pin(db: ChatDbV, room: Seq<char>, user: Seq<char>) -> bool {
    match lookup(db.rooms, room) {
        Some(r) => match r.server_id {
            Some(sid) => has_room_permission(db, sid, room, user, PERM_PIN_MESSAGES),
            None => is_room_member(db, room, user),
        },
        None => true,
    }
}

/// Outcome of [`pin_message`]: `Ok(false)` when the message is already pinned.
pub open spec fn pin_verdict(db: ChatDbV, c: CallerV, room: Seq<char>, message: Seq<char>) -> Result<bool, ChatError> {
    match c.user_id {
        None => Err(ChatError::NotRegistered),
        Some(uid) => match lookup(db.messages, message) {
            None => Err(ChatError::NotFound),
            Some(m) => if m.room_id != room {
                Err(ChatError::Invalid)
            } else if !may_pin(db, room, uid) {
                Err(ChatError::NotPermitted)
            } else if any_row(db.pinned_messages, pin_of(room, message)) {
                Ok(false)
            } else if db.pinned_messages.filter(pin_in(room)).len() >= MAX_PINS_PER_ROOM {
                Err(ChatError::LimitReached)
            } else {
                Ok(true)
            },
        },
    }
}

/// Pin a message of a room (at most 50 pins per room; pinning twice changes nothing).
pub fn pin_message(db: &mut ChatDb, caller: &Caller, now: u64, id: String, room_id: String, message_id: String) -> (r: Result<(), ChatError>)
    requires
        old(db)@.wf(),
        pin_verdict(old(db)@, caller@, room_id@, message_id@) == Ok::<bool, ChatError>(true) ==> !has_key(old(db)@.pinned_messages, id@),
    ensures
        final(db)@.wf(),
        match pin_verdict(old(db)@, caller@, room_id@, message_id@) {
            Err(e) => r == Err::<(), ChatError>(e) && final(db)@ == old(db)@,
            Ok(false) => r is Ok && final(db)@ == old(db)@,
            Ok(true) => r is Ok && final(db)@ == (ChatDbV {
                pinned_messages: old(db)@.pinned_messages.push(PinnedMessageV {
                    id: id@, room_id: room_id@, message_id: message_id@, pinned_by: caller@.user_id.unwrap(), pinned_at: now,
                }),
                ..old(db)@
            }),
        },
{
    let uid = match &caller.user_id {
        Some(u) => u.clone(),
        None => return Err(ChatError::NotRegistered),
    };
    let mi = match find_key(&db.messages, &message_id) {
        Some(i) => i,
        None => return Err(ChatError::NotFound),
    };
    if db.messages[mi].room_id != room_id {
        return Err(ChatError::Invalid);
    }
    let allowed = match find_key(&db.rooms, &room_id) {
        Some(ri) => match &db.rooms[ri].server_id {
            Some(sid) => has_permission(db, sid, &room_id, &uid, PERM_PIN_MESSAGES),
            None => require_membership(db, &room_id, &uid),
        },
        None => true,
    };
    if !allowed {
        return Err(ChatError::NotPermitted);
    }
    let same = |p: &PinnedMessage| -> (b: bool)
        ensures
            b == pin_of(room_id@, message_id@)(p@),
        { p.room_id == room_id && p.message_id == message_id };
    match position(&db.pinned_messages, same, Ghost(pin_of(room_id@, message_id@))) {
        Some(k) => {
            assert(db@.pinned_messages[k as int] == rows(db.pinned_messages@)[k as int]);
            return Ok(());
        },
        None => {},
    }
    let here = |p: &PinnedMessage| -> (b: bool)
        ensures
            b == pin_in(room_id@)(p@),
        { p.room_id == room_id };
    if count_rows(&db.pinned_messages, here, Ghost(pin_in(room_id@))) >= MAX_PINS_PER_ROOM {
        return Err(ChatError::LimitReached);
    }
    insert_new(&mut db.pinned_messages, PinnedMessage { id, room_id, message_id, pinned_by: uid, pinned_at: now });
    Ok(())
}

/// Outcome of [`unpin_message`].
pub open spec fn unpin_verdict(db: ChatDbV, c: CallerV, id: Seq<char>) -> Result<(), ChatError> {
    match c.user_id {
        None => Err(ChatError::NotRegistered),
        Some(uid) => match lookup(db.pinned_messages, id) {
            None => Err(ChatError::NotFound),
            Some(p) => if !server_room_allows(db, p.room_id, uid, PERM_PIN_MESSAGES) { Err(ChatError::NotPermitted) } else { Ok(()) },
        },
    }
}

/// Unpin a message (PIN_MESSAGES in a server room).
pub fn unpin_message(db: &mut ChatDb, caller: &Caller, id: String) -> (r: Result<(), ChatError>)
    requires
        old(db)@.wf(),
    ensures
        final(db)@.wf(),
        r == unpin_verdict(old(db)@, caller@, id@),
        r is Err ==> final(db)@ == old(db)@,
        r is Ok ==> final(db)@ == (ChatDbV { pinned_messages: without_key(old(db)@.pinned_messages, id@), ..old(db)@ }),
{
    let uid = match &caller.user_id {
        Some(u) => u.clone(),
        None => return Err(ChatError::NotRegistered),
    };
    let pi = match find_key(&db.pinned_messages, &id) {
        Some(i) => i,
        None => return Err(ChatError::NotFound),
    };
    let room = db.pinned_messages[pi].room_id.clone();
    if !check_server_room(db, &room, &uid, PERM_PIN_MESSAGES) {
        return Err(ChatError::NotPermitted);
    }
    remove_key(&mut db.pinned_messages, &id);
    Ok(())
}

/// Longest attachment file name, in bytes.
pub const MAX_FILE_NAME_LEN: usize = 256;

/// Most attachments per message.
pub const MAX_ATTACHMENTS_PER_MESSAGE: usize = 10;

/// Attachments of `message`.
pub open spec fn attachment_of(message: Seq<char>) -> spec_fn(MessageAttachmentV) -> bool {
    |a: MessageAttachmentV| a.message_id == message
}

/// Outcome of [`add_attachment`].
pub open spec fn add_attachment_verdict(db: ChatDbV, c: CallerV, message: Seq<char>, room: Seq<char>, file_name: Seq<char>) -> Result<(), ChatError> {
    match c.user_id {
        None => Err(ChatError::NotRegistered),
        Some(uid) => if !is_room_member(db, room, uid) {
            Err(ChatError::NotPermitted)
        } else if !server_room_allows(db, room, uid, PERM_ATTACH_FILES) {
            Err(ChatError::NotPermitted)
        } else if byte_len(file_name) > MAX_FILE_NAME_LEN {
            Err(ChatError::Invalid)
        } else if db.message_attachments.filter(attachment_of(message)).len() >= MAX_ATTACHMENTS_PER_MESSAGE {
            Err(ChatError::LimitReached)
        } else {
            Ok(())
        },
    }
}

/// Attach a file to a message (member of the room, ATTACH_FILES in a server;
/// file name of at most 256 bytes; at most 10 attachments per message).
pub fn add_attachment(
    db: &mut ChatDb,
    caller: &Caller,
    now: u64,
    id: String,
    message_id: String,
    room_id: String,
    file_name: String,
    file_url: String,
    file_size: u64,
    content_type: String,
    width: Option<u32>,
    height: Option<u32>,
    is_spoiler: bool,
) -> (r: Result<(), ChatError>)
    requires
        old(db)@.wf(),
        add_attachment_verdict(old(db)@, caller@, message_id@, room_id@, file_name@) is Ok ==> !has_key(old(db)@.message_attachments, id@),
    ensures
        final(db)@.wf(),
        r == add_attachment_verdict(old(db)@, caller@, message_id@, room_id@, file_name@),
        r is Err ==> final(db)@ == old(db)@,
        r is Ok ==> final(db)@ == (ChatDbV {
            message_attachments: old(db)@.message_attachments.push(MessageAttachmentV {
                id: id@, message_id: message_id@, room_id: room_id@, file_name: file_name@, file_url: file_url@,
                content_type: content_type@, file_size: file_size, width: width, height: height, is_spoiler: is_spoiler,
                created_at: now,
            }),
            ..old(db)@
        }),
{
    let uid = match &caller.user_id {
        Some(u) => u.clone(),
        None => return Err(ChatError::NotRegistered),
    };
    if !require_membership(db, &room_id, &uid) {
        return Err(ChatError::NotPermitted);
    }
    if !check_server_room(db, &room_id, &uid, PERM_ATTACH_FILES) {
        return Err(ChatError::NotPermitted);
    }
    if utf8_len(file_name.as_str()) > MAX_FILE_NAME_LEN {
        return Err(ChatError::Invalid);
    }
    let test = |a: &MessageAttachment| -> (b: bool)
        ensures
            b == attachment_of(message_id@)(a@),
        { a.message_id == message_id };
    if count_rows(&db.message_attachments, test, Ghost(attachment_of(message_id@))) >= MAX_ATTACHMENTS_PER_MESSAGE {
        return Err(ChatError::LimitReached);
    }
    let a = MessageAttachment {
        id, message_id, room_id, file_name, file_url, content_type, file_size, width, height, is_spoiler, created_at: now,
    };
    insert_new(&mut db.message_attachments, a);
    Ok(())
}

/// `user` wrote message `message`.
pub open spec fn authored(db: ChatDbV, message: Seq<char>, user: Seq<char>) -> bool {
    match lookup(db.messages, message) {
        Some(m) => m.author_id == user,
        None => false,
    }
}

/// Outcome of [`delete_attachment`].
pub open spec fn delete_attachment_verdict(db: ChatDbV, c: CallerV, id: Seq<char>) -> Result<(), ChatError> {
    match c.user_id {
        None => Err(ChatError::NotRegistered),
        Some(uid) => match lookup(db.message_attachments, id) {
            None => Err(ChatError::NotFound),
            Some(a) => if !authored(db, a.message_id, uid) && !moderator_allows(db, a.room_id, uid, PERM_MANAGE_MESSAGES) {
                Err(ChatError::NotPermitted)
            } else {
                Ok(())
            },
        },
    }
}

/// Delete an attachment (the message's author, or MANAGE_MESSAGES in a server room).
pub fn delete_attachment(db: &mut ChatDb, caller: &Caller, id: String) -> (r: Result<(), ChatError>)
    requires
        old(db)@.wf(),
    ensures
        final(db)@.wf(),
        r == delete_attachment_verdict(old(db)@, caller@, id@),
        r is Err ==> final(db)@ == old(db)@,
        r is Ok ==> final(db)@ == (ChatDbV { message_attachments: without_key(old(db)@.message_attachments, id@), ..old(db)@ }),
{
    let uid = match &caller.user_id {
        Some(u) => u.clone(),
        None => return Err(ChatError::NotRegistered),
    };
    let ai = match find_key(&db.message_attachments, &id) {
        Some(i) => i,
        None => return Err(ChatError::NotFound),
    };
    let mid = db.message_attachments[ai].message_id.clone();
    let room = db.message_attachments[ai].room_id.clone();
    let is_author = match find_key(&db.messages, &mid) {
        Some(i) => db.messages[i].author_id == uid,
        None => false,
    };
    if !is_author && !check_moderator(db, &room, &uid, PERM_MANAGE_MESSAGES) {
        return Err(ChatError::NotPermitted);
    }
    remove_key(&mut db.message_attachments, &id);
    Ok(())
}

/// Longest poll question, in bytes.
pub const MAX_POLL_QUESTION_LEN: usize = 300;

/// Most options of a poll.
pub const MAX_POLL_OPTIONS: usize = 10;

/// The number of options in a JSON list of texts, counted as half the
/// number of double quotes.
pub open spec fn option_count(options_json: Seq<char>) -> nat {
    options_json.filter(|c: char| c == '"').len() / 2
}

/// Outcome of [`create_poll`].
pub open spec fn create_poll_verdict(db: ChatDbV, c: CallerV, room: Seq<char>, question: Seq<char>, options_json: Seq<char>) -> Result<(), ChatError> {
    match c.user_id {
        None => Err(ChatError::NotRegistered),
        Some(uid) => if !is_room_member(db, room, uid) {
            Err(ChatError::NotPermitted)
        } else if !server_room_allows(db, room, uid, PERM_CREATE_POLLS) {
            Err(ChatError::NotPermitted)
        } else if trim(question).len() == 0 || byte_len(trim(question)) > MAX_POLL_QUESTION_LEN {
            Err(ChatError::Invalid)
        } else if option_count(options_json) < 2 || option_count(options_json) > MAX_POLL_OPTIONS {
            Err(ChatError::Invalid)
        } else {
            Ok(())
        },
    }
}

fn count_quotes(s: &str) -> (n: usize)
    ensures
        n == s@.filter(|c: char| c == '"').len(),
{
    let cs = chars_of(s);
    let mut n: usize = 0;
    let mut i: usize = 0;
    while i < cs.len()
        invariant
            cs@ == s@,
            i <= cs@.len(),
            n == s@.take(i as int).filter(|c: char| c == '"').len(),
            n <= i,
        decreases cs.len() - i,
    {
        proof {
            assert(s@.take(i + 1).drop_last() =~= s@.take(i as int));
            assert(s@.take(i + 1).last() == s@[i as int]);
            reveal_with_fuel(Seq::filter, 1);
        }
        if cs[i] == '"' {
            n = n + 1;
        }
        i = i + 1;
    }
    assert(s@.take(cs@.len() as int) =~= s@);
    n
}

/// Create a poll on a message: member of the room (CREATE_POLLS in a
/// server), a trimmed question of 1 to 300 bytes, and 2 to 10 options.
pub fn create_poll(
    db: &mut ChatDb,
    caller: &Caller,
    now: u64,
    id: String,
    message_id: String,
    room_id: String,
    question: String,
    options_json: String,
    allow_multiple: bool,
    anonymous: bool,
    expires_at: Option<u64>,
) -> (r: Result<(), ChatError>)
    requires
        old(db)@.wf(),
        create_poll_verdict(old(db)@, caller@, room_id@, question@, options_json@) is Ok ==> !has_key(old(db)@.polls, id@),
    ensures
        final(db)@.wf(),
        r == create_poll_verdict(old(db)@, caller@, room_id@, question@, options_json@),
        r is Err ==> final(db)@ == old(db)@,
        r is Ok ==> final(db)@ == (ChatDbV {
            polls: old(db)@.polls.push(PollV {
                id: id@, room_id: room_id@, message_id: message_id@, question: trim(question@), options: options_json@,
                allow_multiple: allow_multiple, anonymous: anonymous, closed: false, created_by: caller@.user_id.unwrap(),
                created_at: now, expires_at: expires_at,
            }),
            ..old(db)@
        }),
{
    let uid = match &caller.user_id {
        Some(u) => u.clone(),
        None => return Err(ChatError::NotRegistered),
    };
    if !require_membership(db, &room_id, &uid) {
        return Err(ChatError::NotPermitted);
    }
    if !check_server_room(db, &room_id, &uid, PERM_CREATE_POLLS) {
        return Err(ChatError::NotPermitted);
    }
    let t = trim_str(question.as_str());
    if t.unicode_len() == 0 || utf8_len(t) > MAX_POLL_QUESTION_LEN {
        return Err(ChatError::Invalid);
    }
    let n = count_quotes(options_json.as_str()) / 2;
    if n < 2 || n > MAX_POLL_OPTIONS {
        return Err(ChatError::Invalid);
    }
    let p = Poll {
        id,
        room_id,
        message_id,
        question: to_owned_string(t),
        options: options_json,
        allow_multiple,
        anonymous,
        closed: false,
        created_by: uid,
        created_at: now,
        expires_at,
    };
    insert_new(&mut db.polls, p);
    Ok(())
}

/// Id of a vote: "<poll>-<user>-<option>".
pub open spec fn vote_id(poll: Seq<char>, user: Seq<char>, option: u32) -> Seq<char> {
    poll + "-"@ + user + "-"@ + decimal(option as nat)
}

/// Votes other than those of `user` in `poll`.
pub open spec fn vote_not_of(poll: Seq<char>, user: Seq<char>) -> spec_fn(PollVoteV) -> bool {
    |v: PollVoteV| !(v.poll_id == poll && v.user_id == user)
}

/// Outcome of [`vote_poll`]: `Ok(false)` when the caller already chose this option.
pub open spec fn vote_verdict(db: ChatDbV, c: CallerV, poll: Seq<char>, option: u32, now: u64) -> Result<bool, ChatError> {
    match c.user_id {
        None => Err(ChatError::NotRegistered),
        Some(uid) => match lookup(db.polls, poll) {
            None => Err(ChatError::NotFound),
            Some(p) => if p.closed {
                Err(ChatError::NotPermitted)
            } else if p.expires_at is Some && now > p.expires_at.unwrap() {
                Err(ChatError::NotPermitted)
            } else if !is_room_member(db, p.room_id, uid) {
                Err(ChatError::NotPermitted)
            } else {
                Ok(!has_key(db.poll_votes, vote_id(poll, uid, option)))
            },
        },
    }
}

/// Vote for an option of an open poll of a room the caller belongs to; in a
/// single-choice poll the caller's other votes are withdrawn.
pub fn vote_poll(db: &mut ChatDb, caller: &Caller, now: u64, poll_id: String, option_index: u32) -> (r: Result<(), ChatError>)
    requires
        old(db)@.wf(),
    ensures
        final(db)@.wf(),
        match vote_verdict(old(db)@, caller@, poll_id@, option_index, now) {
            Err(e) => r == Err::<(), ChatError>(e) && final(db)@ == old(db)@,
            Ok(false) => r is Ok && final(db)@ == old(db)@,
            Ok(true) => r is Ok && ({
                let uid = caller@.user_id.unwrap();
                let p = lookup(old(db)@.polls, poll_id@).unwrap();
                let kept = if p.allow_multiple { old(db)@.poll_votes } else { old(db)@.poll_votes.filter(vote_not_of(poll_id@, uid)) };
                final(db)@ == (ChatDbV {
                    poll_votes: kept.push(PollVoteV {
                        id: vote_id(poll_id@, uid, option_index), poll_id: poll_id@, room_id: p.room_id, user_id: uid,
                        option_index: option_index, created_at: now,
                    }),
                    ..old(db)@
                })
            }),
        },
{
    let uid = match &caller.user_id {
        Some(u) => u.clone(),
        None => return Err(ChatError::NotRegistered),
    };
    let pi = match find_key(&db.polls, &poll_id) {
        Some(i) => i,
        None => return Err(ChatError::NotFound),
    };
    if db.polls[pi].closed {
        return Err(ChatError::NotPermitted);
    }
    match db.polls[pi].expires_at {
        Some(e) => {
            if now > e {
                return Err(ChatError::NotPermitted);
            }
        },
        None => {},
    }
    let room = db.polls[pi].room_id.clone();
    let multiple = db.polls[pi].allow_multiple;
    if !require_membership(db, &room, &uid) {
        return Err(ChatError::NotPermitted);
    }
    let mut vid = join2(poll_id.as_str(), "-", uid.as_str());
    vid.append("-");
    let opt = decimal_string(option_index as u64);
    vid.append(opt.as_str());
    if contains_key(&db.poll_votes, &vid) {
        return Ok(());
    }
    if !multiple {
        let keep = |v: &PollVote| -> (b: bool)
            ensures
                b == vote_not_of(poll_id@, uid@)(v@),
            { !(v.poll_id == poll_id && v.user_id == uid) };
        proof {
            crate::store::lemma_filter_has_key(db@.poll_votes, vote_not_of(poll_id@, uid@), vid@);
        }
        retain_keyed(&mut db.poll_votes, keep, Ghost(vote_not_of(poll_id@, uid@)));
    }
    let v = PollVote { id: vid, poll_id, room_id: room, user_id: uid, option_index, created_at: now };
    insert_new(&mut db.poll_votes, v);
    Ok(())
}

/// Withdraw the caller's vote for an option.
pub fn unvote_poll(db: &mut ChatDb, caller: &Caller, poll_id: String, option_index: u32) -> (r: Result<(), ChatError>)
    requires
        old(db)@.wf(),
    ensures
        final(db)@.wf(),
        r is Err <==> caller@.user_id is None,
        r is Err ==> r == Err::<(), ChatError>(ChatError::NotRegistered) && final(db)@ == old(db)@,
        r is Ok ==> final(db)@ == (ChatDbV {
            poll_votes: without_key(old(db)@.poll_votes, vote_id(poll_id@, caller@.user_id.unwrap(), option_index)),
            ..old(db)@
        }),
{
    let uid = match &caller.user_id {
        Some(u) => u.clone(),
        None => return Err(ChatError::NotRegistered),
    };
    let mut vid = join2(poll_id.as_str(), "-", uid.as_str());
    vid.append("-");
    let opt = decimal_string(option_index as u64);
    vid.append(opt.as_str());
    remove_key(&mut db.poll_votes, &vid);
    Ok(())
}

/// Outcome of [`close_poll`].
pub open spec fn close_poll_verdict(db: ChatDbV, c: CallerV, poll: Seq<char>) -> Result<(), ChatError> {
    match c.user_id {
        None => Err(ChatError::NotRegistered),
        Some(uid) => match lookup(db.polls, poll) {
            None => Err(ChatError::NotFound),
            Some(p) => if p.created_by != uid && !moderator_allows(db, p.room_id, uid, PERM_MANAGE_MESSAGES) {
                Err(ChatError::NotPermitted)
            } else {
                Ok(())
            },
        },
    }
}

/// Close a poll (its creator, or MANAGE_MESSAGES in a server room).
pub fn close_poll(db: &mut ChatDb, caller: &Caller, poll_id: String) -> (r: Result<(), ChatError>)
    requires
        old(db)@.wf(),
    ensures
        final(db)@.wf(),
        r == close_poll_verdict(old(db)@, caller@, poll_id@),
        r is Err ==> final(db)@ == old(db)@,
        r is Ok ==> final(db)@ == (ChatDbV {
            polls: replace_row(old(db)@.polls, PollV { closed: true, ..lookup(old(db)@.polls, poll_id@).unwrap() }),
            ..old(db)@
        }),
{
    let uid = match &caller.user_id {
        Some(u) => u.clone(),
        None => return Err(ChatError::NotRegistered),
    };
    let pi = match find_key(&db.polls, &poll_id) {
        Some(i) => i,
        None => return Err(ChatError::NotFound),
    };
    let room = db.polls[pi].room_id.clone();
    if db.polls[pi].created_by != uid && !check_moderator(db, &room, &uid, PERM_MANAGE_MESSAGES) {
        return Err(ChatError::NotPermitted);
    }
    let p = take_key(&mut db.polls, &poll_id).unwrap();
    proof {
        lemma_without_key(old(db)@.polls, poll_id@);
    }
    insert_new(&mut db.polls, Poll { closed: true, ..p });
    Ok(())
}

} // verus!
