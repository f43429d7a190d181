//! Things that happen later: typing markers that expire, ephemeral messages
//! that vanish, and messages scheduled for delivery.

use vstd::prelude::*;
use crate::context::{Caller, CallerV, ChatError};
use crate::db::{ChatDb, ChatDbV};
use crate::tables::{ChatUser, ChatUserV, TypingIndicator, TypingIndicatorV, TypingExpiryJob, TypingExpiryJobV,
    Reaction, ReactionV, ReactionRoomIndex, ReactionRoomIndexV, MessageEdit, MessageEditV, MessageEditRoomIndex,
    MessageEditRoomIndexV, ScheduledMessage, ScheduledMessageV, ScheduledDeliveryJob, ScheduledDeliveryJobV,
    EphemeralCleanupJob, ScheduleAt};
use crate::store::{lookup, has_key, without_key, replace_row, rows, find_key, contains_key, insert_new, remove_key,
    take_key, position, retain_keyed, retain_rows, collect_keys, keys_where, str_in, lemma_without_key, lemma_lookup_index};
use crate::lookups::{is_room_member, require_membership, first_match, lemma_first_match, lemma_filter_empty};
use crate::reducers::messages::{MAX_MESSAGE_LEN, sender_is_bot};
use crate::reducers::system::plain_message;
use crate::common::flag;
use crate::text::{trim, byte_len, trim_str, utf8_len, to_owned_string, concat2};

verus! {

/// How long a typing marker lives (4 seconds, in the service's time unit of microseconds).
pub const TYPING_TTL: u64 = 4000000;

/// Typing markers of `user` in `room`.
pub open spec fn typing_of(room: Seq<char>, user: Seq<char>) -> spec_fn(TypingIndicatorV) -> bool {
    |t: TypingIndicatorV| t.room_id == room && t.user_id == user
}

/// Id of a new typing marker: "typing-<room>-<user>".
pub open spec fn typing_marker_id(room: Seq<char>, user: Seq<char>) -> Seq<char> {
    "typing-"@ + room + "-"@ + user
}

/// Outcome of [`start_typing`]; `rate_ok` tells whether the caller is within
/// the typing rate.
pub open spec fn typing_verdict(db: ChatDbV, c: CallerV, room: Seq<char>, rate_ok: bool) -> Result<(), ChatError> {
    match c.user_id {
        None => Err(ChatError::NotRegistered),
        Some(uid) => if !is_room_member(db, room, uid) {
            Err(ChatError::NotPermitted)
        } else if has_key(db.chat_users, uid) && !rate_ok {
            Err(ChatError::RateLimited)
        } else {
            Ok(())
        },
    }
}

/// The database after `user` starts typing in `room` at `now`: their row
/// (if any) records the time, their marker there is refreshed or created,
/// and its expiry is scheduled.
pub open spec fn typing_started(db: ChatDbV, room: Seq<char>, user: Seq<char>, now: u64) -> ChatDbV {
    let expires = (now + TYPING_TTL) as u64;
    let users = match lookup(db.chat_users, user) {
        Some(u) => replace_row(db.chat_users, ChatUserV { last_typing_at: now, last_seen_at: now, ..u }),
        None => db.chat_users,
    };
    let id = match first_match(db.typing_indicators, typing_of(room, user)) {
        Some(t) => t.id,
        None => typing_marker_id(room, user),
    };
    let marker = TypingIndicatorV { id: id, room_id: room, user_id: user, expires_at: expires };
    ChatDbV {
        chat_users: users,
        typing_indicators: match first_match(db.typing_indicators, typing_of(room, user)) {
            Some(t) => replace_row(db.typing_indicators, marker),
            None => db.typing_indicators.push(marker),
        },
        typing_expiry_jobs: db.typing_expiry_jobs.push(TypingExpiryJobV {
            scheduled_id: 0,
            scheduled_at: ScheduleAt::Time(expires),
            typing_indicator_id: id,
        }),
        ..db
    }
}

/// Show that the caller is typing in a room they belong to, for four
/// seconds; a new marker is made unless they have one there.
pub fn start_typing(db: &mut ChatDb, caller: &Caller, now: u64, room_id: String, rate_ok: bool) -> (r: Result<(), ChatError>)
    requires
        old(db)@.wf(),
        now <= u64::MAX - TYPING_TTL,
        typing_verdict(old(db)@, caller@, room_id@, rate_ok) is Ok
            && first_match(old(db)@.typing_indicators, typing_of(room_id@, caller@.user_id.unwrap())) is None
            ==> !has_key(old(db)@.typing_indicators, typing_marker_id(room_id@, caller@.user_id.unwrap())),
    ensures
        final(db)@.wf(),
        r == typing_verdict(old(db)@, caller@, room_id@, rate_ok),
        r is Err ==> final(db)@ == old(db)@,
        r is Ok ==> final(db)@ == typing_started(old(db)@, room_id@, caller@.user_id.unwrap(), now),
{
    let uid = match &caller.user_id {
        Some(u) => u.clone(),
        None => return Err(ChatError::NotRegistered),
    };
    if !require_membership(db, &room_id, &uid) {
        return Err(ChatError::NotPermitted);
    }
    if contains_key(&db.chat_users, &uid) {
        if !rate_ok {
            return Err(ChatError::RateLimited);
        }
        let u = take_key(&mut db.chat_users, &uid).unwrap();
        proof {
            lemma_without_key(old(db)@.chat_users, uid@);
        }
        insert_new(&mut db.chat_users, ChatUser { last_typing_at: now, last_seen_at: now, ..u });
    } else {
        proof {
            crate::store::lemma_without_absent(old(db)@.chat_users, uid@);
        }
    }
    let expires_at = now + TYPING_TTL;
    let test = |t: &TypingIndicator| -> (b: bool)
        ensures
            b == typing_of(room_id@, uid@)(t@),
        { t.room_id == room_id && t.user_id == uid };
    let found = position(&db.typing_indicators, test, Ghost(typing_of(room_id@, uid@)));
    proof {
        match found {
            Some(i) => lemma_first_match(db@.typing_indicators, typing_of(room_id@, uid@), i as int),
            None => lemma_filter_empty(db@.typing_indicators, typing_of(room_id@, uid@)),
        }
    }
    let id = match found {
        Some(i) => {
            let id = db.typing_indicators[i].id.clone();
            proof {
                lemma_lookup_index(db@.typing_indicators, i as int);
            }
            remove_key(&mut db.typing_indicators, &id);
            proof {
                crate::store::lemma_without_key(old(db)@.typing_indicators, id@);
            }
            insert_new(&mut db.typing_indicators, TypingIndicator { id: id.clone(), room_id: room_id.clone(), user_id: uid.clone(), expires_at });
            id
        },
        None => {
            let mut id = concat2("typing-", room_id.as_str());
            id.append("-");
            id.append(uid.as_str());
            insert_new(&mut db.typing_indicators, TypingIndicator { id: id.clone(), room_id: room_id.clone(), user_id: uid.clone(), expires_at });
            id
        },
    };
    let ghost jobs = db@.typing_expiry_jobs;
    let job = TypingExpiryJob { scheduled_id: 0, scheduled_at: ScheduleAt::Time(expires_at), typing_indicator_id: id };
    db.typing_expiry_jobs.push(job);
    assert(db@.typing_expiry_jobs =~= jobs.push(job@));
    Ok(())
}

/// Scheduled expiry of a typing marker: it goes only if it has expired by
/// `now` (a later refresh keeps it).
pub fn expire_typing_indicator(db: &mut ChatDb, now: u64, job: &TypingExpiryJob)
    requires
        old(db)@.wf(),
    ensures
        final(db)@.wf(),
        final(db)@ == match lookup(old(db)@.typing_indicators, job.typing_indicator_id@) {
            Some(t) => if t.expires_at <= now {
                ChatDbV { typing_indicators: without_key(old(db)@.typing_indicators, job.typing_indicator_id@), ..old(db)@ }
            } else {
                old(db)@
            },
            None => old(db)@,
        },
{
    match find_key(&db.typing_indicators, &job.typing_indicator_id) {
        Some(i) => {
            if db.typing_indicators[i].expires_at <= now {
                remove_key(&mut db.typing_indicators, &job.typing_indicator_id);
            }
        },
        None => {},
    }
}

/// Reactions on `message`.
pub open spec fn reaction_on(message: Seq<char>) -> spec_fn(ReactionV) -> bool {
    |r: ReactionV| r.message_id == message
}

/// Reactions on other messages.
pub open spec fn reaction_not_on(message: Seq<char>) -> spec_fn(ReactionV) -> bool {
    |r: ReactionV| r.message_id != message
}

/// Edits of `message`.
pub open spec fn edit_of(message: Seq<char>) -> spec_fn(MessageEditV) -> bool {
    |e: MessageEditV| e.message_id == message
}

/// Edits of other messages.
pub open spec fn edit_not_of(message: Seq<char>) -> spec_fn(MessageEditV) -> bool {
    |e: MessageEditV| e.message_id != message
}

/// Reaction index rows whose reaction is not one of `ids`.
pub open spec fn reaction_row_outside(ids: Seq<Seq<char>>) -> spec_fn(ReactionRoomIndexV) -> bool {
    |x: ReactionRoomIndexV| !ids.contains(x.reaction_id)
}

/// Edit index rows whose edit is not one of `ids`.
pub open spec fn edit_row_outside(ids: Seq<Seq<char>>) -> spec_fn(MessageEditRoomIndexV) -> bool {
    |x: MessageEditRoomIndexV| !ids.contains(x.edit_id)
}

/// The database without message `message`, its reactions and its edits
/// (with their index rows).
pub open spec fn message_removed(db: ChatDbV, message: Seq<char>) -> ChatDbV {
    let rids = keys_where(db.reactions, reaction_on(message));
    let eids = keys_where(db.message_edits, edit_of(message));
    ChatDbV {
        reactions: db.reactions.filter(reaction_not_on(message)),
        reaction_room_index: db.reaction_room_index.filter(reaction_row_outside(rids)),
        message_edits: db.message_edits.filter(edit_not_of(message)),
        message_edit_room_index: db.message_edit_room_index.filter(edit_row_outside(eids)),
        messages: without_key(db.messages, message),
        ..db
    }
}

/// Remove a message with its reactions and edits (see [`message_removed`]).
pub fn remove_message_everywhere(db: &mut ChatDb, message: &String)
    requires
        old(db)@.wf(),
    ensures
        final(db)@.wf(),
        final(db)@ == message_removed(old(db)@, message@),
{
    let on = |r: &Reaction| -> (b: bool) ensures b == reaction_on(message@)(r@), { r.message_id == *message };
    let rids = collect_keys(&db.reactions, on, Ghost(reaction_on(message@)));
    let keep_r = |r: &Reaction| -> (b: bool) ensures b == reaction_not_on(message@)(r@), { r.message_id != *message };
    retain_keyed(&mut db.reactions, keep_r, Ghost(reaction_not_on(message@)));
    let keep_ri = |x: &ReactionRoomIndex| -> (b: bool)
        ensures b == reaction_row_outside(rids@.map_values(|s: String| s@))(x@),
        { !str_in(&rids, &x.reaction_id) };
    retain_keyed(&mut db.reaction_room_index, keep_ri, Ghost(reaction_row_outside(rids@.map_values(|s: String| s@))));
    let of = |e: &MessageEdit| -> (b: bool) ensures b == edit_of(message@)(e@), { e.message_id == *message };
    let eids = collect_keys(&db.message_edits, of, Ghost(edit_of(message@)));
    let keep_e = |e: &MessageEdit| -> (b: bool) ensures b == edit_not_of(message@)(e@), { e.message_id != *message };
    retain_keyed(&mut db.message_edits, keep_e, Ghost(edit_not_of(message@)));
    let keep_ei = |x: &MessageEditRoomIndex| -> (b: bool)
        ensures b == edit_row_outside(eids@.map_values(|s: String| s@))(x@),
        { !str_in(&eids, &x.edit_id) };
    retain_keyed(&mut db.message_edit_room_index, keep_ei, Ghost(edit_row_outside(eids@.map_values(|s: String| s@))));
    remove_key(&mut db.messages, message);
}

/// Scheduled removal of an ephemeral message with its reactions and edits;
/// other messages stay.
pub fn delete_ephemeral_message(db: &mut ChatDb, job: &EphemeralCleanupJob)
    requires
        old(db)@.wf(),
    ensures
        final(db)@.wf(),
        final(db)@ == match lookup(old(db)@.messages, job.message_id@) {
            Some(m) => if m.is_ephemeral { message_removed(old(db)@, job.message_id@) } else { old(db)@ },
            None => old(db)@,
        },
{
    match find_key(&db.messages, &job.message_id) {
        Some(i) => {
            if db.messages[i].is_ephemeral {
                remove_message_everywhere(db, &job.message_id);
            }
        },
        None => {},
    }
}

/// Latest time (in milliseconds) a message may be scheduled for: its time in
/// microseconds must fit a signed 64-bit integer.
pub const LATEST_SEND_AT: u64 = 9223372036854775;

/// Outcome of [`schedule_message`].
pub open spec fn schedule_verdict(db: ChatDbV, c: CallerV, room: Seq<char>, content: Seq<char>, send_at: u64, now: u64) -> Result<(), ChatError> {
    match c.user_id {
        None => Err(ChatError::NotRegistered),
        Some(uid) => if !is_room_member(db, room, uid) {
            Err(ChatError::NotPermitted)
        } else if trim(content).len() == 0 || byte_len(trim(content)) > MAX_MESSAGE_LEN {
            Err(ChatError::Invalid)
        } else if send_at <= now {
            Err(ChatError::Invalid)
        } else {
            Ok(())
        },
    }
}

/// Schedule a message (trimmed, 1 to 4000 bytes) for a later time in a room
/// the caller belongs to. `job_id` is the number the database gives the
/// delivery job; the scheduled message records it.
pub fn schedule_message(
    db: &mut ChatDb,
    caller: &Caller,
    now: u64,
    id: String,
    room_id: String,
    content: String,
    send_at: u64,
    job_id: u64,
) -> (r: Result<(), ChatError>)
    requires
        old(db)@.wf(),
        schedule_verdict(old(db)@, caller@, room_id@, content@, send_at, now) is Ok ==> {
            &&& send_at <= LATEST_SEND_AT
            &&& !has_key(old(db)@.scheduled_messages, id@)
        },
    ensures
        final(db)@.wf(),
        r == schedule_verdict(old(db)@, caller@, room_id@, content@, send_at, now),
        r is Err ==> final(db)@ == old(db)@,
        r is Ok ==> final(db)@ == (ChatDbV {
            scheduled_delivery_jobs: old(db)@.scheduled_delivery_jobs.push(ScheduledDeliveryJobV {
                scheduled_id: job_id,
                scheduled_at: ScheduleAt::Time((send_at * 1000) as u64),
                scheduled_message_id: id@,
            }),
            scheduled_messages: old(db)@.scheduled_messages.push(ScheduledMessageV {
                id: id@, room_id: room_id@, author_id: caller@.user_id.unwrap(), content: trim(content@), send_at: send_at,
                created_at: now, job_id: job_id,
            }),
            ..old(db)@
        }),
{
    let uid = match &caller.user_id {
        Some(u) => u.clone(),
        None => return Err(ChatError::NotRegistered),
    };
    if !require_membership(db, &room_id, &uid) {
        return Err(ChatError::NotPermitted);
    }
    let t = trim_str(content.as_str());
    if t.unicode_len() == 0 || utf8_len(t) > MAX_MESSAGE_LEN {
        return Err(ChatError::Invalid);
    }
    if send_at <= now {
        return Err(ChatError::Invalid);
    }
    let ghost jobs = db@.scheduled_delivery_jobs;
    let job = ScheduledDeliveryJob { scheduled_id: job_id, scheduled_at: ScheduleAt::Time(send_at * 1000), scheduled_message_id: id.clone() };
    db.scheduled_delivery_jobs.push(job);
    assert(db@.scheduled_delivery_jobs =~= jobs.push(job@));
    let m = ScheduledMessage { id, room_id, author_id: uid, content: to_owned_string(t), send_at, created_at: now, job_id };
    insert_new(&mut db.scheduled_messages, m);
    Ok(())
}

/// Delivery jobs other than job `job`.
pub open spec fn job_not(job: u64) -> spec_fn(ScheduledDeliveryJobV) -> bool {
    |j: ScheduledDeliveryJobV| j.scheduled_id != job
}

/// Outcome of [`cancel_scheduled_message`].
pub open spec fn cancel_verdict(db: ChatDbV, c: CallerV, id: Seq<char>) -> Result<(), ChatError> {
    match c.user_id {
        None => Err(ChatError::NotRegistered),
        Some(uid) => match lookup(db.scheduled_messages, id) {
            None => Err(ChatError::NotFound),
            Some(s) => if s.author_id != uid { Err(ChatError::NotPermitted) } else { Ok(()) },
        },
    }
}

/// Cancel one of the caller's scheduled messages with its delivery job.
pub fn cancel_scheduled_message(db: &mut ChatDb, caller: &Caller, id: String) -> (r: Result<(), ChatError>)
    requires
        old(db)@.wf(),
    ensures
        final(db)@.wf(),
        r == cancel_verdict(old(db)@, caller@, id@),
        r is Err ==> final(db)@ == old(db)@,
        r is Ok ==> final(db)@ == (ChatDbV {
            scheduled_delivery_jobs: old(db)@.scheduled_delivery_jobs.filter(job_not(lookup(old(db)@.scheduled_messages, id@).unwrap().job_id)),
            scheduled_messages: without_key(old(db)@.scheduled_messages, id@),
            ..old(db)@
        }),
{
    let uid = match &caller.user_id {
        Some(u) => u.clone(),
        None => return Err(ChatError::NotRegistered),
    };
    let si = match find_key(&db.scheduled_messages, &id) {
        Some(i) => i,
        None => return Err(ChatError::NotFound),
    };
    if db.scheduled_messages[si].author_id != uid {
        return Err(ChatError::NotPermitted);
    }
    let job = db.scheduled_messages[si].job_id;
    let keep = |j: &ScheduledDeliveryJob| -> (b: bool) ensures b == job_not(job)(j@), { j.scheduled_id != job };
    retain_rows(&mut db.scheduled_delivery_jobs, keep, Ghost(job_not(job)));
    remove_key(&mut db.scheduled_messages, &id);
    Ok(())
}

/// Scheduled delivery: a scheduled message that still exists becomes a
/// message (as a bot's when its author is a bot) and leaves the queue.
pub fn send_scheduled_message(db: &mut ChatDb, now: u64, job: &ScheduledDeliveryJob)
    requires
        old(db)@.wf(),
        has_key(old(db)@.scheduled_messages, job.scheduled_message_id@)
            ==> !has_key(old(db)@.messages, job.scheduled_message_id@),
    ensures
        final(db)@.wf(),
        final(db)@ == match lookup(old(db)@.scheduled_messages, job.scheduled_message_id@) {
            Some(s) => ChatDbV {
                messages: old(db)@.messages.push(plain_message(s.id, s.room_id, s.author_id, s.content, now, "default"@,
                    if sender_is_bot(old(db)@, s.author_id) { Some(true) } else { None })),
                scheduled_messages: without_key(old(db)@.scheduled_messages, s.id),
                ..old(db)@
            },
            None => old(db)@,
        },
{
    let si = match find_key(&db.scheduled_messages, &job.scheduled_message_id) {
        Some(i) => i,
        None => return,
    };
    let s = &db.scheduled_messages[si];
    let sid = s.id.clone();
    let is_bot = match find_key(&db.chat_users, &s.author_id) {
        Some(ui) => flag(db.chat_users[ui].is_bot),
        None => false,
    };
    let msg = crate::reducers::system::make_plain_message(s.id.clone(), s.room_id.clone(), s.author_id.clone(), s.content.clone(),
        now, "default", if is_bot { Some(true) } else { None });
    insert_new(&mut db.messages, msg);
    remove_key(&mut db.scheduled_messages, &sid);
}

} // verus!
