//! A user's own account: display name, tier, platform role, presence,
//! profile, avatar, custom status, and read positions.

use vstd::prelude::*;
use crate::context::{Caller, CallerV, ChatError};
use crate::db::{ChatDb, ChatDbV};
use crate::tables::{ChatUser, ChatUserV, UserProfile, UserProfileV, ReadPosition, ReadPositionV, MessageV, opt_view};
use crate::store::{lookup, has_key, replace_row, rows, contains_key, insert_new, take_key, upsert, position,
    lemma_without_key, lemma_lookup_index};
use crate::lookups::{is_room_member, require_membership, first_match, lemma_first_match, lemma_filter_empty};
use crate::common::{any_row, str_eq};
use crate::text::{trim, byte_len, trim_str, utf8_len, chars_of, to_owned_string, concat2};
use crate::unicode::{lowercase, to_lower};

verus! {

/// Longest display name, in bytes.
pub const MAX_DISPLAY_NAME_LEN: usize = 32;

/// A control character (general category Cc), or a zero-width character used
/// to spoof names.
pub open spec fn spoofing_char(c: char) -> bool {
    ('\u{0}' <= c && c <= '\u{1f}') || ('\u{7f}' <= c && c <= '\u{9f}')
        || c == '\u{200B}' || c == '\u{200C}' || c == '\u{200D}' || c == '\u{FEFF}'
}

/// Another user whose display name equals `name` ignoring case.
pub open spec fn name_clash(uid: Seq<char>, name: Seq<char>) -> spec_fn(ChatUserV) -> bool {
    |u: ChatUserV| u.user_id != uid && lowercase(u.display_name) == lowercase(name)
}

/// Outcome of [`set_display_name`]; `Ok(false)` when the caller has no row.
pub open spec fn display_name_verdict(db: ChatDbV, c: CallerV, name: Seq<char>) -> Result<bool, ChatError> {
    match c.user_id {
        None => Err(ChatError::NotRegistered),
        Some(uid) => {
            let t = trim(name);
            if t.len() == 0 || byte_len(t) > MAX_DISPLAY_NAME_LEN {
                Err(ChatError::Invalid)
            } else if exists|i: int| 0 <= i < t.len() && spoofing_char(#[trigger] t[i]) {
                Err(ChatError::Invalid)
            } else if any_row(db.chat_users, name_clash(uid, t)) {
                Err(ChatError::AlreadyExists)
            } else {
                Ok(has_key(db.chat_users, uid))
            }
        },
    }
}

fn has_spoofing_char(s: &str) -> (b: bool)
    ensures
        b == exists|i: int| 0 <= i < s@.len() && spoofing_char(#[trigger] s@[i]),
{
    let cs = chars_of(s);
    let mut i: usize = 0;
    while i < cs.len()
        invariant
            cs@ == s@,
            i <= cs@.len(),
            forall|j: int| 0 <= j < i ==> !spoofing_char(#[trigger] cs@[j]),
        decreases cs.len() - i,
    {
        let c = cs[i];
        if ('\u{0}' <= c && c <= '\u{1f}') || ('\u{7f}' <= c && c <= '\u{9f}') || c == '\u{200B}' || c == '\u{200C}'
            || c == '\u{200D}' || c == '\u{FEFF}' {
            assert(spoofing_char(s@[i as int]));
            return true;
        }
        i = i + 1;
    }
    false
}

/// The database with the caller's row changed by `f`, when it has one.
pub open spec fn with_user_row(db: ChatDbV, uid: Seq<char>, f: spec_fn(ChatUserV) -> ChatUserV) -> ChatDbV {
    match lookup(db.chat_users, uid) {
        Some(u) => ChatDbV { chat_users: replace_row(db.chat_users, f(u)), ..db },
        None => db,
    }
}

/// Set the caller's display name: trimmed, 1 to 32 bytes, no control or
/// zero-width characters, and no other user's name equal to it ignoring case.
pub fn set_display_name(db: &mut ChatDb, caller: &Caller, now: u64, name: String) -> (r: Result<(), ChatError>)
    requires
        old(db)@.wf(),
    ensures
        final(db)@.wf(),
        match display_name_verdict(old(db)@, caller@, name@) {
            Err(e) => r == Err::<(), ChatError>(e) && final(db)@ == old(db)@,
            Ok(_) => r is Ok && final(db)@ == with_user_row(old(db)@, caller@.user_id.unwrap(),
                |u: ChatUserV| ChatUserV { display_name: trim(name@), last_seen_at: now, ..u }),
        },
{
    let uid = match &caller.user_id {
        Some(u) => u.clone(),
        None => return Err(ChatError::NotRegistered),
    };
    let t = trim_str(name.as_str());
    if t.unicode_len() == 0 || utf8_len(t) > MAX_DISPLAY_NAME_LEN {
        return Err(ChatError::Invalid);
    }
    if has_spoofing_char(t) {
        return Err(ChatError::Invalid);
    }
    let lower = to_lower(t);
    let clash = |u: &ChatUser| -> (b: bool)
        ensures
            b == name_clash(uid@, t@)(u@),
        {
            if u.user_id == uid {
                false
            } else {
                let other = to_lower(u.display_name.as_str());
                other == lower
            }
        };
    match position(&db.chat_users, clash, Ghost(name_clash(uid@, t@))) {
        Some(k) => {
            assert(db@.chat_users[k as int] == rows(db.chat_users@)[k as int]);
            return Err(ChatError::AlreadyExists);
        },
        None => {},
    }
    match take_key(&mut db.chat_users, &uid) {
        Some(u) => {
            proof {
                lemma_without_key(old(db)@.chat_users, uid@);
            }
            insert_new(&mut db.chat_users, ChatUser { display_name: to_owned_string(t), last_seen_at: now, ..u });
        },
        None => {
            proof {
                crate::store::lemma_without_absent(old(db)@.chat_users, uid@);
            }
        },
    }
    Ok(())
}

/// Change the caller's row with the given closure when it exists.
fn update_own_row<F: Fn(ChatUser) -> ChatUser>(db: &mut ChatDb, uid: &String, f: F, Ghost(g): Ghost<spec_fn(ChatUserV) -> ChatUserV>)
    requires
        old(db)@.wf(),
        forall|u: ChatUser| #[trigger] f.requires((u,)),
        forall|u: ChatUser, v: ChatUser| f.ensures((u,), v) ==> v@ == g(u@),
        forall|u: ChatUserV| #[trigger] g(u).user_id == u.user_id,
    ensures
        final(db)@.wf(),
        final(db)@ == with_user_row(old(db)@, uid@, g),
{
    match take_key(&mut db.chat_users, uid) {
        Some(u) => {
            proof {
                lemma_without_key(old(db)@.chat_users, uid@);
                let j = choose|j: int| 0 <= j < old(db)@.chat_users.len() && #[trigger] old(db)@.chat_users[j].user_id == uid@;
            }
            let v = f(u);
            insert_new(&mut db.chat_users, v);
        },
        None => {
            proof {
                crate::store::lemma_without_absent(old(db)@.chat_users, uid@);
            }
        },
    }
}

/// A tier the platform knows.
pub open spec fn known_tier(t: Seq<char>) -> bool {
    t == "free"@ || t == "pro"@ || t == "creator"@ || t == "team"@ || t == "admin"@
}

/// Record the caller's platform tier (unknown tiers count as "free").
pub fn sync_user_tier(db: &mut ChatDb, caller: &Caller, now: u64, tier: String) -> (r: Result<(), ChatError>)
    requires
        old(db)@.wf(),
    ensures
        final(db)@.wf(),
        r is Err <==> caller@.user_id is None,
        r is Err ==> r == Err::<(), ChatError>(ChatError::NotRegistered) && final(db)@ == old(db)@,
        r is Ok ==> final(db)@ == with_user_row(old(db)@, caller@.user_id.unwrap(),
            |u: ChatUserV| ChatUserV { tier: Some(if known_tier(tier@) { tier@ } else { "free"@ }), last_seen_at: now, ..u }),
{
    let uid = match &caller.user_id {
        Some(u) => u.clone(),
        None => return Err(ChatError::NotRegistered),
    };
    let t = tier.as_str();
    let effective = if str_eq(t, "free") || str_eq(t, "pro") || str_eq(t, "creator") || str_eq(t, "team") || str_eq(t, "admin") {
        tier.clone()
    } else {
        to_owned_string("free")
    };
    let f = |u: ChatUser| -> (v: ChatUser)
        ensures
            v@ == (ChatUserV { tier: Some(effective@), last_seen_at: now, ..u@ }),
        { ChatUser { tier: Some(effective.clone()), last_seen_at: now, ..u } };
    update_own_row(db, &uid, f, Ghost(|u: ChatUserV| ChatUserV { tier: Some(effective@), last_seen_at: now, ..u }));
    Ok(())
}

/// A platform role the platform knows.
pub open spec fn known_role(r: Seq<char>) -> bool {
    r == "admin"@ || r == "moderator"@ || r == "developer"@ || r == "user"@
}

/// Record the caller's platform role (unknown roles count as "user").
pub fn sync_platform_role(db: &mut ChatDb, caller: &Caller, now: u64, role: String) -> (r: Result<(), ChatError>)
    requires
        old(db)@.wf(),
    ensures
        final(db)@.wf(),
        r is Err <==> caller@.user_id is None,
        r is Err ==> r == Err::<(), ChatError>(ChatError::NotRegistered) && final(db)@ == old(db)@,
        r is Ok ==> final(db)@ == with_user_row(old(db)@, caller@.user_id.unwrap(),
            |u: ChatUserV| ChatUserV { platform_role: Some(if known_role(role@) { role@ } else { "user"@ }), last_seen_at: now, ..u }),
{
    let uid = match &caller.user_id {
        Some(u) => u.clone(),
        None => return Err(ChatError::NotRegistered),
    };
    let t = role.as_str();
    let effective = if str_eq(t, "admin") || str_eq(t, "moderator") || str_eq(t, "developer") || str_eq(t, "user") {
        role.clone()
    } else {
        to_owned_string("user")
    };
    let f = |u: ChatUser| -> (v: ChatUser)
        ensures
            v@ == (ChatUserV { platform_role: Some(effective@), last_seen_at: now, ..u@ }),
        { ChatUser { platform_role: Some(effective.clone()), last_seen_at: now, ..u } };
    update_own_row(db, &uid, f, Ghost(|u: ChatUserV| ChatUserV { platform_role: Some(effective@), last_seen_at: now, ..u }));
    Ok(())
}

/// A presence status a user may choose.
pub open spec fn allowed_status(s: Seq<char>) -> bool {
    s == "online"@ || s == "idle"@ || s == "dnd"@ || s == "invisible"@ || s == "offline"@
}

/// Set the caller's presence status ("online", "idle", "dnd", "invisible"
/// or "offline").
pub fn set_status(db: &mut ChatDb, caller: &Caller, now: u64, status: String) -> (r: Result<(), ChatError>)
    requires
        old(db)@.wf(),
    ensures
        final(db)@.wf(),
        r == (if caller@.user_id is None {
            Err(ChatError::NotRegistered)
        } else if !allowed_status(status@) {
            Err(ChatError::Invalid)
        } else {
            Ok(())
        }),
        r is Err ==> final(db)@ == old(db)@,
        r is Ok ==> final(db)@ == with_user_row(old(db)@, caller@.user_id.unwrap(),
            |u: ChatUserV| ChatUserV { status: status@, last_seen_at: now, ..u }),
{
    let uid = match &caller.user_id {
        Some(u) => u.clone(),
        None => return Err(ChatError::NotRegistered),
    };
    let t = status.as_str();
    if !(str_eq(t, "online") || str_eq(t, "idle") || str_eq(t, "dnd") || str_eq(t, "invisible") || str_eq(t, "offline")) {
        return Err(ChatError::Invalid);
    }
    let f = |u: ChatUser| -> (v: ChatUser)
        ensures
            v@ == (ChatUserV { status: status@, last_seen_at: now, ..u@ }),
        { ChatUser { status: status.clone(), last_seen_at: now, ..u } };
    update_own_row(db, &uid, f, Ghost(|u: ChatUserV| ChatUserV { status: status@, last_seen_at: now, ..u }));
    Ok(())
}

/// Characters of an optional string, by reference.
pub open spec fn opt_view_ref(o: &Option<String>) -> Option<Seq<char>> {
    opt_view(*o)
}

/// Longest "about me", in bytes.
pub const MAX_ABOUT_ME_LEN: usize = 190;
/// Longest banner or avatar image data, in bytes.
pub const MAX_BANNER_DATA_LEN: usize = 700000;
/// Longest pronouns, in bytes.
pub const MAX_PRONOUNS_LEN: usize = 32;
/// Longest custom status text, in bytes.
pub const MAX_STATUS_LEN: usize = 128;

/// An optional text of at most `max` bytes.
pub open spec fn fits(o: Option<Seq<char>>, max: usize) -> bool {
    match o {
        Some(s) => byte_len(s) <= max,
        None => true,
    }
}

fn check_fits(o: &Option<String>, max: usize) -> (b: bool)
    ensures
        b == fits(opt_view(*o), max),
{
    match o {
        Some(s) => utf8_len(s.as_str()) <= max,
        None => true,
    }
}

/// Set the caller's profile (about me of at most 190 bytes, banner data of at
/// most 700000, pronouns of at most 32); the whole profile is replaced.
pub fn update_profile(
    db: &mut ChatDb,
    caller: &Caller,
    now: u64,
    about_me: Option<String>,
    banner_color: Option<String>,
    banner_data: Option<String>,
    pronouns: Option<String>,
    accent_color: Option<String>,
) -> (r: Result<(), ChatError>)
    requires
        old(db)@.wf(),
    ensures
        final(db)@.wf(),
        r == (if caller@.user_id is None {
            Err(ChatError::NotRegistered)
        } else if !fits(opt_view(about_me), MAX_ABOUT_ME_LEN) || !fits(opt_view(banner_data), MAX_BANNER_DATA_LEN)
            || !fits(opt_view(pronouns), MAX_PRONOUNS_LEN) {
            Err(ChatError::Invalid)
        } else {
            Ok(())
        }),
        r is Err ==> final(db)@ == old(db)@,
        r is Ok ==> final(db)@ == (ChatDbV {
            user_profiles: replace_row(old(db)@.user_profiles, UserProfileV {
                user_id: caller@.user_id.unwrap(),
                about_me: opt_view(about_me),
                banner_color: opt_view(banner_color),
                banner_data: opt_view(banner_data),
                pronouns: opt_view(pronouns),
                accent_color: opt_view(accent_color),
                updated_at: now,
            }),
            ..old(db)@
        }),
{
    let uid = match &caller.user_id {
        Some(u) => u.clone(),
        None => return Err(ChatError::NotRegistered),
    };
    if !check_fits(&about_me, MAX_ABOUT_ME_LEN) || !check_fits(&banner_data, MAX_BANNER_DATA_LEN)
        || !check_fits(&pronouns, MAX_PRONOUNS_LEN) {
        return Err(ChatError::Invalid);
    }
    let p = UserProfile { user_id: uid, about_me, banner_color, banner_data, pronouns, accent_color, updated_at: now };
    upsert(&mut db.user_profiles, p);
    Ok(())
}

/// Set the caller's avatar image data (at most 700000 bytes).
pub fn set_avatar(db: &mut ChatDb, caller: &Caller, avatar_data: Option<String>) -> (r: Result<(), ChatError>)
    requires
        old(db)@.wf(),
    ensures
        final(db)@.wf(),
        r == (if caller@.user_id is None {
            Err(ChatError::NotRegistered)
        } else if !fits(opt_view(avatar_data), MAX_BANNER_DATA_LEN) {
            Err(ChatError::Invalid)
        } else {
            Ok(())
        }),
        r is Err ==> final(db)@ == old(db)@,
        r is Ok ==> final(db)@ == with_user_row(old(db)@, caller@.user_id.unwrap(),
            |u: ChatUserV| ChatUserV { avatar_data: opt_view(avatar_data), ..u }),
{
    let uid = match &caller.user_id {
        Some(u) => u.clone(),
        None => return Err(ChatError::NotRegistered),
    };
    if !check_fits(&avatar_data, MAX_BANNER_DATA_LEN) {
        return Err(ChatError::Invalid);
    }
    let f = |u: ChatUser| -> (v: ChatUser)
        ensures
            v@ == (ChatUserV { avatar_data: opt_view_ref(&avatar_data), ..u@ }),
        { ChatUser { avatar_data: crate::common::clone_opt(&avatar_data), ..u } };
    update_own_row(db, &uid, f, Ghost(|u: ChatUserV| ChatUserV { avatar_data: opt_view(avatar_data), ..u }));
    Ok(())
}

/// Set the caller's custom status text (at most 128 bytes) and emoji.
pub fn set_custom_status(db: &mut ChatDb, caller: &Caller, text: Option<String>, emoji: Option<String>) -> (r: Result<(), ChatError>)
    requires
        old(db)@.wf(),
    ensures
        final(db)@.wf(),
        r == (if caller@.user_id is None {
            Err(ChatError::NotRegistered)
        } else if !fits(opt_view(text), MAX_STATUS_LEN) {
            Err(ChatError::Invalid)
        } else {
            Ok(())
        }),
        r is Err ==> final(db)@ == old(db)@,
        r is Ok ==> final(db)@ == with_user_row(old(db)@, caller@.user_id.unwrap(),
            |u: ChatUserV| ChatUserV { custom_status: opt_view(text), custom_status_emoji: opt_view(emoji), ..u }),
{
    let uid = match &caller.user_id {
        Some(u) => u.clone(),
        None => return Err(ChatError::NotRegistered),
    };
    if !check_fits(&text, MAX_STATUS_LEN) {
        return Err(ChatError::Invalid);
    }
    let f = |u: ChatUser| -> (v: ChatUser)
        ensures
            v@ == (ChatUserV { custom_status: opt_view_ref(&text), custom_status_emoji: opt_view_ref(&emoji), ..u@ }),
        { ChatUser { custom_status: crate::common::clone_opt(&text), custom_status_emoji: crate::common::clone_opt(&emoji), ..u } };
    update_own_row(db, &uid, f, Ghost(|u: ChatUserV| ChatUserV { custom_status: opt_view(text), custom_status_emoji: opt_view(emoji), ..u }));
    Ok(())
}

/// Read positions of `user` in `room`.
pub open spec fn position_of(room: Seq<char>, user: Seq<char>) -> spec_fn(ReadPositionV) -> bool {
    |p: ReadPositionV| p.room_id == room && p.user_id == user
}

/// Id of a new read position: "rp-<room>-<user>".
pub open spec fn read_position_id(room: Seq<char>, user: Seq<char>) -> Seq<char> {
    "rp-"@ + room + "-"@ + user
}

/// The read positions after `user` has read `room` up to `message` at `now`:
/// their first position there moves, else a new one is made.
pub open spec fn read_up_to(positions: Seq<ReadPositionV>, room: Seq<char>, user: Seq<char>, message: Seq<char>, now: u64) -> Seq<ReadPositionV> {
    match first_match(positions, position_of(room, user)) {
        Some(p) => replace_row(positions, ReadPositionV { last_read_message_id: message, updated_at: now, ..p }),
        None => positions.push(ReadPositionV {
            id: read_position_id(room, user),
            room_id: room,
            user_id: user,
            last_read_message_id: message,
            updated_at: now,
        }),
    }
}

fn record_read(db: &mut ChatDb, room: String, user: String, message: String, now: u64)
    requires
        old(db)@.wf(),
        first_match(old(db)@.read_positions, position_of(room@, user@)) is None
            ==> !has_key(old(db)@.read_positions, read_position_id(room@, user@)),
    ensures
        final(db)@.wf(),
        final(db)@ == (ChatDbV { read_positions: read_up_to(old(db)@.read_positions, room@, user@, message@, now), ..old(db)@ }),
{
    let test = |p: &ReadPosition| -> (b: bool)
        ensures
            b == position_of(room@, user@)(p@),
        { p.room_id == room && p.user_id == user };
    let found = position(&db.read_positions, test, Ghost(position_of(room@, user@)));
    proof {
        match found {
            Some(i) => lemma_first_match(db@.read_positions, position_of(room@, user@), i as int),
            None => lemma_filter_empty(db@.read_positions, position_of(room@, user@)),
        }
    }
    match found {
        Some(i) => {
            let id = db.read_positions[i].id.clone();
            proof {
                lemma_lookup_index(db@.read_positions, i as int);
                lemma_without_key(db@.read_positions, id@);
            }
            let p = take_key(&mut db.read_positions, &id).unwrap();
            insert_new(&mut db.read_positions, ReadPosition { last_read_message_id: message, updated_at: now, ..p });
        },
        None => {
            let mut id = concat2("rp-", room.as_str());
            id.append("-");
            id.append(user.as_str());
            insert_new(&mut db.read_positions, ReadPosition { id, room_id: room, user_id: user, last_read_message_id: message, updated_at: now });
        },
    }
}

/// Outcome of [`mark_message_read`].
pub open spec fn mark_read_verdict(db: ChatDbV, c: CallerV, room: Seq<char>, message: Seq<char>) -> Result<(), ChatError> {
    match c.user_id {
        None => Err(ChatError::NotRegistered),
        Some(uid) => if !is_room_member(db, room, uid) {
            Err(ChatError::NotPermitted)
        } else if !has_key(db.messages, message) {
            Err(ChatError::NotFound)
        } else {
            Ok(())
        },
    }
}

/// Record that the caller has read a room they belong to up to a message.
pub fn mark_message_read(db: &mut ChatDb, caller: &Caller, now: u64, room_id: String, message_id: String) -> (r: Result<(), ChatError>)
    requires
        old(db)@.wf(),
        mark_read_verdict(old(db)@, caller@, room_id@, message_id@) is Ok
            && first_match(old(db)@.read_positions, position_of(room_id@, caller@.user_id.unwrap())) is None
            ==> !has_key(old(db)@.read_positions, read_position_id(room_id@, caller@.user_id.unwrap())),
    ensures
        final(db)@.wf(),
        r == mark_read_verdict(old(db)@, caller@, room_id@, message_id@),
        r is Err ==> final(db)@ == old(db)@,
        r is Ok ==> final(db)@ == (ChatDbV {
            read_positions: read_up_to(old(db)@.read_positions, room_id@, caller@.user_id.unwrap(), message_id@, now),
            ..old(db)@
        }),
{
    let uid = match &caller.user_id {
        Some(u) => u.clone(),
        None => return Err(ChatError::NotRegistered),
    };
    if !require_membership(db, &room_id, &uid) {
        return Err(ChatError::NotPermitted);
    }
    if !contains_key(&db.messages, &message_id) {
        return Err(ChatError::NotFound);
    }
    record_read(db, room_id, uid, message_id, now);
    Ok(())
}

/// The latest of `msgs` by creation time (the last one among equals), if any.
pub open spec fn latest(msgs: Seq<MessageV>) -> Option<MessageV>
    decreases msgs.len(),
{
    if msgs.len() == 0 {
        None
    } else {
        match latest(msgs.drop_last()) {
            Some(m) => if msgs.last().created_at >= m.created_at { Some(msgs.last()) } else { Some(m) },
            None => Some(msgs.last()),
        }
    }
}

/// Messages of `room`.
pub open spec fn message_in(room: Seq<char>) -> spec_fn(MessageV) -> bool {
    |m: MessageV| m.room_id == room
}

/// Outcome of [`mark_room_read`]: `Ok(false)` when the room has no message.
pub open spec fn mark_room_read_verdict(db: ChatDbV, c: CallerV, room: Seq<char>) -> Result<bool, ChatError> {
    match c.user_id {
        None => Err(ChatError::NotRegistered),
        Some(uid) => if !is_room_member(db, room, uid) {
            Err(ChatError::NotPermitted)
        } else {
            Ok(latest(db.messages.filter(message_in(room))) is Some)
        },
    }
}

fn latest_in_room(db: &ChatDb, room: &String) -> (r: Option<usize>)
    ensures
        match r {
            Some(i) => i < db@.messages.len() && latest(db@.messages.filter(message_in(room@))) == Some(db@.messages[i as int]),
            None => latest(db@.messages.filter(message_in(room@))) is None,
        },
{
    let mut best: Option<usize> = None;
    let mut i: usize = 0;
    while i < db.messages.len()
        invariant
            i <= db@.messages.len(),
            match best {
                Some(b) => b < i && latest(db@.messages.take(i as int).filter(message_in(room@))) == Some(db@.messages[b as int]),
                None => latest(db@.messages.take(i as int).filter(message_in(room@))) is None,
            },
        decreases db.messages.len() - i,
    {
        proof {
            assert(db@.messages.take(i + 1).drop_last() =~= db@.messages.take(i as int));
            assert(db@.messages.take(i + 1).last() == db@.messages[i as int]);
            reveal_with_fuel(Seq::filter, 1);
        }
        if db.messages[i].room_id == *room {
            let later = match best {
                Some(b) => db.messages[i].created_at >= db.messages[b].created_at,
                None => true,
            };
            proof {
                let s = db@.messages.take(i + 1).filter(message_in(room@));
                assert(s == db@.messages.take(i as int).filter(message_in(room@)).push(db@.messages[i as int]));
                assert(s.drop_last() =~= db@.messages.take(i as int).filter(message_in(room@)));
            }
            if later {
                best = Some(i);
            }
        }
        i = i + 1;
    }
    assert(db@.messages.take(db@.messages.len() as int) =~= db@.messages);
    best
}

/// Record that the caller has read a room they belong to up to its latest
/// message; a room without messages changes nothing.
pub fn mark_room_read(db: &mut ChatDb, caller: &Caller, now: u64, room_id: String) -> (r: Result<(), ChatError>)
    requires
        old(db)@.wf(),
        mark_room_read_verdict(old(db)@, caller@, room_id@) == Ok::<bool, ChatError>(true)
            && first_match(old(db)@.read_positions, position_of(room_id@, caller@.user_id.unwrap())) is None
            ==> !has_key(old(db)@.read_positions, read_position_id(room_id@, caller@.user_id.unwrap())),
    ensures
        final(db)@.wf(),
        match mark_room_read_verdict(old(db)@, caller@, room_id@) {
            Err(e) => r == Err::<(), ChatError>(e) && final(db)@ == old(db)@,
            Ok(false) => r is Ok && final(db)@ == old(db)@,
            Ok(true) => r is Ok && final(db)@ == (ChatDbV {
                read_positions: read_up_to(old(db)@.read_positions, room_id@, caller@.user_id.unwrap(),
                    latest(old(db)@.messages.filter(message_in(room_id@))).unwrap().id, now),
                ..old(db)@
            }),
        },
{
    let uid = match &caller.user_id {
        Some(u) => u.clone(),
        None => return Err(ChatError::NotRegistered),
    };
    if !require_membership(db, &room_id, &uid) {
        return Err(ChatError::NotPermitted);
    }
    let li = match latest_in_room(db, &room_id) {
        Some(i) => i,
        None => return Ok(()),
    };
    let mid = db.messages[li].id.clone();
    record_read(db, room_id, uid, mid, now);
    Ok(())
}

} // verus!
