//! A user's own things: drafts, starred rooms, blocks, bookmarks and
//! notification settings.

use vstd::prelude::*;
use crate::context::{Caller, CallerV, ChatError};
use crate::db::{ChatDb, ChatDbV};
use crate::tables::{Draft, DraftV, StarredChannel, StarredChannelV, UserBlock, UserBlockV, Bookmark, BookmarkV,
    NotificationSetting, NotificationSettingV, RoomMember, RoomMemberV, opt_view};
use crate::store::{lookup, has_key, without_key, replace_row, rows, find_key, contains_key, insert_new, remove_key,
    take_key, upsert, position, count_rows, lemma_without_key, lemma_lookup_index};
use crate::lookups::{is_room_member, require_membership, first_match, lemma_first_match, lemma_filter_empty};
use crate::common::{any_row, str_eq};
use crate::text::{byte_len, utf8_len, join2, concat2};

verus! {

/// Longest draft, in bytes.
pub const MAX_DRAFT_LEN: usize = 4000;

/// Drafts of `user` in `room`.
pub open spec fn draft_of(room: Seq<char>, user: Seq<char>) -> spec_fn(DraftV) -> bool {
    |d: DraftV| d.room_id == room && d.user_id == user
}

/// Id of a new draft: "draft-<room>-<user>".
pub open spec fn draft_id(room: Seq<char>, user: Seq<char>) -> Seq<char> {
    "draft-"@ + room + "-"@ + user
}

/// Outcome of [`update_draft`].
pub open spec fn update_draft_verdict(db: ChatDbV, c: CallerV, room: Seq<char>, content: Seq<char>) -> Result<(), ChatError> {
    match c.user_id {
        None => Err(ChatError::NotRegistered),
        Some(uid) => if !is_room_member(db, room, uid) {
            Err(ChatError::NotPermitted)
        } else if byte_len(content) > MAX_DRAFT_LEN {
            Err(ChatError::Invalid)
        } else {
            Ok(())
        },
    }
}

fn find_draft(db: &ChatDb, room: &String, user: &String) -> (r: Option<usize>)
    ensures
        match r {
            Some(i) => i < db@.drafts.len() && first_match(db@.drafts, draft_of(room@, user@)) == Some(db@.drafts[i as int]),
            None => first_match(db@.drafts, draft_of(room@, user@)) is None,
        },
{
    let test = |d: &Draft| -> (b: bool)
        ensures
            b == draft_of(room@, user@)(d@),
        { d.room_id == *room && d.user_id == *user };
    let r = position(&db.drafts, test, Ghost(draft_of(room@, user@)));
    proof {
        match r {
            Some(i) => lemma_first_match(db@.drafts, draft_of(room@, user@), i as int),
            None => lemma_filter_empty(db@.drafts, draft_of(room@, user@)),
        }
    }
    r
}

/// Save the caller's draft in a room they belong to (at most 4000 bytes):
/// their first draft there takes the new text, else a new draft is made.
pub fn update_draft(db: &mut ChatDb, caller: &Caller, now: u64, room_id: String, content: String) -> (r: Result<(), ChatError>)
    requires
        old(db)@.wf(),
        update_draft_verdict(old(db)@, caller@, room_id@, content@) is Ok
            && first_match(old(db)@.drafts, draft_of(room_id@, caller@.user_id.unwrap())) is None
            ==> !has_key(old(db)@.drafts, draft_id(room_id@, caller@.user_id.unwrap())),
    ensures
        final(db)@.wf(),
        r == update_draft_verdict(old(db)@, caller@, room_id@, content@),
        r is Err ==> final(db)@ == old(db)@,
        r is Ok ==> ({
            let uid = caller@.user_id.unwrap();
            final(db)@ == (ChatDbV {
                drafts: match first_match(old(db)@.drafts, draft_of(room_id@, uid)) {
                    Some(d) => replace_row(old(db)@.drafts, DraftV { content: content@, updated_at: now, ..d }),
                    None => old(db)@.drafts.push(DraftV { id: draft_id(room_id@, uid), room_id: room_id@, user_id: uid, content: content@, updated_at: now }),
                },
                ..old(db)@
            })
        }),
{
    let uid = match &caller.user_id {
        Some(u) => u.clone(),
        None => return Err(ChatError::NotRegistered),
    };
    if !require_membership(db, &room_id, &uid) {
        return Err(ChatError::NotPermitted);
    }
    if utf8_len(content.as_str()) > MAX_DRAFT_LEN {
        return Err(ChatError::Invalid);
    }
    match find_draft(db, &room_id, &uid) {
        Some(i) => {
            let id = db.drafts[i].id.clone();
            proof {
                lemma_lookup_index(db@.drafts, i as int);
                lemma_without_key(db@.drafts, id@);
            }
            let d = take_key(&mut db.drafts, &id).unwrap();
            insert_new(&mut db.drafts, Draft { content, updated_at: now, ..d });
        },
        None => {
            let mut id = concat2("draft-", room_id.as_str());
            id.append("-");
            id.append(uid.as_str());
            insert_new(&mut db.drafts, Draft { id, room_id, user_id: uid, content, updated_at: now });
        },
    }
    Ok(())
}

/// Clear the caller's (first) draft in a room.
pub fn clear_draft(db: &mut ChatDb, caller: &Caller, room_id: String) -> (r: Result<(), ChatError>)
    requires
        old(db)@.wf(),
    ensures
        final(db)@.wf(),
        r is Err <==> caller@.user_id is None,
        r is Err ==> r == Err::<(), ChatError>(ChatError::NotRegistered) && final(db)@ == old(db)@,
        r is Ok ==> final(db)@ == match first_match(old(db)@.drafts, draft_of(room_id@, caller@.user_id.unwrap())) {
            Some(d) => ChatDbV { drafts: without_key(old(db)@.drafts, d.id), ..old(db)@ },
            None => old(db)@,
        },
{
    let uid = match &caller.user_id {
        Some(u) => u.clone(),
        None => return Err(ChatError::NotRegistered),
    };
    match find_draft(db, &room_id, &uid) {
        Some(i) => {
            let id = db.drafts[i].id.clone();
            remove_key(&mut db.drafts, &id);
        },
        None => {},
    }
    Ok(())
}

/// Id of a star: "<user>:<room>".
pub open spec fn star_id(user: Seq<char>, room: Seq<char>) -> Seq<char> {
    user + ":"@ + room
}

/// Star a room (idempotent).
pub fn star_channel(db: &mut ChatDb, caller: &Caller, now: u64, room_id: String) -> (r: Result<(), ChatError>)
    requires
        old(db)@.wf(),
    ensures
        final(db)@.wf(),
        r is Err <==> caller@.user_id is None,
        r is Err ==> r == Err::<(), ChatError>(ChatError::NotRegistered) && final(db)@ == old(db)@,
        r is Ok ==> ({
            let id = star_id(caller@.user_id.unwrap(), room_id@);
            final(db)@ == if has_key(old(db)@.starred_channels, id) {
                old(db)@
            } else {
                ChatDbV {
                    starred_channels: old(db)@.starred_channels.push(StarredChannelV {
                        id: id, user_id: caller@.user_id.unwrap(), room_id: room_id@, starred_at: now,
                    }),
                    ..old(db)@
                }
            }
        }),
{
    let uid = match &caller.user_id {
        Some(u) => u.clone(),
        None => return Err(ChatError::NotRegistered),
    };
    let id = join2(uid.as_str(), ":", room_id.as_str());
    if contains_key(&db.starred_channels, &id) {
        return Ok(());
    }
    insert_new(&mut db.starred_channels, StarredChannel { id, user_id: uid, room_id, starred_at: now });
    Ok(())
}

/// Unstar a room.
pub fn unstar_channel(db: &mut ChatDb, caller: &Caller, room_id: String) -> (r: Result<(), ChatError>)
    requires
        old(db)@.wf(),
    ensures
        final(db)@.wf(),
        r is Err <==> caller@.user_id is None,
        r is Err ==> r == Err::<(), ChatError>(ChatError::NotRegistered) && final(db)@ == old(db)@,
        r is Ok ==> final(db)@ == (ChatDbV {
            starred_channels: without_key(old(db)@.starred_channels, star_id(caller@.user_id.unwrap(), room_id@)),
            ..old(db)@
        }),
{
    let uid = match &caller.user_id {
        Some(u) => u.clone(),
        None => return Err(ChatError::NotRegistered),
    };
    let id = join2(uid.as_str(), ":", room_id.as_str());
    remove_key(&mut db.starred_channels, &id);
    Ok(())
}

/// Most users one user may block.
pub const MAX_BLOCKS_PER_USER: usize = 200;

/// Blocks made by `user`.
pub open spec fn blocks_by(user: Seq<char>) -> spec_fn(UserBlockV) -> bool {
    |b: UserBlockV| b.blocker_id == user
}

/// Id of a block: "<blocker>:<hash of the blocked user>".
pub open spec fn block_id(user: Seq<char>, hash: Seq<char>) -> Seq<char> {
    user + ":"@ + hash
}

/// The service's hashes of a pair of users in both directions: `forward`
/// hashes (user, other) and `reverse` hashes (other, user). A block is
/// recorded under the blocker's id and its hash of the blocked user (see
/// [`block_user`]). Hashing user ids is the caller's determination: the
/// library looks blocks up under the hashes it is given.
#[derive(Clone, Debug)]
pub struct BlockHashes {
    pub forward: String,
    pub reverse: String,
}

/// A block stands between `user` and `other`: `user` blocked `other`, or
/// `other` blocked `user`.
pub open spec fn blocked_between(db: ChatDbV, user: Seq<char>, other: Seq<char>, h: BlockHashes) -> bool {
    has_key(db.user_blocks, block_id(user, h.forward@)) || has_key(db.user_blocks, block_id(other, h.reverse@))
}

/// Whether a block stands between `user` and `other` (see [`blocked_between`]).
pub fn is_blocked_between(db: &ChatDb, user: &String, other: &String, h: &BlockHashes) -> (b: bool)
    requires
        db@.wf(),
    ensures
        b == blocked_between(db@, user@, other@, *h),
{
    let forward = join2(user.as_str(), ":", h.forward.as_str());
    let reverse = join2(other.as_str(), ":", h.reverse.as_str());
    contains_key(&db.user_blocks, &forward) || contains_key(&db.user_blocks, &reverse)
}

/// Memberships of `room` held by someone other than `user`.
pub open spec fn other_member_of(room: Seq<char>, user: Seq<char>) -> spec_fn(RoomMemberV) -> bool {
    |m: RoomMemberV| m.room_id == room && m.user_id != user
}

/// The other member of a direct-message room for `user`: the user of the
/// first membership row of `room` that is not `user`'s.
pub open spec fn dm_partner(db: ChatDbV, room: Seq<char>, user: Seq<char>) -> Option<Seq<char>> {
    match first_match(db.room_members, other_member_of(room, user)) {
        Some(m) => Some(m.user_id),
        None => None,
    }
}

/// The other member of a direct-message room for `user` (see [`dm_partner`]).
pub fn find_dm_partner(db: &ChatDb, room: &String, user: &String) -> (r: Option<String>)
    ensures
        opt_view(r) == dm_partner(db@, room@, user@),
{
    let test = |m: &RoomMember| -> (b: bool)
        ensures
            b == other_member_of(room@, user@)(m@),
        { m.room_id == *room && m.user_id != *user };
    let found = position(&db.room_members, test, Ghost(other_member_of(room@, user@)));
    proof {
        match found {
            Some(i) => lemma_first_match(db@.room_members, other_member_of(room@, user@), i as int),
            None => lemma_filter_empty(db@.room_members, other_member_of(room@, user@)),
        }
    }
    match found {
        Some(i) => Some(db.room_members[i].user_id.clone()),
        None => None,
    }
}

/// A block stands between `user` and the other member of direct-message room
/// `room` (none when the room has no other member).
pub open spec fn dm_blocked(db: ChatDbV, room: Seq<char>, user: Seq<char>, h: BlockHashes) -> bool {
    match dm_partner(db, room, user) {
        Some(o) => blocked_between(db, user, o, h),
        None => false,
    }
}

/// Outcome of [`block_user`]: `Ok(true)` when a block is recorded, `Ok(false)`
/// when it already was.
pub open spec fn block_verdict(db: ChatDbV, c: CallerV, blocked: Seq<char>, hash: Seq<char>) -> Result<bool, ChatError> {
    match c.user_id {
        None => Err(ChatError::NotRegistered),
        Some(uid) => if uid == blocked {
            Err(ChatError::Invalid)
        } else if has_key(db.user_blocks, block_id(uid, hash)) {
            Ok(false)
        } else if db.user_blocks.filter(blocks_by(uid)).len() >= MAX_BLOCKS_PER_USER {
            Err(ChatError::LimitReached)
        } else {
            Ok(true)
        },
    }
}

/// Block a user. `blocked_hash` is the service's hash of the (blocker,
/// blocked) pair, stored in place of the blocked user's id; at most 200 blocks.
pub fn block_user(db: &mut ChatDb, caller: &Caller, now: u64, blocked_user_id: String, blocked_hash: String) -> (r: Result<(), ChatError>)
    requires
        old(db)@.wf(),
    ensures
        final(db)@.wf(),
        match block_verdict(old(db)@, caller@, blocked_user_id@, blocked_hash@) {
            Err(e) => r == Err::<(), ChatError>(e) && final(db)@ == old(db)@,
            Ok(false) => r is Ok && final(db)@ == old(db)@,
            Ok(true) => r is Ok && final(db)@ == (ChatDbV {
                user_blocks: old(db)@.user_blocks.push(UserBlockV {
                    id: block_id(caller@.user_id.unwrap(), blocked_hash@),
                    blocker_id: caller@.user_id.unwrap(),
                    blocked_id: blocked_hash@,
                    created_at: now,
                }),
                ..old(db)@
            }),
        },
{
    let uid = match &caller.user_id {
        Some(u) => u.clone(),
        None => return Err(ChatError::NotRegistered),
    };
    if uid == blocked_user_id {
        return Err(ChatError::Invalid);
    }
    let id = join2(uid.as_str(), ":", blocked_hash.as_str());
    if contains_key(&db.user_blocks, &id) {
        return Ok(());
    }
    let test = |b: &UserBlock| -> (res: bool)
        ensures
            res == blocks_by(uid@)(b@),
        { b.blocker_id == uid };
    let n = count_rows(&db.user_blocks, test, Ghost(blocks_by(uid@)));
    if n >= MAX_BLOCKS_PER_USER {
        return Err(ChatError::LimitReached);
    }
    insert_new(&mut db.user_blocks, UserBlock { id, blocker_id: uid, blocked_id: blocked_hash, created_at: now });
    Ok(())
}

/// Lift a block (`blocked_hash` as for [`block_user`]).
pub fn unblock_user(db: &mut ChatDb, caller: &Caller, blocked_user_id: String, blocked_hash: String) -> (r: Result<(), ChatError>)
    requires
        old(db)@.wf(),
    ensures
        final(db)@.wf(),
        r is Err <==> caller@.user_id is None,
        r is Err ==> r == Err::<(), ChatError>(ChatError::NotRegistered) && final(db)@ == old(db)@,
        r is Ok ==> final(db)@ == (ChatDbV {
            user_blocks: without_key(old(db)@.user_blocks, block_id(caller@.user_id.unwrap(), blocked_hash@)),
            ..old(db)@
        }),
{
    let uid = match &caller.user_id {
        Some(u) => u.clone(),
        None => return Err(ChatError::NotRegistered),
    };
    let id = join2(uid.as_str(), ":", blocked_hash.as_str());
    remove_key(&mut db.user_blocks, &id);
    Ok(())
}

/// Longest bookmark note, in bytes.
pub const MAX_BOOKMARK_NOTE_LEN: usize = 500;

/// Most bookmarks one user may keep.
pub const MAX_BOOKMARKS_PER_USER: usize = 200;

/// Bookmarks of `user`.
pub open spec fn bookmark_of(user: Seq<char>) -> spec_fn(BookmarkV) -> bool {
    |b: BookmarkV| b.user_id == user
}

/// Bookmarks of `user` on `message`.
pub open spec fn bookmark_on(user: Seq<char>, message: Seq<char>) -> spec_fn(BookmarkV) -> bool {
    |b: BookmarkV| b.user_id == user && b.message_id == message
}

/// A note that fits.
pub open spec fn note_ok(note: Option<Seq<char>>) -> bool {
    match note {
        Some(n) => byte_len(n) <= MAX_BOOKMARK_NOTE_LEN,
        None => true,
    }
}

/// Outcome of [`add_bookmark`]: `Ok(false)` when the message is already bookmarked.
pub open spec fn add_bookmark_verdict(db: ChatDbV, c: CallerV, message: Seq<char>, note: Option<Seq<char>>) -> Result<bool, ChatError> {
    match c.user_id {
        None => Err(ChatError::NotRegistered),
        Some(uid) => if !has_key(db.messages, message) {
            Err(ChatError::NotFound)
        } else if !note_ok(note) {
            Err(ChatError::Invalid)
        } else if db.bookmarks.filter(bookmark_of(uid)).len() >= MAX_BOOKMARKS_PER_USER {
            Err(ChatError::LimitReached)
        } else if any_row(db.bookmarks, bookmark_on(uid, message)) {
            Ok(false)
        } else {
            Ok(true)
        },
    }
}

fn check_note(note: &Option<String>) -> (b: bool)
    ensures
        b == note_ok(opt_view(*note)),
{
    match note {
        Some(n) => utf8_len(n.as_str()) <= MAX_BOOKMARK_NOTE_LEN,
        None => true,
    }
}

/// Bookmark a message that exists, with an optional note of at most 500
/// bytes; at most 200 bookmarks, one per message.
pub fn add_bookmark(db: &mut ChatDb, caller: &Caller, now: u64, id: String, message_id: String, room_id: String, note: Option<String>) -> (r: Result<(), ChatError>)
    requires
        old(db)@.wf(),
        add_bookmark_verdict(old(db)@, caller@, message_id@, opt_view(note)) == Ok::<bool, ChatError>(true) ==> !has_key(old(db)@.bookmarks, id@),
    ensures
        final(db)@.wf(),
        match add_bookmark_verdict(old(db)@, caller@, message_id@, opt_view(note)) {
            Err(e) => r == Err::<(), ChatError>(e) && final(db)@ == old(db)@,
            Ok(false) => r is Ok && final(db)@ == old(db)@,
            Ok(true) => r is Ok && final(db)@ == (ChatDbV {
                bookmarks: old(db)@.bookmarks.push(BookmarkV {
                    id: id@, user_id: caller@.user_id.unwrap(), message_id: message_id@, room_id: room_id@,
                    note: opt_view(note), created_at: now,
                }),
                ..old(db)@
            }),
        },
{
    let uid = match &caller.user_id {
        Some(u) => u.clone(),
        None => return Err(ChatError::NotRegistered),
    };
    if !contains_key(&db.messages, &message_id) {
        return Err(ChatError::NotFound);
    }
    if !check_note(&note) {
        return Err(ChatError::Invalid);
    }
    let mine = |b: &Bookmark| -> (res: bool)
        ensures
            res == bookmark_of(uid@)(b@),
        { b.user_id == uid };
    let n = count_rows(&db.bookmarks, mine, Ghost(bookmark_of(uid@)));
    if n >= MAX_BOOKMARKS_PER_USER {
        return Err(ChatError::LimitReached);
    }
    let same = |b: &Bookmark| -> (res: bool)
        ensures
            res == bookmark_on(uid@, message_id@)(b@),
        { b.user_id == uid && b.message_id == message_id };
    match position(&db.bookmarks, same, Ghost(bookmark_on(uid@, message_id@))) {
        Some(k) => {
            assert(db@.bookmarks[k as int] == rows(db.bookmarks@)[k as int]);
            return Ok(());
        },
        None => {},
    }
    insert_new(&mut db.bookmarks, Bookmark { id, user_id: uid, message_id, room_id, note, created_at: now });
    Ok(())
}

/// Outcome of removing or editing bookmark `id`: it must be the caller's.
pub open spec fn own_bookmark_verdict(db: ChatDbV, c: CallerV, id: Seq<char>) -> Result<(), ChatError> {
    match c.user_id {
        None => Err(ChatError::NotRegistered),
        Some(uid) => match lookup(db.bookmarks, id) {
            None => Err(ChatError::NotFound),
            Some(b) => if b.user_id != uid { Err(ChatError::NotPermitted) } else { Ok(()) },
        },
    }
}

/// Remove one of the caller's bookmarks.
pub fn remove_bookmark(db: &mut ChatDb, caller: &Caller, id: String) -> (r: Result<(), ChatError>)
    requires
        old(db)@.wf(),
    ensures
        final(db)@.wf(),
        r == own_bookmark_verdict(old(db)@, caller@, id@),
        r is Err ==> final(db)@ == old(db)@,
        r is Ok ==> final(db)@ == (ChatDbV { bookmarks: without_key(old(db)@.bookmarks, id@), ..old(db)@ }),
{
    let uid = match &caller.user_id {
        Some(u) => u.clone(),
        None => return Err(ChatError::NotRegistered),
    };
    match find_key(&db.bookmarks, &id) {
        Some(i) => {
            if db.bookmarks[i].user_id != uid {
                return Err(ChatError::NotPermitted);
            }
        },
        None => return Err(ChatError::NotFound),
    }
    remove_key(&mut db.bookmarks, &id);
    Ok(())
}

/// Change the note of one of the caller's bookmarks (at most 500 bytes).
pub fn update_bookmark_note(db: &mut ChatDb, caller: &Caller, id: String, note: Option<String>) -> (r: Result<(), ChatError>)
    requires
        old(db)@.wf(),
    ensures
        final(db)@.wf(),
        r == (if own_bookmark_verdict(old(db)@, caller@, id@) is Err {
            own_bookmark_verdict(old(db)@, caller@, id@)
        } else if !note_ok(opt_view(note)) {
            Err(ChatError::Invalid)
        } else {
            Ok(())
        }),
        r is Err ==> final(db)@ == old(db)@,
        r is Ok ==> final(db)@ == (ChatDbV {
            bookmarks: replace_row(old(db)@.bookmarks, BookmarkV { note: opt_view(note), ..lookup(old(db)@.bookmarks, id@).unwrap() }),
            ..old(db)@
        }),
{
    let uid = match &caller.user_id {
        Some(u) => u.clone(),
        None => return Err(ChatError::NotRegistered),
    };
    match find_key(&db.bookmarks, &id) {
        Some(i) => {
            if db.bookmarks[i].user_id != uid {
                return Err(ChatError::NotPermitted);
            }
        },
        None => return Err(ChatError::NotFound),
    }
    if !check_note(&note) {
        return Err(ChatError::Invalid);
    }
    let b = take_key(&mut db.bookmarks, &id).unwrap();
    proof {
        lemma_without_key(old(db)@.bookmarks, id@);
    }
    insert_new(&mut db.bookmarks, Bookmark { note, ..b });
    Ok(())
}

/// Id of a notification setting: "<user>-<target type>-<target>".
pub open spec fn setting_id(user: Seq<char>, target_type: Seq<char>, target: Seq<char>) -> Seq<char> {
    user + "-"@ + target_type + "-"@ + target
}

/// Outcome of [`set_notification_level`].
pub open spec fn notification_verdict(c: CallerV, target_type: Seq<char>, level: Seq<char>) -> Result<(), ChatError> {
    if c.user_id is None {
        Err(ChatError::NotRegistered)
    } else if target_type != "server"@ && target_type != "room"@ {
        Err(ChatError::Invalid)
    } else if level != "all"@ && level != "mentions"@ && level != "none"@ {
        Err(ChatError::Invalid)
    } else {
        Ok(())
    }
}

/// Set the caller's notification level ("all", "mentions" or "none") for a
/// server or a room; an earlier setting is replaced and any mute lifted.
pub fn set_notification_level(
    db: &mut ChatDb,
    caller: &Caller,
    now: u64,
    target_type: String,
    target_id: String,
    level: String,
    suppress_everyone: bool,
    suppress_roles: bool,
) -> (r: Result<(), ChatError>)
    requires
        old(db)@.wf(),
    ensures
        final(db)@.wf(),
        r == notification_verdict(caller@, target_type@, level@),
        r is Err ==> final(db)@ == old(db)@,
        r is Ok ==> final(db)@ == (ChatDbV {
            notification_settings: replace_row(old(db)@.notification_settings, NotificationSettingV {
                id: setting_id(caller@.user_id.unwrap(), target_type@, target_id@),
                user_id: caller@.user_id.unwrap(),
                target_type: target_type@,
                target_id: target_id@,
                level: level@,
                suppress_everyone: suppress_everyone,
                suppress_roles: suppress_roles,
                muted_until: None,
                updated_at: now,
            }),
            ..old(db)@
        }),
{
    let uid = match &caller.user_id {
        Some(u) => u.clone(),
        None => return Err(ChatError::NotRegistered),
    };
    if !str_eq(target_type.as_str(), "server") && !str_eq(target_type.as_str(), "room") {
        return Err(ChatError::Invalid);
    }
    if !str_eq(level.as_str(), "all") && !str_eq(level.as_str(), "mentions") && !str_eq(level.as_str(), "none") {
        return Err(ChatError::Invalid);
    }
    let mut id = join2(uid.as_str(), "-", target_type.as_str());
    id.append("-");
    id.append(target_id.as_str());
    let s = NotificationSetting {
        id,
        user_id: uid,
        target_type,
        target_id,
        level,
        suppress_everyone,
        suppress_roles,
        muted_until: None,
        updated_at: now,
    };
    upsert(&mut db.notification_settings, s);
    Ok(())
}

/// Id of the room setting of `user`: "<user>-room-<room>".
pub open spec fn room_setting_id(user: Seq<char>, room: Seq<char>) -> Seq<char> {
    user + "-room-"@ + room
}

/// Mute a room for `duration_ms`: the caller's room setting (created with
/// level "all" if missing) records the end of the mute.
pub fn mute_channel(db: &mut ChatDb, caller: &Caller, now: u64, room_id: String, duration_ms: u64) -> (r: Result<(), ChatError>)
    requires
        old(db)@.wf(),
        now + duration_ms <= u64::MAX,
    ensures
        final(db)@.wf(),
        r is Err <==> caller@.user_id is None,
        r is Err ==> r == Err::<(), ChatError>(ChatError::NotRegistered) && final(db)@ == old(db)@,
        r is Ok ==> ({
            let uid = caller@.user_id.unwrap();
            let sid = room_setting_id(uid, room_id@);
            final(db)@ == (ChatDbV {
                notification_settings: replace_row(old(db)@.notification_settings, match lookup(old(db)@.notification_settings, sid) {
                    Some(s) => NotificationSettingV { muted_until: Some((now + duration_ms) as u64), updated_at: now, ..s },
                    None => NotificationSettingV {
                        id: sid,
                        user_id: uid,
                        target_type: "room"@,
                        target_id: room_id@,
                        level: "all"@,
                        suppress_everyone: false,
                        suppress_roles: false,
                        muted_until: Some((now + duration_ms) as u64),
                        updated_at: now,
                    },
                }),
                ..old(db)@
            })
        }),
{
    let uid = match &caller.user_id {
        Some(u) => u.clone(),
        None => return Err(ChatError::NotRegistered),
    };
    let until = now + duration_ms;
    let mut sid = concat2(uid.as_str(), "-room-");
    sid.append(room_id.as_str());
    proof {
        lemma_without_key(old(db)@.notification_settings, sid@);
    }
    match take_key(&mut db.notification_settings, &sid) {
        Some(s) => {
            insert_new(&mut db.notification_settings, NotificationSetting { muted_until: Some(until), updated_at: now, ..s });
        },
        None => {
            let s = NotificationSetting {
                id: sid,
                user_id: uid,
                target_type: crate::text::to_owned_string("room"),
                target_id: room_id,
                level: crate::text::to_owned_string("all"),
                suppress_everyone: false,
                suppress_roles: false,
                muted_until: Some(until),
                updated_at: now,
            };
            insert_new(&mut db.notification_settings, s);
        },
    }
    Ok(())
}

/// Lift the caller's mute of a room, if they have a setting for it.
pub fn unmute_channel(db: &mut ChatDb, caller: &Caller, now: u64, room_id: String) -> (r: Result<(), ChatError>)
    requires
        old(db)@.wf(),
    ensures
        final(db)@.wf(),
        r is Err <==> caller@.user_id is None,
        r is Err ==> r == Err::<(), ChatError>(ChatError::NotRegistered) && final(db)@ == old(db)@,
        r is Ok ==> ({
            let sid = room_setting_id(caller@.user_id.unwrap(), room_id@);
            final(db)@ == match lookup(old(db)@.notification_settings, sid) {
                Some(s) => ChatDbV {
                    notification_settings: replace_row(old(db)@.notification_settings,
                        NotificationSettingV { muted_until: None, updated_at: now, ..s }),
                    ..old(db)@
                },
                None => old(db)@,
            }
        }),
{
    let uid = match &caller.user_id {
        Some(u) => u.clone(),
        None => return Err(ChatError::NotRegistered),
    };
    let mut sid = concat2(uid.as_str(), "-room-");
    sid.append(room_id.as_str());
    proof {
        lemma_without_key(old(db)@.notification_settings, sid@);
    }
    match take_key(&mut db.notification_settings, &sid) {
        Some(s) => {
            insert_new(&mut db.notification_settings, NotificationSetting { muted_until: None, updated_at: now, ..s });
        },
        None => {
            proof {
                crate::store::lemma_without_absent(old(db)@.notification_settings, sid@);
            }
        },
    }
    Ok(())
}

} // verus!
