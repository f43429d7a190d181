//! Threads: rooms that hang off a parent room, and their archive and lock flags.

use vstd::prelude::*;
use crate::context::{Caller, CallerV, ChatError};
use crate::db::{ChatDb, ChatDbV};
use crate::tables::{Room, RoomV, opt_view};
use crate::store::{lookup, has_key, replace_row, find_key, insert_new, take_key, lemma_without_key};
use crate::lookups::{is_room_member, require_membership};
use crate::permissions::{has_room_permission, has_permission, PERM_CREATE_THREADS, PERM_MANAGE_THREADS};
use crate::membership::{member_id, member_row, make_member};
use crate::reducers::servers::valid_name;
use crate::common::clone_opt;
use crate::text::{trim, trim_str, utf8_len, to_owned_string};

verus! {

/// The thread room of a new thread, inheriting from parent room `p`.
pub open spec fn thread_room_row(id: Seq<char>, p: RoomV, name: Seq<char>, author: Seq<char>, now: u64) -> RoomV {
    RoomV {
        id: id,
        name: trim(name),
        created_by: author,
        is_private: p.is_private,
        is_dm: false,
        created_at: now,
        server_id: p.server_id,
        required_tier: p.required_tier,
        description: None,
        sort_order: None,
        room_type: "text"@,
        category_id: p.category_id,
        topic: None,
        slowmode_seconds: p.slowmode_seconds,
        nsfw: p.nsfw,
        parent_room_id: Some(p.id),
        archived: false,
        locked: false,
        auto_archive_minutes: Some(4320),
        default_sort_order: None,
        allow_attachments: p.allow_attachments,
        allow_embeds: p.allow_embeds,
        allow_reactions: p.allow_reactions,
        rules_text: None,
    }
}

/// The checks of [`create_thread`] once the parent room is found.
pub open spec fn thread_parent_verdict(db: ChatDbV, p: RoomV, uid: Seq<char>, name: Seq<char>, message: Option<Seq<char>>) -> Result<(), ChatError> {
    if !is_room_member(db, p.id, uid) {
        Err(ChatError::NotPermitted)
    } else if p.server_id is Some && !has_room_permission(db, p.server_id.unwrap(), p.id, uid, PERM_CREATE_THREADS) {
        Err(ChatError::NotPermitted)
    } else if !valid_name(name) {
        Err(ChatError::Invalid)
    } else {
        match message {
            Some(mid) => match lookup(db.messages, mid) {
                None => Err(ChatError::NotFound),
                Some(m) => if m.room_id != p.id { Err(ChatError::Invalid) } else { Ok(()) },
            },
            None => Ok(()),
        }
    }
}

/// Outcome of [`create_thread`].
pub open spec fn create_thread_verdict(db: ChatDbV, c: CallerV, parent: Seq<char>, message: Option<Seq<char>>, name: Seq<char>) -> Result<(), ChatError> {
    match c.user_id {
        None => Err(ChatError::NotRegistered),
        Some(uid) => match lookup(db.rooms, parent) {
            None => Err(ChatError::NotFound),
            Some(p) => thread_parent_verdict(db, p, uid, name, message),
        },
    }
}

/// Start a thread off a room the caller belongs to (CREATE_THREADS in a
/// server), optionally from one of its messages: a thread room inheriting the
/// parent's settings with a trimmed name of 1 to 100 bytes, the creator as admin.
pub fn create_thread(
    db: &mut ChatDb,
    caller: &Caller,
    now: u64,
    thread_room_id: String,
    parent_room_id: String,
    parent_message_id: Option<String>,
    name: String,
) -> (r: Result<(), ChatError>)
    requires
        old(db)@.wf(),
        create_thread_verdict(old(db)@, caller@, parent_room_id@, opt_view(parent_message_id), name@) is Ok ==> {
            &&& !has_key(old(db)@.rooms, thread_room_id@)
            &&& !has_key(old(db)@.room_members, member_id(thread_room_id@, caller@.user_id.unwrap()))
        },
    ensures
        final(db)@.wf(),
        r == create_thread_verdict(old(db)@, caller@, parent_room_id@, opt_view(parent_message_id), name@),
        r is Err ==> final(db)@ == old(db)@,
        r is Ok ==> final(db)@ == (ChatDbV {
            rooms: old(db)@.rooms.push(thread_room_row(thread_room_id@, lookup(old(db)@.rooms, parent_room_id@).unwrap(), name@,
                caller@.user_id.unwrap(), now)),
            room_members: old(db)@.room_members.push(member_row(thread_room_id@, caller@.user_id.unwrap(), "admin"@, now)),
            ..old(db)@
        }),
{
    let uid = match &caller.user_id {
        Some(u) => u.clone(),
        None => return Err(ChatError::NotRegistered),
    };
    let pi = match find_key(&db.rooms, &parent_room_id) {
        Some(i) => i,
        None => return Err(ChatError::NotFound),
    };
    if !require_membership(db, &parent_room_id, &uid) {
        return Err(ChatError::NotPermitted);
    }
    match &db.rooms[pi].server_id {
        Some(sid) => {
            if !has_permission(db, sid, &parent_room_id, &uid, PERM_CREATE_THREADS) {
                return Err(ChatError::NotPermitted);
            }
        },
        None => {},
    }
    let t = trim_str(name.as_str());
    if t.unicode_len() == 0 || utf8_len(t) > 100 {
        return Err(ChatError::Invalid);
    }
    match &parent_message_id {
        Some(mid) => match find_key(&db.messages, mid) {
            None => return Err(ChatError::NotFound),
            Some(mi) => {
                if db.messages[mi].room_id != parent_room_id {
                    return Err(ChatError::Invalid);
                }
            },
        },
        None => {},
    }
    let p = &db.rooms[pi];
    let room = Room {
        id: thread_room_id.clone(),
        name: to_owned_string(t),
        created_by: uid.clone(),
        is_private: p.is_private,
        is_dm: false,
        created_at: now,
        server_id: clone_opt(&p.server_id),
        required_tier: clone_opt(&p.required_tier),
        description: None,
        sort_order: None,
        room_type: to_owned_string("text"),
        category_id: clone_opt(&p.category_id),
        topic: None,
        slowmode_seconds: p.slowmode_seconds,
        nsfw: p.nsfw,
        parent_room_id: Some(parent_room_id.clone()),
        archived: false,
        locked: false,
        auto_archive_minutes: Some(4320),
        default_sort_order: None,
        allow_attachments: p.allow_attachments,
        allow_embeds: p.allow_embeds,
        allow_reactions: p.allow_reactions,
        rules_text: None,
    };
    insert_new(&mut db.rooms, room);
    insert_new(&mut db.room_members, make_member(&thread_room_id, &uid, "admin", now));
    Ok(())
}

/// A change to a thread's flags.
#[derive(Clone, Copy, Debug, PartialEq, Eq, Structural)]
pub enum ThreadChange {
    Archive,
    Unarchive,
    Lock,
    Unlock,
}

/// The thread room `r` after `change`.
pub open spec fn thread_changed(r: RoomV, change: ThreadChange) -> RoomV {
    match change {
        ThreadChange::Archive => RoomV { archived: true, ..r },
        ThreadChange::Unarchive => RoomV { archived: false, ..r },
        ThreadChange::Lock => RoomV { locked: true, ..r },
        ThreadChange::Unlock => RoomV { locked: false, ..r },
    }
}

/// `user` may make `change` to thread `r`: MANAGE_THREADS in a server room;
/// archiving also its creator, and outside servers only its creator; the
/// other changes outside servers anyone.
pub open spec fn may_change_thread(db: ChatDbV, r: RoomV, user: Seq<char>, change: ChangeKind) -> bool {
    match change {
        ChangeKind::CreatorOrManager => r.created_by == user || match r.server_id {
            Some(sid) => has_room_permission(db, sid, r.id, user, PERM_MANAGE_THREADS),
            None => false,
        },
        ChangeKind::Manager => match r.server_id {
            Some(sid) => has_room_permission(db, sid, r.id, user, PERM_MANAGE_THREADS),
            None => true,
        },
    }
}

/// Who may make a thread change.
#[derive(Clone, Copy, Debug, PartialEq, Eq, Structural)]
pub enum ChangeKind {
    /// The thread's creator, or a holder of MANAGE_THREADS in a server room.
    CreatorOrManager,
    /// A holder of MANAGE_THREADS in a server room; anyone elsewhere.
    Manager,
}

/// Who may make `change`.
pub open spec fn change_kind(change: ThreadChange) -> ChangeKind {
    if change == ThreadChange::Archive { ChangeKind::CreatorOrManager } else { ChangeKind::Manager }
}

/// Outcome of a thread change.
pub open spec fn thread_change_verdict(db: ChatDbV, c: CallerV, room: Seq<char>, change: ThreadChange) -> Result<(), ChatError> {
    match c.user_id {
        None => Err(ChatError::NotRegistered),
        Some(uid) => match lookup(db.rooms, room) {
            None => Err(ChatError::NotFound),
            Some(r) => if r.parent_room_id is None {
                Err(ChatError::Invalid)
            } else if !may_change_thread(db, r, uid, change_kind(change)) {
                Err(ChatError::NotPermitted)
            } else {
                Ok(())
            },
        },
    }
}

fn change_thread(db: &mut ChatDb, caller: &Caller, room_id: String, change: ThreadChange) -> (r: Result<(), ChatError>)
    requires
        old(db)@.wf(),
    ensures
        final(db)@.wf(),
        r == thread_change_verdict(old(db)@, caller@, room_id@, change),
        r is Err ==> final(db)@ == old(db)@,
        r is Ok ==> final(db)@ == (ChatDbV {
            rooms: replace_row(old(db)@.rooms, thread_changed(lookup(old(db)@.rooms, room_id@).unwrap(), change)),
            ..old(db)@
        }),
{
    let uid = match &caller.user_id {
        Some(u) => u.clone(),
        None => return Err(ChatError::NotRegistered),
    };
    let ri = match find_key(&db.rooms, &room_id) {
        Some(i) => i,
        None => return Err(ChatError::NotFound),
    };
    if db.rooms[ri].parent_room_id.is_none() {
        return Err(ChatError::Invalid);
    }
    let manager = match &db.rooms[ri].server_id {
        Some(sid) => has_permission(db, sid, &room_id, &uid, PERM_MANAGE_THREADS),
        None => change != ThreadChange::Archive,
    };
    let allowed = if change == ThreadChange::Archive { db.rooms[ri].created_by == uid || manager } else { manager };
    if !allowed {
        return Err(ChatError::NotPermitted);
    }
    let room = take_key(&mut db.rooms, &room_id).unwrap();
    proof {
        lemma_without_key(old(db)@.rooms, room_id@);
    }
    let changed = match change {
        ThreadChange::Archive => Room { archived: true, ..room },
        ThreadChange::Unarchive => Room { archived: false, ..room },
        ThreadChange::Lock => Room { locked: true, ..room },
        ThreadChange::Unlock => Room { locked: false, ..room },
    };
    insert_new(&mut db.rooms, changed);
    Ok(())
}

/// Archive a thread (its creator, or MANAGE_THREADS in a server room).
pub fn archive_thread(db: &mut ChatDb, caller: &Caller, room_id: String) -> (r: Result<(), ChatError>)
    requires
        old(db)@.wf(),
    ensures
        final(db)@.wf(),
        r == thread_change_verdict(old(db)@, caller@, room_id@, ThreadChange::Archive),
        r is Err ==> final(db)@ == old(db)@,
        r is Ok ==> final(db)@ == (ChatDbV {
            rooms: replace_row(old(db)@.rooms, thread_changed(lookup(old(db)@.rooms, room_id@).unwrap(), ThreadChange::Archive)),
            ..old(db)@
        }),
{
    change_thread(db, caller, room_id, ThreadChange::Archive)
}

/// Unarchive a thread (MANAGE_THREADS in a server room).
pub fn unarchive_thread(db: &mut ChatDb, caller: &Caller, room_id: String) -> (r: Result<(), ChatError>)
    requires
        old(db)@.wf(),
    ensures
        final(db)@.wf(),
        r == thread_change_verdict(old(db)@, caller@, room_id@, ThreadChange::Unarchive),
        r is Err ==> final(db)@ == old(db)@,
        r is Ok ==> final(db)@ == (ChatDbV {
            rooms: replace_row(old(db)@.rooms, thread_changed(lookup(old(db)@.rooms, room_id@).unwrap(), ThreadChange::Unarchive)),
            ..old(db)@
        }),
{
    change_thread(db, caller, room_id, ThreadChange::Unarchive)
}

/// Lock a thread against new messages (MANAGE_THREADS in a server room).
pub fn lock_thread(db: &mut ChatDb, caller: &Caller, room_id: String) -> (r: Result<(), ChatError>)
    requires
        old(db)@.wf(),
    ensures
        final(db)@.wf(),
        r == thread_change_verdict(old(db)@, caller@, room_id@, ThreadChange::Lock),
        r is Err ==> final(db)@ == old(db)@,
        r is Ok ==> final(db)@ == (ChatDbV {
            rooms: replace_row(old(db)@.rooms, thread_changed(lookup(old(db)@.rooms, room_id@).unwrap(), ThreadChange::Lock)),
            ..old(db)@
        }),
{
    change_thread(db, caller, room_id, ThreadChange::Lock)
}

/// Unlock a thread (MANAGE_THREADS in a server room).
pub fn unlock_thread(db: &mut ChatDb, caller: &Caller, room_id: String) -> (r: Result<(), ChatError>)
    requires
        old(db)@.wf(),
    ensures
        final(db)@.wf(),
        r == thread_change_verdict(old(db)@, caller@, room_id@, ThreadChange::Unlock),
        r is Err ==> final(db)@ == old(db)@,
        r is Ok ==> final(db)@ == (ChatDbV {
            rooms: replace_row(old(db)@.rooms, thread_changed(lookup(old(db)@.rooms, room_id@).unwrap(), ThreadChange::Unlock)),
            ..old(db)@
        }),
{
    change_thread(db, caller, room_id, ThreadChange::Unlock)
}

} // verus!
