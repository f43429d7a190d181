//! Forum rooms: posts (a thread room with a starter message) and tags.

use vstd::prelude::*;
use crate::context::{Caller, CallerV, ChatError};
use crate::db::{ChatDb, ChatDbV};
use crate::tables::{Room, RoomV, Message, MessageV, ForumTag, ForumTagV, ForumPostTag, ForumPostTagV, opt_view};
use crate::store::{lookup, has_key, without_key, unique_keys, find_key, contains_key, insert_new, remove_key,
    retain_keyed, count_rows};
use crate::lookups::{is_room_member, require_membership};
use crate::permissions::{has_room_permission, has_permission, has_server_permission, require_server_permission,
    PERM_CREATE_THREADS, PERM_MANAGE_CHANNELS, PERM_MANAGE_THREADS};
use crate::membership::{member_row, make_member, member_id};
use crate::reducers::servers::valid_name;
use crate::reducers::messages::{MAX_MESSAGE_LEN, sender_is_bot};
use crate::common::{str_eq, flag, clone_opt};
use crate::text::{trim, byte_len, trim_str, utf8_len, to_owned_string, join2, concat2};

use crate::id_list::{string_array_items, json_string_array};

verus! {

/// Longest forum tag name, in bytes.
pub const MAX_TAG_NAME_LEN: usize = 20;

/// Most tags a forum room defines.
pub const MAX_TAGS_PER_FORUM: usize = 20;

/// Most tags on one post.
pub const MAX_TAGS_PER_POST: usize = 5;

/// Outcome of [`create_forum_post`].
pub open spec fn forum_post_verdict(db: ChatDbV, c: CallerV, parent: Seq<char>, title: Seq<char>, content: Seq<char>) -> Result<(), ChatError> {
    match c.user_id {
        None => Err(ChatError::NotRegistered),
        Some(uid) => match lookup(db.rooms, parent) {
            None => Err(ChatError::NotFound),
            Some(p) => forum_parent_verdict(db, p, uid, title, content),
        },
    }
}

/// The checks of [`create_forum_post`] once the forum room is found.
pub open spec fn forum_parent_verdict(db: ChatDbV, p: RoomV, uid: Seq<char>, title: Seq<char>, content: Seq<char>) -> Result<(), ChatError> {
    if p.room_type != "forum"@ {
        Err(ChatError::Invalid)
    } else if !is_room_member(db, p.id, uid) {
        Err(ChatError::NotPermitted)
    } else if p.server_id is Some && !has_room_permission(db, p.server_id.unwrap(), p.id, uid, PERM_CREATE_THREADS) {
        Err(ChatError::NotPermitted)
    } else if !valid_name(title) {
        Err(ChatError::Invalid)
    } else if trim(content).len() == 0 || byte_len(trim(content)) > MAX_MESSAGE_LEN {
        Err(ChatError::Invalid)
    } else {
        Ok(())
    }
}

/// The thread room of a forum post, inheriting from the forum room `p`.
pub open spec fn post_room_row(id: Seq<char>, p: RoomV, title: Seq<char>, author: Seq<char>, now: u64) -> RoomV {
    RoomV {
        id: id,
        name: trim(title),
        created_by: author,
        is_private: p.is_private,
        is_dm: false,
        created_at: now,
        server_id: p.server_id,
        required_tier: p.required_tier,
        description: None,
        sort_order: None,
        room_type: "text"@,
        category_id: p.category_id,
        topic: None,
        slowmode_seconds: p.slowmode_seconds,
        nsfw: p.nsfw,
        parent_room_id: Some(p.id),
        archived: false,
        locked: false,
        auto_archive_minutes: Some(10080),
        default_sort_order: None,
        allow_attachments: p.allow_attachments,
        allow_embeds: p.allow_embeds,
        allow_reactions: p.allow_reactions,
        rules_text: None,
    }
}

/// Id of the starter message of a post: "<thread>-starter".
pub open spec fn starter_id(thread: Seq<char>) -> Seq<char> {
    thread + "-starter"@
}

/// The starter message of a forum post.
pub open spec fn starter_message(thread: Seq<char>, author: Seq<char>, content: Seq<char>, now: u64, bot: bool) -> MessageV {
    MessageV {
        id: starter_id(thread),
        room_id: thread,
        author_id: author,
        content: trim(content),
        created_at: now,
        edited_at: None,
        parent_message_id: None,
        is_ephemeral: false,
        expires_at: None,
        message_type: "thread_starter"@,
        reply_to_id: None,
        sticker_ids: None,
        mention_everyone: false,
        mentioned_user_ids: None,
        mentioned_role_ids: None,
        flags: 0,
        is_bot_author: if bot { Some(true) } else { None },
    }
}

/// Id of the link of a tag to a post: "<thread>-<tag>".
pub open spec fn tag_link_id(thread: Seq<char>, tag: Seq<char>) -> Seq<char> {
    thread + "-"@ + tag
}

/// The link row of a tag to a post.
pub open spec fn tag_link(thread: Seq<char>, tag: Seq<char>) -> ForumPostTagV {
    ForumPostTagV { id: tag_link_id(thread, tag), thread_room_id: thread, tag_id: tag }
}

/// Links for the tags of `ids` that exist, in order.
pub open spec fn tag_links(tags: Seq<ForumTagV>, thread: Seq<char>, ids: Seq<Seq<char>>) -> Seq<ForumPostTagV>
    decreases ids.len(),
{
    if ids.len() == 0 {
        Seq::empty()
    } else {
        let rest = tag_links(tags, thread, ids.drop_last());
        if has_key(tags, ids.last()) {
            rest.push(tag_link(thread, ids.last()))
        } else {
            rest
        }
    }
}

/// The first [`MAX_TAGS_PER_POST`] requested tag ids.
pub open spec fn first_tags(ids: Seq<Seq<char>>) -> Seq<Seq<char>> {
    if ids.len() <= MAX_TAGS_PER_POST { ids } else { ids.take(MAX_TAGS_PER_POST as int) }
}

/// The database after a forum post by `author` in forum `p`.
pub open spec fn forum_posted(db: ChatDbV, thread: Seq<char>, p: RoomV, author: Seq<char>, title: Seq<char>, content: Seq<char>, tags: Seq<Seq<char>>, now: u64) -> ChatDbV {
    ChatDbV {
        rooms: db.rooms.push(post_room_row(thread, p, title, author, now)),
        messages: db.messages.push(starter_message(thread, author, content, now, sender_is_bot(db, author))),
        room_members: db.room_members.push(member_row(thread, author, "admin"@, now)),
        forum_post_tags: db.forum_post_tags + tag_links(db.forum_tags, thread, first_tags(tags)),
        ..db
    }
}

/// Create a forum post in a forum room the caller belongs to (with
/// CREATE_THREADS in a server): a thread room inheriting the forum's
/// settings, its starter message (trimmed content of 1 to 4000 bytes), the
/// author's admin membership, and links to the first five tags that exist
/// among those the JSON array `tag_ids_json` names (see
/// [`string_array_items`]). The title is trimmed and holds 1 to 100 bytes.
pub fn create_forum_post(
    db: &mut ChatDb,
    caller: &Caller,
    now: u64,
    thread_room_id: String,
    parent_room_id: String,
    title: String,
    content: String,
    tag_ids_json: String,
) -> (r: Result<(), ChatError>)
    requires
        old(db)@.wf(),
        forum_post_verdict(old(db)@, caller@, parent_room_id@, title@, content@) is Ok ==> {
            &&& !has_key(old(db)@.rooms, thread_room_id@)
            &&& !has_key(old(db)@.messages, starter_id(thread_room_id@))
            &&& !has_key(old(db)@.room_members, member_id(thread_room_id@, caller@.user_id.unwrap()))
            &&& unique_keys(old(db)@.forum_post_tags
                + tag_links(old(db)@.forum_tags, thread_room_id@, first_tags(string_array_items(tag_ids_json@))))
        },
    ensures
        final(db)@.wf(),
        r == forum_post_verdict(old(db)@, caller@, parent_room_id@, title@, content@),
        r is Err ==> final(db)@ == old(db)@,
        r is Ok ==> final(db)@ == forum_posted(old(db)@, thread_room_id@, lookup(old(db)@.rooms, parent_room_id@).unwrap(),
            caller@.user_id.unwrap(), title@, content@, string_array_items(tag_ids_json@), now),
{
    let uid = match &caller.user_id {
        Some(u) => u.clone(),
        None => return Err(ChatError::NotRegistered),
    };
    let pi = match find_key(&db.rooms, &parent_room_id) {
        Some(i) => i,
        None => return Err(ChatError::NotFound),
    };
    if !str_eq(db.rooms[pi].room_type.as_str(), "forum") {
        return Err(ChatError::Invalid);
    }
    if !require_membership(db, &parent_room_id, &uid) {
        return Err(ChatError::NotPermitted);
    }
    match &db.rooms[pi].server_id {
        Some(sid) => {
            if !has_permission(db, sid, &parent_room_id, &uid, PERM_CREATE_THREADS) {
                return Err(ChatError::NotPermitted);
            }
        },
        None => {},
    }
    let tt = trim_str(title.as_str());
    if tt.unicode_len() == 0 || utf8_len(tt) > 100 {
        return Err(ChatError::Invalid);
    }
    let ct = trim_str(content.as_str());
    if ct.unicode_len() == 0 || utf8_len(ct) > MAX_MESSAGE_LEN {
        return Err(ChatError::Invalid);
    }
    let ghost o = db@;
    let is_bot = match find_key(&db.chat_users, &uid) {
        Some(ui) => flag(db.chat_users[ui].is_bot),
        None => false,
    };
    let p = &db.rooms[pi];
    let room = Room {
        id: thread_room_id.clone(),
        name: to_owned_string(tt),
        created_by: uid.clone(),
        is_private: p.is_private,
        is_dm: false,
        created_at: now,
        server_id: clone_opt(&p.server_id),
        required_tier: clone_opt(&p.required_tier),
        description: None,
        sort_order: None,
        room_type: to_owned_string("text"),
        category_id: clone_opt(&p.category_id),
        topic: None,
        slowmode_seconds: p.slowmode_seconds,
        nsfw: p.nsfw,
        parent_room_id: Some(parent_room_id.clone()),
        archived: false,
        locked: false,
        auto_archive_minutes: Some(10080),
        default_sort_order: None,
        allow_attachments: p.allow_attachments,
        allow_embeds: p.allow_embeds,
        allow_reactions: p.allow_reactions,
        rules_text: None,
    };
    insert_new(&mut db.rooms, room);
    let msg = Message {
        id: concat2(thread_room_id.as_str(), "-starter"),
        room_id: thread_room_id.clone(),
        author_id: uid.clone(),
        content: to_owned_string(ct),
        created_at: now,
        edited_at: None,
        parent_message_id: None,
        is_ephemeral: false,
        expires_at: None,
        message_type: to_owned_string("thread_starter"),
        reply_to_id: None,
        sticker_ids: None,
        mention_everyone: false,
        mentioned_user_ids: None,
        mentioned_role_ids: None,
        flags: 0,
        is_bot_author: if is_bot { Some(true) } else { None },
    };
    insert_new(&mut db.messages, msg);
    insert_new(&mut db.room_members, make_member(&thread_room_id, &uid, "admin", now));
    let tag_ids = json_string_array(tag_ids_json.as_str());
    let ghost ids = tag_ids@.map_values(|s: String| s@);
    let n: usize = if tag_ids.len() <= MAX_TAGS_PER_POST { tag_ids.len() } else { MAX_TAGS_PER_POST };
    assert(first_tags(ids) =~= ids.take(n as int));
    let ghost base = db@;
    let mut k: usize = 0;
    while k < n
        invariant
            k <= n,
            n <= tag_ids@.len(),
            ids == tag_ids@.map_values(|s: String| s@),
            first_tags(ids) == ids.take(n as int),
            db@ == (ChatDbV { forum_post_tags: base.forum_post_tags + tag_links(base.forum_tags, thread_room_id@, ids.take(k as int)), ..base }),
        decreases n - k,
    {
        let tag = &tag_ids[k];
        proof {
            assert(ids.take(k + 1).drop_last() =~= ids.take(k as int));
            assert(ids.take(k + 1).last() == tag@);
        }
        if contains_key(&db.forum_tags, tag) {
            let link = ForumPostTag { id: join2(thread_room_id.as_str(), "-", tag.as_str()), thread_room_id: thread_room_id.clone(), tag_id: tag.clone() };
            let ghost before = db@.forum_post_tags;
            db.forum_post_tags.push(link);
            assert(db@.forum_post_tags =~= before.push(link@));
        }
        k = k + 1;
    }
    proof {
        assert(ids.take(n as int) == first_tags(ids));
        assert(base.forum_post_tags == o.forum_post_tags);
        assert(base.forum_tags == o.forum_tags);
    }
    Ok(())
}

/// Tags defined for forum room `room`.
pub open spec fn tag_of_room(room: Seq<char>) -> spec_fn(ForumTagV) -> bool {
    |t: ForumTagV| t.room_id == room
}

/// Outcome of [`add_forum_tag`].
pub open spec fn add_forum_tag_verdict(db: ChatDbV, c: CallerV, room: Seq<char>, name: Seq<char>) -> Result<(), ChatError> {
    match c.user_id {
        None => Err(ChatError::NotRegistered),
        Some(uid) => match lookup(db.rooms, room) {
            None => Err(ChatError::NotFound),
            Some(r) => if r.server_id is Some && !has_server_permission(db, r.server_id.unwrap(), uid, PERM_MANAGE_CHANNELS) {
                Err(ChatError::NotPermitted)
            } else if trim(name).len() == 0 || byte_len(trim(name)) > MAX_TAG_NAME_LEN {
                Err(ChatError::Invalid)
            } else if db.forum_tags.filter(tag_of_room(room)).len() >= MAX_TAGS_PER_FORUM {
                Err(ChatError::LimitReached)
            } else {
                Ok(())
            },
        },
    }
}

/// Define a tag for a forum room (MANAGE_CHANNELS in a server): a trimmed
/// name of 1 to 20 bytes, at most 20 tags per forum.
pub fn add_forum_tag(
    db: &mut ChatDb,
    caller: &Caller,
    id: String,
    room_id: String,
    name: String,
    emoji: Option<String>,
    color: Option<String>,
    sort_order: u32,
) -> (r: Result<(), ChatError>)
    requires
        old(db)@.wf(),
        add_forum_tag_verdict(old(db)@, caller@, room_id@, name@) is Ok ==> !has_key(old(db)@.forum_tags, id@),
    ensures
        final(db)@.wf(),
        r == add_forum_tag_verdict(old(db)@, caller@, room_id@, name@),
        r is Err ==> final(db)@ == old(db)@,
        r is Ok ==> final(db)@ == (ChatDbV {
            forum_tags: old(db)@.forum_tags.push(ForumTagV {
                id: id@,
                room_id: room_id@,
                name: trim(name@),
                emoji: opt_view(emoji),
                color: opt_view(color),
                sort_order: sort_order,
            }),
            ..old(db)@
        }),
{
    let uid = match &caller.user_id {
        Some(u) => u.clone(),
        None => return Err(ChatError::NotRegistered),
    };
    let ri = match find_key(&db.rooms, &room_id) {
        Some(i) => i,
        None => return Err(ChatError::NotFound),
    };
    match &db.rooms[ri].server_id {
        Some(sid) => {
            if !require_server_permission(db, sid, &uid, PERM_MANAGE_CHANNELS) {
                return Err(ChatError::NotPermitted);
            }
        },
        None => {},
    }
    let t = trim_str(name.as_str());
    if t.unicode_len() == 0 || utf8_len(t) > MAX_TAG_NAME_LEN {
        return Err(ChatError::Invalid);
    }
    let test = |x: &ForumTag| -> (b: bool)
        ensures
            b == tag_of_room(room_id@)(x@),
        { x.room_id == room_id };
    let count = count_rows(&db.forum_tags, test, Ghost(tag_of_room(room_id@)));
    if count >= MAX_TAGS_PER_FORUM {
        return Err(ChatError::LimitReached);
    }
    let tag = ForumTag { id, room_id, name: to_owned_string(t), emoji, color, sort_order };
    insert_new(&mut db.forum_tags, tag);
    Ok(())
}

/// Links of tags other than `tag`.
pub open spec fn link_not_to(tag: Seq<char>) -> spec_fn(ForumPostTagV) -> bool {
    |l: ForumPostTagV| l.tag_id != tag
}

/// Outcome of [`remove_forum_tag`].
pub open spec fn remove_forum_tag_verdict(db: ChatDbV, c: CallerV, id: Seq<char>) -> Result<(), ChatError> {
    match c.user_id {
        None => Err(ChatError::NotRegistered),
        Some(uid) => match lookup(db.forum_tags, id) {
            None => Err(ChatError::NotFound),
            Some(t) => match lookup(db.rooms, t.room_id) {
                Some(r) => if r.server_id is Some && !has_server_permission(db, r.server_id.unwrap(), uid, PERM_MANAGE_CHANNELS) {
                    Err(ChatError::NotPermitted)
                } else {
                    Ok(())
                },
                None => Ok(()),
            },
        },
    }
}

/// Remove a forum tag and its links to posts (MANAGE_CHANNELS in a server).
pub fn remove_forum_tag(db: &mut ChatDb, caller: &Caller, id: String) -> (r: Result<(), ChatError>)
    requires
        old(db)@.wf(),
    ensures
        final(db)@.wf(),
        r == remove_forum_tag_verdict(old(db)@, caller@, id@),
        r is Err ==> final(db)@ == old(db)@,
        r is Ok ==> final(db)@ == (ChatDbV {
            forum_post_tags: old(db)@.forum_post_tags.filter(link_not_to(id@)),
            forum_tags: without_key(old(db)@.forum_tags, id@),
            ..old(db)@
        }),
{
    let uid = match &caller.user_id {
        Some(u) => u.clone(),
        None => return Err(ChatError::NotRegistered),
    };
    let ti = match find_key(&db.forum_tags, &id) {
        Some(i) => i,
        None => return Err(ChatError::NotFound),
    };
    let rid = db.forum_tags[ti].room_id.clone();
    match find_key(&db.rooms, &rid) {
        Some(ri) => match &db.rooms[ri].server_id {
            Some(sid) => {
                if !require_server_permission(db, sid, &uid, PERM_MANAGE_CHANNELS) {
                    return Err(ChatError::NotPermitted);
                }
            },
            None => {},
        },
        None => {},
    }
    let keep = |l: &ForumPostTag| -> (b: bool)
        ensures
            b == link_not_to(id@)(l@),
        { l.tag_id != id };
    retain_keyed(&mut db.forum_post_tags, keep, Ghost(link_not_to(id@)));
    remove_key(&mut db.forum_tags, &id);
    Ok(())
}

/// `user` may change the tags of post `r`: its author, or in a server a holder
/// of MANAGE_THREADS.
pub open spec fn may_tag_post(db: ChatDbV, r: RoomV, user: Seq<char>) -> bool {
    r.created_by == user || match r.server_id {
        Some(sid) => has_room_permission(db, sid, r.id, user, PERM_MANAGE_THREADS),
        None => false,
    }
}

/// Links of post `thread`.
pub open spec fn link_of_post(thread: Seq<char>) -> spec_fn(ForumPostTagV) -> bool {
    |l: ForumPostTagV| l.thread_room_id == thread
}

/// Outcome of [`tag_forum_post`]; `Ok(false)` when the post already carries the tag.
pub open spec fn tag_post_verdict(db: ChatDbV, c: CallerV, thread: Seq<char>, tag: Seq<char>) -> Result<bool, ChatError> {
    match c.user_id {
        None => Err(ChatError::NotRegistered),
        Some(uid) => match lookup(db.rooms, thread) {
            None => Err(ChatError::NotFound),
            Some(r) => if !may_tag_post(db, r, uid) {
                Err(ChatError::NotPermitted)
            } else if !has_key(db.forum_tags, tag) {
                Err(ChatError::NotFound)
            } else if has_key(db.forum_post_tags, tag_link_id(thread, tag)) {
                Ok(false)
            } else if db.forum_post_tags.filter(link_of_post(thread)).len() >= MAX_TAGS_PER_POST {
                Err(ChatError::LimitReached)
            } else {
                Ok(true)
            },
        },
    }
}

fn check_may_tag(db: &ChatDb, ri: usize, user: &String) -> (b: bool)
    requires
        db@.wf(),
        ri < db@.rooms.len(),
    ensures
        b == may_tag_post(db@, db@.rooms[ri as int], user@),
{
    if db.rooms[ri].created_by == *user {
        return true;
    }
    match &db.rooms[ri].server_id {
        Some(sid) => has_permission(db, sid, &db.rooms[ri].id, user, PERM_MANAGE_THREADS),
        None => false,
    }
}

/// Tag a forum post with an existing tag (its author, or MANAGE_THREADS);
/// a post carries at most five tags, and tagging twice changes nothing.
pub fn tag_forum_post(db: &mut ChatDb, caller: &Caller, thread_room_id: String, tag_id: String) -> (r: Result<(), ChatError>)
    requires
        old(db)@.wf(),
    ensures
        final(db)@.wf(),
        match tag_post_verdict(old(db)@, caller@, thread_room_id@, tag_id@) {
            Err(e) => r == Err::<(), ChatError>(e) && final(db)@ == old(db)@,
            Ok(false) => r is Ok && final(db)@ == old(db)@,
            Ok(true) => r is Ok && final(db)@ == (ChatDbV {
                forum_post_tags: old(db)@.forum_post_tags.push(tag_link(thread_room_id@, tag_id@)),
                ..old(db)@
            }),
        },
{
    let uid = match &caller.user_id {
        Some(u) => u.clone(),
        None => return Err(ChatError::NotRegistered),
    };
    let ri = match find_key(&db.rooms, &thread_room_id) {
        Some(i) => i,
        None => return Err(ChatError::NotFound),
    };
    if !check_may_tag(db, ri, &uid) {
        return Err(ChatError::NotPermitted);
    }
    if !contains_key(&db.forum_tags, &tag_id) {
        return Err(ChatError::NotFound);
    }
    let link_id = join2(thread_room_id.as_str(), "-", tag_id.as_str());
    if contains_key(&db.forum_post_tags, &link_id) {
        return Ok(());
    }
    let test = |l: &ForumPostTag| -> (b: bool)
        ensures
            b == link_of_post(thread_room_id@)(l@),
        { l.thread_room_id == thread_room_id };
    let count = count_rows(&db.forum_post_tags, test, Ghost(link_of_post(thread_room_id@)));
    if count >= MAX_TAGS_PER_POST {
        return Err(ChatError::LimitReached);
    }
    insert_new(&mut db.forum_post_tags, ForumPostTag { id: link_id, thread_room_id, tag_id });
    Ok(())
}

/// Outcome of [`untag_forum_post`].
pub open spec fn untag_post_verdict(db: ChatDbV, c: CallerV, thread: Seq<char>) -> Result<(), ChatError> {
    match c.user_id {
        None => Err(ChatError::NotRegistered),
        Some(uid) => match lookup(db.rooms, thread) {
            None => Err(ChatError::NotFound),
            Some(r) => if !may_tag_post(db, r, uid) { Err(ChatError::NotPermitted) } else { Ok(()) },
        },
    }
}

/// Remove a tag from a forum post (its author, or MANAGE_THREADS).
pub fn untag_forum_post(db: &mut ChatDb, caller: &Caller, thread_room_id: String, tag_id: String) -> (r: Result<(), ChatError>)
    requires
        old(db)@.wf(),
    ensures
        final(db)@.wf(),
        r == untag_post_verdict(old(db)@, caller@, thread_room_id@),
        r is Err ==> final(db)@ == old(db)@,
        r is Ok ==> final(db)@ == (ChatDbV {
            forum_post_tags: without_key(old(db)@.forum_post_tags, tag_link_id(thread_room_id@, tag_id@)),
            ..old(db)@
        }),
{
    let uid = match &caller.user_id {
        Some(u) => u.clone(),
        None => return Err(ChatError::NotRegistered),
    };
    let ri = match find_key(&db.rooms, &thread_room_id) {
        Some(i) => i,
        None => return Err(ChatError::NotFound),
    };
    if !check_may_tag(db, ri, &uid) {
        return Err(ChatError::NotPermitted);
    }
    let link_id = join2(thread_room_id.as_str(), "-", tag_id.as_str());
    remove_key(&mut db.forum_post_tags, &link_id);
    Ok(())
}

} // verus!
