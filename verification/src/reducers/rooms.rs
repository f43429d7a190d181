//! Rooms: creation, joining, leaving, settings, and deletion with everything
//! that belongs to a room.

use vstd::prelude::*;
use crate::context::{Caller, CallerV, ChatError};
use crate::db::{ChatDb, ChatDbV};
use crate::tables::{Room, RoomV, RoomMember, RoomMemberV, Message, MessageV, Reaction, ReactionV, ReactionRoomIndex,
    ReactionRoomIndexV, MessageEdit, MessageEditV, MessageEditRoomIndex, MessageEditRoomIndexV, PinnedMessage,
    PinnedMessageV, MessageAttachment, MessageAttachmentV, Bookmark, BookmarkV, ReadPosition, ReadPositionV, Poll,
    PollV, PollVote, PollVoteV, ScheduledMessage, ScheduledMessageV, ChannelOverride, ChannelOverrideV,
    TypingIndicator, TypingIndicatorV, Draft, DraftV, RoomInvitation, RoomInvitationV, Webhook, WebhookV, WebhookMessage,
    WebhookMessageV, ForumPostTag, ForumPostTagV, opt_view};
use crate::store::{lookup, has_key, without_key, rows, find_key, contains_key, insert_new, remove_key,
    retain_keyed, collect_keys, keys_where, str_in, replace_row, lemma_without_key};
use crate::lookups::{is_room_admin, is_server_admin, room_membership, find_membership, require_admin,
    require_server_admin};
use crate::permissions::{has_room_permission, has_permission, PERM_MANAGE_CHANNELS};
use crate::membership::{member_id, member_row, make_member};
use crate::accounts::{ensured_users, ensure_chat_user};
use crate::reducers::servers::{valid_name, check_name};
use crate::reducers::audit_log::{audit_entry, log_audit_event};
use crate::text::{trim, trim_str, to_owned_string, concat2, decimal, decimal_string};
use crate::common::{any_row, str_eq};

verus! {

/// A new text room as [`create_room`] makes it.
pub open spec fn new_room_row(
    id: Seq<char>,
    name: Seq<char>,
    creator: Seq<char>,
    is_private: bool,
    now: u64,
    server: Option<Seq<char>>,
    required_tier: Option<Seq<char>>,
    description: Option<Seq<char>>,
    sort_order: Option<u32>,
    category: Option<Seq<char>>,
) -> RoomV {
    RoomV {
        id: id,
        name: trim(name),
        created_by: creator,
        is_private: is_private,
        is_dm: false,
        created_at: now,
        server_id: server,
        required_tier: required_tier,
        description: description,
        sort_order: sort_order,
        room_type: "text"@,
        category_id: category,
        topic: None,
        slowmode_seconds: None,
        nsfw: false,
        parent_room_id: None,
        archived: false,
        locked: false,
        auto_archive_minutes: None,
        default_sort_order: None,
        allow_attachments: None,
        allow_embeds: None,
        allow_reactions: None,
        rules_text: None,
    }
}

/// Outcome of [`create_room`], judged after the creator's chat user row exists.
pub open spec fn create_room_verdict(db: ChatDbV, c: CallerV, id: Seq<char>, name: Seq<char>, server: Option<Seq<char>>) -> Result<(), ChatError> {
    match c.user_id {
        None => Err(ChatError::NotRegistered),
        Some(uid) => if !valid_name(name) {
            Err(ChatError::Invalid)
        } else if has_key(db.rooms, id) {
            Err(ChatError::AlreadyExists)
        } else {
            match server {
                Some(sid) => if sid.len() > 0 {
                    if !has_key(db.chat_servers, sid) {
                        Err(ChatError::NotFound)
                    } else if !is_server_admin(db, sid, uid) {
                        Err(ChatError::NotPermitted)
                    } else {
                        Ok(())
                    }
                } else if !c.is_platform_admin {
                    Err(ChatError::NotPermitted)
                } else {
                    Ok(())
                },
                None => if !c.is_platform_admin {
                    Err(ChatError::NotPermitted)
                } else {
                    Ok(())
                },
            }
        },
    }
}

/// The database once a registered caller's chat user row is made sure of.
pub open spec fn with_caller_user(db: ChatDbV, c: CallerV, now: u64) -> ChatDbV {
    match c.user_id {
        Some(uid) => ChatDbV { chat_users: ensured_users(db.chat_users, uid, c.identity, now), ..db },
        None => db,
    }
}

/// Create a room; the creator joins it as admin. A room in a server needs a
/// server owner or admin; a room outside any server (no server id, or an empty
/// one) needs a platform admin. A registered caller's chat user row is
/// created first if missing, whatever the outcome.
pub fn create_room(
    db: &mut ChatDb,
    caller: &Caller,
    now: u64,
    id: String,
    name: String,
    is_private: bool,
    server_id: Option<String>,
    required_tier: Option<String>,
    description: Option<String>,
    sort_order: Option<u32>,
    category_id: Option<String>,
) -> (r: Result<(), ChatError>)
    requires
        old(db)@.wf(),
        create_room_verdict(old(db)@, caller@, id@, name@, opt_view(server_id)) is Ok
            ==> !has_key(old(db)@.room_members, member_id(id@, caller@.user_id.unwrap())),
    ensures
        final(db)@.wf(),
        r == create_room_verdict(old(db)@, caller@, id@, name@, opt_view(server_id)),
        r is Err ==> final(db)@ == with_caller_user(old(db)@, caller@, now),
        r is Ok ==> ({
            let uid = caller@.user_id.unwrap();
            let mid = with_caller_user(old(db)@, caller@, now);
            final(db)@ == (ChatDbV {
                rooms: mid.rooms.push(new_room_row(id@, name@, uid, is_private, now, opt_view(server_id),
                    opt_view(required_tier), opt_view(description), sort_order, opt_view(category_id))),
                room_members: mid.room_members.push(member_row(id@, uid, "admin"@, now)),
                ..mid
            })
        }),
{
    let uid = match &caller.user_id {
        Some(u) => u.clone(),
        None => return Err(ChatError::NotRegistered),
    };
    let _ = ensure_chat_user(db, &uid, &caller.identity, now);
    if !check_name(name.as_str()) {
        return Err(ChatError::Invalid);
    }
    if contains_key(&db.rooms, &id) {
        return Err(ChatError::AlreadyExists);
    }
    match &server_id {
        Some(sid) => {
            if sid.unicode_len() > 0 {
                if !contains_key(&db.chat_servers, sid) {
                    return Err(ChatError::NotFound);
                }
                if !require_server_admin(db, sid, &uid) {
                    return Err(ChatError::NotPermitted);
                }
            } else if !caller.is_platform_admin {
                return Err(ChatError::NotPermitted);
            }
        },
        None => {
            if !caller.is_platform_admin {
                return Err(ChatError::NotPermitted);
            }
        },
    }
    let room = Room {
        id: id.clone(),
        name: to_owned_string(trim_str(name.as_str())),
        created_by: uid.clone(),
        is_private,
        is_dm: false,
        created_at: now,
        server_id,
        required_tier,
        description,
        sort_order,
        room_type: to_owned_string("text"),
        category_id,
        topic: None,
        slowmode_seconds: None,
        nsfw: false,
        parent_room_id: None,
        archived: false,
        locked: false,
        auto_archive_minutes: None,
        default_sort_order: None,
        allow_attachments: None,
        allow_embeds: None,
        allow_reactions: None,
        rules_text: None,
    };
    insert_new(&mut db.rooms, room);
    insert_new(&mut db.room_members, make_member(&id, &uid, "admin", now));
    Ok(())
}

/// An accepted invitation of `user` to `room`.
pub open spec fn accepted_invite(room: Seq<char>, user: Seq<char>) -> spec_fn(RoomInvitationV) -> bool {
    |i: RoomInvitationV| i.room_id == room && i.invitee_id == user && i.status == "accepted"@
}

/// Outcome of [`join_room`], judged after the caller's chat user row exists.
/// `tier_ok` tells whether the caller's tier meets the room's effective tier.
pub open spec fn join_room_verdict(db: ChatDbV, c: CallerV, room: Seq<char>, tier_ok: bool) -> Result<(), ChatError> {
    match c.user_id {
        None => Err(ChatError::NotRegistered),
        Some(uid) => match lookup(db.rooms, room) {
            None => Err(ChatError::NotFound),
            Some(r) => if r.archived || r.locked {
                Err(ChatError::NotPermitted)
            } else if r.is_private && !any_row(db.room_invitations, accepted_invite(room, uid)) {
                Err(ChatError::NotPermitted)
            } else if !tier_ok {
                Err(ChatError::NotPermitted)
            } else {
                match room_membership(db, room, uid) {
                    Some(m) => if m.role == "banned"@ { Err(ChatError::NotPermitted) } else { Ok(()) },
                    None => Ok(()),
                }
            },
        },
    }
}

/// Join a room: it must exist, be neither archived nor locked, and, when
/// private, hold an accepted invitation for the caller; the caller's tier must
/// meet the room's (`tier_ok`). A member stays as they are; a banned user is
/// refused. A registered caller's chat user row is created first if missing.
pub fn join_room(db: &mut ChatDb, caller: &Caller, now: u64, room_id: String, tier_ok: bool) -> (r: Result<(), ChatError>)
    requires
        old(db)@.wf(),
        join_room_verdict(with_caller_user(old(db)@, caller@, now), caller@, room_id@, tier_ok) is Ok
            && room_membership(old(db)@, room_id@, caller@.user_id.unwrap()) is None
            ==> !has_key(old(db)@.room_members, member_id(room_id@, caller@.user_id.unwrap())),
    ensures
        final(db)@.wf(),
        r == join_room_verdict(with_caller_user(old(db)@, caller@, now), caller@, room_id@, tier_ok),
        r is Err ==> final(db)@ == with_caller_user(old(db)@, caller@, now),
        r is Ok ==> ({
            let uid = caller@.user_id.unwrap();
            let mid = with_caller_user(old(db)@, caller@, now);
            final(db)@ == if room_membership(old(db)@, room_id@, uid) is Some {
                mid
            } else {
                ChatDbV { room_members: mid.room_members.push(member_row(room_id@, uid, "member"@, now)), ..mid }
            }
        }),
{
    let uid = match &caller.user_id {
        Some(u) => u.clone(),
        None => return Err(ChatError::NotRegistered),
    };
    let _ = ensure_chat_user(db, &uid, &caller.identity, now);
    let ri = match find_key(&db.rooms, &room_id) {
        Some(i) => i,
        None => return Err(ChatError::NotFound),
    };
    if db.rooms[ri].archived || db.rooms[ri].locked {
        return Err(ChatError::NotPermitted);
    }
    if db.rooms[ri].is_private {
        let test = |i: &RoomInvitation| -> (b: bool)
            ensures
                b == accepted_invite(room_id@, uid@)(i@),
            { i.room_id == room_id && i.invitee_id == uid && str_eq(i.status.as_str(), "accepted") };
        match crate::store::position(&db.room_invitations, test, Ghost(accepted_invite(room_id@, uid@))) {
            Some(k) => {
                assert(db@.room_invitations[k as int] == rows(db.room_invitations@)[k as int]);
            },
            None => return Err(ChatError::NotPermitted),
        }
    }
    if !tier_ok {
        return Err(ChatError::NotPermitted);
    }
    match find_membership(db, &room_id, &uid) {
        Some(k) => {
            if str_eq(db.room_members[k].role.as_str(), "banned") {
                return Err(ChatError::NotPermitted);
            }
            return Ok(());
        },
        None => {},
    }
    insert_new(&mut db.room_members, make_member(&room_id, &uid, "member", now));
    Ok(())
}

/// Typing markers other than those of `user` in `room`.
pub open spec fn typing_not_of(room: Seq<char>, user: Seq<char>) -> spec_fn(TypingIndicatorV) -> bool {
    |t: TypingIndicatorV| !(t.room_id == room && t.user_id == user)
}

/// Drafts other than those of `user` in `room`.
pub open spec fn draft_not_of(room: Seq<char>, user: Seq<char>) -> spec_fn(DraftV) -> bool {
    |d: DraftV| !(d.room_id == room && d.user_id == user)
}

/// Leave a room: the caller's membership row goes, with their typing markers
/// and drafts in that room. Without a membership nothing changes.
pub fn leave_room(db: &mut ChatDb, caller: &Caller, room_id: String) -> (r: Result<(), ChatError>)
    requires
        old(db)@.wf(),
    ensures
        final(db)@.wf(),
        r is Err <==> caller@.user_id is None,
        r is Err ==> r == Err::<(), ChatError>(ChatError::NotRegistered) && final(db)@ == old(db)@,
        r is Ok ==> ({
            let uid = caller@.user_id.unwrap();
            final(db)@ == match room_membership(old(db)@, room_id@, uid) {
                Some(m) => ChatDbV {
                    room_members: without_key(old(db)@.room_members, m.id),
                    typing_indicators: old(db)@.typing_indicators.filter(typing_not_of(room_id@, uid)),
                    drafts: old(db)@.drafts.filter(draft_not_of(room_id@, uid)),
                    ..old(db)@
                },
                None => old(db)@,
            }
        }),
{
    let uid = match &caller.user_id {
        Some(u) => u.clone(),
        None => return Err(ChatError::NotRegistered),
    };
    match find_membership(db, &room_id, &uid) {
        Some(k) => {
            let mid = db.room_members[k].id.clone();
            remove_key(&mut db.room_members, &mid);
            let keep_t = |t: &TypingIndicator| -> (b: bool)
                ensures
                    b == typing_not_of(room_id@, uid@)(t@),
                { !(t.room_id == room_id && t.user_id == uid) };
            retain_keyed(&mut db.typing_indicators, keep_t, Ghost(typing_not_of(room_id@, uid@)));
            let keep_d = |d: &Draft| -> (b: bool)
                ensures
                    b == draft_not_of(room_id@, uid@)(d@),
                { !(d.room_id == room_id && d.user_id == uid) };
            retain_keyed(&mut db.drafts, keep_d, Ghost(draft_not_of(room_id@, uid@)));
        },
        None => {},
    }
    Ok(())
}

/// Messages of other rooms.
pub open spec fn msg_elsewhere(room: Seq<char>) -> spec_fn(MessageV) -> bool { |x: MessageV| x.room_id != room }
/// Messages of `room`.
pub open spec fn msg_in(room: Seq<char>) -> spec_fn(MessageV) -> bool { |x: MessageV| x.room_id == room }
/// Reactions of `room`: recorded in it, or on one of its messages `mids`.
pub open spec fn reaction_in(room: Seq<char>, mids: Seq<Seq<char>>) -> spec_fn(ReactionV) -> bool {
    |x: ReactionV| x.room_id == Some(room) || mids.contains(x.message_id)
}
/// Reactions not of `room` (see [`reaction_in`]).
pub open spec fn reaction_elsewhere(room: Seq<char>, mids: Seq<Seq<char>>) -> spec_fn(ReactionV) -> bool {
    |x: ReactionV| !(x.room_id == Some(room) || mids.contains(x.message_id))
}
/// Reaction index rows whose reaction is not one of `ids`.
pub open spec fn reaction_index_outside(ids: Seq<Seq<char>>) -> spec_fn(ReactionRoomIndexV) -> bool {
    |x: ReactionRoomIndexV| !ids.contains(x.reaction_id)
}
/// Message edits of `room`: recorded in it, or of one of its messages `mids`.
pub open spec fn edit_in(room: Seq<char>, mids: Seq<Seq<char>>) -> spec_fn(MessageEditV) -> bool {
    |x: MessageEditV| x.room_id == Some(room) || mids.contains(x.message_id)
}
/// Message edits not of `room` (see [`edit_in`]).
pub open spec fn edit_elsewhere(room: Seq<char>, mids: Seq<Seq<char>>) -> spec_fn(MessageEditV) -> bool {
    |x: MessageEditV| !(x.room_id == Some(room) || mids.contains(x.message_id))
}
/// Edit index rows whose edit is not one of `ids`.
pub open spec fn edit_index_outside(ids: Seq<Seq<char>>) -> spec_fn(MessageEditRoomIndexV) -> bool {
    |x: MessageEditRoomIndexV| !ids.contains(x.edit_id)
}
/// Pins of other rooms.
pub open spec fn pin_elsewhere(room: Seq<char>) -> spec_fn(PinnedMessageV) -> bool { |x: PinnedMessageV| x.room_id != room }
/// Attachments of other rooms.
pub open spec fn attachment_elsewhere(room: Seq<char>) -> spec_fn(MessageAttachmentV) -> bool { |x: MessageAttachmentV| x.room_id != room }
/// Bookmarks of other rooms.
pub open spec fn bookmark_elsewhere(room: Seq<char>) -> spec_fn(BookmarkV) -> bool { |x: BookmarkV| x.room_id != room }
/// Read positions of other rooms.
pub open spec fn read_position_elsewhere(room: Seq<char>) -> spec_fn(ReadPositionV) -> bool { |x: ReadPositionV| x.room_id != room }
/// Polls of `room`.
pub open spec fn poll_in(room: Seq<char>) -> spec_fn(PollV) -> bool { |x: PollV| x.room_id == room }
/// Polls of other rooms.
pub open spec fn poll_elsewhere(room: Seq<char>) -> spec_fn(PollV) -> bool { |x: PollV| x.room_id != room }
/// Votes on polls other than `ids`.
pub open spec fn vote_outside(ids: Seq<Seq<char>>) -> spec_fn(PollVoteV) -> bool { |x: PollVoteV| !ids.contains(x.poll_id) }
/// Scheduled messages of other rooms.
pub open spec fn scheduled_elsewhere(room: Seq<char>) -> spec_fn(ScheduledMessageV) -> bool { |x: ScheduledMessageV| x.room_id != room }
/// Channel overrides of other rooms.
pub open spec fn override_elsewhere(room: Seq<char>) -> spec_fn(ChannelOverrideV) -> bool { |x: ChannelOverrideV| x.room_id != room }
/// Memberships of other rooms.
pub open spec fn member_elsewhere(room: Seq<char>) -> spec_fn(RoomMemberV) -> bool { |x: RoomMemberV| x.room_id != room }
/// Typing markers of other rooms.
pub open spec fn typing_elsewhere(room: Seq<char>) -> spec_fn(TypingIndicatorV) -> bool { |x: TypingIndicatorV| x.room_id != room }
/// Drafts of other rooms.
pub open spec fn draft_elsewhere(room: Seq<char>) -> spec_fn(DraftV) -> bool { |x: DraftV| x.room_id != room }
/// Invitations to other rooms.
pub open spec fn invitation_elsewhere(room: Seq<char>) -> spec_fn(RoomInvitationV) -> bool { |x: RoomInvitationV| x.room_id != room }
/// Webhooks of other rooms.
pub open spec fn webhook_elsewhere(room: Seq<char>) -> spec_fn(WebhookV) -> bool { |x: WebhookV| x.room_id != room }
/// Webhook messages of other rooms.
pub open spec fn webhook_message_elsewhere(room: Seq<char>) -> spec_fn(WebhookMessageV) -> bool { |x: WebhookMessageV| x.room_id != room }
/// Forum tag links of other threads.
pub open spec fn post_tag_elsewhere(room: Seq<char>) -> spec_fn(ForumPostTagV) -> bool { |x: ForumPostTagV| x.thread_room_id != room }

/// The database without room `room` and everything that belongs to it:
/// its messages, the reactions and edits recorded in it or made on its
/// messages (with their index rows), pins, attachments, bookmarks, read
/// positions, polls with their votes, scheduled messages, channel overrides,
/// memberships, typing markers, drafts, invitations, webhooks with their
/// messages, and forum tag links.
pub open spec fn room_removed(db: ChatDbV, room: Seq<char>) -> ChatDbV {
    let mids = keys_where(db.messages, msg_in(room));
    let rids = keys_where(db.reactions, reaction_in(room, mids));
    let eids = keys_where(db.message_edits, edit_in(room, mids));
    let pids = keys_where(db.polls, poll_in(room));
    ChatDbV {
        messages: db.messages.filter(msg_elsewhere(room)),
        reactions: db.reactions.filter(reaction_elsewhere(room, mids)),
        reaction_room_index: db.reaction_room_index.filter(reaction_index_outside(rids)),
        message_edits: db.message_edits.filter(edit_elsewhere(room, mids)),
        message_edit_room_index: db.message_edit_room_index.filter(edit_index_outside(eids)),
        pinned_messages: db.pinned_messages.filter(pin_elsewhere(room)),
        message_attachments: db.message_attachments.filter(attachment_elsewhere(room)),
        bookmarks: db.bookmarks.filter(bookmark_elsewhere(room)),
        read_positions: db.read_positions.filter(read_position_elsewhere(room)),
        poll_votes: db.poll_votes.filter(vote_outside(pids)),
        polls: db.polls.filter(poll_elsewhere(room)),
        scheduled_messages: db.scheduled_messages.filter(scheduled_elsewhere(room)),
        channel_overrides: db.channel_overrides.filter(override_elsewhere(room)),
        room_members: db.room_members.filter(member_elsewhere(room)),
        typing_indicators: db.typing_indicators.filter(typing_elsewhere(room)),
        drafts: db.drafts.filter(draft_elsewhere(room)),
        room_invitations: db.room_invitations.filter(invitation_elsewhere(room)),
        webhooks: db.webhooks.filter(webhook_elsewhere(room)),
        webhook_messages: db.webhook_messages.filter(webhook_message_elsewhere(room)),
        forum_post_tags: db.forum_post_tags.filter(post_tag_elsewhere(room)),
        rooms: without_key(db.rooms, room),
        ..db
    }
}

fn purge_messages_and_reactions(db: &mut ChatDb, room_id: &String)
    requires
        old(db)@.wf(),
    ensures
        final(db)@.wf(),
        ({
            let o = old(db)@;
            let mids = keys_where(o.messages, msg_in(room_id@));
            let rids = keys_where(o.reactions, reaction_in(room_id@, mids));
            let eids = keys_where(o.message_edits, edit_in(room_id@, mids));
            final(db)@ == (ChatDbV {
                messages: o.messages.filter(msg_elsewhere(room_id@)),
                reactions: o.reactions.filter(reaction_elsewhere(room_id@, mids)),
                reaction_room_index: o.reaction_room_index.filter(reaction_index_outside(rids)),
                message_edits: o.message_edits.filter(edit_elsewhere(room_id@, mids)),
                message_edit_room_index: o.message_edit_room_index.filter(edit_index_outside(eids)),
                ..o
            })
        }),
{
    let here = |x: &Message| -> (b: bool)
        ensures b == msg_in(room_id@)(x@),
        { x.room_id == *room_id };
    let mids = collect_keys(&db.messages, here, Ghost(msg_in(room_id@)));
    let ghost mv = mids@.map_values(|s: String| s@);
    let keep_msg = |x: &Message| -> (b: bool)
        ensures b == msg_elsewhere(room_id@)(x@),
        { x.room_id != *room_id };
    retain_keyed(&mut db.messages, keep_msg, Ghost(msg_elsewhere(room_id@)));

    let in_room = |x: &Reaction| -> (b: bool)
        ensures b == reaction_in(room_id@, mids@.map_values(|s: String| s@))(x@),
        {
            let tagged = match &x.room_id { Some(r) => *r == *room_id, None => false };
            tagged || str_in(&mids, &x.message_id)
        };
    let rids = collect_keys(&db.reactions, in_room, Ghost(reaction_in(room_id@, mv)));
    let keep_r = |x: &Reaction| -> (b: bool)
        ensures b == reaction_elsewhere(room_id@, mids@.map_values(|s: String| s@))(x@),
        {
            let tagged = match &x.room_id { Some(r) => *r == *room_id, None => false };
            !(tagged || str_in(&mids, &x.message_id))
        };
    retain_keyed(&mut db.reactions, keep_r, Ghost(reaction_elsewhere(room_id@, mv)));
    let keep_ri = |x: &ReactionRoomIndex| -> (b: bool)
        ensures b == reaction_index_outside(rids@.map_values(|s: String| s@))(x@),
        { !str_in(&rids, &x.reaction_id) };
    retain_keyed(&mut db.reaction_room_index, keep_ri, Ghost(reaction_index_outside(rids@.map_values(|s: String| s@))));

    let edit_here = |x: &MessageEdit| -> (b: bool)
        ensures b == edit_in(room_id@, mids@.map_values(|s: String| s@))(x@),
        {
            let tagged = match &x.room_id { Some(r) => *r == *room_id, None => false };
            tagged || str_in(&mids, &x.message_id)
        };
    let eids = collect_keys(&db.message_edits, edit_here, Ghost(edit_in(room_id@, mv)));
    let keep_e = |x: &MessageEdit| -> (b: bool)
        ensures b == edit_elsewhere(room_id@, mids@.map_values(|s: String| s@))(x@),
        {
            let tagged = match &x.room_id { Some(r) => *r == *room_id, None => false };
            !(tagged || str_in(&mids, &x.message_id))
        };
    retain_keyed(&mut db.message_edits, keep_e, Ghost(edit_elsewhere(room_id@, mv)));
    let keep_ei = |x: &MessageEditRoomIndex| -> (b: bool)
        ensures b == edit_index_outside(eids@.map_values(|s: String| s@))(x@),
        { !str_in(&eids, &x.edit_id) };
    retain_keyed(&mut db.message_edit_room_index, keep_ei, Ghost(edit_index_outside(eids@.map_values(|s: String| s@))));
}

fn purge_room_records(db: &mut ChatDb, room_id: &String)
    requires
        old(db)@.wf(),
    ensures
        final(db)@.wf(),
        ({
            let o = old(db)@;
            let pids = keys_where(o.polls, poll_in(room_id@));
            final(db)@ == (ChatDbV {
                pinned_messages: o.pinned_messages.filter(pin_elsewhere(room_id@)),
                message_attachments: o.message_attachments.filter(attachment_elsewhere(room_id@)),
                bookmarks: o.bookmarks.filter(bookmark_elsewhere(room_id@)),
                read_positions: o.read_positions.filter(read_position_elsewhere(room_id@)),
                poll_votes: o.poll_votes.filter(vote_outside(pids)),
                polls: o.polls.filter(poll_elsewhere(room_id@)),
                scheduled_messages: o.scheduled_messages.filter(scheduled_elsewhere(room_id@)),
                channel_overrides: o.channel_overrides.filter(override_elsewhere(room_id@)),
                ..o
            })
        }),
{
    let k1 = |x: &PinnedMessage| -> (b: bool) ensures b == pin_elsewhere(room_id@)(x@), { x.room_id != *room_id };
    retain_keyed(&mut db.pinned_messages, k1, Ghost(pin_elsewhere(room_id@)));
    let k2 = |x: &MessageAttachment| -> (b: bool) ensures b == attachment_elsewhere(room_id@)(x@), { x.room_id != *room_id };
    retain_keyed(&mut db.message_attachments, k2, Ghost(attachment_elsewhere(room_id@)));
    let k3 = |x: &Bookmark| -> (b: bool) ensures b == bookmark_elsewhere(room_id@)(x@), { x.room_id != *room_id };
    retain_keyed(&mut db.bookmarks, k3, Ghost(bookmark_elsewhere(room_id@)));
    let k4 = |x: &ReadPosition| -> (b: bool) ensures b == read_position_elsewhere(room_id@)(x@), { x.room_id != *room_id };
    retain_keyed(&mut db.read_positions, k4, Ghost(read_position_elsewhere(room_id@)));
    let poll_here = |x: &Poll| -> (b: bool) ensures b == poll_in(room_id@)(x@), { x.room_id == *room_id };
    let pids = collect_keys(&db.polls, poll_here, Ghost(poll_in(room_id@)));
    let k5 = |x: &PollVote| -> (b: bool)
        ensures b == vote_outside(pids@.map_values(|s: String| s@))(x@),
        { !str_in(&pids, &x.poll_id) };
    retain_keyed(&mut db.poll_votes, k5, Ghost(vote_outside(pids@.map_values(|s: String| s@))));
    let k6 = |x: &Poll| -> (b: bool) ensures b == poll_elsewhere(room_id@)(x@), { x.room_id != *room_id };
    retain_keyed(&mut db.polls, k6, Ghost(poll_elsewhere(room_id@)));
    let k7 = |x: &ScheduledMessage| -> (b: bool) ensures b == scheduled_elsewhere(room_id@)(x@), { x.room_id != *room_id };
    retain_keyed(&mut db.scheduled_messages, k7, Ghost(scheduled_elsewhere(room_id@)));
    let k8 = |x: &ChannelOverride| -> (b: bool) ensures b == override_elsewhere(room_id@)(x@), { x.room_id != *room_id };
    retain_keyed(&mut db.channel_overrides, k8, Ghost(override_elsewhere(room_id@)));
}

fn purge_room_people(db: &mut ChatDb, room_id: &String)
    requires
        old(db)@.wf(),
    ensures
        final(db)@.wf(),
        ({
            let o = old(db)@;
            final(db)@ == (ChatDbV {
                room_members: o.room_members.filter(member_elsewhere(room_id@)),
                typing_indicators: o.typing_indicators.filter(typing_elsewhere(room_id@)),
                drafts: o.drafts.filter(draft_elsewhere(room_id@)),
                room_invitations: o.room_invitations.filter(invitation_elsewhere(room_id@)),
                webhooks: o.webhooks.filter(webhook_elsewhere(room_id@)),
                webhook_messages: o.webhook_messages.filter(webhook_message_elsewhere(room_id@)),
                forum_post_tags: o.forum_post_tags.filter(post_tag_elsewhere(room_id@)),
                rooms: without_key(o.rooms, room_id@),
                ..o
            })
        }),
{
    let k1 = |x: &RoomMember| -> (b: bool) ensures b == member_elsewhere(room_id@)(x@), { x.room_id != *room_id };
    retain_keyed(&mut db.room_members, k1, Ghost(member_elsewhere(room_id@)));
    let k2 = |x: &TypingIndicator| -> (b: bool) ensures b == typing_elsewhere(room_id@)(x@), { x.room_id != *room_id };
    retain_keyed(&mut db.typing_indicators, k2, Ghost(typing_elsewhere(room_id@)));
    let k3 = |x: &Draft| -> (b: bool) ensures b == draft_elsewhere(room_id@)(x@), { x.room_id != *room_id };
    retain_keyed(&mut db.drafts, k3, Ghost(draft_elsewhere(room_id@)));
    let k4 = |x: &RoomInvitation| -> (b: bool) ensures b == invitation_elsewhere(room_id@)(x@), { x.room_id != *room_id };
    retain_keyed(&mut db.room_invitations, k4, Ghost(invitation_elsewhere(room_id@)));
    let k5 = |x: &Webhook| -> (b: bool) ensures b == webhook_elsewhere(room_id@)(x@), { x.room_id != *room_id };
    retain_keyed(&mut db.webhooks, k5, Ghost(webhook_elsewhere(room_id@)));
    let k6 = |x: &WebhookMessage| -> (b: bool) ensures b == webhook_message_elsewhere(room_id@)(x@), { x.room_id != *room_id };
    retain_keyed(&mut db.webhook_messages, k6, Ghost(webhook_message_elsewhere(room_id@)));
    let k7 = |x: &ForumPostTag| -> (b: bool) ensures b == post_tag_elsewhere(room_id@)(x@), { x.thread_room_id != *room_id };
    retain_keyed(&mut db.forum_post_tags, k7, Ghost(post_tag_elsewhere(room_id@)));
    remove_key(&mut db.rooms, room_id);
}

/// Remove a room and everything that belongs to it (see [`room_removed`]).
pub fn remove_room_everywhere(db: &mut ChatDb, room_id: &String)
    requires
        old(db)@.wf(),
    ensures
        final(db)@.wf(),
        final(db)@ == room_removed(old(db)@, room_id@),
{
    purge_messages_and_reactions(db, room_id);
    purge_room_records(db, room_id);
    purge_room_people(db, room_id);
}

/// `user` may delete room `r`: a platform admin always; in a server, a holder
/// of MANAGE_CHANNELS or a server owner or admin; outside servers, a room
/// admin or the room's creator.
pub open spec fn may_delete_room(db: ChatDbV, c: CallerV, r: RoomV, user: Seq<char>) -> bool {
    c.is_platform_admin || match r.server_id {
        Some(sid) => has_room_permission(db, sid, r.id, user, PERM_MANAGE_CHANNELS) || is_server_admin(db, sid, user),
        None => is_room_admin(db, r.id, user) || r.created_by == user,
    }
}

/// Outcome of [`delete_room`].
pub open spec fn delete_room_verdict(db: ChatDbV, c: CallerV, room: Seq<char>) -> Result<(), ChatError> {
    match c.user_id {
        None => Err(ChatError::NotRegistered),
        Some(uid) => match lookup(db.rooms, room) {
            None => Err(ChatError::NotFound),
            Some(r) => if !may_delete_room(db, c, r, uid) { Err(ChatError::NotPermitted) } else { Ok(()) },
        },
    }
}

/// Id of the audit entry of a room deletion: "audit-delroom-<room>-<now>".
pub open spec fn room_delete_audit_id(room: Seq<char>, now: u64) -> Seq<char> {
    "audit-delroom-"@ + room + "-"@ + decimal(now as nat)
}

/// The database after the audit entry of deleting room `r` (server rooms only).
pub open spec fn with_room_delete_audit(db: ChatDbV, r: RoomV, user: Seq<char>, now: u64) -> ChatDbV {
    match r.server_id {
        Some(sid) => ChatDbV {
            audit_log: db.audit_log.push(audit_entry(
                room_delete_audit_id(r.id, now),
                sid,
                "room_delete"@,
                user,
                "room"@,
                r.id,
                Some("Deleted room '"@ + r.name + "'"@),
                now,
            )),
            ..db
        },
        None => db,
    }
}

/// Delete a room with everything that belongs to it. Deleting a server room
/// is recorded in the server's audit log.
pub fn delete_room(db: &mut ChatDb, caller: &Caller, now: u64, room_id: String) -> (r: Result<(), ChatError>)
    requires
        old(db)@.wf(),
        delete_room_verdict(old(db)@, caller@, room_id@) is Ok
            && lookup(old(db)@.rooms, room_id@).unwrap().server_id is Some
            ==> !has_key(old(db)@.audit_log, room_delete_audit_id(room_id@, now)),
    ensures
        final(db)@.wf(),
        r == delete_room_verdict(old(db)@, caller@, room_id@),
        r is Err ==> final(db)@ == old(db)@,
        r is Ok ==> final(db)@ == room_removed(
            with_room_delete_audit(old(db)@, lookup(old(db)@.rooms, room_id@).unwrap(), caller@.user_id.unwrap(), now),
            room_id@,
        ),
{
    let uid = match &caller.user_id {
        Some(u) => u.clone(),
        None => return Err(ChatError::NotRegistered),
    };
    let ri = match find_key(&db.rooms, &room_id) {
        Some(i) => i,
        None => return Err(ChatError::NotFound),
    };
    let allowed = caller.is_platform_admin || match &db.rooms[ri].server_id {
        Some(sid) => has_permission(db, sid, &room_id, &uid, PERM_MANAGE_CHANNELS) || require_server_admin(db, sid, &uid),
        None => require_admin(db, &room_id, &uid) || db.rooms[ri].created_by == uid,
    };
    if !allowed {
        return Err(ChatError::NotPermitted);
    }
    let server = crate::common::clone_opt(&db.rooms[ri].server_id);
    let room_name = db.rooms[ri].name.clone();
    match server {
        Some(sid) => {
            let mut audit_id = concat2("audit-delroom-", room_id.as_str());
            audit_id.append("-");
            let stamp = decimal_string(now);
            audit_id.append(stamp.as_str());
            let mut details = concat2("Deleted room '", room_name.as_str());
            details.append("'");
            log_audit_event(db, now, audit_id.as_str(), sid.as_str(), "room_delete", uid.as_str(), "room", room_id.as_str(), Some(details));
        },
        None => {},
    }
    remove_room_everywhere(db, &room_id);
    Ok(())
}

/// `user` may change the settings of room `r`: in a server, a holder of
/// MANAGE_CHANNELS or a server owner or admin; outside servers, a room admin.
pub open spec fn may_edit_room(db: ChatDbV, r: RoomV, user: Seq<char>) -> bool {
    match r.server_id {
        Some(sid) => has_room_permission(db, sid, r.id, user, PERM_MANAGE_CHANNELS) || is_server_admin(db, sid, user),
        None => is_room_admin(db, r.id, user),
    }
}

/// Outcome of [`update_room_settings`].
pub open spec fn update_room_settings_verdict(db: ChatDbV, c: CallerV, room: Seq<char>) -> Result<(), ChatError> {
    match c.user_id {
        None => Err(ChatError::NotRegistered),
        Some(uid) => match lookup(db.rooms, room) {
            None => Err(ChatError::NotFound),
            Some(r) => if !may_edit_room(db, r, uid) { Err(ChatError::NotPermitted) } else { Ok(()) },
        },
    }
}

/// A given value, else the current one.
pub open spec fn given_else<T>(new: Option<T>, old: T) -> T {
    match new {
        Some(v) => v,
        None => old,
    }
}

/// A given optional setting, else the current one.
pub open spec fn given_opt<T>(new: Option<T>, old: Option<T>) -> Option<T> {
    if new is Some { new } else { old }
}

/// Room `r` with the given settings applied.
pub open spec fn edited_room(
    r: RoomV,
    name: Option<Seq<char>>,
    topic: Option<Seq<char>>,
    description: Option<Seq<char>>,
    slowmode_seconds: Option<u32>,
    nsfw: Option<bool>,
    allow_attachments: Option<bool>,
    allow_embeds: Option<bool>,
    allow_reactions: Option<bool>,
    rules_text: Option<Seq<char>>,
) -> RoomV {
    RoomV {
        name: given_else(name, r.name),
        description: given_opt(description, r.description),
        topic: given_opt(topic, r.topic),
        slowmode_seconds: given_opt(slowmode_seconds, r.slowmode_seconds),
        nsfw: given_else(nsfw, r.nsfw),
        allow_attachments: given_opt(allow_attachments, r.allow_attachments),
        allow_embeds: given_opt(allow_embeds, r.allow_embeds),
        allow_reactions: given_opt(allow_reactions, r.allow_reactions),
        rules_text: given_opt(rules_text, r.rules_text),
        ..r
    }
}

fn keep_or<T>(new: Option<T>, old: Option<T>) -> (r: Option<T>)
    ensures
        r == given_opt(new, old),
{
    if new.is_some() { new } else { old }
}

/// Change a room's settings (name, topic, description, slow mode, NSFW flag,
/// content rules); settings not given stay as they are.
pub fn update_room_settings(
    db: &mut ChatDb,
    caller: &Caller,
    room_id: String,
    name: Option<String>,
    topic: Option<String>,
    description: Option<String>,
    slowmode_seconds: Option<u32>,
    nsfw: Option<bool>,
    allow_attachments: Option<bool>,
    allow_embeds: Option<bool>,
    allow_reactions: Option<bool>,
    rules_text: Option<String>,
) -> (r: Result<(), ChatError>)
    requires
        old(db)@.wf(),
    ensures
        final(db)@.wf(),
        r == update_room_settings_verdict(old(db)@, caller@, room_id@),
        r is Err ==> final(db)@ == old(db)@,
        r is Ok ==> final(db)@ == (ChatDbV {
            rooms: replace_row(old(db)@.rooms, edited_room(
                lookup(old(db)@.rooms, room_id@).unwrap(),
                opt_view(name), opt_view(topic), opt_view(description), slowmode_seconds, nsfw,
                allow_attachments, allow_embeds, allow_reactions, opt_view(rules_text),
            )),
            ..old(db)@
        }),
{
    let uid = match &caller.user_id {
        Some(u) => u.clone(),
        None => return Err(ChatError::NotRegistered),
    };
    let ri = match find_key(&db.rooms, &room_id) {
        Some(i) => i,
        None => return Err(ChatError::NotFound),
    };
    let allowed = match &db.rooms[ri].server_id {
        Some(sid) => has_permission(db, sid, &room_id, &uid, PERM_MANAGE_CHANNELS) || require_server_admin(db, sid, &uid),
        None => require_admin(db, &room_id, &uid),
    };
    if !allowed {
        return Err(ChatError::NotPermitted);
    }
    let room = crate::store::take_key(&mut db.rooms, &room_id).unwrap();
    proof {
        lemma_without_key(old(db)@.rooms, room_id@);
    }
    let new_name = match name {
        Some(n) => n,
        None => room.name,
    };
    let new_nsfw = match nsfw {
        Some(b) => b,
        None => room.nsfw,
    };
    let edited = Room {
        name: new_name,
        description: keep_or(description, room.description),
        topic: keep_or(topic, room.topic),
        slowmode_seconds: keep_or(slowmode_seconds, room.slowmode_seconds),
        nsfw: new_nsfw,
        allow_attachments: keep_or(allow_attachments, room.allow_attachments),
        allow_embeds: keep_or(allow_embeds, room.allow_embeds),
        allow_reactions: keep_or(allow_reactions, room.allow_reactions),
        rules_text: keep_or(rules_text, room.rules_text),
        ..room
    };
    insert_new(&mut db.rooms, edited);
    Ok(())
}

/// Outcome of [`admin_add_to_room`].
pub open spec fn admin_add_to_room_verdict(db: ChatDbV, c: CallerV, room: Seq<char>, target: Seq<char>) -> Result<(), ChatError> {
    if !c.is_platform_admin {
        Err(ChatError::NotPermitted)
    } else if !has_key(db.rooms, room) {
        Err(ChatError::NotFound)
    } else if !has_key(db.chat_users, target) {
        Err(ChatError::NotFound)
    } else {
        Ok(())
    }
}

/// Add a user (usually a bot) to a room as a member (platform admin only),
/// bypassing tier, privacy and archive checks. A ban is lifted by replacing
/// the banned membership; an existing membership stays as it is.
pub fn admin_add_to_room(db: &mut ChatDb, caller: &Caller, now: u64, room_id: String, target_user_id: String) -> (r: Result<(), ChatError>)
    requires
        old(db)@.wf(),
        admin_add_to_room_verdict(old(db)@, caller@, room_id@, target_user_id@) is Ok ==> ({
            let m = room_membership(old(db)@, room_id@, target_user_id@);
            let members = if m is Some { without_key(old(db)@.room_members, m.unwrap().id) } else { old(db)@.room_members };
            m is None || m.unwrap().role == "banned"@ ==> !has_key(members, member_id(room_id@, target_user_id@))
        }),
    ensures
        final(db)@.wf(),
        r == admin_add_to_room_verdict(old(db)@, caller@, room_id@, target_user_id@),
        r is Err ==> final(db)@ == old(db)@,
        r is Ok ==> final(db)@ == match room_membership(old(db)@, room_id@, target_user_id@) {
            None => ChatDbV {
                room_members: old(db)@.room_members.push(member_row(room_id@, target_user_id@, "member"@, now)),
                ..old(db)@
            },
            Some(m) => if m.role == "banned"@ {
                ChatDbV {
                    room_members: without_key(old(db)@.room_members, m.id).push(member_row(room_id@, target_user_id@, "member"@, now)),
                    ..old(db)@
                }
            } else {
                old(db)@
            },
        },
{
    if !caller.is_platform_admin {
        return Err(ChatError::NotPermitted);
    }
    if !contains_key(&db.rooms, &room_id) {
        return Err(ChatError::NotFound);
    }
    if !contains_key(&db.chat_users, &target_user_id) {
        return Err(ChatError::NotFound);
    }
    match find_membership(db, &room_id, &target_user_id) {
        Some(k) => {
            if str_eq(db.room_members[k].role.as_str(), "banned") {
                let mid = db.room_members[k].id.clone();
                remove_key(&mut db.room_members, &mid);
            } else {
                return Ok(());
            }
        },
        None => {},
    }
    insert_new(&mut db.room_members, make_member(&room_id, &target_user_id, "member", now));
    Ok(())
}

/// Memberships other than those of `user` in `room`.
pub open spec fn not_member_row_of(room: Seq<char>, user: Seq<char>) -> spec_fn(RoomMemberV) -> bool {
    |m: RoomMemberV| !(m.room_id == room && m.user_id == user)
}

/// Remove every membership of a user in a room (platform admin only).
pub fn admin_remove_from_room(db: &mut ChatDb, caller: &Caller, room_id: String, target_user_id: String) -> (r: Result<(), ChatError>)
    requires
        old(db)@.wf(),
    ensures
        final(db)@.wf(),
        r is Err <==> !caller.is_platform_admin,
        r is Err ==> r == Err::<(), ChatError>(ChatError::NotPermitted) && final(db)@ == old(db)@,
        r is Ok ==> final(db)@ == (ChatDbV {
            room_members: old(db)@.room_members.filter(not_member_row_of(room_id@, target_user_id@)),
            ..old(db)@
        }),
{
    if !caller.is_platform_admin {
        return Err(ChatError::NotPermitted);
    }
    let keep = |m: &RoomMember| -> (b: bool)
        ensures b == not_member_row_of(room_id@, target_user_id@)(m@),
        { !(m.room_id == room_id && m.user_id == target_user_id) };
    retain_keyed(&mut db.room_members, keep, Ghost(not_member_row_of(room_id@, target_user_id@)));
    Ok(())
}

} // verus!
