//! Private rooms and direct messages: invitations, answers, and starting a DM.

use vstd::prelude::*;
use crate::context::{Caller, CallerV, ChatError};
use crate::db::{ChatDb, ChatDbV};
use crate::tables::{Room, RoomV, RoomMember, RoomMemberV, RoomInvitation, RoomInvitationV, KeyedView};
use crate::store::{lookup, has_key, replace_row, rows, find_key, contains_key, insert_new, take_key, position,
    lemma_without_key, lemma_push_unique};
use crate::lookups::{is_room_member, require_membership, first_match, lemma_first_match, lemma_filter_empty};
use crate::membership::{member_id, member_row, make_member};
use crate::accounts::ensure_chat_user;
use crate::reducers::rooms::with_caller_user;
use crate::reducers::personal::{BlockHashes, blocked_between, is_blocked_between};
use crate::common::{any_row, is_set, flag, str_eq, opt_str_eq};
use crate::text::{decimal, decimal_string, join2, concat2, to_owned_string, seq_lt, str_lt, lemma_prefix_injective};

verus! {

/// A membership of `user` in `room` that is not a ban.
pub open spec fn active_membership(room: Seq<char>, user: Seq<char>) -> spec_fn(RoomMemberV) -> bool {
    |m: RoomMemberV| m.room_id == room && m.user_id == user && m.role != "banned"@
}

/// A pending invitation of `user` to `room`.
pub open spec fn pending_invite(room: Seq<char>, user: Seq<char>) -> spec_fn(RoomInvitationV) -> bool {
    |i: RoomInvitationV| i.room_id == room && i.invitee_id == user && i.status == "pending"@
}

/// Id of an invitation: "inv-<room>-<invitee>-<now>".
pub open spec fn invitation_id(room: Seq<char>, invitee: Seq<char>, now: u64) -> Seq<char> {
    "inv-"@ + room + "-"@ + invitee + "-"@ + decimal(now as nat)
}

/// Outcome of [`invite_to_room`]; `Ok(true)` when an invitation is created,
/// `Ok(false)` when one is already pending.
pub open spec fn invite_verdict(db: ChatDbV, c: CallerV, room: Seq<char>, invitee: Seq<char>) -> Result<bool, ChatError> {
    match c.user_id {
        None => Err(ChatError::NotRegistered),
        Some(uid) => if !is_room_member(db, room, uid) {
            Err(ChatError::NotPermitted)
        } else {
            match lookup(db.rooms, room) {
                None => Err(ChatError::NotFound),
                Some(r) => invite_room_verdict(db, r, room, invitee),
            }
        },
    }
}

/// The checks of [`invite_to_room`] on the room itself.
pub open spec fn invite_room_verdict(db: ChatDbV, r: RoomV, room: Seq<char>, invitee: Seq<char>) -> Result<bool, ChatError> {
    if !r.is_private {
        Err(ChatError::Invalid)
    } else if any_row(db.room_members, active_membership(room, invitee)) {
        Err(ChatError::AlreadyExists)
    } else {
        Ok(!any_row(db.room_invitations, pending_invite(room, invitee)))
    }
}

/// Invite a user into a private room the caller belongs to. A member (not
/// banned) cannot be invited; a pending invitation is not repeated.
pub fn invite_to_room(db: &mut ChatDb, caller: &Caller, now: u64, room_id: String, invitee_user_id: String) -> (r: Result<(), ChatError>)
    requires
        old(db)@.wf(),
        invite_verdict(old(db)@, caller@, room_id@, invitee_user_id@) == Ok::<bool, ChatError>(true)
            ==> !has_key(old(db)@.room_invitations, invitation_id(room_id@, invitee_user_id@, now)),
    ensures
        final(db)@.wf(),
        match invite_verdict(old(db)@, caller@, room_id@, invitee_user_id@) {
            Err(e) => r == Err::<(), ChatError>(e) && final(db)@ == old(db)@,
            Ok(false) => r is Ok && final(db)@ == old(db)@,
            Ok(true) => r is Ok && final(db)@ == (ChatDbV {
                room_invitations: old(db)@.room_invitations.push(RoomInvitationV {
                    id: invitation_id(room_id@, invitee_user_id@, now),
                    room_id: room_id@,
                    inviter_id: caller@.user_id.unwrap(),
                    invitee_id: invitee_user_id@,
                    status: "pending"@,
                    created_at: now,
                }),
                ..old(db)@
            }),
        },
{
    let uid = match &caller.user_id {
        Some(u) => u.clone(),
        None => return Err(ChatError::NotRegistered),
    };
    if !require_membership(db, &room_id, &uid) {
        return Err(ChatError::NotPermitted);
    }
    let ri = match find_key(&db.rooms, &room_id) {
        Some(i) => i,
        None => return Err(ChatError::NotFound),
    };
    if !db.rooms[ri].is_private {
        return Err(ChatError::Invalid);
    }
    let is_member = |m: &RoomMember| -> (b: bool)
        ensures
            b == active_membership(room_id@, invitee_user_id@)(m@),
        { m.room_id == room_id && m.user_id == invitee_user_id && !str_eq(m.role.as_str(), "banned") };
    match position(&db.room_members, is_member, Ghost(active_membership(room_id@, invitee_user_id@))) {
        Some(k) => {
            assert(db@.room_members[k as int] == rows(db.room_members@)[k as int]);
            return Err(ChatError::AlreadyExists);
        },
        None => {},
    }
    let is_pending = |i: &RoomInvitation| -> (b: bool)
        ensures
            b == pending_invite(room_id@, invitee_user_id@)(i@),
        { i.room_id == room_id && i.invitee_id == invitee_user_id && str_eq(i.status.as_str(), "pending") };
    match position(&db.room_invitations, is_pending, Ghost(pending_invite(room_id@, invitee_user_id@))) {
        Some(k) => {
            assert(db@.room_invitations[k as int] == rows(db.room_invitations@)[k as int]);
            return Ok(());
        },
        None => {},
    }
    let mut id = concat2("inv-", room_id.as_str());
    id.append("-");
    id.append(invitee_user_id.as_str());
    id.append("-");
    let stamp = decimal_string(now);
    id.append(stamp.as_str());
    let inv = RoomInvitation {
        id,
        room_id,
        inviter_id: uid,
        invitee_id: invitee_user_id,
        status: to_owned_string("pending"),
        created_at: now,
    };
    insert_new(&mut db.room_invitations, inv);
    Ok(())
}

/// Outcome of [`respond_to_invitation`].
pub open spec fn respond_verdict(db: ChatDbV, c: CallerV, invitation: Seq<char>) -> Result<(), ChatError> {
    match c.user_id {
        None => Err(ChatError::NotRegistered),
        Some(uid) => match lookup(db.room_invitations, invitation) {
            None => Err(ChatError::NotFound),
            Some(inv) => if inv.invitee_id != uid {
                Err(ChatError::NotPermitted)
            } else if inv.status != "pending"@ {
                Err(ChatError::Invalid)
            } else {
                Ok(())
            },
        },
    }
}

/// The database after the invitee answers invitation `inv`: its status
/// becomes "accepted" or "declined"; on acceptance the invitee joins the room
/// as a member unless a membership row of that id exists.
pub open spec fn answered(db: ChatDbV, inv: RoomInvitationV, accept: bool, now: u64) -> ChatDbV {
    let invitations = replace_row(db.room_invitations, RoomInvitationV {
        status: if accept { "accepted"@ } else { "declined"@ },
        ..inv
    });
    let mid = member_id(inv.room_id, inv.invitee_id);
    if accept && !has_key(db.room_members, mid) {
        ChatDbV {
            room_invitations: invitations,
            room_members: db.room_members.push(member_row(inv.room_id, inv.invitee_id, "member"@, now)),
            ..db
        }
    } else {
        ChatDbV { room_invitations: invitations, ..db }
    }
}

/// Accept or decline a pending invitation addressed to the caller.
pub fn respond_to_invitation(db: &mut ChatDb, caller: &Caller, now: u64, invitation_id: String, accept: bool) -> (r: Result<(), ChatError>)
    requires
        old(db)@.wf(),
    ensures
        final(db)@.wf(),
        r == respond_verdict(old(db)@, caller@, invitation_id@),
        r is Err ==> final(db)@ == old(db)@,
        r is Ok ==> final(db)@ == answered(old(db)@, lookup(old(db)@.room_invitations, invitation_id@).unwrap(), accept, now),
{
    let uid = match &caller.user_id {
        Some(u) => u.clone(),
        None => return Err(ChatError::NotRegistered),
    };
    let ii = match find_key(&db.room_invitations, &invitation_id) {
        Some(i) => i,
        None => return Err(ChatError::NotFound),
    };
    if db.room_invitations[ii].invitee_id != uid {
        return Err(ChatError::NotPermitted);
    }
    if !str_eq(db.room_invitations[ii].status.as_str(), "pending") {
        return Err(ChatError::Invalid);
    }
    let inv = take_key(&mut db.room_invitations, &invitation_id).unwrap();
    proof {
        lemma_without_key(old(db)@.room_invitations, invitation_id@);
    }
    let room = inv.room_id.clone();
    let status = if accept { to_owned_string("accepted") } else { to_owned_string("declined") };
    insert_new(&mut db.room_invitations, RoomInvitation { status, ..inv });
    if accept {
        let mid = join2(room.as_str(), "-", uid.as_str());
        if !contains_key(&db.room_members, &mid) {
            insert_new(&mut db.room_members, make_member(&room, &uid, "member", now));
        }
    }
    Ok(())
}

/// Room name of the direct messages between `a` and `b`: "dm:<first>:<second>"
/// with the two user ids in sorted order.
pub open spec fn dm_name(a: Seq<char>, b: Seq<char>) -> Seq<char> {
    if seq_lt(b, a) {
        "dm:"@ + b + ":"@ + a
    } else {
        "dm:"@ + a + ":"@ + b
    }
}

/// The user ids of the memberships of room `rid`, in table order.
pub open spec fn room_user_ids(members: Seq<RoomMemberV>, rid: Seq<char>) -> Seq<Seq<char>> {
    members.filter(|m: RoomMemberV| m.room_id == rid).map_values(|m: RoomMemberV| m.user_id)
}

/// A direct-message room whose two membership rows are those of `a` and `b`.
pub open spec fn dm_between(members: Seq<RoomMemberV>, a: Seq<char>, b: Seq<char>) -> spec_fn(RoomV) -> bool {
    |r: RoomV| r.is_dm && room_user_ids(members, r.id).len() == 2
        && room_user_ids(members, r.id).contains(a) && room_user_ids(members, r.id).contains(b)
}

/// The bot rules of a direct message to `target` refuse `user`: platform bots
/// take no direct messages, and a personal bot only from its owner.
pub open spec fn dm_refused_by_target(db: ChatDbV, user: Seq<char>, target: Seq<char>) -> bool {
    match lookup(db.chat_users, target) {
        Some(t) => is_set(t.is_platform_agent) || (is_set(t.is_bot) && t.bot_owner_user_id != Some(user)),
        None => false,
    }
}

/// Outcome of [`start_dm`]; `h` holds the block hashes of the caller and the
/// target (see [`blocked_between`]).
pub open spec fn start_dm_verdict(db: ChatDbV, c: CallerV, target: Seq<char>, h: BlockHashes) -> Result<(), ChatError> {
    match c.user_id {
        None => Err(ChatError::NotRegistered),
        Some(uid) => if uid == target {
            Err(ChatError::Invalid)
        } else if blocked_between(db, uid, target, h) {
            Err(ChatError::NotPermitted)
        } else if dm_refused_by_target(db, uid, target) {
            Err(ChatError::NotPermitted)
        } else {
            Ok(())
        },
    }
}

/// The new direct-message room named `name`, private, created by `creator`.
pub open spec fn dm_room_row(id: Seq<char>, name: Seq<char>, creator: Seq<char>, now: u64) -> RoomV {
    RoomV {
        id: id,
        name: name,
        created_by: creator,
        is_private: true,
        is_dm: true,
        created_at: now,
        server_id: None,
        required_tier: None,
        description: None,
        sort_order: None,
        room_type: "text"@,
        category_id: None,
        topic: None,
        slowmode_seconds: None,
        nsfw: false,
        parent_room_id: None,
        archived: false,
        locked: false,
        auto_archive_minutes: None,
        default_sort_order: None,
        allow_attachments: None,
        allow_embeds: None,
        allow_reactions: None,
        rules_text: None,
    }
}

/// The database after [`start_dm`] succeeds on `db` (the caller's chat user
/// row already made sure of). An existing direct-message room of the two
/// users gets the sorted name and the caller's membership row is rewritten;
/// otherwise a new private DM room is made with both users as admins.
pub open spec fn dm_started(db: ChatDbV, dm_room: Seq<char>, uid: Seq<char>, target: Seq<char>, now: u64) -> ChatDbV {
    let name = dm_name(uid, target);
    match first_match(db.rooms, dm_between(db.room_members, uid, target)) {
        Some(r) => {
            let rooms = if r.name != name { replace_row(db.rooms, RoomV { name: name, ..r }) } else { db.rooms };
            let members = match lookup(db.room_members, member_id(r.id, uid)) {
                Some(m) => replace_row(db.room_members, m),
                None => db.room_members,
            };
            ChatDbV { rooms: rooms, room_members: members, ..db }
        },
        None => ChatDbV {
            rooms: db.rooms.push(dm_room_row(dm_room, name, uid, now)),
            room_members: db.room_members.push(member_row(dm_room, uid, "admin"@, now)).push(member_row(dm_room, target, "admin"@, now)),
            ..db
        },
    }
}

/// The user ids of the memberships of room `rid`, in table order.
pub fn room_user_ids_exec(db: &ChatDb, rid: &String) -> (ids: Vec<String>)
    ensures
        ids@.map_values(|x: String| x@) == room_user_ids(db@.room_members, rid@),
{
    let mut ids: Vec<String> = Vec::new();
    let mut i: usize = 0;
    while i < db.room_members.len()
        invariant
            i <= db@.room_members.len(),
            ids@.map_values(|x: String| x@) == room_user_ids(db@.room_members.take(i as int), rid@),
        decreases db.room_members.len() - i,
    {
        let m = &db.room_members[i];
        proof {
            assert(db@.room_members.take(i + 1).drop_last() =~= db@.room_members.take(i as int));
            assert(db@.room_members.take(i + 1).last() == m@);
            reveal_with_fuel(Seq::filter, 1);
        }
        let ghost before = ids@;
        let hit = m.room_id == *rid;
        if hit {
            ids.push(m.user_id.clone());
            assert(ids@.map_values(|x: String| x@) =~= before.map_values(|x: String| x@).push(m.user_id@));
        }
        proof {
            assert(room_user_ids(db@.room_members.take(i + 1), rid@) =~= (if hit {
                room_user_ids(db@.room_members.take(i as int), rid@).push(m@.user_id)
            } else {
                room_user_ids(db@.room_members.take(i as int), rid@)
            }));
        }
        i = i + 1;
    }
    assert(db@.room_members.take(db@.room_members.len() as int) =~= db@.room_members);
    ids
}

fn is_dm_between(db: &ChatDb, r: &Room, a: &String, b: &String) -> (res: bool)
    ensures
        res == dm_between(db@.room_members, a@, b@)(r@),
{
    if !r.is_dm {
        return false;
    }
    let ids = room_user_ids_exec(db, &r.id);
    ids.len() == 2 && crate::store::str_in(&ids, a) && crate::store::str_in(&ids, b)
}

fn make_dm_name(a: &String, b: &String) -> (n: String)
    ensures
        n@ == dm_name(a@, b@),
{
    let (first, second) = if str_lt(b.as_str(), a.as_str()) { (b, a) } else { (a, b) };
    let mut n = concat2("dm:", first.as_str());
    n.append(":");
    n.append(second.as_str());
    n
}

/// Start a direct conversation with another user. Refused with oneself,
/// across a block either way (looked up under the hashes `h`), with a
/// platform bot, or with another owner's
/// bot. The caller's chat user row is made sure of; an existing DM room of
/// the two is reused (its name brought to the sorted form, the caller's
/// membership rewritten), else a private DM room `dm_room_id` is created with
/// both users as admins.
pub fn start_dm(db: &mut ChatDb, caller: &Caller, now: u64, dm_room_id: String, target_user_id: String, h: BlockHashes) -> (r: Result<(), ChatError>)
    requires
        old(db)@.wf(),
        start_dm_verdict(old(db)@, caller@, target_user_id@, h) is Ok
            && first_match(old(db)@.rooms, dm_between(old(db)@.room_members, caller@.user_id.unwrap(), target_user_id@)) is None
            ==> {
                &&& !has_key(old(db)@.rooms, dm_room_id@)
                &&& !has_key(old(db)@.room_members, member_id(dm_room_id@, caller@.user_id.unwrap()))
                &&& !has_key(old(db)@.room_members, member_id(dm_room_id@, target_user_id@))
            },
    ensures
        final(db)@.wf(),
        r == start_dm_verdict(old(db)@, caller@, target_user_id@, h),
        r is Err ==> final(db)@ == old(db)@,
        r is Ok ==> final(db)@ == dm_started(with_caller_user(old(db)@, caller@, now), dm_room_id@, caller@.user_id.unwrap(), target_user_id@, now),
{
    let uid = match &caller.user_id {
        Some(u) => u.clone(),
        None => return Err(ChatError::NotRegistered),
    };
    if uid == target_user_id {
        return Err(ChatError::Invalid);
    }
    if is_blocked_between(db, &uid, &target_user_id, &h) {
        return Err(ChatError::NotPermitted);
    }
    match find_key(&db.chat_users, &target_user_id) {
        Some(ti) => {
            if flag(db.chat_users[ti].is_platform_agent) {
                return Err(ChatError::NotPermitted);
            }
            if flag(db.chat_users[ti].is_bot) && !opt_str_eq(&db.chat_users[ti].bot_owner_user_id, uid.as_str()) {
                return Err(ChatError::NotPermitted);
            }
        },
        None => {},
    }
    let _ = ensure_chat_user(db, &uid, &caller.identity, now);
    let ghost mid = db@;
    assert(mid == with_caller_user(old(db)@, caller@, now));
    let name = make_dm_name(&uid, &target_user_id);
    let test = |r: &Room| -> (b: bool)
        ensures
            b == dm_between(db@.room_members, uid@, target_user_id@)(r@),
        { is_dm_between(db, r, &uid, &target_user_id) };
    let found = position(&db.rooms, test, Ghost(dm_between(mid.room_members, uid@, target_user_id@)));
    proof {
        match found {
            Some(i) => lemma_first_match(mid.rooms, dm_between(mid.room_members, uid@, target_user_id@), i as int),
            None => lemma_filter_empty(mid.rooms, dm_between(mid.room_members, uid@, target_user_id@)),
        }
    }
    match found {
        Some(i) => {
            let rid = db.rooms[i].id.clone();
            proof {
                crate::store::lemma_lookup_index(mid.rooms, i as int);
            }
            if db.rooms[i].name != name {
                let room = take_key(&mut db.rooms, &rid).unwrap();
                proof {
                    lemma_without_key(mid.rooms, rid@);
                }
                insert_new(&mut db.rooms, Room { name, ..room });
            }
            let ghost mid2 = db@;
            let mkey = join2(rid.as_str(), "-", uid.as_str());
            match take_key(&mut db.room_members, &mkey) {
                Some(m) => {
                    proof {
                        lemma_without_key(mid2.room_members, mkey@);
                        assert(m@.key() == mkey@);
                    }
                    insert_new(&mut db.room_members, m);
                },
                None => {
                    proof {
                        crate::store::lemma_without_absent(mid2.room_members, mkey@);
                    }
                },
            }
            assert(db@.rooms == (if mid.rooms[i as int].name != name@ {
                replace_row(mid.rooms, RoomV { name: name@, ..mid.rooms[i as int] })
            } else {
                mid.rooms
            }));
            assert(first_match(mid.rooms, dm_between(mid.room_members, uid@, target_user_id@)) == Some(mid.rooms[i as int]));
            assert(db@ == dm_started(mid, dm_room_id@, uid@, target_user_id@, now));
            Ok(())
        },
        None => {
            let room = Room {
                id: dm_room_id.clone(),
                name,
                created_by: uid.clone(),
                is_private: true,
                is_dm: true,
                created_at: now,
                server_id: None,
                required_tier: None,
                description: None,
                sort_order: None,
                room_type: to_owned_string("text"),
                category_id: None,
                topic: None,
                slowmode_seconds: None,
                nsfw: false,
                parent_room_id: None,
                archived: false,
                locked: false,
                auto_archive_minutes: None,
                default_sort_order: None,
                allow_attachments: None,
                allow_embeds: None,
                allow_reactions: None,
                rules_text: None,
            };
            insert_new(&mut db.rooms, room);
            let m1 = make_member(&dm_room_id, &uid, "admin", now);
            let m2 = make_member(&dm_room_id, &target_user_id, "admin", now);
            proof {
                if m1@.id == m2@.id {
                    assert(m1@.id =~= dm_room_id@ + "-"@ + uid@);
                    assert(dm_room_id@ + "-"@ + uid@ =~= (dm_room_id@ + "-"@) + uid@);
                    assert(dm_room_id@ + "-"@ + target_user_id@ =~= (dm_room_id@ + "-"@) + target_user_id@);
                    lemma_prefix_injective(dm_room_id@ + "-"@, uid@, target_user_id@);
                }
                lemma_push_unique(db@.room_members, m1@);
            }
            insert_new(&mut db.room_members, m1);
            insert_new(&mut db.room_members, m2);
            assert(db@ == dm_started(mid, dm_room_id@, uid@, target_user_id@, now));
            Ok(())
        },
    }
}

} // verus!
