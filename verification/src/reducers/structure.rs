//! How a server is laid out and who may do what in a room: categories,
//! channel permission overrides, and room moderation by room admins.

use vstd::prelude::*;
use crate::context::{Caller, CallerV, ChatError};
use crate::db::{ChatDb, ChatDbV};
use crate::tables::{KeyedView, ChannelCategory, ChannelCategoryV, Room, RoomV, ChannelOverride, ChannelOverrideV,
    RoomMember, RoomMemberV, TypingIndicator};
use crate::store::{lookup, has_key, without_key, replace_row, rows, unique_keys, find_key, contains_key,
    insert_new, remove_key, take_key, upsert, retain_keyed, lemma_without_key, lemma_lookup_index,
    lemma_filter_unique, lemma_append_fresh, lemma_filter_has_key};
use crate::lookups::{is_room_admin, room_membership, require_admin, find_membership};
use crate::permissions::{has_server_permission, require_server_permission, PERM_MANAGE_CHANNELS};
use crate::reducers::rooms::typing_not_of;
use crate::common::str_eq;
use crate::text::{trim, byte_len, trim_str, utf8_len, to_owned_string, join2};

verus! {

/// Longest category name, in bytes.
pub const MAX_CATEGORY_NAME_LEN: usize = 64;

/// The caller may manage channels of `server`: a platform admin, or a holder
/// of MANAGE_CHANNELS there.
pub open spec fn manages_channels(db: ChatDbV, c: CallerV, server: Seq<char>, user: Seq<char>) -> bool {
    c.is_platform_admin || has_server_permission(db, server, user, PERM_MANAGE_CHANNELS)
}

fn can_manage_channels(db: &ChatDb, caller: &Caller, server: &String, user: &String) -> (b: bool)
    requires
        db@.wf(),
    ensures
        b == manages_channels(db@, caller@, server@, user@),
{
    caller.is_platform_admin || require_server_permission(db, server, user, PERM_MANAGE_CHANNELS)
}

/// A category name: trimmed, 1 to 64 bytes.
pub open spec fn valid_category_name(name: Seq<char>) -> bool {
    trim(name).len() > 0 && byte_len(trim(name)) <= MAX_CATEGORY_NAME_LEN
}

fn check_category_name(name: &str) -> (b: bool)
    ensures
        b == valid_category_name(name@),
{
    let t = trim_str(name);
    t.unicode_len() > 0 && utf8_len(t) <= MAX_CATEGORY_NAME_LEN
}

/// Outcome of [`create_category`].
pub open spec fn create_category_verdict(db: ChatDbV, c: CallerV, id: Seq<char>, server: Seq<char>, name: Seq<char>) -> Result<(), ChatError> {
    match c.user_id {
        None => Err(ChatError::NotRegistered),
        Some(uid) => if !manages_channels(db, c, server, uid) {
            Err(ChatError::NotPermitted)
        } else if !valid_category_name(name) {
            Err(ChatError::Invalid)
        } else if has_key(db.channel_categories, id) {
            Err(ChatError::AlreadyExists)
        } else {
            Ok(())
        },
    }
}

/// Create a channel category in a server (platform admin or MANAGE_CHANNELS).
pub fn create_category(db: &mut ChatDb, caller: &Caller, now: u64, id: String, server_id: String, name: String, sort_order: u32) -> (r: Result<(), ChatError>)
    requires
        old(db)@.wf(),
    ensures
        final(db)@.wf(),
        r == create_category_verdict(old(db)@, caller@, id@, server_id@, name@),
        r is Err ==> final(db)@ == old(db)@,
        r is Ok ==> final(db)@ == (ChatDbV {
            channel_categories: old(db)@.channel_categories.push(ChannelCategoryV {
                id: id@, server_id: server_id@, name: trim(name@), sort_order: sort_order, created_at: now,
            }),
            ..old(db)@
        }),
{
    let uid = match &caller.user_id {
        Some(u) => u.clone(),
        None => return Err(ChatError::NotRegistered),
    };
    if !can_manage_channels(db, caller, &server_id, &uid) {
        return Err(ChatError::NotPermitted);
    }
    if !check_category_name(name.as_str()) {
        return Err(ChatError::Invalid);
    }
    if contains_key(&db.channel_categories, &id) {
        return Err(ChatError::AlreadyExists);
    }
    let t = to_owned_string(trim_str(name.as_str()));
    insert_new(&mut db.channel_categories, ChannelCategory { id, server_id, name: t, sort_order, created_at: now });
    Ok(())
}

/// The caller manages the channels of the server of category `id`.
pub open spec fn category_manager_verdict(db: ChatDbV, c: CallerV, id: Seq<char>) -> Result<(), ChatError> {
    match c.user_id {
        None => Err(ChatError::NotRegistered),
        Some(uid) => match lookup(db.channel_categories, id) {
            None => Err(ChatError::NotFound),
            Some(cat) => if !manages_channels(db, c, cat.server_id, uid) { Err(ChatError::NotPermitted) } else { Ok(()) },
        },
    }
}

/// Rename a category and set its sort order.
pub fn update_category(db: &mut ChatDb, caller: &Caller, id: String, name: String, sort_order: u32) -> (r: Result<(), ChatError>)
    requires
        old(db)@.wf(),
    ensures
        final(db)@.wf(),
        r == (if category_manager_verdict(old(db)@, caller@, id@) is Err {
            category_manager_verdict(old(db)@, caller@, id@)
        } else if !valid_category_name(name@) {
            Err(ChatError::Invalid)
        } else {
            Ok(())
        }),
        r is Err ==> final(db)@ == old(db)@,
        r is Ok ==> final(db)@ == (ChatDbV {
            channel_categories: replace_row(old(db)@.channel_categories, ChannelCategoryV {
                name: trim(name@), sort_order: sort_order, ..lookup(old(db)@.channel_categories, id@).unwrap()
            }),
            ..old(db)@
        }),
{
    let uid = match &caller.user_id {
        Some(u) => u.clone(),
        None => return Err(ChatError::NotRegistered),
    };
    let ci = match find_key(&db.channel_categories, &id) {
        Some(i) => i,
        None => return Err(ChatError::NotFound),
    };
    let server = db.channel_categories[ci].server_id.clone();
    if !can_manage_channels(db, caller, &server, &uid) {
        return Err(ChatError::NotPermitted);
    }
    if !check_category_name(name.as_str()) {
        return Err(ChatError::Invalid);
    }
    let cat = take_key(&mut db.channel_categories, &id).unwrap();
    proof {
        lemma_without_key(old(db)@.channel_categories, id@);
    }
    insert_new(&mut db.channel_categories, ChannelCategory { name: to_owned_string(trim_str(name.as_str())), sort_order, ..cat });
    Ok(())
}

/// Rooms of category `cat`.
pub open spec fn room_in_category(cat: Seq<char>) -> spec_fn(RoomV) -> bool {
    |r: RoomV| r.category_id == Some(cat)
}

/// Rooms not of category `cat`.
pub open spec fn room_outside_category(cat: Seq<char>) -> spec_fn(RoomV) -> bool {
    |r: RoomV| r.category_id != Some(cat)
}

/// A room without a category.
pub open spec fn uncategorized(r: RoomV) -> RoomV {
    RoomV { category_id: None, ..r }
}

/// Delete a category; its rooms lose their category (and move, rewritten,
/// after the other rooms, in their order).
pub fn delete_category(db: &mut ChatDb, caller: &Caller, id: String) -> (r: Result<(), ChatError>)
    requires
        old(db)@.wf(),
    ensures
        final(db)@.wf(),
        r == category_manager_verdict(old(db)@, caller@, id@),
        r is Err ==> final(db)@ == old(db)@,
        r is Ok ==> final(db)@ == (ChatDbV {
            rooms: old(db)@.rooms.filter(room_outside_category(id@))
                + old(db)@.rooms.filter(room_in_category(id@)).map_values(|r: RoomV| uncategorized(r)),
            channel_categories: without_key(old(db)@.channel_categories, id@),
            ..old(db)@
        }),
{
    let uid = match &caller.user_id {
        Some(u) => u.clone(),
        None => return Err(ChatError::NotRegistered),
    };
    let ci = match find_key(&db.channel_categories, &id) {
        Some(i) => i,
        None => return Err(ChatError::NotFound),
    };
    let server = db.channel_categories[ci].server_id.clone();
    if !can_manage_channels(db, caller, &server, &uid) {
        return Err(ChatError::NotPermitted);
    }
    let ghost orig = db@.rooms;
    let mut kept: Vec<Room> = Vec::new();
    let mut moved: Vec<Room> = Vec::new();
    let mut rest: Vec<Room> = Vec::new();
    std::mem::swap(&mut rest, &mut db.rooms);
    let ghost all = rest@;
    while rest.len() > 0
        invariant
            rows(all) == orig,
            unique_keys(orig),
            rest@.len() <= all.len(),
            rest@ == all.skip(all.len() - rest@.len()),
            rows(kept@) == rows(all.take(all.len() - rest@.len())).filter(room_outside_category(id@)),
            rows(moved@) == rows(all.take(all.len() - rest@.len())).filter(room_in_category(id@)).map_values(|r: RoomV| uncategorized(r)),
        decreases rest.len(),
    {
        let ghost k = all.len() - rest@.len();
        let x = rest.remove(0);
        assert(x == all[k]);
        assert(rest@ == all.skip(k + 1));
        let ghost prev_kept = kept@;
        let ghost prev_moved = moved@;
        proof {
            assert(rows(all.take(k + 1)) =~= rows(all.take(k)).push(x@));
            assert(rows(all.take(k + 1)).drop_last() =~= rows(all.take(k)));
            reveal_with_fuel(Seq::filter, 1);
        }
        let hit = match &x.category_id {
            Some(c) => *c == id,
            None => false,
        };
        if hit {
            moved.push(Room { category_id: None, ..x });
            assert(rows(moved@) =~= rows(prev_moved).push(uncategorized(x@)));
        } else {
            kept.push(x);
            assert(rows(kept@) =~= rows(prev_kept).push(x@));
        }
        proof {
            if hit {
                assert(rows(all.take(k + 1)).filter(room_in_category(id@)) =~= rows(all.take(k)).filter(room_in_category(id@)).push(x@));
            }
        }
    }
    assert(all.take(all.len() as int) =~= all);
    let ghost kv = rows(kept@);
    let ghost mv = rows(moved@);
    assert(rest@.len() == 0);
    assert(rows(all.take(all.len() - rest@.len())) == orig);
    assert(kv == orig.filter(room_outside_category(id@)));
    assert(mv == orig.filter(room_in_category(id@)).map_values(|r: RoomV| uncategorized(r)));
    proof {
        lemma_filter_unique(orig, room_outside_category(id@));
        lemma_filter_unique(orig, room_in_category(id@));
        let ins = orig.filter(room_in_category(id@));
        assert(unique_keys(mv)) by {
            assert forall|i: int, j: int| 0 <= i < mv.len() && 0 <= j < mv.len() && i != j implies #[trigger] mv[i].key() != #[trigger] mv[j].key() by {
                assert(mv[i] == uncategorized(ins[i]) && mv[j] == uncategorized(ins[j]));
                assert(ins[i].key() != ins[j].key());
            }
        }
        assert forall|i: int| 0 <= i < mv.len() implies !has_key(kv, #[trigger] mv[i].key()) by {
            assert(mv[i] == uncategorized(ins[i]));
            assert(room_in_category(id@)(ins[i]));
            orig.lemma_filter_contains_rev(room_in_category(id@), ins[i]);
            lemma_filter_has_key(orig, room_outside_category(id@), mv[i].key());
            if has_key(kv, mv[i].key()) {
                let a = choose|a: int| 0 <= a < orig.len() && #[trigger] orig[a].key() == mv[i].key() && room_outside_category(id@)(orig[a]);
                let b = choose|b: int| 0 <= b < orig.len() && orig[b] == ins[i];
                assert(a != b);
                assert(orig[a].key() != orig[b].key());
            }
        }
        lemma_append_fresh(kv, mv);
    }
    let ghost before_append = kept@;
    kept.append(&mut moved);
    assert(rows(kept@) =~= kv + mv);
    db.rooms = kept;
    remove_key(&mut db.channel_categories, &id);
    Ok(())
}

/// Outcome of [`move_room_to_category`].
pub open spec fn move_room_verdict(db: ChatDbV, c: CallerV, room: Seq<char>, cat: Option<Seq<char>>) -> Result<(), ChatError> {
    match c.user_id {
        None => Err(ChatError::NotRegistered),
        Some(uid) => match lookup(db.rooms, room) {
            None => Err(ChatError::NotFound),
            Some(r) => match r.server_id {
                None => Err(ChatError::Invalid),
                Some(sid) => if !manages_channels(db, c, sid, uid) {
                    Err(ChatError::NotPermitted)
                } else if cat is Some && !has_key(db.channel_categories, cat.unwrap()) {
                    Err(ChatError::NotFound)
                } else {
                    Ok(())
                },
            },
        },
    }
}

/// Move a server room into a category, or out of any (none).
pub fn move_room_to_category(db: &mut ChatDb, caller: &Caller, room_id: String, category_id: Option<String>) -> (r: Result<(), ChatError>)
    requires
        old(db)@.wf(),
    ensures
        final(db)@.wf(),
        r == move_room_verdict(old(db)@, caller@, room_id@, crate::tables::opt_view(category_id)),
        r is Err ==> final(db)@ == old(db)@,
        r is Ok ==> final(db)@ == (ChatDbV {
            rooms: replace_row(old(db)@.rooms, RoomV { category_id: crate::tables::opt_view(category_id), ..lookup(old(db)@.rooms, room_id@).unwrap() }),
            ..old(db)@
        }),
{
    let uid = match &caller.user_id {
        Some(u) => u.clone(),
        None => return Err(ChatError::NotRegistered),
    };
    let ri = match find_key(&db.rooms, &room_id) {
        Some(i) => i,
        None => return Err(ChatError::NotFound),
    };
    let server = match &db.rooms[ri].server_id {
        Some(s) => s.clone(),
        None => return Err(ChatError::Invalid),
    };
    if !can_manage_channels(db, caller, &server, &uid) {
        return Err(ChatError::NotPermitted);
    }
    match &category_id {
        Some(c) => {
            if !contains_key(&db.channel_categories, c) {
                return Err(ChatError::NotFound);
            }
        },
        None => {},
    }
    let room = take_key(&mut db.rooms, &room_id).unwrap();
    proof {
        lemma_without_key(old(db)@.rooms, room_id@);
    }
    insert_new(&mut db.rooms, Room { category_id, ..room });
    Ok(())
}

/// Id of a channel override: "<room>-<target type>-<target>".
pub open spec fn override_id(room: Seq<char>, target_type: Seq<char>, target: Seq<char>) -> Seq<char> {
    room + "-"@ + target_type + "-"@ + target
}

/// The caller holds MANAGE_CHANNELS in the server of room `room`.
pub open spec fn override_manager_verdict(db: ChatDbV, c: CallerV, room: Seq<char>) -> Result<(), ChatError> {
    match c.user_id {
        None => Err(ChatError::NotRegistered),
        Some(uid) => match lookup(db.rooms, room) {
            None => Err(ChatError::NotFound),
            Some(r) => match r.server_id {
                None => Err(ChatError::Invalid),
                Some(sid) => if !has_server_permission(db, sid, uid, PERM_MANAGE_CHANNELS) { Err(ChatError::NotPermitted) } else { Ok(()) },
            },
        },
    }
}

fn check_override_manager(db: &ChatDb, caller: &Caller, room: &String) -> (r: Result<(), ChatError>)
    requires
        db@.wf(),
    ensures
        r == override_manager_verdict(db@, caller@, room@),
{
    let uid = match &caller.user_id {
        Some(u) => u,
        None => return Err(ChatError::NotRegistered),
    };
    let ri = match find_key(&db.rooms, room) {
        Some(i) => i,
        None => return Err(ChatError::NotFound),
    };
    match &db.rooms[ri].server_id {
        None => Err(ChatError::Invalid),
        Some(sid) => if !require_server_permission(db, sid, uid, PERM_MANAGE_CHANNELS) { Err(ChatError::NotPermitted) } else { Ok(()) },
    }
}

/// Set a permission override of a server room for a role or a member
/// (MANAGE_CHANNELS); an earlier override for the same target is replaced.
pub fn set_channel_override(
    db: &mut ChatDb,
    caller: &Caller,
    room_id: String,
    target_type: String,
    target_id: String,
    allow: u64,
    deny: u64,
) -> (r: Result<(), ChatError>)
    requires
        old(db)@.wf(),
    ensures
        final(db)@.wf(),
        r == (if override_manager_verdict(old(db)@, caller@, room_id@) is Err {
            override_manager_verdict(old(db)@, caller@, room_id@)
        } else if target_type@ != "role"@ && target_type@ != "member"@ {
            Err(ChatError::Invalid)
        } else {
            Ok(())
        }),
        r is Err ==> final(db)@ == old(db)@,
        r is Ok ==> final(db)@ == (ChatDbV {
            channel_overrides: replace_row(old(db)@.channel_overrides, ChannelOverrideV {
                id: override_id(room_id@, target_type@, target_id@), room_id: room_id@, target_type: target_type@,
                target_id: target_id@, allow: allow, deny: deny,
            }),
            ..old(db)@
        }),
{
    match check_override_manager(db, caller, &room_id) {
        Err(e) => return Err(e),
        Ok(()) => {},
    }
    if !str_eq(target_type.as_str(), "role") && !str_eq(target_type.as_str(), "member") {
        return Err(ChatError::Invalid);
    }
    let mut id = join2(room_id.as_str(), "-", target_type.as_str());
    id.append("-");
    id.append(target_id.as_str());
    upsert(&mut db.channel_overrides, ChannelOverride { id, room_id, target_type, target_id, allow, deny });
    Ok(())
}

/// Outcome of [`delete_channel_override`].
pub open spec fn delete_override_verdict(db: ChatDbV, c: CallerV, id: Seq<char>) -> Result<(), ChatError> {
    if c.user_id is None {
        Err(ChatError::NotRegistered)
    } else {
        match lookup(db.channel_overrides, id) {
            None => Err(ChatError::NotFound),
            Some(o) => override_manager_verdict(db, c, o.room_id),
        }
    }
}

/// Delete a channel override (MANAGE_CHANNELS in the room's server).
pub fn delete_channel_override(db: &mut ChatDb, caller: &Caller, id: String) -> (r: Result<(), ChatError>)
    requires
        old(db)@.wf(),
    ensures
        final(db)@.wf(),
        r == delete_override_verdict(old(db)@, caller@, id@),
        r is Err ==> final(db)@ == old(db)@,
        r is Ok ==> final(db)@ == (ChatDbV { channel_overrides: without_key(old(db)@.channel_overrides, id@), ..old(db)@ }),
{
    if caller.user_id.is_none() {
        return Err(ChatError::NotRegistered);
    }
    let oi = match find_key(&db.channel_overrides, &id) {
        Some(i) => i,
        None => return Err(ChatError::NotFound),
    };
    let room = db.channel_overrides[oi].room_id.clone();
    match check_override_manager(db, caller, &room) {
        Err(e) => return Err(e),
        Ok(()) => {},
    }
    remove_key(&mut db.channel_overrides, &id);
    Ok(())
}

/// What a room admin may do to another member.
#[derive(Clone, Copy, Debug, PartialEq, Eq, Structural)]
pub enum RoomAction {
    Kick,
    Ban,
    Promote,
    Demote,
}

/// Outcome of a room admin's action on `target`: `Ok(false)` when nothing is
/// to be done (no membership, or the target already has the role).
pub open spec fn room_action_verdict(db: ChatDbV, c: CallerV, room: Seq<char>, target: Seq<char>, action: RoomAction) -> Result<bool, ChatError> {
    match c.user_id {
        None => Err(ChatError::NotRegistered),
        Some(uid) => if !is_room_admin(db, room, uid) {
            Err(ChatError::NotPermitted)
        } else if uid == target && action != RoomAction::Promote {
            Err(ChatError::Invalid)
        } else {
            match room_membership(db, room, target) {
                None => Ok(false),
                Some(m) => match action {
                    RoomAction::Kick | RoomAction::Ban => if m.role == "admin"@ { Err(ChatError::NotPermitted) } else { Ok(true) },
                    RoomAction::Promote => if m.role == "admin"@ { Ok(false) } else if m.role == "banned"@ { Err(ChatError::NotPermitted) } else { Ok(true) },
                    RoomAction::Demote => if m.role != "admin"@ { Ok(false) } else { Ok(true) },
                },
            }
        },
    }
}

/// The database after the action on membership `m` of `target` in `room`.
pub open spec fn room_action_applied(db: ChatDbV, room: Seq<char>, target: Seq<char>, m: RoomMemberV, action: RoomAction) -> ChatDbV {
    match action {
        RoomAction::Kick => ChatDbV {
            room_members: without_key(db.room_members, m.id),
            typing_indicators: db.typing_indicators.filter(typing_not_of(room, target)),
            ..db
        },
        RoomAction::Ban => ChatDbV {
            room_members: replace_row(db.room_members, RoomMemberV { role: "banned"@, ..m }),
            typing_indicators: db.typing_indicators.filter(typing_not_of(room, target)),
            ..db
        },
        RoomAction::Promote => ChatDbV { room_members: replace_row(db.room_members, RoomMemberV { role: "admin"@, ..m }), ..db },
        RoomAction::Demote => ChatDbV { room_members: replace_row(db.room_members, RoomMemberV { role: "member"@, ..m }), ..db },
    }
}

fn moderate_room_member(db: &mut ChatDb, caller: &Caller, room_id: String, target_user_id: String, action: RoomAction) -> (r: Result<(), ChatError>)
    requires
        old(db)@.wf(),
    ensures
        final(db)@.wf(),
        match room_action_verdict(old(db)@, caller@, room_id@, target_user_id@, action) {
            Err(e) => r == Err::<(), ChatError>(e) && final(db)@ == old(db)@,
            Ok(false) => r is Ok && final(db)@ == old(db)@,
            Ok(true) => r is Ok && final(db)@ == room_action_applied(old(db)@, room_id@, target_user_id@,
                room_membership(old(db)@, room_id@, target_user_id@).unwrap(), action),
        },
{
    let uid = match &caller.user_id {
        Some(u) => u.clone(),
        None => return Err(ChatError::NotRegistered),
    };
    if !require_admin(db, &room_id, &uid) {
        return Err(ChatError::NotPermitted);
    }
    if uid == target_user_id && action != RoomAction::Promote {
        return Err(ChatError::Invalid);
    }
    let k = match find_membership(db, &room_id, &target_user_id) {
        Some(k) => k,
        None => return Ok(()),
    };
    let is_admin = str_eq(db.room_members[k].role.as_str(), "admin");
    let is_banned = str_eq(db.room_members[k].role.as_str(), "banned");
    let new_role = match action {
        RoomAction::Kick | RoomAction::Ban => {
            if is_admin {
                return Err(ChatError::NotPermitted);
            }
            "banned"
        },
        RoomAction::Promote => {
            if is_admin {
                return Ok(());
            }
            if is_banned {
                return Err(ChatError::NotPermitted);
            }
            "admin"
        },
        RoomAction::Demote => {
            if !is_admin {
                return Ok(());
            }
            "member"
        },
    };
    let mid = db.room_members[k].id.clone();
    proof {
        lemma_lookup_index(db@.room_members, k as int);
        lemma_without_key(old(db)@.room_members, mid@);
    }
    let m = take_key(&mut db.room_members, &mid).unwrap();
    if action != RoomAction::Kick {
        insert_new(&mut db.room_members, RoomMember { role: to_owned_string(new_role), ..m });
    }
    if action == RoomAction::Kick || action == RoomAction::Ban {
        let keep = |t: &TypingIndicator| -> (b: bool)
            ensures b == typing_not_of(room_id@, target_user_id@)(t@),
            { !(t.room_id == room_id && t.user_id == target_user_id) };
        retain_keyed(&mut db.typing_indicators, keep, Ghost(typing_not_of(room_id@, target_user_id@)));
    }
    Ok(())
}

/// Remove a member from a room (room admin; not oneself, not another admin);
/// their typing markers there go. A user without membership changes nothing.
pub fn kick_user(db: &mut ChatDb, caller: &Caller, room_id: String, target_user_id: String) -> (r: Result<(), ChatError>)
    requires
        old(db)@.wf(),
    ensures
        final(db)@.wf(),
        match room_action_verdict(old(db)@, caller@, room_id@, target_user_id@, RoomAction::Kick) {
            Err(e) => r == Err::<(), ChatError>(e) && final(db)@ == old(db)@,
            Ok(false) => r is Ok && final(db)@ == old(db)@,
            Ok(true) => r is Ok && final(db)@ == room_action_applied(old(db)@, room_id@, target_user_id@,
                room_membership(old(db)@, room_id@, target_user_id@).unwrap(), RoomAction::Kick),
        },
{
    moderate_room_member(db, caller, room_id, target_user_id, RoomAction::Kick)
}

/// Ban a member from a room (room admin; not oneself, not another admin):
/// the membership stays with role "banned", and their typing markers there go.
pub fn ban_user(db: &mut ChatDb, caller: &Caller, room_id: String, target_user_id: String) -> (r: Result<(), ChatError>)
    requires
        old(db)@.wf(),
    ensures
        final(db)@.wf(),
        match room_action_verdict(old(db)@, caller@, room_id@, target_user_id@, RoomAction::Ban) {
            Err(e) => r == Err::<(), ChatError>(e) && final(db)@ == old(db)@,
            Ok(false) => r is Ok && final(db)@ == old(db)@,
            Ok(true) => r is Ok && final(db)@ == room_action_applied(old(db)@, room_id@, target_user_id@,
                room_membership(old(db)@, room_id@, target_user_id@).unwrap(), RoomAction::Ban),
        },
{
    moderate_room_member(db, caller, room_id, target_user_id, RoomAction::Ban)
}

/// Make a member a room admin (room admin); a banned user cannot be promoted.
pub fn promote_to_admin(db: &mut ChatDb, caller: &Caller, room_id: String, target_user_id: String) -> (r: Result<(), ChatError>)
    requires
        old(db)@.wf(),
    ensures
        final(db)@.wf(),
        match room_action_verdict(old(db)@, caller@, room_id@, target_user_id@, RoomAction::Promote) {
            Err(e) => r == Err::<(), ChatError>(e) && final(db)@ == old(db)@,
            Ok(false) => r is Ok && final(db)@ == old(db)@,
            Ok(true) => r is Ok && final(db)@ == room_action_applied(old(db)@, room_id@, target_user_id@,
                room_membership(old(db)@, room_id@, target_user_id@).unwrap(), RoomAction::Promote),
        },
{
    moderate_room_member(db, caller, room_id, target_user_id, RoomAction::Promote)
}

/// Make a room admin a plain member again (room admin; not oneself).
pub fn demote_from_admin(db: &mut ChatDb, caller: &Caller, room_id: String, target_user_id: String) -> (r: Result<(), ChatError>)
    requires
        old(db)@.wf(),
    ensures
        final(db)@.wf(),
        match room_action_verdict(old(db)@, caller@, room_id@, target_user_id@, RoomAction::Demote) {
            Err(e) => r == Err::<(), ChatError>(e) && final(db)@ == old(db)@,
            Ok(false) => r is Ok && final(db)@ == old(db)@,
            Ok(true) => r is Ok && final(db)@ == room_action_applied(old(db)@, room_id@, target_user_id@,
                room_membership(old(db)@, room_id@, target_user_id@).unwrap(), RoomAction::Demote),
        },
{
    moderate_room_member(db, caller, room_id, target_user_id, RoomAction::Demote)
}

} // verus!
