//! What single requests promise, stated over their inputs: the @everyone
//! role's channel overrides reach every member, a timed-out member cannot
//! send, a used-up invite admits nobody, toggling one reaction leaves the
//! others, and a bot's display name holds only plain characters.

use vstd::prelude::*;
use crate::db::ChatDbV;
use crate::context::{CallerV, ChatError};
use crate::tables::{KeyedView, ChannelOverrideV, ReactionV};
use crate::store::{lookup, unique_keys, without_key, key_is_not};
use crate::lookups::{first_match, is_server_owner};
use crate::permissions::{room_bits, base_bits, has_room_permission, role_override_bits, member_override_bits,
    role_override_applies, everyone_bits, assigned_bits, role_bits, PERM_ADMINISTRATOR, PERM_SEND_MESSAGES};
use crate::tables::{ServerRoleV, MemberRoleV};
use crate::lookups::server_membership;
use crate::text::byte_len;
use crate::reducers::servers::server_member_id;
use crate::reducers::messages::{send_outcome, send_state, SendChecks};
use crate::reducers::community::use_invite_verdict;
use crate::reducers::content::{reaction_toggled, same_reaction};
use crate::text::bot_display_name_verdict;

verus! {

/// A role override that denies all of `perm` and applies to the user makes
/// the denied role bits cover `perm`.
proof fn lemma_role_deny_covers(
    db: ChatDbV,
    os: Seq<ChannelOverrideV>,
    server: Seq<char>,
    room: Seq<char>,
    user: Seq<char>,
    j: int,
    perm: u64,
)
    requires
        0 <= j < os.len(),
        role_override_applies(db, server, room, user, os[j]),
        os[j].deny & perm == perm,
    ensures
        role_override_bits(db, os, server, room, user, false) & perm == perm,
    decreases os.len(),
{
    let rest = os.drop_last();
    let a = role_override_bits(db, rest, server, room, user, false);
    let x: u64 = if role_override_applies(db, server, room, user, os.last()) { os.last().deny } else { 0 };
    assert(role_override_bits(db, os, server, room, user, false) == a | x);
    if j == os.len() - 1 {
        assert(x & perm == perm);
        assert((a | x) & perm == perm) by (bit_vector)
            requires
                x & perm == perm,
        ;
    } else {
        assert(rest[j] == os[j]);
        lemma_role_deny_covers(db, rest, server, room, user, j, perm);
        assert((a | x) & perm == perm) by (bit_vector)
            requires
                a & perm == perm,
        ;
    }
}

/// Where no override of `room` allows any bit of `perm`, the allowed role
/// bits hold none of `perm`.
proof fn lemma_role_allow_none(
    db: ChatDbV,
    os: Seq<ChannelOverrideV>,
    server: Seq<char>,
    room: Seq<char>,
    user: Seq<char>,
    perm: u64,
)
    requires
        forall|k: int| 0 <= k < os.len() && (#[trigger] os[k]).room_id == room ==> os[k].allow & perm == 0,
    ensures
        role_override_bits(db, os, server, room, user, true) & perm == 0,
    decreases os.len(),
{
    if os.len() > 0 {
        let rest = os.drop_last();
        assert forall|k: int| 0 <= k < rest.len() && (#[trigger] rest[k]).room_id == room implies rest[k].allow & perm == 0 by {
            assert(rest[k] == os[k]);
        }
        lemma_role_allow_none(db, rest, server, room, user, perm);
        let a = role_override_bits(db, rest, server, room, user, true);
        let x: u64 = if role_override_applies(db, server, room, user, os.last()) { os.last().allow } else { 0 };
        assert(os.last() == os[os.len() - 1]);
        if role_override_applies(db, server, room, user, os.last()) {
            assert(os[os.len() - 1].room_id == room);
        } else {
            assert(0u64 & perm == 0) by (bit_vector);
        }
        assert(x & perm == 0);
        assert(role_override_bits(db, os, server, room, user, true) == a | x);
        assert((a | x) & perm == 0) by (bit_vector)
            requires
                a & perm == 0,
                x & perm == 0,
        ;
    } else {
        assert(0u64 & perm == 0) by (bit_vector);
    }
}

/// Where no override of `room` allows any bit of `perm`, the allowed member
/// bits hold none of `perm`.
proof fn lemma_member_allow_none(os: Seq<ChannelOverrideV>, room: Seq<char>, user: Seq<char>, perm: u64)
    requires
        forall|k: int| 0 <= k < os.len() && (#[trigger] os[k]).room_id == room ==> os[k].allow & perm == 0,
    ensures
        member_override_bits(os, room, user, true) & perm == 0,
    decreases os.len(),
{
    if os.len() > 0 {
        let rest = os.drop_last();
        assert forall|k: int| 0 <= k < rest.len() && (#[trigger] rest[k]).room_id == room implies rest[k].allow & perm == 0 by {
            assert(rest[k] == os[k]);
        }
        lemma_member_allow_none(rest, room, user, perm);
        let a = member_override_bits(rest, room, user, true);
        let x: u64 = if os.last().room_id == room && os.last().target_type == "member"@ && os.last().target_id == user {
            os.last().allow
        } else {
            0
        };
        assert(os.last() == os[os.len() - 1]);
        if os.last().room_id == room && os.last().target_type == "member"@ && os.last().target_id == user {
            assert(os[os.len() - 1].room_id == room);
        } else {
            assert(0u64 & perm == 0) by (bit_vector);
        }
        assert(x & perm == 0);
        assert(member_override_bits(os, room, user, true) == a | x);
        assert((a | x) & perm == 0) by (bit_vector)
            requires
                a & perm == 0,
                x & perm == 0,
        ;
    } else {
        assert(0u64 & perm == 0) by (bit_vector);
    }
}

/// Every user holds the default (@everyone) role of a server: a "role"
/// override in `room` whose target is a default role of `server` applies to
/// any user. So where such an override denies `perm` and no override of the
/// room allows any of it, a user without ADMINISTRATOR has none of `perm` in
/// the room, and nobody but the server's owner may use it there.
pub proof fn law_everyone_override_reaches_every_member(
    db: ChatDbV,
    server: Seq<char>,
    room: Seq<char>,
    user: Seq<char>,
    perm: u64,
    j: int,
    i: int,
)
    requires
        0 <= j < db.channel_overrides.len(),
        db.channel_overrides[j].room_id == room,
        db.channel_overrides[j].target_type == "role"@,
        db.channel_overrides[j].deny & perm == perm,
        0 <= i < db.server_roles.len(),
        db.server_roles[i].id == db.channel_overrides[j].target_id,
        db.server_roles[i].server_id == server,
        db.server_roles[i].is_default,
        forall|k: int| 0 <= k < db.channel_overrides.len() && (#[trigger] db.channel_overrides[k]).room_id == room
            ==> db.channel_overrides[k].allow & perm == 0,
        base_bits(db, server, user) & PERM_ADMINISTRATOR == 0,
    ensures
        room_bits(db, server, room, user) & perm == 0,
        !is_server_owner(db, server, user) ==> !has_room_permission(db, server, room, user, perm),
{
    let os = db.channel_overrides;
    assert(role_override_applies(db, server, room, user, os[j]));
    lemma_role_deny_covers(db, os, server, room, user, j, perm);
    lemma_role_allow_none(db, os, server, room, user, perm);
    lemma_member_allow_none(os, room, user, perm);
    let base = base_bits(db, server, user);
    let d = role_override_bits(db, os, server, room, user, false);
    let a = role_override_bits(db, os, server, room, user, true);
    let md = member_override_bits(os, room, user, false);
    let ma = member_override_bits(os, room, user, true);
    assert((((base & !d) | a) & !md | ma) & perm == 0) by (bit_vector)
        requires
            d & perm == perm,
            a & perm == 0,
            ma & perm == 0,
    ;
}

/// A message to a server room is refused, and changes nothing, when the
/// sender lacks SEND_MESSAGES there.
pub proof fn law_send_needs_send_permission(
    db: ChatDbV,
    c: CallerV,
    id: Seq<char>,
    room: Seq<char>,
    content: Seq<char>,
    parent: Option<Seq<char>>,
    now: u64,
    k: SendChecks,
)
    requires
        c.user_id is Some,
        lookup(db.rooms, room) is Some,
        lookup(db.rooms, room).unwrap().server_id is Some,
        !has_room_permission(db, lookup(db.rooms, room).unwrap().server_id.unwrap(), room, c.user_id.unwrap(), PERM_SEND_MESSAGES),
    ensures
        send_outcome(db, c, room, content, parent, now, k) == Err::<(), ChatError>(ChatError::NotPermitted),
        send_state(db, c, id, room, content, parent, now, k) == db,
{
}

/// A member of a server whose timeout runs past `now` cannot send to any
/// room of that server: the request is refused and changes nothing.
pub proof fn law_timed_out_member_cannot_send(
    db: ChatDbV,
    c: CallerV,
    id: Seq<char>,
    room: Seq<char>,
    content: Seq<char>,
    parent: Option<Seq<char>>,
    now: u64,
    k: SendChecks,
    until: u64,
)
    requires
        c.user_id is Some,
        lookup(db.rooms, room) is Some,
        lookup(db.rooms, room).unwrap().server_id is Some,
        lookup(db.server_members, server_member_id(lookup(db.rooms, room).unwrap().server_id.unwrap(), c.user_id.unwrap()))
            is Some,
        lookup(db.server_members, server_member_id(lookup(db.rooms, room).unwrap().server_id.unwrap(), c.user_id.unwrap()))
            .unwrap().timeout_until == Some(until),
        now < until,
    ensures
        send_outcome(db, c, room, content, parent, now, k) == Err::<(), ChatError>(ChatError::NotPermitted),
        send_state(db, c, id, room, content, parent, now, k) == db,
{
}

/// An invite whose uses have reached its cap admits nobody, and an invite
/// that admits someone is below its cap, so its uses never pass the cap.
pub proof fn law_used_up_invite_admits_nobody(db: ChatDbV, c: CallerV, code: Seq<char>, now: u64)
    requires
        lookup(db.server_invites, code) is Some,
    ensures
        ({
            let inv = lookup(db.server_invites, code).unwrap();
            &&& (inv.max_uses is Some && inv.uses >= inv.max_uses.unwrap()) ==> use_invite_verdict(db, c, code, now) is Err
            &&& use_invite_verdict(db, c, code, now) is Ok ==> (inv.max_uses is None || inv.uses + 1 <= inv.max_uses.unwrap())
        }),
{
}

/// Toggling the reaction of `user` with `emoji` on `message` keeps every
/// other reaction: a row for another message, another user or another emoji
/// stays.
pub proof fn law_toggle_keeps_other_reactions(
    db: ChatDbV,
    message: Seq<char>,
    room: Seq<char>,
    user: Seq<char>,
    emoji: Seq<char>,
    now: u64,
    x: ReactionV,
)
    requires
        unique_keys(db.reactions),
        db.reactions.contains(x),
        !(x.message_id == message && x.user_id == user && x.emoji == emoji),
    ensures
        reaction_toggled(db, message, room, user, emoji, now).reactions.contains(x),
{
    let s = db.reactions;
    let p = same_reaction(message, user, emoji);
    match first_match(s, p) {
        Some(r) => {
            s.filter_lemma(p);
            assert(s.filter(p)[0] == r);
            assert(p(r));
            assert(s.filter(p).contains(r));
            s.lemma_filter_contains_rev(p, r);
            let a = choose|a: int| 0 <= a < s.len() && s[a] == r;
            let b = choose|b: int| 0 <= b < s.len() && s[b] == x;
            assert(s[a].key() != s[b].key());
            let q = key_is_not::<ReactionV>(r.id);
            s.filter_lemma(q);
            assert(q(s[b]));
            assert(without_key(s, r.id).contains(x));
        },
        None => {
            let b = choose|b: int| 0 <= b < s.len() && s[b] == x;
            let id = crate::reducers::content::reaction_id(message, user, emoji);
            let t = s.push(ReactionV { id: id, message_id: message, user_id: user, emoji: emoji, created_at: now, room_id: Some(room) });
            assert(t[b] == x);
        },
    }
}

/// A bot display name is accepted only if each of its characters is an
/// ASCII letter, an ASCII digit, a hyphen or a space.
pub proof fn law_bot_name_plain_characters(name: Seq<char>)
    ensures
        bot_display_name_verdict(name) is Ok ==> forall|i: int| 0 <= i < name.len() ==> {
            let c = #[trigger] name[i];
            ('a' <= c && c <= 'z') || ('A' <= c && c <= 'Z') || ('0' <= c && c <= '9') || c == '-' || c == ' '
        },
{
}

/// The bits of every default role of `server` are among the default bits.
proof fn lemma_everyone_bits_cover(roles: Seq<ServerRoleV>, server: Seq<char>, i: int)
    requires
        0 <= i < roles.len(),
        roles[i].server_id == server,
        roles[i].is_default,
    ensures
        everyone_bits(roles, server) & roles[i].permissions == roles[i].permissions,
    decreases roles.len(),
{
    let rest = roles.drop_last();
    let a = everyone_bits(rest, server);
    let p = roles[i].permissions;
    let x: u64 = if roles.last().server_id == server && roles.last().is_default { roles.last().permissions } else { 0 };
    assert(everyone_bits(roles, server) == a | x);
    if i == roles.len() - 1 {
        assert(x == p);
        assert((a | x) & p == p) by (bit_vector)
            requires
                x == p,
        ;
    } else {
        assert(rest[i] == roles[i]);
        lemma_everyone_bits_cover(rest, server, i);
        assert((a | x) & p == p) by (bit_vector)
            requires
                a & p == p,
        ;
    }
}

/// The bits of every role assigned to `user` in `server` are among the
/// assigned bits.
proof fn lemma_assigned_bits_cover(assignments: Seq<MemberRoleV>, roles: Seq<ServerRoleV>, server: Seq<char>, user: Seq<char>, i: int)
    requires
        0 <= i < assignments.len(),
        assignments[i].server_id == server,
        assignments[i].user_id == user,
    ensures
        assigned_bits(assignments, roles, server, user) & role_bits(roles, assignments[i].role_id)
            == role_bits(roles, assignments[i].role_id),
    decreases assignments.len(),
{
    let rest = assignments.drop_last();
    let a = assigned_bits(rest, roles, server, user);
    let p = role_bits(roles, assignments[i].role_id);
    let l = assignments.last();
    let x: u64 = if l.server_id == server && l.user_id == user { role_bits(roles, l.role_id) } else { 0 };
    assert(assigned_bits(assignments, roles, server, user) == a | x);
    if i == assignments.len() - 1 {
        assert(x == p);
        assert((a | x) & p == p) by (bit_vector)
            requires
                x == p,
        ;
    } else {
        assert(rest[i] == assignments[i]);
        lemma_assigned_bits_cover(rest, roles, server, user, i);
        assert((a | x) & p == p) by (bit_vector)
            requires
                a & p == p,
        ;
    }
}

/// A member's server-level bits hold the bits of the server's default
/// (@everyone) roles and of every role assigned to the member.
pub proof fn law_base_bits_hold_everyone_and_assigned_roles(db: ChatDbV, server: Seq<char>, user: Seq<char>)
    ensures
        forall|i: int| 0 <= i < db.server_roles.len() && (#[trigger] db.server_roles[i]).server_id == server
            && db.server_roles[i].is_default
            ==> base_bits(db, server, user) & db.server_roles[i].permissions == db.server_roles[i].permissions,
        forall|i: int| 0 <= i < db.member_roles.len() && (#[trigger] db.member_roles[i]).server_id == server
            && db.member_roles[i].user_id == user && lookup(db.server_roles, db.member_roles[i].role_id) is Some
            ==> base_bits(db, server, user) & lookup(db.server_roles, db.member_roles[i].role_id).unwrap().permissions
                == lookup(db.server_roles, db.member_roles[i].role_id).unwrap().permissions,
{
    let e = everyone_bits(db.server_roles, server);
    let a = assigned_bits(db.member_roles, db.server_roles, server, user);
    assert forall|i: int| 0 <= i < db.server_roles.len() && (#[trigger] db.server_roles[i]).server_id == server
        && db.server_roles[i].is_default
        implies base_bits(db, server, user) & db.server_roles[i].permissions == db.server_roles[i].permissions by {
        lemma_everyone_bits_cover(db.server_roles, server, i);
        let p = db.server_roles[i].permissions;
        assert((e | a) & p == p) by (bit_vector)
            requires
                e & p == p,
        ;
    }
    assert forall|i: int| 0 <= i < db.member_roles.len() && (#[trigger] db.member_roles[i]).server_id == server
        && db.member_roles[i].user_id == user && lookup(db.server_roles, db.member_roles[i].role_id) is Some
        implies base_bits(db, server, user) & lookup(db.server_roles, db.member_roles[i].role_id).unwrap().permissions
            == lookup(db.server_roles, db.member_roles[i].role_id).unwrap().permissions by {
        lemma_assigned_bits_cover(db.member_roles, db.server_roles, server, user, i);
        let p = lookup(db.server_roles, db.member_roles[i].role_id).unwrap().permissions;
        assert((e | a) & p == p) by (bit_vector)
            requires
                a & p == p,
        ;
    }
}

/// An invite admits a registered caller exactly when it has not expired, its
/// uses are below its cap (if any), its server exists, and the caller has
/// no membership of that server.
pub proof fn law_invite_admits_exactly(db: ChatDbV, c: CallerV, code: Seq<char>, now: u64)
    requires
        c.user_id is Some,
        lookup(db.server_invites, code) is Some,
    ensures
        ({
            let inv = lookup(db.server_invites, code).unwrap();
            use_invite_verdict(db, c, code, now) is Ok <==> {
                &&& (inv.expires_at is None || now <= inv.expires_at.unwrap())
                &&& (inv.max_uses is None || inv.uses < inv.max_uses.unwrap())
                &&& crate::store::has_key(db.chat_servers, inv.server_id)
                &&& server_membership(db, inv.server_id, c.user_id.unwrap()) is None
            }
        }),
{
}

/// A bot display name that is accepted has 2 to 32 bytes, starts and ends
/// with neither a hyphen nor a space, and holds no two spaces in a row; and
/// every name of plain characters with these properties is accepted.
pub proof fn law_bot_name_accepted_exactly(name: Seq<char>)
    ensures
        bot_display_name_verdict(name) is Ok <==> {
            &&& 2 <= byte_len(name) <= 32
            &&& name.len() > 0 ==> name[0] != '-' && name[0] != ' ' && name.last() != '-' && name.last() != ' '
            &&& forall|i: int| 0 <= i && i + 1 < name.len() ==> !(#[trigger] name[i] == ' ' && name[i + 1] == ' ')
            &&& forall|i: int| 0 <= i < name.len() ==> {
                let c = #[trigger] name[i];
                ('a' <= c && c <= 'z') || ('A' <= c && c <= 'Z') || ('0' <= c && c <= '9') || c == '-' || c == ' '
            }
        },
{
}

/// Toggling a reaction that is not there records it: afterwards the user has
/// a reaction with that emoji on that message.
pub proof fn law_toggle_adds_a_missing_reaction(
    db: ChatDbV,
    message: Seq<char>,
    room: Seq<char>,
    user: Seq<char>,
    emoji: Seq<char>,
    now: u64,
)
    requires
        forall|i: int| 0 <= i < db.reactions.len() ==> !(#[trigger] db.reactions[i].message_id == message
            && db.reactions[i].user_id == user && db.reactions[i].emoji == emoji),
    ensures
        exists|x: ReactionV| #[trigger] reaction_toggled(db, message, room, user, emoji, now).reactions.contains(x)
            && x.message_id == message && x.user_id == user && x.emoji == emoji && x.room_id == Some(room),
{
    crate::lookups::lemma_filter_empty(db.reactions, same_reaction(message, user, emoji));
    assert(first_match(db.reactions, same_reaction(message, user, emoji)) is None);
    let t = reaction_toggled(db, message, room, user, emoji, now).reactions;
    let n = db.reactions.len() as int;
    let x = t[n];
    assert(t[n] == x);
    assert(t.contains(x));
    assert(x.message_id == message && x.user_id == user && x.emoji == emoji && x.room_id == Some(room));
}

} // verus!
