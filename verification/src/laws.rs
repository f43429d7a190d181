//! Properties of the service that span several requests or hold of every
//! state, stated over the same spec functions as the requests' contracts.

use vstd::prelude::*;
use crate::db::ChatDbV;
use crate::tables::{KeyedView, ReactionV, ReactionRoomIndexV, MessageEditV, MessageEditRoomIndexV, ChatUserV, AgentSpawnLimitV,
    StarredChannelV, UserBlockV, RoomMemberV, UserIdentityLinkV, ServerEmojiV, AgentCredentialV};
use crate::store::{has_key, without_key, key_is_not, keys_where, unique_keys, lemma_without_absent};
use crate::lookups::{first_match, member_of, lemma_first_match};
use crate::membership::member_row;
use crate::reducers::content::{reaction_toggled, same_reaction, reaction_id};
use crate::reducers::rooms::{room_removed, reaction_in, edit_in, poll_in, msg_in};
use crate::reducers::personal::{star_id, block_id, block_verdict, blocks_by, MAX_BLOCKS_PER_USER};
use crate::reducers::community::{create_emoji_verdict, emoji_of, MAX_EMOJIS_PER_SERVER};
use crate::reducers::agents::{provision_user_agent_verdict, owned_by, agent_quota};
use crate::common::row_tier;
use crate::context::{CallerV, ChatError};
use crate::store::lookup;
use crate::reducers::agents::{seed_row, seeded_limits, flag_swarm_bot};
use crate::reducers::index_backfill::{reactions_indexed, edits_indexed};
use crate::reducers::sessions::{linked, link_of, is_oldest, oldest_identity, pruned, MAX_LINKS_PER_USER};
use crate::reducers::agent_removal::{agent_tree, within_steps, children_of, is_child_row, deprovisioned};

use crate::membership::{join_rooms, joinable, member_id};
use crate::id_list::id_list;
use crate::swarm_repeat_law::lemma_join_cover;

verus! {

/// A row pushed onto a table keeps every key the table had.
proof fn lemma_has_key_push<V: KeyedView>(s: Seq<V>, x: V, k: Seq<char>)
    requires
        has_key(s, k),
    ensures
        has_key(s.push(x), k),
{
    let i = choose|i: int| 0 <= i < s.len() && #[trigger] s[i].key() == k;
    assert(s.push(x)[i] == s[i]);
}

/// Dropping the key of a row just pushed onto a table without that key gives
/// the table back.
proof fn lemma_without_pushed<V: KeyedView>(s: Seq<V>, x: V)
    requires
        !has_key(s, x.key()),
    ensures
        without_key(s.push(x), x.key()) == s,
{
    reveal_with_fuel(Seq::filter, 1);
    lemma_without_absent(s, x.key());
    assert(s.push(x).drop_last() =~= s);
}

/// Reacting twice with the same emoji to a message the user had not reacted
/// to with it leaves the database as it was.
pub proof fn law_reaction_toggle_twice_restores(
    db: ChatDbV,
    message: Seq<char>,
    room: Seq<char>,
    user: Seq<char>,
    emoji: Seq<char>,
    now: u64,
)
    requires
        db.wf(),
        first_match(db.reactions, same_reaction(message, user, emoji)) is None,
        !has_key(db.reactions, reaction_id(message, user, emoji)),
        !has_key(db.reaction_room_index, reaction_id(message, user, emoji)),
    ensures
        reaction_toggled(reaction_toggled(db, message, room, user, emoji, now), message, room, user, emoji, now) == db,
{
    let id = reaction_id(message, user, emoji);
    let x = ReactionV { id: id, message_id: message, user_id: user, emoji: emoji, created_at: now, room_id: Some(room) };
    let y = ReactionRoomIndexV { reaction_id: id, room_id: room, message_id: message, user_id: user, emoji: emoji, created_at: now };
    let once = reaction_toggled(db, message, room, user, emoji, now);
    assert(once.reactions == db.reactions.push(x));
    lemma_filter_empty_first(db.reactions, same_reaction(message, user, emoji));
    assert forall|j: int| 0 <= j < db.reactions.len() implies !same_reaction(message, user, emoji)(#[trigger] db.reactions.push(x)[j]) by {
        assert(db.reactions.push(x)[j] == db.reactions[j]);
    }
    lemma_first_match(db.reactions.push(x), same_reaction(message, user, emoji), db.reactions.len() as int);
    lemma_without_pushed(db.reactions, x);
    lemma_without_pushed(db.reaction_room_index, y);
    assert(reaction_toggled(once, message, room, user, emoji, now) =~= db);
}

/// When no element satisfies `p`, every element fails it.
proof fn lemma_filter_empty_first<V>(s: Seq<V>, p: spec_fn(V) -> bool)
    requires
        first_match(s, p) is None,
    ensures
        forall|j: int| 0 <= j < s.len() ==> !p(#[trigger] s[j]),
{
    s.filter_lemma(p);
    assert forall|j: int| 0 <= j < s.len() implies !p(#[trigger] s[j]) by {
        if p(s[j]) {
            assert(s.filter(p).contains(s[j]));
        }
    }
}

/// Deleting a room leaves neither the room nor any message, pin, attachment,
/// bookmark, read position, poll, scheduled message, channel override,
/// membership, typing marker, draft, invitation, webhook, webhook message or
/// forum tag link of it; no reaction or edit recorded in it or made on one of
/// its messages; and no index row of those reactions and edits nor vote in
/// its polls.
pub proof fn law_deleted_room_leaves_no_trace(db: ChatDbV, room: Seq<char>)
    requires
        db.wf(),
    ensures
        ({
            let d = room_removed(db, room);
            let mids = keys_where(db.messages, msg_in(room));
            &&& !has_key(d.rooms, room)
            &&& forall|i: int| 0 <= i < d.messages.len() ==> #[trigger] d.messages[i].room_id != room
            &&& forall|i: int| 0 <= i < d.reactions.len() ==> #[trigger] d.reactions[i].room_id != Some(room)
                && !mids.contains(d.reactions[i].message_id)
            &&& forall|i: int| 0 <= i < d.reaction_room_index.len()
                ==> !keys_where(db.reactions, reaction_in(room, mids)).contains(#[trigger] d.reaction_room_index[i].reaction_id)
            &&& forall|i: int| 0 <= i < d.message_edits.len() ==> #[trigger] d.message_edits[i].room_id != Some(room)
                && !mids.contains(d.message_edits[i].message_id)
            &&& forall|i: int| 0 <= i < d.message_edit_room_index.len()
                ==> !keys_where(db.message_edits, edit_in(room, mids)).contains(#[trigger] d.message_edit_room_index[i].edit_id)
            &&& forall|i: int| 0 <= i < d.pinned_messages.len() ==> #[trigger] d.pinned_messages[i].room_id != room
            &&& forall|i: int| 0 <= i < d.message_attachments.len() ==> #[trigger] d.message_attachments[i].room_id != room
            &&& forall|i: int| 0 <= i < d.bookmarks.len() ==> #[trigger] d.bookmarks[i].room_id != room
            &&& forall|i: int| 0 <= i < d.read_positions.len() ==> #[trigger] d.read_positions[i].room_id != room
            &&& forall|i: int| 0 <= i < d.polls.len() ==> #[trigger] d.polls[i].room_id != room
            &&& forall|i: int| 0 <= i < d.poll_votes.len()
                ==> !keys_where(db.polls, poll_in(room)).contains(#[trigger] d.poll_votes[i].poll_id)
            &&& forall|i: int| 0 <= i < d.scheduled_messages.len() ==> #[trigger] d.scheduled_messages[i].room_id != room
            &&& forall|i: int| 0 <= i < d.channel_overrides.len() ==> #[trigger] d.channel_overrides[i].room_id != room
            &&& forall|i: int| 0 <= i < d.room_members.len() ==> #[trigger] d.room_members[i].room_id != room
            &&& forall|i: int| 0 <= i < d.typing_indicators.len() ==> #[trigger] d.typing_indicators[i].room_id != room
            &&& forall|i: int| 0 <= i < d.drafts.len() ==> #[trigger] d.drafts[i].room_id != room
            &&& forall|i: int| 0 <= i < d.room_invitations.len() ==> #[trigger] d.room_invitations[i].room_id != room
            &&& forall|i: int| 0 <= i < d.webhooks.len() ==> #[trigger] d.webhooks[i].room_id != room
            &&& forall|i: int| 0 <= i < d.webhook_messages.len() ==> #[trigger] d.webhook_messages[i].room_id != room
            &&& forall|i: int| 0 <= i < d.forum_post_tags.len() ==> #[trigger] d.forum_post_tags[i].thread_room_id != room
        }),
{
    let mids = keys_where(db.messages, msg_in(room));
    let rids = keys_where(db.reactions, reaction_in(room, mids));
    let eids = keys_where(db.message_edits, edit_in(room, mids));
    let pids = keys_where(db.polls, poll_in(room));
    crate::store::lemma_without_key(db.rooms, room);
    db.messages.filter_lemma(crate::reducers::rooms::msg_elsewhere(room));
    db.reactions.filter_lemma(crate::reducers::rooms::reaction_elsewhere(room, mids));
    db.reaction_room_index.filter_lemma(crate::reducers::rooms::reaction_index_outside(rids));
    db.message_edits.filter_lemma(crate::reducers::rooms::edit_elsewhere(room, mids));
    db.message_edit_room_index.filter_lemma(crate::reducers::rooms::edit_index_outside(eids));
    db.pinned_messages.filter_lemma(crate::reducers::rooms::pin_elsewhere(room));
    db.message_attachments.filter_lemma(crate::reducers::rooms::attachment_elsewhere(room));
    db.bookmarks.filter_lemma(crate::reducers::rooms::bookmark_elsewhere(room));
    db.read_positions.filter_lemma(crate::reducers::rooms::read_position_elsewhere(room));
    db.polls.filter_lemma(crate::reducers::rooms::poll_elsewhere(room));
    db.poll_votes.filter_lemma(crate::reducers::rooms::vote_outside(pids));
    db.scheduled_messages.filter_lemma(crate::reducers::rooms::scheduled_elsewhere(room));
    db.channel_overrides.filter_lemma(crate::reducers::rooms::override_elsewhere(room));
    db.room_members.filter_lemma(crate::reducers::rooms::member_elsewhere(room));
    db.typing_indicators.filter_lemma(crate::reducers::rooms::typing_elsewhere(room));
    db.drafts.filter_lemma(crate::reducers::rooms::draft_elsewhere(room));
    db.room_invitations.filter_lemma(crate::reducers::rooms::invitation_elsewhere(room));
    db.webhooks.filter_lemma(crate::reducers::rooms::webhook_elsewhere(room));
    db.webhook_messages.filter_lemma(crate::reducers::rooms::webhook_message_elsewhere(room));
    db.forum_post_tags.filter_lemma(crate::reducers::rooms::post_tag_elsewhere(room));
}

/// Joining a room one has no membership in and then leaving it gives the
/// memberships back as they were, and no membership of the user in the room
/// remains.
pub proof fn law_join_then_leave_restores_memberships(members: Seq<RoomMemberV>, room: Seq<char>, user: Seq<char>, now: u64)
    requires
        unique_keys(members),
        first_match(members, member_of(room, user)) is None,
        !has_key(members, member_row(room, user, "member"@, now).id),
    ensures
        ({
            let joined = members.push(member_row(room, user, "member"@, now));
            &&& first_match(joined, member_of(room, user)) == Some(member_row(room, user, "member"@, now))
            &&& without_key(joined, member_row(room, user, "member"@, now).id) == members
            &&& first_match(without_key(joined, member_row(room, user, "member"@, now).id), member_of(room, user)) is None
        }),
{
    let x = member_row(room, user, "member"@, now);
    let joined = members.push(x);
    lemma_filter_empty_first(members, member_of(room, user));
    assert forall|j: int| 0 <= j < members.len() implies !member_of(room, user)(#[trigger] joined[j]) by {
        assert(joined[j] == members[j]);
    }
    lemma_first_match(joined, member_of(room, user), members.len() as int);
    lemma_without_pushed(members, x);
}

/// Starring a channel twice is the same as starring it once, and starring a
/// channel that was not starred and then unstarring it gives the starred
/// channels back.
pub proof fn law_star_idempotent_and_undone(stars: Seq<StarredChannelV>, user: Seq<char>, room: Seq<char>, now: u64, later: u64)
    requires
        !has_key(stars, star_id(user, room)),
    ensures
        ({
            let id = star_id(user, room);
            let once = stars.push(StarredChannelV { id: id, user_id: user, room_id: room, starred_at: now });
            let twice = if has_key(once, id) {
                once
            } else {
                once.push(StarredChannelV { id: id, user_id: user, room_id: room, starred_at: later })
            };
            &&& twice == once
            &&& without_key(once, id) == stars
        }),
{
    let row = StarredChannelV { id: star_id(user, room), user_id: user, room_id: room, starred_at: now };
    let once = stars.push(row);
    assert(once[stars.len() as int] == row);
    assert(once[stars.len() as int].key() == star_id(user, room));
    lemma_without_pushed(stars, row);
}

/// Blocking a user not yet blocked and then unblocking gives the blocks back.
pub proof fn law_block_then_unblock_restores(blocks: Seq<UserBlockV>, user: Seq<char>, hash: Seq<char>, now: u64)
    requires
        !has_key(blocks, block_id(user, hash)),
    ensures
        ({
            let row = UserBlockV { id: block_id(user, hash), blocker_id: user, blocked_id: hash, created_at: now };
            &&& has_key(blocks.push(row), block_id(user, hash))
            &&& without_key(blocks.push(row), block_id(user, hash)) == blocks
        }),
{
    let row = UserBlockV { id: block_id(user, hash), blocker_id: user, blocked_id: hash, created_at: now };
    assert(blocks.push(row)[blocks.len() as int] == row);
    lemma_without_pushed(blocks, row);
}

proof fn lemma_seed_row_keys(l: Seq<AgentSpawnLimitV>, t: Seq<char>, n: u32, k: Seq<char>)
    ensures
        has_key(seed_row(l, t, n), t),
        has_key(l, k) ==> has_key(seed_row(l, t, n), k),
        has_key(l, t) ==> seed_row(l, t, n) == l,
{
    if !has_key(l, t) {
        let x = AgentSpawnLimitV { tier: t, max_concurrent_agents: n, bot_rate_limit_ms: Some(5000), max_servers: Some(n) };
        assert(l.push(x)[l.len() as int] == x);
        assert(l.push(x)[l.len() as int].key() == t);
        if has_key(l, k) {
            lemma_has_key_push(l, x, k);
        }
    }
}

/// Seeding the default spawn limits twice is the same as seeding them once.
pub proof fn law_spawn_limit_seeding_idempotent(limits: Seq<AgentSpawnLimitV>)
    ensures
        seeded_limits(seeded_limits(limits)) == seeded_limits(limits),
{
    let l1 = seed_row(limits, "free"@, 0);
    let l2 = seed_row(l1, "pro"@, 3);
    let l3 = seed_row(l2, "creator"@, 10);
    let l4 = seed_row(l3, "team"@, 25);
    let l5 = seed_row(l4, "admin"@, 1000);
    let s = seed_row(l5, "developer"@, 1000);
    lemma_seed_row_keys(limits, "free"@, 0, "free"@);
    lemma_seed_row_keys(l1, "pro"@, 3, "free"@);
    lemma_seed_row_keys(l2, "creator"@, 10, "free"@);
    lemma_seed_row_keys(l3, "team"@, 25, "free"@);
    lemma_seed_row_keys(l4, "admin"@, 1000, "free"@);
    lemma_seed_row_keys(l5, "developer"@, 1000, "free"@);
    lemma_seed_row_keys(l2, "creator"@, 10, "pro"@);
    lemma_seed_row_keys(l3, "team"@, 25, "pro"@);
    lemma_seed_row_keys(l4, "admin"@, 1000, "pro"@);
    lemma_seed_row_keys(l5, "developer"@, 1000, "pro"@);
    lemma_seed_row_keys(l3, "team"@, 25, "creator"@);
    lemma_seed_row_keys(l4, "admin"@, 1000, "creator"@);
    lemma_seed_row_keys(l5, "developer"@, 1000, "creator"@);
    lemma_seed_row_keys(l4, "admin"@, 1000, "team"@);
    lemma_seed_row_keys(l5, "developer"@, 1000, "team"@);
    lemma_seed_row_keys(l5, "developer"@, 1000, "admin"@);
    lemma_seed_row_keys(s, "free"@, 0, "free"@);
    lemma_seed_row_keys(s, "pro"@, 3, "pro"@);
    lemma_seed_row_keys(s, "creator"@, 10, "creator"@);
    lemma_seed_row_keys(s, "team"@, 25, "team"@);
    lemma_seed_row_keys(s, "admin"@, 1000, "admin"@);
    lemma_seed_row_keys(s, "developer"@, 1000, "developer"@);
}

/// Flagging swarm bots twice is the same as flagging them once.
pub proof fn law_swarm_flagging_idempotent(users: Seq<ChatUserV>)
    ensures
        users.map_values(|u: ChatUserV| flag_swarm_bot(u)).map_values(|u: ChatUserV| flag_swarm_bot(u))
            == users.map_values(|u: ChatUserV| flag_swarm_bot(u)),
{
    let once = users.map_values(|u: ChatUserV| flag_swarm_bot(u));
    let twice = once.map_values(|u: ChatUserV| flag_swarm_bot(u));
    assert forall|i: int| 0 <= i < twice.len() implies twice[i] == once[i] by {
        assert(once[i] == flag_swarm_bot(users[i]));
    }
    assert(twice =~= once);
}

proof fn lemma_reactions_cover(index: Seq<ReactionRoomIndexV>, rs: Seq<ReactionV>)
    ensures
        forall|k: Seq<char>| has_key(index, k) ==> #[trigger] has_key(reactions_indexed(index, rs), k),
        forall|j: int| 0 <= j < rs.len() && (#[trigger] rs[j]).room_id is Some ==> has_key(reactions_indexed(index, rs), rs[j].id),
    decreases rs.len(),
{
    if rs.len() > 0 {
        let d = rs.drop_last();
        lemma_reactions_cover(index, d);
        let idx = reactions_indexed(index, d);
        let r = rs.last();
        assert forall|k: Seq<char>| has_key(idx, k) implies #[trigger] has_key(reactions_indexed(index, rs), k) by {
            match r.room_id {
                Some(room) => if !has_key(idx, r.id) {
                    lemma_has_key_push(idx, crate::reducers::index_backfill::reaction_entry(r, room), k);
                },
                None => {},
            }
        }
        match r.room_id {
            Some(room) => if !has_key(idx, r.id) {
                let e = crate::reducers::index_backfill::reaction_entry(r, room);
                assert(idx.push(e)[idx.len() as int] == e);
                assert(idx.push(e)[idx.len() as int].key() == r.id);
            },
            None => {},
        }
        assert forall|j: int| 0 <= j < rs.len() && (#[trigger] rs[j]).room_id is Some implies has_key(reactions_indexed(index, rs), rs[j].id) by {
            if j < d.len() {
                assert(d[j] == rs[j]);
            } else {
                assert(rs[j] == r);
            }
        }
    }
}

proof fn lemma_reactions_fixed(index: Seq<ReactionRoomIndexV>, rs: Seq<ReactionV>)
    requires
        forall|j: int| 0 <= j < rs.len() && (#[trigger] rs[j]).room_id is Some ==> has_key(index, rs[j].id),
    ensures
        reactions_indexed(index, rs) == index,
    decreases rs.len(),
{
    if rs.len() > 0 {
        let d = rs.drop_last();
        assert forall|j: int| 0 <= j < d.len() && (#[trigger] d[j]).room_id is Some implies has_key(index, d[j].id) by {
            assert(d[j] == rs[j]);
        }
        lemma_reactions_fixed(index, d);
        assert(rs.last() == rs[rs.len() - 1]);
    }
}

/// Filling the reaction index twice is the same as filling it once.
pub proof fn law_reaction_backfill_idempotent(index: Seq<ReactionRoomIndexV>, reactions: Seq<ReactionV>)
    ensures
        reactions_indexed(reactions_indexed(index, reactions), reactions) == reactions_indexed(index, reactions),
{
    lemma_reactions_cover(index, reactions);
    lemma_reactions_fixed(reactions_indexed(index, reactions), reactions);
}

proof fn lemma_edits_cover(index: Seq<MessageEditRoomIndexV>, es: Seq<MessageEditV>)
    ensures
        forall|k: Seq<char>| has_key(index, k) ==> #[trigger] has_key(edits_indexed(index, es), k),
        forall|j: int| 0 <= j < es.len() && (#[trigger] es[j]).room_id is Some ==> has_key(edits_indexed(index, es), es[j].id),
    decreases es.len(),
{
    if es.len() > 0 {
        let d = es.drop_last();
        lemma_edits_cover(index, d);
        let idx = edits_indexed(index, d);
        let e = es.last();
        assert forall|k: Seq<char>| has_key(idx, k) implies #[trigger] has_key(edits_indexed(index, es), k) by {
            match e.room_id {
                Some(room) => if !has_key(idx, e.id) {
                    lemma_has_key_push(idx, crate::reducers::index_backfill::edit_entry(e, room), k);
                },
                None => {},
            }
        }
        match e.room_id {
            Some(room) => if !has_key(idx, e.id) {
                let x = crate::reducers::index_backfill::edit_entry(e, room);
                assert(idx.push(x)[idx.len() as int] == x);
                assert(idx.push(x)[idx.len() as int].key() == e.id);
            },
            None => {},
        }
        assert forall|j: int| 0 <= j < es.len() && (#[trigger] es[j]).room_id is Some implies has_key(edits_indexed(index, es), es[j].id) by {
            if j < d.len() {
                assert(d[j] == es[j]);
            } else {
                assert(es[j] == e);
            }
        }
    }
}

proof fn lemma_edits_fixed(index: Seq<MessageEditRoomIndexV>, es: Seq<MessageEditV>)
    requires
        forall|j: int| 0 <= j < es.len() && (#[trigger] es[j]).room_id is Some ==> has_key(index, es[j].id),
    ensures
        edits_indexed(index, es) == index,
    decreases es.len(),
{
    if es.len() > 0 {
        let d = es.drop_last();
        assert forall|j: int| 0 <= j < d.len() && (#[trigger] d[j]).room_id is Some implies has_key(index, d[j].id) by {
            assert(d[j] == es[j]);
        }
        lemma_edits_fixed(index, d);
        assert(es.last() == es[es.len() - 1]);
    }
}

/// Filling the message edit index twice is the same as filling it once.
pub proof fn law_edit_backfill_idempotent(index: Seq<MessageEditRoomIndexV>, edits: Seq<MessageEditV>)
    ensures
        edits_indexed(edits_indexed(index, edits), edits) == edits_indexed(index, edits),
{
    lemma_edits_cover(index, edits);
    lemma_edits_fixed(edits_indexed(index, edits), edits);
}

proof fn lemma_steps_grow(creds: Seq<crate::tables::AgentCredentialV>, a: Seq<char>, k: nat, n: nat)
    requires
        k <= n,
    ensures
        within_steps(creds, a, k).subset_of(within_steps(creds, a, n)),
    decreases n - k,
{
    if k < n {
        lemma_steps_grow(creds, a, k, (n - 1) as nat);
    }
}

/// Deprovisioning an agent leaves no credential, configuration, user row,
/// identity link or room membership of it, no credential that names it as
/// parent, and no user row of a sub-agent whose parent it was.
pub proof fn law_deprovision_removes_agent_and_children(db: ChatDbV, agent: Seq<char>)
    ensures
        ({
            let d = deprovisioned(db, agent);
            &&& forall|i: int| 0 <= i < d.agent_credentials.len() ==> (#[trigger] d.agent_credentials[i]).agent_user_id != agent
                && d.agent_credentials[i].parent_agent_id != Some(agent)
            &&& forall|i: int| 0 <= i < d.chat_users.len() ==> (#[trigger] d.chat_users[i]).user_id != agent
            &&& forall|i: int| 0 <= i < d.agent_configs.len() ==> (#[trigger] d.agent_configs[i]).agent_user_id != agent
            &&& forall|i: int| 0 <= i < d.user_identity_links.len() ==> (#[trigger] d.user_identity_links[i]).user_id != agent
            &&& forall|i: int| 0 <= i < d.room_members.len() ==> (#[trigger] d.room_members[i]).user_id != agent
            &&& forall|j: int, i: int| #![trigger db.agent_credentials[j], d.chat_users[i]]
                0 <= j < db.agent_credentials.len() && db.agent_credentials[j].parent_agent_id == Some(agent)
                && 0 <= i < d.chat_users.len() ==> d.chat_users[i].user_id != db.agent_credentials[j].agent_user_id
        }),
{
    let creds = db.agent_credentials;
    let tree = agent_tree(creds, agent);
    let d = deprovisioned(db, agent);
    lemma_steps_grow(creds, agent, 0, creds.len());
    assert(within_steps(creds, agent, 0).contains(agent));
    assert(tree.contains(agent));
    assert forall|j: int| 0 <= j < creds.len() && creds[j].parent_agent_id == Some(agent) implies tree.contains(#[trigger] creds[j].agent_user_id) by {
        let w0 = within_steps(creds, agent, 0);
        assert(is_child_row(creds[j], w0));
        assert(children_of(creds, w0).contains(creds[j].agent_user_id));
        lemma_steps_grow(creds, agent, 1, creds.len());
    }
    creds.filter_lemma(crate::reducers::agent_removal::credential_kept(tree));
    assert forall|i: int| 0 <= i < d.agent_credentials.len() implies (#[trigger] d.agent_credentials[i]).agent_user_id != agent
        && d.agent_credentials[i].parent_agent_id != Some(agent) by {
        let c = d.agent_credentials[i];
        assert(creds.filter(crate::reducers::agent_removal::credential_kept(tree)).contains(c));
        creds.lemma_filter_contains_rev(crate::reducers::agent_removal::credential_kept(tree), c);
        let j = choose|j: int| 0 <= j < creds.len() && creds[j] == c;
        if c.parent_agent_id == Some(agent) {
            assert(tree.contains(creds[j].agent_user_id));
        }
    }
    db.chat_users.filter_lemma(crate::reducers::agent_removal::user_kept(tree));
    db.agent_configs.filter_lemma(crate::reducers::agent_removal::config_kept(tree));
    db.user_identity_links.filter_lemma(crate::reducers::agent_removal::link_kept(tree));
    db.room_members.filter_lemma(crate::reducers::agent_removal::member_kept(tree,
        crate::reducers::agent_removal::dm_rooms_of(db, tree)));
}

/// Dropping the row of key `k`, which satisfies `p`, from a table with unique
/// keys leaves one row fewer satisfying `p`.
proof fn lemma_count_without<V: KeyedView>(s: Seq<V>, k: Seq<char>, p: spec_fn(V) -> bool, i: int)
    requires
        unique_keys(s),
        0 <= i < s.len(),
        s[i].key() == k,
        p(s[i]),
    ensures
        without_key(s, k).filter(p).len() + 1 == s.filter(p).len(),
    decreases s.len(),
{
    reveal_with_fuel(Seq::filter, 1);
    let d = s.drop_last();
    let x = s.last();
    assert(unique_keys(d)) by {
        assert forall|a: int, b: int| 0 <= a < d.len() && 0 <= b < d.len() && a != b implies #[trigger] d[a].key() != #[trigger] d[b].key() by {
            assert(d[a] == s[a] && d[b] == s[b]);
        }
    }
    assert(without_key(s, k) == (if key_is_not::<V>(k)(x) { without_key(d, k).push(x) } else { without_key(d, k) }));
    if i == s.len() - 1 {
        assert(!has_key(d, k)) by {
            if has_key(d, k) {
                let j = choose|j: int| 0 <= j < d.len() && #[trigger] d[j].key() == k;
                assert(d[j] == s[j]);
            }
        }
        lemma_without_absent(d, k);
        assert(x == s[i]);
        assert(without_key(s, k) == d);
        assert(s.filter(p) == d.filter(p).push(x));
    } else {
        assert(d[i] == s[i]);
        assert(x.key() != k) by {
            assert(s[s.len() - 1] == x);
        }
        lemma_count_without(d, k, p, i);
        let w = without_key(d, k);
        assert(w.push(x).drop_last() =~= w);
        assert(without_key(s, k) == w.push(x));
        assert(w.push(x).last() == x);
        if p(x) {
            assert(w.push(x).filter(p) == w.filter(p).push(x));
            assert(s.filter(p) == d.filter(p).push(x));
        } else {
            assert(w.push(x).filter(p) == w.filter(p));
            assert(s.filter(p) == d.filter(p));
        }
    }
}

/// The first link of an identity wins: linking an identity that is already
/// linked changes nothing. A user who had at most ten links has at most ten
/// after a new identity is linked to them.
pub proof fn law_identity_links_first_wins_and_capped(
    links: Seq<UserIdentityLinkV>,
    identity: Seq<char>,
    user: Seq<char>,
    now: u64,
)
    requires
        unique_keys(links),
    ensures
        has_key(links, identity) ==> linked(links, identity, user, now) == links,
        links.filter(link_of(user)).len() <= MAX_LINKS_PER_USER
            ==> linked(links, identity, user, now).filter(link_of(user)).len() <= MAX_LINKS_PER_USER,
{
    if !has_key(links, identity) && links.filter(link_of(user)).len() <= MAX_LINKS_PER_USER {
        let row = UserIdentityLinkV { stdb_identity: identity, user_id: user, linked_at: now };
        let l = links.push(row);
        reveal_with_fuel(Seq::filter, 1);
        assert(l.drop_last() =~= links);
        assert(l.filter(link_of(user)) == links.filter(link_of(user)).push(row));
        crate::store::lemma_push_unique(links, row);
        if l.filter(link_of(user)).len() > MAX_LINKS_PER_USER {
            assert(l[l.len() - 1] == row);
            assert(link_of(user)(l[l.len() - 1]));
            let w = choose|i: int| is_oldest(l, user, i);
            assert(is_oldest(l, user, w)) by {
                let i0 = l.len() - 1;
                if !exists|i: int| is_oldest(l, user, i) {
                    lemma_oldest_exists(l, user, i0);
                }
            }
            lemma_count_without(l, oldest_identity(l, user), link_of(user), w);
            let r = without_key(l, oldest_identity(l, user));
            assert(pruned(r, user, (l.len() - 1) as nat) == r);
        }
    }
}

/// A user with a link at `i0` has an oldest link.
proof fn lemma_oldest_exists(links: Seq<UserIdentityLinkV>, user: Seq<char>, i0: int)
    requires
        0 <= i0 < links.len(),
        links[i0].user_id == user,
    ensures
        exists|i: int| is_oldest(links, user, i),
    decreases links.len(),
{
    let d = links.drop_last();
    let x = links.last();
    if i0 == links.len() - 1 && !(exists|j: int| 0 <= j < d.len() && #[trigger] d[j].user_id == user) {
        assert forall|j: int| 0 <= j < links.len() && #[trigger] links[j].user_id == user implies
            links[i0].linked_at <= links[j].linked_at && (links[j].linked_at == links[i0].linked_at ==> i0 <= j) by {
            if j < d.len() {
                assert(d[j] == links[j]);
            }
        }
        assert(is_oldest(links, user, i0));
    } else {
        let j0 = if i0 < links.len() - 1 { i0 } else { choose|j: int| 0 <= j < d.len() && #[trigger] d[j].user_id == user };
        assert(d[j0] == links[j0]);
        lemma_oldest_exists(d, user, j0);
        let b = choose|i: int| is_oldest(d, user, i);
        assert(d[b] == links[b]);
        if x.user_id == user && x.linked_at < d[b].linked_at {
            assert forall|j: int| 0 <= j < links.len() && #[trigger] links[j].user_id == user implies
                links[links.len() - 1].linked_at <= links[j].linked_at
                && (links[j].linked_at == links[links.len() - 1].linked_at ==> links.len() - 1 <= j) by {
                if j < d.len() {
                    assert(d[j] == links[j]);
                }
            }
            assert(is_oldest(links, user, links.len() - 1));
        } else {
            assert forall|j: int| 0 <= j < links.len() && #[trigger] links[j].user_id == user implies
                links[b].linked_at <= links[j].linked_at && (links[j].linked_at == links[b].linked_at ==> b <= j) by {
                if j < d.len() {
                    assert(d[j] == links[j]);
                } else {
                    assert(links[j] == x);
                }
            }
            assert(is_oldest(links, user, b));
        }
    }
}

/// Pushing `x` adds one to the count of rows satisfying `p` exactly when `x` does.
proof fn lemma_filter_push_len<V>(s: Seq<V>, x: V, p: spec_fn(V) -> bool)
    ensures
        s.push(x).filter(p).len() == s.filter(p).len() + (if p(x) { 1int } else { 0int }),
{
    reveal_with_fuel(Seq::filter, 1);
    assert(s.push(x).drop_last() =~= s);
}

/// A user never holds more than [`MAX_BLOCKS_PER_USER`] blocks through
/// `block_user`: a block it adds never takes the blocker past the limit.
pub proof fn law_block_limit_kept(db: ChatDbV, c: CallerV, blocked: Seq<char>, hash: Seq<char>, now: u64)
    requires
        block_verdict(db, c, blocked, hash) == Ok::<bool, ChatError>(true),
    ensures
        ({
            let uid = c.user_id.unwrap();
            let row = UserBlockV { id: block_id(uid, hash), blocker_id: uid, blocked_id: hash, created_at: now };
            db.user_blocks.push(row).filter(blocks_by(uid)).len() <= MAX_BLOCKS_PER_USER
        }),
{
    let uid = c.user_id.unwrap();
    let row = UserBlockV { id: block_id(uid, hash), blocker_id: uid, blocked_id: hash, created_at: now };
    lemma_filter_push_len(db.user_blocks, row, blocks_by(uid));
}

/// A server never gets more than [`MAX_EMOJIS_PER_SERVER`] custom emojis
/// through `create_server_emoji`.
pub proof fn law_emoji_limit_kept(db: ChatDbV, c: CallerV, server: Seq<char>, name: Seq<char>, image: Seq<char>, e: ServerEmojiV)
    requires
        create_emoji_verdict(db, c, server, name, image) is Ok,
        e.server_id == server,
    ensures
        db.server_emojis.push(e).filter(emoji_of(server)).len() <= MAX_EMOJIS_PER_SERVER,
{
    lemma_filter_push_len(db.server_emojis, e, emoji_of(server));
}

/// A user who provisions an agent with `provision_user_agent` never goes past
/// the agent quota of their tier.
pub proof fn law_agent_quota_kept(db: ChatDbV, c: CallerV, agent: Seq<char>, name: Seq<char>, cred: AgentCredentialV)
    requires
        provision_user_agent_verdict(db, c, agent, name) is Ok,
        cred.owner_user_id == c.user_id.unwrap(),
        db.agent_credentials.filter(owned_by(c.user_id.unwrap())).len() <= u32::MAX,
    ensures
        ({
            let uid = c.user_id.unwrap();
            let me = lookup(db.chat_users, uid).unwrap();
            db.agent_credentials.push(cred).filter(owned_by(uid)).len()
                <= agent_quota(db.agent_spawn_limits, row_tier(me))
        }),
{
    lemma_filter_push_len(db.agent_credentials, cred, owned_by(c.user_id.unwrap()));
}

/// Adding a bot to a server (the room memberships of
/// `system_add_bot_to_server`) gives it a membership row in every listed
/// room of that server, and keeps every membership row there was.
pub proof fn law_added_bot_joins_listed_rooms(db: ChatDbV, server: Seq<char>, bot: Seq<char>, room_ids_json: Seq<char>, now: u64)
    ensures
        ({
            let ids = id_list(room_ids_json);
            let m = join_rooms(db.room_members, db.rooms, ids, Some(server), bot, now);
            &&& forall|j: int| 0 <= j < ids.len() && joinable(db.rooms, #[trigger] ids[j], Some(server))
                ==> has_key(m, member_id(ids[j], bot))
            &&& forall|k: Seq<char>| has_key(db.room_members, k) ==> #[trigger] has_key(m, k)
        }),
{
    lemma_join_cover(db.room_members, db.rooms, id_list(room_ids_json), Some(server), bot, now);
}

} // verus!
