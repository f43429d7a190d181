//! Removal of agents: an agent goes together with every sub-agent below it,
//! its rows everywhere and the direct-message rooms that name it; idle
//! sub-agents are swept by a scheduled job.

use vstd::prelude::*;
use crate::context::{Caller, CallerV, ChatError};
use crate::db::{ChatDb, ChatDbV};
use crate::tables::{AgentCredential, AgentCredentialV, AgentConfig, AgentConfigV, ChatUser, ChatUserV, Room, RoomV,
    RoomMember, RoomMemberV, Message, MessageV, UserIdentityLink, UserIdentityLinkV, AgentCleanupJob,
    AgentCleanupJobV, ScheduleAt};
use crate::store::{rows, lookup, has_key, keys_where, find_key, retain_keyed, collect_keys, str_in};
use crate::membership::views;
use crate::text::{occurs_in, str_contains};
use crate::reducers::system::{without_bot, remove_bot_rows};

verus! {

/// `c` is the credential of an agent whose parent agent is in `parents`.
pub open spec fn is_child_row(c: AgentCredentialV, parents: Set<Seq<char>>) -> bool {
    match c.parent_agent_id {
        Some(p) => parents.contains(p),
        None => false,
    }
}

/// Agents whose parent agent is in `parents`.
pub open spec fn children_of(creds: Seq<AgentCredentialV>, parents: Set<Seq<char>>) -> Set<Seq<char>> {
    Set::new(|x: Seq<char>| exists|i: int| 0 <= i < creds.len() && #[trigger] is_child_row(creds[i], parents) && creds[i].agent_user_id == x)
}

/// Agent `a` and the agents at most `n` parent links below it.
pub open spec fn within_steps(creds: Seq<AgentCredentialV>, a: Seq<char>, n: nat) -> Set<Seq<char>>
    decreases n,
{
    if n == 0 {
        Set::empty().insert(a)
    } else {
        let r = within_steps(creds, a, (n - 1) as nat);
        r.union(children_of(creds, r))
    }
}

/// Agent `a` and the agents below it within as many parent links as there
/// are credentials, which is every agent below it (see
/// [`law_agent_tree_closed`]).
pub open spec fn agent_tree(creds: Seq<AgentCredentialV>, a: Seq<char>) -> Set<Seq<char>> {
    within_steps(creds, a, creds.len())
}

proof fn lemma_children_step(creds: Seq<AgentCredentialV>, parents: Set<Seq<char>>, i: int)
    requires
        0 <= i < creds.len(),
    ensures
        children_of(creds.take(i + 1), parents) == (if is_child_row(creds[i], parents) {
            children_of(creds.take(i), parents).insert(creds[i].agent_user_id)
        } else {
            children_of(creds.take(i), parents)
        }),
{
    let lhs = children_of(creds.take(i + 1), parents);
    let rhs = if is_child_row(creds[i], parents) {
        children_of(creds.take(i), parents).insert(creds[i].agent_user_id)
    } else {
        children_of(creds.take(i), parents)
    };
    assert forall|x: Seq<char>| lhs.contains(x) <==> rhs.contains(x) by {
        if lhs.contains(x) {
            let k = choose|k: int| 0 <= k < i + 1 && #[trigger] is_child_row(creds.take(i + 1)[k], parents)
                && creds.take(i + 1)[k].agent_user_id == x;
            if k < i {
                assert(creds.take(i)[k] == creds[k]);
                assert(is_child_row(creds.take(i)[k], parents));
            }
        }
        if children_of(creds.take(i), parents).contains(x) {
            let k = choose|k: int| 0 <= k < i && #[trigger] is_child_row(creds.take(i)[k], parents)
                && creds.take(i)[k].agent_user_id == x;
            assert(creds.take(i + 1)[k] == creds[k]);
            assert(is_child_row(creds.take(i + 1)[k], parents));
        }
        if is_child_row(creds[i], parents) && x == creds[i].agent_user_id {
            assert(creds.take(i + 1)[i] == creds[i]);
            assert(is_child_row(creds.take(i + 1)[i], parents));
        }
    }
    assert(lhs =~= rhs);
}

proof fn lemma_steps_stable(creds: Seq<AgentCredentialV>, a: Seq<char>, r: nat, n: nat)
    requires
        r <= n,
        within_steps(creds, a, r + 1) == within_steps(creds, a, r),
    ensures
        within_steps(creds, a, n) == within_steps(creds, a, r),
    decreases n - r,
{
    if n > r {
        lemma_steps_stable(creds, a, r, (n - 1) as nat);
    }
}

/// Ids of agent `a` and of every agent below it, each once.
pub fn agent_tree_ids(creds: &Vec<AgentCredential>, a: &String) -> (ids: Vec<String>)
    ensures
        forall|x: Seq<char>| #[trigger] views(ids@).contains(x) <==> agent_tree(rows(creds@), a@).contains(x),
{
    let ghost cs = rows(creds@);
    let mut ids: Vec<String> = Vec::new();
    ids.push(a.clone());
    proof {
        assert(views(ids@) =~= seq![a@]);
        assert forall|x: Seq<char>| #[trigger] views(ids@).contains(x) <==> within_steps(cs, a@, 0).contains(x) by {
            if x == a@ {
                assert(views(ids@)[0] == x);
            }
        }
    }
    let mut round: usize = 0;
    while round < creds.len()
        invariant
            round <= creds@.len(),
            cs == rows(creds@),
            forall|x: Seq<char>| #[trigger] views(ids@).contains(x) <==> within_steps(cs, a@, round as nat).contains(x),
        decreases creds.len() - round,
    {
        let ghost reached = within_steps(cs, a@, round as nat);
        let mut fresh: Vec<String> = Vec::new();
        let mut i: usize = 0;
        while i < creds.len()
            invariant
                i <= creds@.len(),
                cs == rows(creds@),
                reached == within_steps(cs, a@, round as nat),
                forall|x: Seq<char>| #[trigger] views(ids@).contains(x) <==> reached.contains(x),
                forall|x: Seq<char>| #[trigger] views(fresh@).contains(x) ==> children_of(cs.take(i as int), reached).contains(x) && !reached.contains(x),
                forall|x: Seq<char>| #[trigger] children_of(cs.take(i as int), reached).contains(x) ==> views(fresh@).contains(x) || reached.contains(x),
            decreases creds.len() - i,
        {
            let c = &creds[i];
            proof {
                lemma_children_step(cs, reached, i as int);
                assert(cs[i as int] == c@);
            }
            let ghost before = fresh@;
            proof {
                assert(views(ids@) =~= ids@.map_values(|x: String| x@));
                assert(views(fresh@) =~= fresh@.map_values(|x: String| x@));
            }
            match &c.parent_agent_id {
                Some(p) => {
                    let in_reach = str_in(&ids, p);
                    assert(c@.parent_agent_id == Some(p@));
                    assert(in_reach == reached.contains(p@));
                    assert(is_child_row(c@, reached) == in_reach);
                    if in_reach && !str_in(&ids, &c.agent_user_id) && !str_in(&fresh, &c.agent_user_id) {
                        fresh.push(c.agent_user_id.clone());
                        proof {
                            assert(views(fresh@) =~= views(before).push(c.agent_user_id@));
                            assert forall|x: Seq<char>| #[trigger] views(fresh@).contains(x) implies views(before).contains(x) || x == c.agent_user_id@ by {
                                let k = choose|k: int| 0 <= k < views(fresh@).len() && views(fresh@)[k] == x;
                                if k < views(before).len() {
                                    assert(views(before)[k] == x);
                                }
                            }
                            assert forall|x: Seq<char>| views(before).contains(x) implies #[trigger] views(fresh@).contains(x) by {
                                let k = choose|k: int| 0 <= k < views(before).len() && views(before)[k] == x;
                                assert(views(fresh@)[k] == x);
                            }
                            assert(views(fresh@)[views(before).len() as int] == c.agent_user_id@);
                        }
                    }
                },
                None => {
                    assert(!is_child_row(c@, reached));
                },
            }
            i = i + 1;
        }
        assert(cs.take(creds@.len() as int) =~= cs);
        if fresh.len() == 0 {
            proof {
                assert(within_steps(cs, a@, (round + 1) as nat) =~= reached);
                lemma_steps_stable(cs, a@, round as nat, cs.len());
            }
            return ids;
        }
        let ghost base = ids@;
        let mut j: usize = 0;
        while j < fresh.len()
            invariant
                j <= fresh@.len(),
                forall|x: Seq<char>| #[trigger] views(base).contains(x) <==> reached.contains(x),
                forall|x: Seq<char>| #[trigger] views(ids@).contains(x) <==> (views(base).contains(x) || views(fresh@).take(j as int).contains(x)),
            decreases fresh.len() - j,
        {
            let ghost prev = ids@;
            ids.push(fresh[j].clone());
            proof {
                let fv = views(fresh@);
                assert(views(ids@) =~= views(prev).push(fresh@[j as int]@));
                assert(fv.take(j + 1) =~= fv.take(j as int).push(fv[j as int]));
                assert forall|x: Seq<char>| #[trigger] views(ids@).contains(x) <==> (views(base).contains(x) || fv.take(j + 1).contains(x)) by {
                    if views(ids@).contains(x) {
                        let k = choose|k: int| 0 <= k < views(ids@).len() && views(ids@)[k] == x;
                        if k < views(prev).len() {
                            assert(views(prev)[k] == x);
                        } else {
                            assert(fv.take(j + 1)[j as int] == x);
                        }
                    }
                    if views(prev).contains(x) {
                        let k = choose|k: int| 0 <= k < views(prev).len() && views(prev)[k] == x;
                        assert(views(ids@)[k] == x);
                    }
                    if fv.take(j + 1).contains(x) {
                        let k = choose|k: int| 0 <= k < j + 1 && #[trigger] fv.take(j + 1)[k] == x;
                        if k < j {
                            assert(fv.take(j as int)[k] == x);
                        } else {
                            assert(views(ids@)[views(prev).len() as int] == x);
                        }
                    }
                    if views(base).contains(x) || fv.take(j as int).contains(x) {
                        assert(views(prev).contains(x));
                    }
                }
            }
            j = j + 1;
        }
        proof {
            assert(views(fresh@).take(fresh@.len() as int) =~= views(fresh@));
            let next = within_steps(cs, a@, (round + 1) as nat);
            assert(next == reached.union(children_of(cs, reached)));
        }
        round = round + 1;
    }
    ids
}

/// `name` contains the id of one of `agents`.
pub open spec fn names_any(name: Seq<char>, agents: Set<Seq<char>>) -> bool {
    exists|x: Seq<char>| agents.contains(x) && #[trigger] occurs_in(x, name)
}

/// A direct-message room whose name contains the id of one of `agents`.
pub open spec fn dm_of_any(agents: Set<Seq<char>>) -> spec_fn(RoomV) -> bool {
    |r: RoomV| r.is_dm && names_any(r.name, agents)
}

/// Ids of the direct-message rooms that name one of `agents`.
pub open spec fn dm_rooms_of(db: ChatDbV, agents: Set<Seq<char>>) -> Seq<Seq<char>> {
    keys_where(db.rooms, dm_of_any(agents))
}

/// Credentials of agents outside `agents`.
pub open spec fn credential_kept(agents: Set<Seq<char>>) -> spec_fn(AgentCredentialV) -> bool {
    |c: AgentCredentialV| !agents.contains(c.agent_user_id)
}

/// Configurations of agents outside `agents`.
pub open spec fn config_kept(agents: Set<Seq<char>>) -> spec_fn(AgentConfigV) -> bool {
    |c: AgentConfigV| !agents.contains(c.agent_user_id)
}

/// Users outside `agents`.
pub open spec fn user_kept(agents: Set<Seq<char>>) -> spec_fn(ChatUserV) -> bool {
    |u: ChatUserV| !agents.contains(u.user_id)
}

/// Identity links of users outside `agents`.
pub open spec fn link_kept(agents: Set<Seq<char>>) -> spec_fn(UserIdentityLinkV) -> bool {
    |l: UserIdentityLinkV| !agents.contains(l.user_id)
}

/// Memberships of users outside `agents` in rooms outside `rooms`.
pub open spec fn member_kept(agents: Set<Seq<char>>, rooms: Seq<Seq<char>>) -> spec_fn(RoomMemberV) -> bool {
    |m: RoomMemberV| !agents.contains(m.user_id) && !rooms.contains(m.room_id)
}

/// Messages of rooms outside `rooms`.
pub open spec fn message_kept(rooms: Seq<Seq<char>>) -> spec_fn(MessageV) -> bool {
    |m: MessageV| !rooms.contains(m.room_id)
}

/// Rooms that are not direct-message rooms naming one of `agents`.
pub open spec fn room_kept(agents: Set<Seq<char>>) -> spec_fn(RoomV) -> bool {
    |r: RoomV| !dm_of_any(agents)(r)
}

/// The database without the agents of `agents`: their credentials,
/// configurations, memberships, identity links and user rows, and the
/// direct-message rooms that name them with those rooms' members and messages.
pub open spec fn without_agents(db: ChatDbV, agents: Set<Seq<char>>) -> ChatDbV {
    let dms = dm_rooms_of(db, agents);
    ChatDbV {
        agent_credentials: db.agent_credentials.filter(credential_kept(agents)),
        agent_configs: db.agent_configs.filter(config_kept(agents)),
        room_members: db.room_members.filter(member_kept(agents, dms)),
        user_identity_links: db.user_identity_links.filter(link_kept(agents)),
        chat_users: db.chat_users.filter(user_kept(agents)),
        messages: db.messages.filter(message_kept(dms)),
        rooms: db.rooms.filter(room_kept(agents)),
        ..db
    }
}

/// The database after agent `agent` is removed with every agent below it.
pub open spec fn deprovisioned(db: ChatDbV, agent: Seq<char>) -> ChatDbV {
    without_agents(db, agent_tree(db.agent_credentials, agent))
}

/// The strings of `ids`, as a set.
pub open spec fn id_set(ids: Seq<String>) -> Set<Seq<char>> {
    Set::new(|x: Seq<char>| views(ids).contains(x))
}

/// Whether `name` contains one of the strings of `ids`.
fn names_any_of(name: &String, ids: &Vec<String>) -> (r: bool)
    ensures
        r == names_any(name@, id_set(ids@)),
{
    let mut j: usize = 0;
    while j < ids.len()
        invariant
            j <= ids@.len(),
            forall|k: int| 0 <= k < j ==> !occurs_in(#[trigger] ids@[k]@, name@),
        decreases ids.len() - j,
    {
        if str_contains(name.as_str(), ids[j].as_str()) {
            proof {
                assert(views(ids@)[j as int] == ids@[j as int]@);
                assert(id_set(ids@).contains(ids@[j as int]@));
            }
            return true;
        }
        j = j + 1;
    }
    proof {
        assert forall|x: Seq<char>| id_set(ids@).contains(x) implies !#[trigger] occurs_in(x, name@) by {
            let k = choose|k: int| 0 <= k < views(ids@).len() && views(ids@)[k] == x;
            assert(views(ids@)[k] == ids@[k]@);
        }
    }
    false
}

/// Remove the agents of `ids` and what hangs on them.
pub fn remove_agents(db: &mut ChatDb, ids: &Vec<String>)
    requires
        old(db)@.wf(),
    ensures
        final(db)@.wf(),
        final(db)@ == without_agents(old(db)@, id_set(ids@)),
{
    let ghost agents = id_set(ids@);
    let ghost o = db@;
    proof {
        assert(views(ids@) =~= ids@.map_values(|x: String| x@));
    }
    let is_dm_of = |r: &Room| -> (b: bool)
        ensures
            b == dm_of_any(id_set(ids@))(r@),
        { r.is_dm && names_any_of(&r.name, ids) };
    let dms = collect_keys(&db.rooms, is_dm_of, Ghost(dm_of_any(agents)));
    assert(views(dms@) =~= dms@.map_values(|x: String| x@));
    let keep_c = |c: &AgentCredential| -> (b: bool)
        ensures
            b == credential_kept(id_set(ids@))(c@),
        {
            proof { assert(views(ids@) =~= ids@.map_values(|x: String| x@)); }
            !str_in(ids, &c.agent_user_id)
        };
    retain_keyed(&mut db.agent_credentials, keep_c, Ghost(credential_kept(agents)));
    let keep_g = |c: &AgentConfig| -> (b: bool)
        ensures
            b == config_kept(id_set(ids@))(c@),
        {
            proof { assert(views(ids@) =~= ids@.map_values(|x: String| x@)); }
            !str_in(ids, &c.agent_user_id)
        };
    retain_keyed(&mut db.agent_configs, keep_g, Ghost(config_kept(agents)));
    let keep_m = |m: &RoomMember| -> (b: bool)
        ensures
            b == member_kept(id_set(ids@), dms@.map_values(|x: String| x@))(m@),
        {
            proof { assert(views(ids@) =~= ids@.map_values(|x: String| x@)); }
            !str_in(ids, &m.user_id) && !str_in(&dms, &m.room_id)
        };
    retain_keyed(&mut db.room_members, keep_m, Ghost(member_kept(agents, views(dms@))));
    let keep_l = |l: &UserIdentityLink| -> (b: bool)
        ensures
            b == link_kept(id_set(ids@))(l@),
        {
            proof { assert(views(ids@) =~= ids@.map_values(|x: String| x@)); }
            !str_in(ids, &l.user_id)
        };
    retain_keyed(&mut db.user_identity_links, keep_l, Ghost(link_kept(agents)));
    let keep_u = |u: &ChatUser| -> (b: bool)
        ensures
            b == user_kept(id_set(ids@))(u@),
        {
            proof { assert(views(ids@) =~= ids@.map_values(|x: String| x@)); }
            !str_in(ids, &u.user_id)
        };
    retain_keyed(&mut db.chat_users, keep_u, Ghost(user_kept(agents)));
    let keep_x = |m: &Message| -> (b: bool)
        ensures
            b == message_kept(dms@.map_values(|x: String| x@))(m@),
        { !str_in(&dms, &m.room_id) };
    retain_keyed(&mut db.messages, keep_x, Ghost(message_kept(views(dms@))));
    let keep_r = |r: &Room| -> (b: bool)
        ensures
            b == room_kept(id_set(ids@))(r@),
        { !(r.is_dm && names_any_of(&r.name, ids)) };
    retain_keyed(&mut db.rooms, keep_r, Ghost(room_kept(agents)));
    assert(db@ =~= without_agents(o, agents));
}

/// Remove agent `agent` with every agent below it.
pub fn deprovision_agent_internal(db: &mut ChatDb, agent: &String)
    requires
        old(db)@.wf(),
    ensures
        final(db)@.wf(),
        final(db)@ == deprovisioned(old(db)@, agent@),
{
    let ids = agent_tree_ids(&db.agent_credentials, agent);
    assert(id_set(ids@) =~= agent_tree(db@.agent_credentials, agent@));
    remove_agents(db, &ids);
}

/// Outcome of [`deprovision_agent`].
pub open spec fn deprovision_verdict(db: ChatDbV, c: CallerV, agent: Seq<char>) -> Result<(), ChatError> {
    match c.user_id {
        None => Err(ChatError::NotRegistered),
        Some(uid) => match lookup(db.agent_credentials, agent) {
            None => Err(ChatError::NotFound),
            Some(cred) => if cred.owner_user_id != uid && !c.is_platform_admin {
                Err(ChatError::NotPermitted)
            } else {
                Ok(())
            },
        },
    }
}

/// Deprovision an agent (its owner or a platform admin): the agent and every
/// sub-agent below it lose their credentials, configuration, memberships,
/// identity links and user rows, and the direct-message rooms naming them go
/// with their members and messages.
pub fn deprovision_agent(db: &mut ChatDb, caller: &Caller, agent_user_id: String) -> (r: Result<(), ChatError>)
    requires
        old(db)@.wf(),
    ensures
        final(db)@.wf(),
        r == deprovision_verdict(old(db)@, caller@, agent_user_id@),
        r is Err ==> final(db)@ == old(db)@,
        r is Ok ==> final(db)@ == deprovisioned(old(db)@, agent_user_id@),
{
    let uid = match &caller.user_id {
        Some(u) => u,
        None => return Err(ChatError::NotRegistered),
    };
    let ci = match find_key(&db.agent_credentials, &agent_user_id) {
        Some(i) => i,
        None => return Err(ChatError::NotFound),
    };
    if db.agent_credentials[ci].owner_user_id != *uid && !caller.is_platform_admin {
        return Err(ChatError::NotPermitted);
    }
    deprovision_agent_internal(db, &agent_user_id);
    Ok(())
}

/// How long a sub-agent may stay inactive before the sweep removes it, in milliseconds.
pub const IDLE_THRESHOLD_MS: u64 = 3600000;

/// Interval between two sweeps, in microseconds.
pub const CLEANUP_INTERVAL_MICROS: u64 = 300000000;

/// A sub-agent inactive since before `threshold`.
pub open spec fn idle_sub_agent(threshold: u64) -> spec_fn(AgentCredentialV) -> bool {
    |c: AgentCredentialV| c.parent_agent_id is Some && c.last_active_at < threshold
}

/// The idleness threshold at time `now`: an hour earlier, or zero.
pub open spec fn idle_threshold(now: u64) -> u64 {
    if now < IDLE_THRESHOLD_MS { 0 } else { (now - IDLE_THRESHOLD_MS) as u64 }
}

/// The database after the agents of `ids` are removed one after the other,
/// each with every agent then below it.
pub open spec fn deprovision_each(db: ChatDbV, ids: Seq<Seq<char>>) -> ChatDbV
    decreases ids.len(),
{
    if ids.len() == 0 {
        db
    } else {
        deprovisioned(deprovision_each(db, ids.drop_last()), ids.last())
    }
}

/// The database after a sweep at time `now`: every sub-agent idle for over an
/// hour is removed, in table order, and the next sweep is scheduled.
pub open spec fn swept(db: ChatDbV, now: u64) -> ChatDbV {
    let after = deprovision_each(db, keys_where(db.agent_credentials, idle_sub_agent(idle_threshold(now))));
    ChatDbV {
        agent_cleanup_jobs: after.agent_cleanup_jobs.push(AgentCleanupJobV {
            scheduled_id: 0,
            scheduled_at: ScheduleAt::Interval(CLEANUP_INTERVAL_MICROS),
        }),
        ..after
    }
}

/// Scheduled sweep (the service itself only): removes sub-agents idle for
/// over an hour and schedules the next sweep in five minutes.
pub fn cleanup_idle_agents(db: &mut ChatDb, caller: &Caller, now: u64, job: &AgentCleanupJob) -> (r: Result<(), ChatError>)
    requires
        old(db)@.wf(),
    ensures
        final(db)@.wf(),
        r is Err <==> !caller.is_system,
        r is Err ==> r == Err::<(), ChatError>(ChatError::NotPermitted) && final(db)@ == old(db)@,
        r is Ok ==> final(db)@ == swept(old(db)@, now),
{
    if !caller.is_system {
        return Err(ChatError::NotPermitted);
    }
    let threshold = now.saturating_sub(IDLE_THRESHOLD_MS);
    let is_idle = |c: &AgentCredential| -> (b: bool)
        ensures
            b == idle_sub_agent(threshold)(c@),
        { c.parent_agent_id.is_some() && c.last_active_at < threshold };
    let idle = collect_keys(&db.agent_credentials, is_idle, Ghost(idle_sub_agent(threshold)));
    let ghost o = db@;
    let ghost all = views(idle@);
    let mut i: usize = 0;
    while i < idle.len()
        invariant
            i <= idle@.len(),
            all == views(idle@),
            db@.wf(),
            db@ == deprovision_each(o, all.take(i as int)),
        decreases idle.len() - i,
    {
        proof {
            assert(all.take(i + 1).drop_last() =~= all.take(i as int));
            assert(all.take(i + 1).last() == idle@[i as int]@);
        }
        deprovision_agent_internal(db, &idle[i]);
        i = i + 1;
    }
    assert(all.take(idle@.len() as int) =~= all);
    db.agent_cleanup_jobs.push(AgentCleanupJob { scheduled_id: 0, scheduled_at: ScheduleAt::Interval(CLEANUP_INTERVAL_MICROS) });
    Ok(())
}

/// Outcome of [`admin_force_delete_bot`].
pub open spec fn force_delete_verdict(db: ChatDbV, c: CallerV, bot: Seq<char>) -> Result<(), ChatError> {
    if !c.is_platform_admin {
        Err(ChatError::NotPermitted)
    } else if !has_key(db.chat_users, bot) {
        Err(ChatError::NotFound)
    } else {
        Ok(())
    }
}

/// Messages not written by `user`.
pub open spec fn message_not_by(user: Seq<char>) -> spec_fn(MessageV) -> bool {
    |m: MessageV| m.author_id != user
}

/// The database without a bot's rows (see [`without_bot`]) and without the
/// messages it wrote.
pub open spec fn bot_force_deleted(db: ChatDbV, bot: Seq<char>) -> ChatDbV {
    ChatDbV { messages: db.messages.filter(message_not_by(bot)), ..without_bot(db, bot) }
}

/// Remove a user row and its credentials, configuration, room memberships,
/// identity links and the messages it wrote (platform admin only); no
/// credentials are needed.
pub fn admin_force_delete_bot(db: &mut ChatDb, caller: &Caller, bot_user_id: String) -> (r: Result<(), ChatError>)
    requires
        old(db)@.wf(),
    ensures
        final(db)@.wf(),
        r == force_delete_verdict(old(db)@, caller@, bot_user_id@),
        r is Err ==> final(db)@ == old(db)@,
        r is Ok ==> final(db)@ == bot_force_deleted(old(db)@, bot_user_id@),
{
    if !caller.is_platform_admin {
        return Err(ChatError::NotPermitted);
    }
    if find_key(&db.chat_users, &bot_user_id).is_none() {
        return Err(ChatError::NotFound);
    }
    let keep = |m: &Message| -> (b: bool)
        ensures
            b == message_not_by(bot_user_id@)(m@),
        { m.author_id != bot_user_id };
    retain_keyed(&mut db.messages, keep, Ghost(message_not_by(bot_user_id@)));
    remove_bot_rows(db, &bot_user_id);
    Ok(())
}

/// The agent ids of the credentials, with `a`.
pub open spec fn agent_universe(creds: Seq<AgentCredentialV>, a: Seq<char>) -> Set<Seq<char>> {
    creds.map_values(|c: AgentCredentialV| c.agent_user_id).to_set().insert(a)
}

proof fn lemma_universe(creds: Seq<AgentCredentialV>, a: Seq<char>)
    ensures
        agent_universe(creds, a).finite(),
        agent_universe(creds, a).len() <= creds.len() + 1,
{
    let ids = creds.map_values(|c: AgentCredentialV| c.agent_user_id);
    ids.lemma_cardinality_of_set();
    vstd::seq_lib::seq_to_set_is_finite(ids);
    vstd::set::axiom_set_insert_finite(ids.to_set(), a);
    vstd::set::axiom_set_insert_len(ids.to_set(), a);
}

proof fn lemma_steps_in_universe(creds: Seq<AgentCredentialV>, a: Seq<char>, n: nat)
    ensures
        within_steps(creds, a, n).subset_of(agent_universe(creds, a)),
    decreases n,
{
    let ids = creds.map_values(|c: AgentCredentialV| c.agent_user_id);
    if n > 0 {
        lemma_steps_in_universe(creds, a, (n - 1) as nat);
        let r = within_steps(creds, a, (n - 1) as nat);
        assert forall|x: Seq<char>| children_of(creds, r).contains(x) implies agent_universe(creds, a).contains(x) by {
            let i = choose|i: int| 0 <= i < creds.len() && #[trigger] is_child_row(creds[i], r) && creds[i].agent_user_id == x;
            assert(ids[i] == x);
            assert(ids.contains(x));
        }
    }
}

proof fn lemma_steps_grow_strictly(creds: Seq<AgentCredentialV>, a: Seq<char>, n: nat)
    requires
        forall|j: nat| j < n ==> #[trigger] within_steps(creds, a, j + 1) != within_steps(creds, a, j),
    ensures
        within_steps(creds, a, n).finite(),
        within_steps(creds, a, n).len() >= n + 1,
    decreases n,
{
    lemma_universe(creds, a);
    lemma_steps_in_universe(creds, a, n);
    vstd::set_lib::lemma_len_subset(within_steps(creds, a, n), agent_universe(creds, a));
    if n == 0 {
        assert(within_steps(creds, a, 0) =~= Set::empty().insert(a));
    } else {
        let p = (n - 1) as nat;
        lemma_steps_grow_strictly(creds, a, p);
        let w0 = within_steps(creds, a, p);
        let w1 = within_steps(creds, a, n);
        assert(w1 != w0);
        assert(w0.subset_of(w1));
        let x = choose|x: Seq<char>| w1.contains(x) != w0.contains(x);
        if !(exists|x: Seq<char>| w1.contains(x) != w0.contains(x)) {
            assert(w1 =~= w0);
        }
        w0.lemma_subset_not_in_lt(w1, x);
    }
}

/// The agents of a tree include every sub-agent of each of them: a
/// credential whose parent is in the tree of `a` is itself in it.
pub proof fn law_agent_tree_closed(creds: Seq<AgentCredentialV>, a: Seq<char>)
    ensures
        forall|i: int| 0 <= i < creds.len() && #[trigger] is_child_row(creds[i], agent_tree(creds, a))
            ==> agent_tree(creds, a).contains(creds[i].agent_user_id),
{
    let n = creds.len();
    let t = agent_tree(creds, a);
    if within_steps(creds, a, n + 1) != within_steps(creds, a, n) {
        assert forall|j: nat| j < n + 1 implies #[trigger] within_steps(creds, a, j + 1) != within_steps(creds, a, j) by {
            if within_steps(creds, a, j + 1) == within_steps(creds, a, j) {
                lemma_steps_stable(creds, a, j, n);
                lemma_steps_stable(creds, a, j, n + 1);
            }
        }
        lemma_steps_grow_strictly(creds, a, n + 1);
        lemma_universe(creds, a);
        lemma_steps_in_universe(creds, a, n + 1);
        vstd::set_lib::lemma_len_subset(within_steps(creds, a, n + 1), agent_universe(creds, a));
    }
    assert forall|i: int| 0 <= i < creds.len() && #[trigger] is_child_row(creds[i], t) implies t.contains(creds[i].agent_user_id) by {
        assert(children_of(creds, t).contains(creds[i].agent_user_id));
        assert(within_steps(creds, a, n + 1).contains(creds[i].agent_user_id));
    }
}

/// Deprovisioning an agent leaves no sub-agent behind: no remaining
/// credential has a removed agent as its parent.
pub proof fn law_deprovision_leaves_no_orphan(db: ChatDbV, agent: Seq<char>)
    ensures
        ({
            let d = deprovisioned(db, agent);
            let t = agent_tree(db.agent_credentials, agent);
            forall|i: int| 0 <= i < d.agent_credentials.len() ==> !is_child_row(#[trigger] d.agent_credentials[i], t)
        }),
{
    let creds = db.agent_credentials;
    let t = agent_tree(creds, agent);
    let d = deprovisioned(db, agent);
    law_agent_tree_closed(creds, agent);
    assert forall|i: int| 0 <= i < d.agent_credentials.len() implies !is_child_row(#[trigger] d.agent_credentials[i], t) by {
        let c = d.agent_credentials[i];
        creds.filter_lemma(credential_kept(t));
        assert(creds.filter(credential_kept(t)).contains(c));
        creds.lemma_filter_contains_rev(credential_kept(t), c);
        let j = choose|j: int| 0 <= j < creds.len() && creds[j] == c;
        if is_child_row(c, t) {
            assert(is_child_row(creds[j], t));
        }
    }
}

} // verus!
