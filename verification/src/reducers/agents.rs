//! Agent lifecycle: provisioning, renaming, promotion, quotas and removal of bots.

use vstd::prelude::*;
use crate::context::{Caller, CallerV, ChatError};
use crate::db::{ChatDb, ChatDbV};
use crate::tables::{ChatUser, ChatUserV, AgentSpawnLimit, AgentSpawnLimitV, AgentCredential, AgentCredentialV};
use crate::store::{lookup, has_key, replace_row, find_key, take_key, insert_new, upsert, position, lemma_without_key};
use crate::common::{any_row, is_set, flag, tier_of, row_tier, user_tier, spawn_limit};
use crate::store::{count_rows, map_rows, lemma_map_unique};
use crate::text::to_owned_string;
use crate::tables::opt_view;
use crate::membership::{join_rooms, join_room_list, views};
use crate::reducers::agent_config::{config_row, make_config};
use crate::text::{has_prefix, str_starts_with, ascii_lower_seq, eq_ignore_ascii_case, bot_display_name_verdict,
    validate_bot_display_name};

verus! {

/// A bot whose display name equals `name` up to ASCII case.
pub open spec fn bot_named(name: Seq<char>) -> spec_fn(ChatUserV) -> bool {
    |u: ChatUserV| is_set(u.is_bot) && ascii_lower_seq(u.display_name) == ascii_lower_seq(name)
}

/// A bot other than `except` whose display name equals `name` up to ASCII case.
pub open spec fn other_bot_named(name: Seq<char>, except: Seq<char>) -> spec_fn(ChatUserV) -> bool {
    |u: ChatUserV| is_set(u.is_bot) && u.user_id != except && ascii_lower_seq(u.display_name) == ascii_lower_seq(name)
}

/// Check if a bot display name is already taken (case-insensitive).
pub fn is_bot_name_taken(db: &ChatDb, display_name: &str) -> (r: bool)
    ensures
        r == any_row(db@.chat_users, bot_named(display_name@)),
{
    let test = |u: &ChatUser| -> (b: bool)
        ensures
            b == bot_named(display_name@)(u@),
        { flag(u.is_bot) && eq_ignore_ascii_case(u.display_name.as_str(), display_name) };
    let p = position(&db.chat_users, test, Ghost(bot_named(display_name@)));
    match p {
        Some(i) => {
            assert(bot_named(display_name@)(db@.chat_users[i as int]));
            true
        },
        None => false,
    }
}

/// Outcome of [`rename_agent`].
pub open spec fn rename_agent_verdict(db: ChatDbV, c: CallerV, agent: Seq<char>, name: Seq<char>) -> Result<(), ChatError> {
    match c.user_id {
        None => Err(ChatError::NotRegistered),
        Some(uid) => match lookup(db.agent_credentials, agent) {
            None => Err(ChatError::NotFound),
            Some(cred) => if cred.owner_user_id != uid && !c.is_platform_admin {
                Err(ChatError::NotPermitted)
            } else if bot_display_name_verdict(name) is Err {
                Err(ChatError::Invalid)
            } else if any_row(db.chat_users, other_bot_named(name, agent)) {
                Err(ChatError::AlreadyExists)
            } else if lookup(db.chat_users, agent) is None {
                Err(ChatError::NotFound)
            } else {
                Ok(())
            },
        },
    }
}

/// Rename an agent — change its display name (which serves as its @mention handle).
/// Callable by agent owner or platform admin.
pub fn rename_agent(db: &mut ChatDb, caller: &Caller, agent_user_id: String, new_display_name: String) -> (r: Result<(), ChatError>)
    requires
        old(db)@.wf(),
    ensures
        final(db)@.wf(),
        r == rename_agent_verdict(old(db)@, caller@, agent_user_id@, new_display_name@),
        r is Err ==> final(db)@ == old(db)@,
        r is Ok ==> final(db)@ == (ChatDbV {
            chat_users: replace_row(old(db)@.chat_users, ChatUserV {
                display_name: new_display_name@,
                ..lookup(old(db)@.chat_users, agent_user_id@).unwrap()
            }),
            ..old(db)@
        }),
{
    let uid = match &caller.user_id {
        Some(u) => u,
        None => return Err(ChatError::NotRegistered),
    };
    let ci = match find_key(&db.agent_credentials, &agent_user_id) {
        Some(i) => i,
        None => return Err(ChatError::NotFound),
    };
    if db.agent_credentials[ci].owner_user_id != *uid && !caller.is_platform_admin {
        return Err(ChatError::NotPermitted);
    }
    if validate_bot_display_name(new_display_name.as_str()).is_err() {
        return Err(ChatError::Invalid);
    }
    let ghost pred = other_bot_named(new_display_name@, agent_user_id@);
    let test = |u: &ChatUser| -> (b: bool)
        ensures
            b == other_bot_named(new_display_name@, agent_user_id@)(u@),
        {
            flag(u.is_bot) && u.user_id != agent_user_id && eq_ignore_ascii_case(
                u.display_name.as_str(),
                new_display_name.as_str(),
            )
        };
    let taken = position(&db.chat_users, test, Ghost(pred));
    if let Some(i) = taken {
        assert(pred(db@.chat_users[i as int]));
        return Err(ChatError::AlreadyExists);
    }
    if find_key(&db.chat_users, &agent_user_id).is_none() {
        return Err(ChatError::NotFound);
    }
    let user = take_key(&mut db.chat_users, &agent_user_id).unwrap();
    let renamed = ChatUser { display_name: new_display_name, ..user };
    proof {
        lemma_without_key(old(db)@.chat_users, agent_user_id@);
    }
    insert_new(&mut db.chat_users, renamed);
    Ok(())
}

/// The chat-user row of a newly provisioned bot.
pub open spec fn new_bot_row(
    uid: Seq<char>,
    name: Seq<char>,
    status: Seq<char>,
    now: u64,
    platform: Option<bool>,
    owner: Seq<char>,
    swarm: bool,
) -> ChatUserV {
    ChatUserV {
        user_id: uid,
        stdb_identity: Seq::empty(),
        display_name: name,
        status: status,
        online: false,
        last_message_at: 0,
        last_typing_at: 0,
        last_seen_at: now,
        created_at: now,
        tier: None,
        avatar_data: None,
        custom_status: None,
        custom_status_emoji: None,
        platform_role: Some("agent"@),
        is_bot: Some(true),
        is_platform_agent: platform,
        bot_owner_user_id: Some(owner),
        is_swarm_member: Some(swarm),
        is_steward_projection: None,
    }
}

/// The credential row of a newly provisioned bot.
pub open spec fn new_credential(
    agent: Seq<char>,
    owner: Seq<char>,
    parent: Option<Seq<char>>,
    secret: Seq<char>,
    can_spawn: bool,
    now: u64,
    platform: Option<bool>,
) -> AgentCredentialV {
    AgentCredentialV {
        agent_user_id: agent,
        owner_user_id: owner,
        parent_agent_id: parent,
        owner_secret: secret,
        can_spawn: can_spawn,
        created_at: now,
        last_active_at: now,
        is_platform_agent: platform,
    }
}

pub fn make_bot_user(
    uid: String,
    name: String,
    status: &str,
    now: u64,
    platform: Option<bool>,
    owner: String,
    swarm: bool,
) -> (u: ChatUser)
    ensures
        u@ == new_bot_row(uid@, name@, status@, now, platform, owner@, swarm),
{
    ChatUser {
        user_id: uid,
        stdb_identity: String::new(),
        display_name: name,
        status: to_owned_string(status),
        online: false,
        last_message_at: 0,
        last_typing_at: 0,
        last_seen_at: now,
        created_at: now,
        tier: None,
        avatar_data: None,
        custom_status: None,
        custom_status_emoji: None,
        platform_role: Some(to_owned_string("agent")),
        is_bot: Some(true),
        is_platform_agent: platform,
        bot_owner_user_id: Some(owner),
        is_swarm_member: Some(swarm),
        is_steward_projection: None,
    }
}

pub fn make_credential(
    agent: String,
    owner: String,
    parent: Option<String>,
    secret: String,
    can_spawn: bool,
    now: u64,
    platform: Option<bool>,
) -> (c: AgentCredential)
    ensures
        c@ == new_credential(agent@, owner@, crate::tables::opt_view(parent), secret@, can_spawn, now, platform),
{
    AgentCredential {
        agent_user_id: agent,
        owner_user_id: owner,
        parent_agent_id: parent,
        owner_secret: secret,
        can_spawn,
        created_at: now,
        last_active_at: now,
        is_platform_agent: platform,
    }
}

/// Credentials owned by `owner`.
pub open spec fn owned_by(owner: Seq<char>) -> spec_fn(AgentCredentialV) -> bool {
    |c: AgentCredentialV| c.owner_user_id == owner
}

/// Maximum number of concurrent agents of a tier (0 for an unknown tier).
pub open spec fn agent_quota(limits: Seq<AgentSpawnLimitV>, tier: Seq<char>) -> u32 {
    match lookup(limits, tier) {
        Some(l) => l.max_concurrent_agents,
        None => 0,
    }
}

/// The owner has as many agents as its tier allows, or more.
pub open spec fn at_agent_quota(db: ChatDbV, owner: Seq<char>, tier: Seq<char>) -> bool {
    (db.agent_credentials.filter(owned_by(owner)).len() as u32) >= agent_quota(db.agent_spawn_limits, tier)
}

fn count_owned(db: &ChatDb, owner: &String) -> (n: u32)
    ensures
        n == (db@.agent_credentials.filter(owned_by(owner@)).len() as u32),
{
    let test = |c: &AgentCredential| -> (b: bool)
        ensures
            b == owned_by(owner@)(c@),
        { c.owner_user_id == *owner };
    let n = count_rows(&db.agent_credentials, test, Ghost(owned_by(owner@)));
    n as u32
}

fn quota_of(db: &ChatDb, tier: &String) -> (q: u32)
    requires
        db@.wf(),
    ensures
        q == agent_quota(db@.agent_spawn_limits, tier@),
{
    match spawn_limit(&db.agent_spawn_limits, tier) {
        Some(i) => db.agent_spawn_limits[i].max_concurrent_agents,
        None => 0,
    }
}

/// Outcome of [`provision_user_agent`].
pub open spec fn provision_user_agent_verdict(
    db: ChatDbV,
    c: CallerV,
    agent: Seq<char>,
    name: Seq<char>,
) -> Result<(), ChatError> {
    match c.user_id {
        None => Err(ChatError::NotRegistered),
        Some(uid) => match lookup(db.chat_users, uid) {
            None => Err(ChatError::NotFound),
            Some(me) => if is_set(me.is_bot) {
                Err(ChatError::NotPermitted)
            } else if at_agent_quota(db, uid, row_tier(me)) {
                Err(ChatError::LimitReached)
            } else if bot_display_name_verdict(name) is Err {
                Err(ChatError::Invalid)
            } else if any_row(db.chat_users, bot_named(name)) {
                Err(ChatError::AlreadyExists)
            } else if has_key(db.chat_users, agent) {
                Err(ChatError::AlreadyExists)
            } else {
                Ok(())
            },
        },
    }
}

/// Provision a user agent — callable by any registered human user.
///
/// Creates a personal agent chat user with is_bot set, counted against the
/// owner's tier quota. Bot display names are globally unique (case-insensitive).
pub fn provision_user_agent(
    db: &mut ChatDb,
    caller: &Caller,
    now: u64,
    agent_user_id: String,
    display_name: String,
    owner_secret: String,
) -> (r: Result<(), ChatError>)
    requires
        old(db)@.wf(),
        provision_user_agent_verdict(old(db)@, caller@, agent_user_id@, display_name@) is Ok
            ==> !has_key(old(db)@.agent_credentials, agent_user_id@),
    ensures
        final(db)@.wf(),
        r == provision_user_agent_verdict(old(db)@, caller@, agent_user_id@, display_name@),
        r is Err ==> final(db)@ == old(db)@,
        r is Ok ==> final(db)@ == (ChatDbV {
            chat_users: old(db)@.chat_users.push(
                new_bot_row(agent_user_id@, display_name@, "online"@, now, None, caller@.user_id.unwrap(), false),
            ),
            agent_credentials: old(db)@.agent_credentials.push(
                new_credential(agent_user_id@, caller@.user_id.unwrap(), None, owner_secret@, false, now, None),
            ),
            ..old(db)@
        }),
{
    let uid = match &caller.user_id {
        Some(u) => u,
        None => return Err(ChatError::NotRegistered),
    };
    let mi = match find_key(&db.chat_users, uid) {
        Some(i) => i,
        None => return Err(ChatError::NotFound),
    };
    if flag(db.chat_users[mi].is_bot) {
        return Err(ChatError::NotPermitted);
    }
    let tier = match &db.chat_users[mi].tier {
        Some(t) => t.clone(),
        None => to_owned_string("free"),
    };
    if count_owned(db, uid) >= quota_of(db, &tier) {
        return Err(ChatError::LimitReached);
    }
    if validate_bot_display_name(display_name.as_str()).is_err() {
        return Err(ChatError::Invalid);
    }
    if is_bot_name_taken(db, display_name.as_str()) {
        return Err(ChatError::AlreadyExists);
    }
    if find_key(&db.chat_users, &agent_user_id).is_some() {
        return Err(ChatError::AlreadyExists);
    }
    let user = make_bot_user(agent_user_id.clone(), display_name, "online", now, None, uid.clone(), false);
    insert_new(&mut db.chat_users, user);
    let cred = make_credential(agent_user_id, uid.clone(), None, owner_secret, false, now, None);
    insert_new(&mut db.agent_credentials, cred);
    Ok(())
}

/// Owner of an agent provisioned by the caller: the caller's own owner when
/// the caller is an agent, else the caller.
pub open spec fn provision_owner(db: ChatDbV, uid: Seq<char>) -> Seq<char> {
    match lookup(db.agent_credentials, uid) {
        Some(cc) => cc.owner_user_id,
        None => uid,
    }
}

/// Parent of an agent provisioned by the caller: the caller when it is an agent.
pub open spec fn provision_parent(db: ChatDbV, uid: Seq<char>) -> Option<Seq<char>> {
    match lookup(db.agent_credentials, uid) {
        Some(cc) => Some(uid),
        None => None,
    }
}

/// Outcome of [`provision_agent`].
pub open spec fn provision_agent_verdict(db: ChatDbV, c: CallerV, agent: Seq<char>, name: Seq<char>) -> Result<(), ChatError> {
    match c.user_id {
        None => Err(ChatError::NotRegistered),
        Some(uid) => if (match lookup(db.agent_credentials, uid) {
            Some(cc) => !cc.can_spawn || cc.parent_agent_id is Some,
            None => !c.is_platform_admin,
        }) {
            Err(ChatError::NotPermitted)
        } else if !c.is_platform_admin && at_agent_quota(
            db,
            provision_owner(db, uid),
            tier_of(db.chat_users, provision_owner(db, uid)),
        ) {
            Err(ChatError::LimitReached)
        } else if has_key(db.chat_users, agent) {
            Err(ChatError::AlreadyExists)
        } else if bot_display_name_verdict(name) is Err {
            Err(ChatError::Invalid)
        } else if any_row(db.chat_users, bot_named(name)) {
            Err(ChatError::AlreadyExists)
        } else {
            Ok(())
        },
    }
}

/// `Some(true)` when the flag is set, else absent.
pub open spec fn some_if(b: bool) -> Option<bool> {
    if b { Some(true) } else { None }
}

/// Provision a new agent — callable by platform admins or by agents allowed to
/// spawn (one level deep). Creates the bot's chat user and credentials and
/// joins it to the listed rooms that exist.
pub fn provision_agent(
    db: &mut ChatDb,
    caller: &Caller,
    now: u64,
    agent_user_id: String,
    display_name: String,
    owner_secret: String,
    can_spawn: bool,
    room_ids: Vec<String>,
    is_platform_agent: bool,
) -> (r: Result<(), ChatError>)
    requires
        old(db)@.wf(),
        provision_agent_verdict(old(db)@, caller@, agent_user_id@, display_name@) is Ok
            ==> !has_key(old(db)@.agent_credentials, agent_user_id@),
    ensures
        final(db)@.wf(),
        r == provision_agent_verdict(old(db)@, caller@, agent_user_id@, display_name@),
        r is Err ==> final(db)@ == old(db)@,
        r is Ok ==> ({
            let uid = caller@.user_id.unwrap();
            let owner = provision_owner(old(db)@, uid);
            final(db)@ == (ChatDbV {
                chat_users: old(db)@.chat_users.push(
                    new_bot_row(agent_user_id@, display_name@, "online"@, now, some_if(is_platform_agent), owner, false),
                ),
                agent_credentials: old(db)@.agent_credentials.push(new_credential(
                    agent_user_id@,
                    owner,
                    provision_parent(old(db)@, uid),
                    owner_secret@,
                    can_spawn,
                    now,
                    some_if(is_platform_agent),
                )),
                room_members: join_rooms(old(db)@.room_members, old(db)@.rooms, views(room_ids@), None, agent_user_id@, now),
                ..old(db)@
            })
        }),
{
    let uid = match &caller.user_id {
        Some(u) => u,
        None => return Err(ChatError::NotRegistered),
    };
    let (owner, parent) = match find_key(&db.agent_credentials, uid) {
        Some(i) => {
            if !db.agent_credentials[i].can_spawn || db.agent_credentials[i].parent_agent_id.is_some() {
                return Err(ChatError::NotPermitted);
            }
            (db.agent_credentials[i].owner_user_id.clone(), Some(uid.clone()))
        },
        None => {
            if !caller.is_platform_admin {
                return Err(ChatError::NotPermitted);
            }
            (uid.clone(), None)
        },
    };
    if !caller.is_platform_admin {
        let tier = user_tier(&db.chat_users, &owner);
        if count_owned(db, &owner) >= quota_of(db, &tier) {
            return Err(ChatError::LimitReached);
        }
    }
    if find_key(&db.chat_users, &agent_user_id).is_some() {
        return Err(ChatError::AlreadyExists);
    }
    if validate_bot_display_name(display_name.as_str()).is_err() {
        return Err(ChatError::Invalid);
    }
    if is_bot_name_taken(db, display_name.as_str()) {
        return Err(ChatError::AlreadyExists);
    }
    let platform = if is_platform_agent { Some(true) } else { None };
    let user = make_bot_user(agent_user_id.clone(), display_name, "online", now, platform, owner.clone(), false);
    insert_new(&mut db.chat_users, user);
    let cred = make_credential(agent_user_id.clone(), owner, parent, owner_secret, can_spawn, now, platform);
    insert_new(&mut db.agent_credentials, cred);
    join_room_list(db, &room_ids, &None, &agent_user_id, now);
    Ok(())
}

/// Provision a personal bot with a pre-defined persona: like
/// [`provision_user_agent`], and also writes the bot's configuration with the
/// persona fields (replacing a stale configuration of the same id).
pub fn provision_personal_bot_with_persona(
    db: &mut ChatDb,
    caller: &Caller,
    now: u64,
    agent_user_id: String,
    display_name: String,
    owner_secret: String,
    soul_document: Option<String>,
    domain: Option<String>,
    temperature: Option<u64>,
    persona_prompt: Option<String>,
    personality_vector_json: Option<String>,
    demographics_json: Option<String>,
) -> (r: Result<(), ChatError>)
    requires
        old(db)@.wf(),
        provision_user_agent_verdict(old(db)@, caller@, agent_user_id@, display_name@) is Ok
            ==> !has_key(old(db)@.agent_credentials, agent_user_id@),
    ensures
        final(db)@.wf(),
        r == provision_user_agent_verdict(old(db)@, caller@, agent_user_id@, display_name@),
        r is Err ==> final(db)@ == old(db)@,
        r is Ok ==> final(db)@ == (ChatDbV {
            chat_users: old(db)@.chat_users.push(
                new_bot_row(agent_user_id@, display_name@, "online"@, now, None, caller@.user_id.unwrap(), false),
            ),
            agent_credentials: old(db)@.agent_credentials.push(
                new_credential(agent_user_id@, caller@.user_id.unwrap(), None, owner_secret@, false, now, None),
            ),
            agent_configs: replace_row(old(db)@.agent_configs, config_row(
                agent_user_id@,
                caller@.user_id.unwrap(),
                opt_view(persona_prompt),
                None,
                None,
                temperature,
                None,
                Some(10),
                Some(4000),
                now,
                opt_view(personality_vector_json),
                opt_view(soul_document),
                opt_view(domain),
                opt_view(demographics_json),
            )),
            ..old(db)@
        }),
{
    let uid = match &caller.user_id {
        Some(u) => u,
        None => return Err(ChatError::NotRegistered),
    };
    let mi = match find_key(&db.chat_users, uid) {
        Some(i) => i,
        None => return Err(ChatError::NotFound),
    };
    if flag(db.chat_users[mi].is_bot) {
        return Err(ChatError::NotPermitted);
    }
    let tier = match &db.chat_users[mi].tier {
        Some(t) => t.clone(),
        None => to_owned_string("free"),
    };
    if count_owned(db, uid) >= quota_of(db, &tier) {
        return Err(ChatError::LimitReached);
    }
    if validate_bot_display_name(display_name.as_str()).is_err() {
        return Err(ChatError::Invalid);
    }
    if is_bot_name_taken(db, display_name.as_str()) {
        return Err(ChatError::AlreadyExists);
    }
    if find_key(&db.chat_users, &agent_user_id).is_some() {
        return Err(ChatError::AlreadyExists);
    }
    let user = make_bot_user(agent_user_id.clone(), display_name, "online", now, None, uid.clone(), false);
    insert_new(&mut db.chat_users, user);
    let cred = make_credential(agent_user_id.clone(), uid.clone(), None, owner_secret, false, now, None);
    insert_new(&mut db.agent_credentials, cred);
    let cfg = make_config(
        agent_user_id,
        uid.clone(),
        persona_prompt,
        None,
        None,
        temperature,
        None,
        Some(10),
        Some(4000),
        now,
        personality_vector_json,
        soul_document,
        domain,
        demographics_json,
    );
    upsert(&mut db.agent_configs, cfg);
    Ok(())
}

/// Outcome of [`promote_bot_to_personal`] (an already personal bot is left as is).
pub open spec fn promote_bot_verdict(db: ChatDbV, c: CallerV, bot: Seq<char>) -> Result<(), ChatError> {
    match c.user_id {
        None => Err(ChatError::NotRegistered),
        Some(uid) => match lookup(db.chat_users, bot) {
            None => Err(ChatError::NotFound),
            Some(u) => if !is_set(u.is_bot) {
                Err(ChatError::Invalid)
            } else if u.bot_owner_user_id != Some(uid) && !c.is_platform_admin {
                Err(ChatError::NotPermitted)
            } else {
                Ok(())
            },
        },
    }
}

/// Promote a swarm-origin bot to a personal bot (owner or platform admin):
/// clears its swarm-member flag. Idempotent.
pub fn promote_bot_to_personal(db: &mut ChatDb, caller: &Caller, bot_user_id: String) -> (r: Result<(), ChatError>)
    requires
        old(db)@.wf(),
    ensures
        final(db)@.wf(),
        r == promote_bot_verdict(old(db)@, caller@, bot_user_id@),
        r is Err ==> final(db)@ == old(db)@,
        r is Ok ==> ({
            let u = lookup(old(db)@.chat_users, bot_user_id@).unwrap();
            if is_set(u.is_swarm_member) {
                final(db)@ == (ChatDbV {
                    chat_users: replace_row(old(db)@.chat_users, ChatUserV { is_swarm_member: Some(false), ..u }),
                    ..old(db)@
                })
            } else {
                final(db)@ == old(db)@
            }
        }),
{
    let uid = match &caller.user_id {
        Some(u) => u,
        None => return Err(ChatError::NotRegistered),
    };
    let i = match find_key(&db.chat_users, &bot_user_id) {
        Some(i) => i,
        None => return Err(ChatError::NotFound),
    };
    if !flag(db.chat_users[i].is_bot) {
        return Err(ChatError::Invalid);
    }
    let is_owner = match &db.chat_users[i].bot_owner_user_id {
        Some(o) => *o == *uid,
        None => false,
    };
    if !is_owner && !caller.is_platform_admin {
        return Err(ChatError::NotPermitted);
    }
    if !flag(db.chat_users[i].is_swarm_member) {
        return Ok(());
    }
    let user = take_key(&mut db.chat_users, &bot_user_id).unwrap();
    proof {
        lemma_without_key(old(db)@.chat_users, bot_user_id@);
    }
    insert_new(&mut db.chat_users, ChatUser { is_swarm_member: Some(false), ..user });
    Ok(())
}

/// `new` when given, else `old`.
pub open spec fn given_or<T>(new: Option<T>, old: Option<T>) -> Option<T> {
    if new is Some { new } else { old }
}

/// Update the spawn limits of an existing tier (platform admin only).
pub fn update_agent_spawn_limits(
    db: &mut ChatDb,
    caller: &Caller,
    tier: String,
    max_concurrent_agents: u32,
    bot_rate_limit_ms: Option<u32>,
    max_servers: Option<u32>,
) -> (r: Result<(), ChatError>)
    requires
        old(db)@.wf(),
    ensures
        final(db)@.wf(),
        r == (if !caller.is_platform_admin {
            Err(ChatError::NotPermitted)
        } else if !has_key(old(db)@.agent_spawn_limits, tier@) {
            Err(ChatError::NotFound)
        } else {
            Ok(())
        }),
        r is Err ==> final(db)@ == old(db)@,
        r is Ok ==> ({
            let e = lookup(old(db)@.agent_spawn_limits, tier@).unwrap();
            final(db)@ == (ChatDbV {
                agent_spawn_limits: replace_row(old(db)@.agent_spawn_limits, AgentSpawnLimitV {
                    tier: tier@,
                    max_concurrent_agents: max_concurrent_agents,
                    bot_rate_limit_ms: given_or(bot_rate_limit_ms, e.bot_rate_limit_ms),
                    max_servers: given_or(max_servers, e.max_servers),
                }),
                ..old(db)@
            })
        }),
{
    if !caller.is_platform_admin {
        return Err(ChatError::NotPermitted);
    }
    let i = match find_key(&db.agent_spawn_limits, &tier) {
        Some(i) => i,
        None => return Err(ChatError::NotFound),
    };
    let e_rate = db.agent_spawn_limits[i].bot_rate_limit_ms;
    let e_srv = db.agent_spawn_limits[i].max_servers;
    let row = AgentSpawnLimit {
        tier,
        max_concurrent_agents,
        bot_rate_limit_ms: if bot_rate_limit_ms.is_some() { bot_rate_limit_ms } else { e_rate },
        max_servers: if max_servers.is_some() { max_servers } else { e_srv },
    };
    upsert(&mut db.agent_spawn_limits, row);
    Ok(())
}

/// Bot rate limit (ms) of the tier of `uid`: the tier's configured limit, else 5000.
pub open spec fn bot_rate_limit(db: ChatDbV, uid: Seq<char>) -> u64 {
    match lookup(db.agent_spawn_limits, tier_of(db.chat_users, uid)) {
        Some(l) => match l.bot_rate_limit_ms {
            Some(ms) => ms as u64,
            None => 5000,
        },
        None => 5000,
    }
}

/// The bot rate limit for a user's tier, in milliseconds (5000 when unset).
pub fn get_bot_rate_limit_ms(db: &ChatDb, user_id: &str) -> (ms: u64)
    requires
        db@.wf(),
    ensures
        ms == bot_rate_limit(db@, user_id@),
{
    let uid = to_owned_string(user_id);
    let tier = user_tier(&db.chat_users, &uid);
    match spawn_limit(&db.agent_spawn_limits, &tier) {
        Some(i) => match db.agent_spawn_limits[i].bot_rate_limit_ms {
            Some(ms) => ms as u64,
            None => 5000,
        },
        None => 5000,
    }
}

/// `limits` with a row for `tier` (`n` agents and servers, 5 s bot rate) unless it has one.
pub open spec fn seed_row(limits: Seq<AgentSpawnLimitV>, tier: Seq<char>, n: u32) -> Seq<AgentSpawnLimitV> {
    if has_key(limits, tier) {
        limits
    } else {
        limits.push(AgentSpawnLimitV { tier, max_concurrent_agents: n, bot_rate_limit_ms: Some(5000), max_servers: Some(n) })
    }
}

/// The spawn limits with the default tiers added where missing: free 0,
/// pro 3, creator 10, team 25, admin and developer 1000.
pub open spec fn seeded_limits(limits: Seq<AgentSpawnLimitV>) -> Seq<AgentSpawnLimitV> {
    seed_row(seed_row(seed_row(seed_row(seed_row(seed_row(limits,
        "free"@, 0), "pro"@, 3), "creator"@, 10), "team"@, 25), "admin"@, 1000), "developer"@, 1000)
}

fn seed_tier(db: &mut ChatDb, tier: &str, n: u32)
    requires
        old(db)@.wf(),
    ensures
        final(db)@.wf(),
        final(db)@ == (ChatDbV { agent_spawn_limits: seed_row(old(db)@.agent_spawn_limits, tier@, n), ..old(db)@ }),
{
    let t = to_owned_string(tier);
    if find_key(&db.agent_spawn_limits, &t).is_some() {
        return;
    }
    insert_new(&mut db.agent_spawn_limits, AgentSpawnLimit {
        tier: t,
        max_concurrent_agents: n,
        bot_rate_limit_ms: Some(5000),
        max_servers: Some(n),
    });
}

/// Seed the default spawn limits (platform admin only); tiers that already
/// have a row keep it.
pub fn seed_agent_spawn_limits(db: &mut ChatDb, caller: &Caller) -> (r: Result<(), ChatError>)
    requires
        old(db)@.wf(),
    ensures
        final(db)@.wf(),
        r is Err <==> !caller.is_platform_admin,
        r is Err ==> r == Err::<(), ChatError>(ChatError::NotPermitted) && final(db)@ == old(db)@,
        r is Ok ==> final(db)@ == (ChatDbV { agent_spawn_limits: seeded_limits(old(db)@.agent_spawn_limits), ..old(db)@ }),
{
    if !caller.is_platform_admin {
        return Err(ChatError::NotPermitted);
    }
    seed_tier(db, "free", 0);
    seed_tier(db, "pro", 3);
    seed_tier(db, "creator", 10);
    seed_tier(db, "team", 25);
    seed_tier(db, "admin", 1000);
    seed_tier(db, "developer", 1000);
    Ok(())
}

/// A bot with a `swarm-bot-` id not yet marked as a swarm member.
pub open spec fn unflagged_swarm_bot(u: ChatUserV) -> bool {
    u.is_bot == Some(true) && u.is_swarm_member is None && has_prefix("swarm-bot-"@, u.user_id)
}

/// `u` marked as a swarm member if it is an unflagged swarm bot.
pub open spec fn flag_swarm_bot(u: ChatUserV) -> ChatUserV {
    if unflagged_swarm_bot(u) { ChatUserV { is_swarm_member: Some(true), ..u } } else { u }
}

/// Mark every bot with a `swarm-bot-` id as a swarm member where the flag is
/// unset (platform admin only).
pub fn admin_backfill_swarm_member_flag(db: &mut ChatDb, caller: &Caller) -> (r: Result<(), ChatError>)
    requires
        old(db)@.wf(),
    ensures
        final(db)@.wf(),
        r is Err <==> !caller.is_platform_admin,
        r is Err ==> r == Err::<(), ChatError>(ChatError::NotPermitted) && final(db)@ == old(db)@,
        r is Ok ==> final(db)@ == (ChatDbV {
            chat_users: old(db)@.chat_users.map_values(|u: ChatUserV| flag_swarm_bot(u)),
            ..old(db)@
        }),
{
    if !caller.is_platform_admin {
        return Err(ChatError::NotPermitted);
    }
    let mark = |u: ChatUser| -> (v: ChatUser)
        ensures
            v@ == flag_swarm_bot(u@),
        {
            if u.is_bot == Some(true) && u.is_swarm_member.is_none() && str_starts_with(u.user_id.as_str(), "swarm-bot-") {
                ChatUser { is_swarm_member: Some(true), ..u }
            } else {
                u
            }
        };
    proof {
        lemma_map_unique(db@.chat_users, |u: ChatUserV| flag_swarm_bot(u));
    }
    map_rows(&mut db.chat_users, mark, Ghost(|u: ChatUserV| flag_swarm_bot(u)));
    Ok(())
}

} // verus!
