//! Agent configuration: persona, model and capability settings of bots.

use vstd::prelude::*;
use crate::context::{Caller, CallerV, ChatError};
use crate::db::{ChatDb, ChatDbV};
use crate::tables::{AgentConfig, AgentConfigV, AgentCapabilityOverride, AgentCapabilityOverrideV, opt_view};
use crate::store::{lookup, has_key, replace_row, without_key, find_key, insert_new, upsert, remove_key};
use crate::common::{tier_of, user_tier, clone_opt};
use crate::text::join2;

verus! {

/// A configuration row with the default capabilities (messages, thread
/// replies, reactions, GIFs, file and media sharing, embeds on; polls, pins,
/// thread management off; share review required; mention auto-response on).
pub open spec fn config_row(
    agent: Seq<char>,
    owner: Seq<char>,
    persona_prompt: Option<Seq<char>>,
    personality_preset: Option<Seq<char>>,
    default_model: Option<Seq<char>>,
    temperature: Option<u64>,
    max_tokens: Option<u32>,
    max_responses_per_minute: Option<u32>,
    max_message_length: Option<u32>,
    now: u64,
    personality_vector_json: Option<Seq<char>>,
    soul_document: Option<Seq<char>>,
    domain: Option<Seq<char>>,
    demographics_json: Option<Seq<char>>,
) -> AgentConfigV {
    AgentConfigV {
        agent_user_id: agent,
        owner_user_id: owner,
        persona_prompt: persona_prompt,
        personality_preset: personality_preset,
        default_model: default_model,
        temperature: temperature,
        max_tokens: max_tokens,
        can_send_messages: Some(true),
        can_reply_to_threads: Some(true),
        can_react: Some(true),
        can_send_gifs: Some(true),
        can_share_vfs_files: Some(true),
        can_share_vfs_media: Some(true),
        can_use_embeds: Some(true),
        can_create_polls: Some(false),
        can_pin_messages: Some(false),
        can_manage_threads: Some(false),
        require_share_review: Some(true),
        max_file_size_bytes: None,
        allowed_share_types: None,
        shares_per_hour: None,
        auto_respond_mentions: Some(true),
        owner_only_mentions: Some(false),
        respond_in_threads_only: Some(false),
        max_responses_per_minute: max_responses_per_minute,
        max_message_length: max_message_length,
        heartbeat_interval_ms: None,
        loop_detection_enabled: None,
        mentorship_stage: None,
        created_at: now,
        updated_at: now,
        personality_vector_json: personality_vector_json,
        soul_document: soul_document,
        domain: domain,
        demographics_json: demographics_json,
    }
}

/// Build a configuration row with the default capabilities (see [`config_row`]).
pub fn make_config(
    agent: String,
    owner: String,
    persona_prompt: Option<String>,
    personality_preset: Option<String>,
    default_model: Option<String>,
    temperature: Option<u64>,
    max_tokens: Option<u32>,
    max_responses_per_minute: Option<u32>,
    max_message_length: Option<u32>,
    now: u64,
    personality_vector_json: Option<String>,
    soul_document: Option<String>,
    domain: Option<String>,
    demographics_json: Option<String>,
) -> (c: AgentConfig)
    ensures
        c@ == config_row(
            agent@,
            owner@,
            opt_view(persona_prompt),
            opt_view(personality_preset),
            opt_view(default_model),
            temperature,
            max_tokens,
            max_responses_per_minute,
            max_message_length,
            now,
            opt_view(personality_vector_json),
            opt_view(soul_document),
            opt_view(domain),
            opt_view(demographics_json),
        ),
{
    AgentConfig {
        agent_user_id: agent,
        owner_user_id: owner,
        persona_prompt,
        personality_preset,
        default_model,
        temperature,
        max_tokens,
        can_send_messages: Some(true),
        can_reply_to_threads: Some(true),
        can_react: Some(true),
        can_send_gifs: Some(true),
        can_share_vfs_files: Some(true),
        can_share_vfs_media: Some(true),
        can_use_embeds: Some(true),
        can_create_polls: Some(false),
        can_pin_messages: Some(false),
        can_manage_threads: Some(false),
        require_share_review: Some(true),
        max_file_size_bytes: None,
        allowed_share_types: None,
        shares_per_hour: None,
        auto_respond_mentions: Some(true),
        owner_only_mentions: Some(false),
        respond_in_threads_only: Some(false),
        max_responses_per_minute,
        max_message_length,
        heartbeat_interval_ms: None,
        loop_detection_enabled: None,
        mentorship_stage: None,
        created_at: now,
        updated_at: now,
        personality_vector_json,
        soul_document,
        domain,
        demographics_json,
    }
}

/// Outcome of [`create_agent_config`].
pub open spec fn create_agent_config_verdict(db: ChatDbV, c: CallerV, agent: Seq<char>) -> Result<(), ChatError> {
    match c.user_id {
        None => Err(ChatError::NotRegistered),
        Some(uid) => match lookup(db.agent_credentials, agent) {
            None => Err(ChatError::NotFound),
            Some(cred) => if cred.owner_user_id != uid && !c.is_platform_admin {
                Err(ChatError::NotPermitted)
            } else if has_key(db.agent_configs, agent) {
                Err(ChatError::AlreadyExists)
            } else {
                Ok(())
            },
        },
    }
}

/// Create the initial config of a provisioned agent (owner or platform admin).
pub fn create_agent_config(
    db: &mut ChatDb,
    caller: &Caller,
    now: u64,
    agent_user_id: String,
    persona_prompt: Option<String>,
    personality_preset: Option<String>,
    default_model: Option<String>,
    temperature: Option<u64>,
    max_tokens: Option<u32>,
) -> (r: Result<(), ChatError>)
    requires
        old(db)@.wf(),
    ensures
        final(db)@.wf(),
        r == create_agent_config_verdict(old(db)@, caller@, agent_user_id@),
        r is Err ==> final(db)@ == old(db)@,
        r is Ok ==> final(db)@ == (ChatDbV {
            agent_configs: old(db)@.agent_configs.push(config_row(
                agent_user_id@,
                lookup(old(db)@.agent_credentials, agent_user_id@).unwrap().owner_user_id,
                opt_view(persona_prompt),
                opt_view(personality_preset),
                opt_view(default_model),
                temperature,
                max_tokens,
                None,
                None,
                now,
                None,
                None,
                None,
                None,
            )),
            ..old(db)@
        }),
{
    let uid = match &caller.user_id {
        Some(u) => u,
        None => return Err(ChatError::NotRegistered),
    };
    let ci = match find_key(&db.agent_credentials, &agent_user_id) {
        Some(i) => i,
        None => return Err(ChatError::NotFound),
    };
    if db.agent_credentials[ci].owner_user_id != *uid && !caller.is_platform_admin {
        return Err(ChatError::NotPermitted);
    }
    if find_key(&db.agent_configs, &agent_user_id).is_some() {
        return Err(ChatError::AlreadyExists);
    }
    let owner = db.agent_credentials[ci].owner_user_id.clone();
    let cfg = make_config(
        agent_user_id,
        owner,
        persona_prompt,
        personality_preset,
        default_model,
        temperature,
        max_tokens,
        None,
        None,
        now,
        None,
        None,
        None,
        None,
    );
    insert_new(&mut db.agent_configs, cfg);
    Ok(())
}

/// The id of a capability override: "<tier>:<capability>".
pub open spec fn override_id(tier: Seq<char>, capability: Seq<char>) -> Seq<char> {
    tier + ":"@ + capability
}

/// An admin lock on `capability` for agents of owners of `tier`.
pub open spec fn capability_locked(db: ChatDbV, tier: Seq<char>, capability: Seq<char>) -> bool {
    match lookup(db.agent_capability_overrides, override_id(tier, capability)) {
        Some(o) => o.locked,
        None => false,
    }
}

/// Set or update a capability override for a tier (platform admin only).
pub fn update_agent_capability_override(
    db: &mut ChatDb,
    caller: &Caller,
    tier: String,
    capability: String,
    forced_value: bool,
    locked: bool,
) -> (r: Result<(), ChatError>)
    requires
        old(db)@.wf(),
    ensures
        final(db)@.wf(),
        r is Err <==> !caller.is_platform_admin,
        r is Err ==> r == Err::<(), ChatError>(ChatError::NotPermitted) && final(db)@ == old(db)@,
        r is Ok ==> final(db)@ == (ChatDbV {
            agent_capability_overrides: replace_row(old(db)@.agent_capability_overrides, AgentCapabilityOverrideV {
                id: override_id(tier@, capability@),
                tier: tier@,
                capability: capability@,
                forced_value: forced_value,
                locked: locked,
            }),
            ..old(db)@
        }),
{
    if !caller.is_platform_admin {
        return Err(ChatError::NotPermitted);
    }
    let id = join2(tier.as_str(), ":", capability.as_str());
    let row = AgentCapabilityOverride { id, tier, capability, forced_value, locked };
    upsert(&mut db.agent_capability_overrides, row);
    Ok(())
}

/// Remove a capability override for a tier (platform admin only).
pub fn remove_agent_capability_override(db: &mut ChatDb, caller: &Caller, tier: String, capability: String) -> (r: Result<(), ChatError>)
    requires
        old(db)@.wf(),
    ensures
        final(db)@.wf(),
        r is Err <==> !caller.is_platform_admin,
        r is Err ==> r == Err::<(), ChatError>(ChatError::NotPermitted) && final(db)@ == old(db)@,
        r is Ok ==> final(db)@ == (ChatDbV {
            agent_capability_overrides: without_key(old(db)@.agent_capability_overrides, override_id(tier@, capability@)),
            ..old(db)@
        }),
{
    if !caller.is_platform_admin {
        return Err(ChatError::NotPermitted);
    }
    let id = join2(tier.as_str(), ":", capability.as_str());
    remove_key(&mut db.agent_capability_overrides, &id);
    Ok(())
}

/// `new` when it is given, else `old`.
pub open spec fn pick<T>(new: Option<T>, old: Option<T>) -> Option<T> {
    if new is Some { new } else { old }
}

/// `new` when it is given and the capability is not locked, else `old`.
pub open spec fn pick_unlocked(new: Option<bool>, old: Option<bool>, locked: bool) -> Option<bool> {
    if new is Some && !locked { new } else { old }
}

/// The capability is locked for the agent's owner tier and the caller is no admin.
pub open spec fn cap_locked(db: ChatDbV, c: CallerV, agent: Seq<char>, capability: Seq<char>) -> bool {
    !c.is_platform_admin && capability_locked(
        db,
        tier_of(db.chat_users, lookup(db.agent_credentials, agent).unwrap().owner_user_id),
        capability,
    )
}

/// Outcome of [`update_agent_config`].
pub open spec fn update_agent_config_verdict(db: ChatDbV, c: CallerV, agent: Seq<char>) -> Result<(), ChatError> {
    match c.user_id {
        None => Err(ChatError::NotRegistered),
        Some(uid) => match lookup(db.agent_credentials, agent) {
            None => Err(ChatError::NotFound),
            Some(cred) => if cred.owner_user_id != uid && !c.is_platform_admin {
                Err(ChatError::NotPermitted)
            } else if !has_key(db.agent_configs, agent) {
                Err(ChatError::NotFound)
            } else {
                Ok(())
            },
        },
    }
}

/// `e` with the given fields replacing the stored ones; capability `i` keeps
/// its stored value when `lk<i>` holds.
pub open spec fn merged_config(
    e: AgentConfigV,
    now: u64,
    persona_prompt: Option<Seq<char>>,
    personality_preset: Option<Seq<char>>,
    default_model: Option<Seq<char>>,
    temperature: Option<u64>,
    max_tokens: Option<u32>,
    can_send_messages: Option<bool>,
    can_reply_to_threads: Option<bool>,
    can_react: Option<bool>,
    can_send_gifs: Option<bool>,
    can_share_vfs_files: Option<bool>,
    can_share_vfs_media: Option<bool>,
    can_use_embeds: Option<bool>,
    can_create_polls: Option<bool>,
    can_pin_messages: Option<bool>,
    can_manage_threads: Option<bool>,
    require_share_review: Option<bool>,
    max_file_size_bytes: Option<u64>,
    allowed_share_types: Option<Seq<char>>,
    shares_per_hour: Option<u32>,
    auto_respond_mentions: Option<bool>,
    owner_only_mentions: Option<bool>,
    respond_in_threads_only: Option<bool>,
    max_responses_per_minute: Option<u32>,
    max_message_length: Option<u32>,
    lk0: bool, lk1: bool, lk2: bool, lk3: bool, lk4: bool, lk5: bool, lk6: bool, lk7: bool, lk8: bool, lk9: bool,
) -> AgentConfigV {
    AgentConfigV {
        persona_prompt: pick(persona_prompt, e.persona_prompt),
        personality_preset: pick(personality_preset, e.personality_preset),
        default_model: pick(default_model, e.default_model),
        temperature: pick(temperature, e.temperature),
        max_tokens: pick(max_tokens, e.max_tokens),
        can_send_messages: pick_unlocked(can_send_messages, e.can_send_messages, lk0),
        can_reply_to_threads: pick_unlocked(can_reply_to_threads, e.can_reply_to_threads, lk1),
        can_react: pick_unlocked(can_react, e.can_react, lk2),
        can_send_gifs: pick_unlocked(can_send_gifs, e.can_send_gifs, lk3),
        can_share_vfs_files: pick_unlocked(can_share_vfs_files, e.can_share_vfs_files, lk4),
        can_share_vfs_media: pick_unlocked(can_share_vfs_media, e.can_share_vfs_media, lk5),
        can_use_embeds: pick_unlocked(can_use_embeds, e.can_use_embeds, lk6),
        can_create_polls: pick_unlocked(can_create_polls, e.can_create_polls, lk7),
        can_pin_messages: pick_unlocked(can_pin_messages, e.can_pin_messages, lk8),
        can_manage_threads: pick_unlocked(can_manage_threads, e.can_manage_threads, lk9),
        require_share_review: pick(require_share_review, e.require_share_review),
        max_file_size_bytes: pick(max_file_size_bytes, e.max_file_size_bytes),
        allowed_share_types: pick(allowed_share_types, e.allowed_share_types),
        shares_per_hour: pick(shares_per_hour, e.shares_per_hour),
        auto_respond_mentions: pick(auto_respond_mentions, e.auto_respond_mentions),
        owner_only_mentions: pick(owner_only_mentions, e.owner_only_mentions),
        respond_in_threads_only: pick(respond_in_threads_only, e.respond_in_threads_only),
        max_responses_per_minute: pick(max_responses_per_minute, e.max_responses_per_minute),
        max_message_length: pick(max_message_length, e.max_message_length),
        updated_at: now,
        ..e
    }
}

/// The configuration after [`update_agent_config`]: given fields replace the
/// stored ones, except capabilities locked for the owner's tier (admins bypass locks).
pub open spec fn updated_config(
    db: ChatDbV,
    c: CallerV,
    agent: Seq<char>,
    now: u64,
    persona_prompt: Option<Seq<char>>,
    personality_preset: Option<Seq<char>>,
    default_model: Option<Seq<char>>,
    temperature: Option<u64>,
    max_tokens: Option<u32>,
    can_send_messages: Option<bool>,
    can_reply_to_threads: Option<bool>,
    can_react: Option<bool>,
    can_send_gifs: Option<bool>,
    can_share_vfs_files: Option<bool>,
    can_share_vfs_media: Option<bool>,
    can_use_embeds: Option<bool>,
    can_create_polls: Option<bool>,
    can_pin_messages: Option<bool>,
    can_manage_threads: Option<bool>,
    require_share_review: Option<bool>,
    max_file_size_bytes: Option<u64>,
    allowed_share_types: Option<Seq<char>>,
    shares_per_hour: Option<u32>,
    auto_respond_mentions: Option<bool>,
    owner_only_mentions: Option<bool>,
    respond_in_threads_only: Option<bool>,
    max_responses_per_minute: Option<u32>,
    max_message_length: Option<u32>,
) -> AgentConfigV {
    merged_config(
        lookup(db.agent_configs, agent).unwrap(),
        now,
        persona_prompt, personality_preset, default_model, temperature, max_tokens, can_send_messages, can_reply_to_threads, can_react, can_send_gifs, can_share_vfs_files, can_share_vfs_media, can_use_embeds, can_create_polls, can_pin_messages, can_manage_threads, require_share_review, max_file_size_bytes, allowed_share_types, shares_per_hour, auto_respond_mentions, owner_only_mentions, respond_in_threads_only, max_responses_per_minute, max_message_length,
        cap_locked(db, c, agent, "can_send_messages"@), cap_locked(db, c, agent, "can_reply_to_threads"@), cap_locked(db, c, agent, "can_react"@), cap_locked(db, c, agent, "can_send_gifs"@), cap_locked(db, c, agent, "can_share_vfs_files"@), cap_locked(db, c, agent, "can_share_vfs_media"@), cap_locked(db, c, agent, "can_use_embeds"@), cap_locked(db, c, agent, "can_create_polls"@), cap_locked(db, c, agent, "can_pin_messages"@), cap_locked(db, c, agent, "can_manage_threads"@),
    )
}

fn is_locked(db: &ChatDb, is_admin: bool, tier: &String, capability: &str) -> (b: bool)
    requires
        db@.wf(),
    ensures
        b == (!is_admin && capability_locked(db@, tier@, capability@)),
{
    if is_admin {
        return false;
    }
    let id = join2(tier.as_str(), ":", capability);
    match find_key(&db.agent_capability_overrides, &id) {
        Some(i) => db.agent_capability_overrides[i].locked,
        None => false,
    }
}

fn pick_str(new: Option<String>, old: &Option<String>) -> (r: Option<String>)
    ensures
        opt_view(r) == pick(opt_view(new), opt_view(*old)),
{
    if new.is_some() {
        new
    } else {
        clone_opt(old)
    }
}

fn pick_copy<T: Copy>(new: Option<T>, old: Option<T>) -> (r: Option<T>)
    ensures
        r == pick(new, old),
{
    if new.is_some() {
        new
    } else {
        old
    }
}

fn pick_bool(new: Option<bool>, old: Option<bool>, locked: bool) -> (r: Option<bool>)
    ensures
        r == pick_unlocked(new, old, locked),
{
    if new.is_some() && !locked {
        new
    } else {
        old
    }
}

fn merge_config(
    e: &AgentConfig,
    now: u64,
    persona_prompt: Option<String>,
    personality_preset: Option<String>,
    default_model: Option<String>,
    temperature: Option<u64>,
    max_tokens: Option<u32>,
    can_send_messages: Option<bool>,
    can_reply_to_threads: Option<bool>,
    can_react: Option<bool>,
    can_send_gifs: Option<bool>,
    can_share_vfs_files: Option<bool>,
    can_share_vfs_media: Option<bool>,
    can_use_embeds: Option<bool>,
    can_create_polls: Option<bool>,
    can_pin_messages: Option<bool>,
    can_manage_threads: Option<bool>,
    require_share_review: Option<bool>,
    max_file_size_bytes: Option<u64>,
    allowed_share_types: Option<String>,
    shares_per_hour: Option<u32>,
    auto_respond_mentions: Option<bool>,
    owner_only_mentions: Option<bool>,
    respond_in_threads_only: Option<bool>,
    max_responses_per_minute: Option<u32>,
    max_message_length: Option<u32>,
    lk0: bool, lk1: bool, lk2: bool, lk3: bool, lk4: bool, lk5: bool, lk6: bool, lk7: bool, lk8: bool, lk9: bool,
) -> (r: AgentConfig)
    ensures
        r@ == merged_config(e@, now, opt_view(persona_prompt), opt_view(personality_preset), opt_view(default_model), temperature, max_tokens, can_send_messages, can_reply_to_threads, can_react, can_send_gifs, can_share_vfs_files, can_share_vfs_media, can_use_embeds, can_create_polls, can_pin_messages, can_manage_threads, require_share_review, max_file_size_bytes, opt_view(allowed_share_types), shares_per_hour, auto_respond_mentions, owner_only_mentions, respond_in_threads_only, max_responses_per_minute, max_message_length, lk0, lk1, lk2, lk3, lk4, lk5, lk6, lk7, lk8, lk9),
{
    AgentConfig {
        agent_user_id: e.agent_user_id.clone(),
        owner_user_id: e.owner_user_id.clone(),
        persona_prompt: pick_str(persona_prompt, &e.persona_prompt),
        personality_preset: pick_str(personality_preset, &e.personality_preset),
        default_model: pick_str(default_model, &e.default_model),
        temperature: pick_copy(temperature, e.temperature),
        max_tokens: pick_copy(max_tokens, e.max_tokens),
        can_send_messages: pick_bool(can_send_messages, e.can_send_messages, lk0),
        can_reply_to_threads: pick_bool(can_reply_to_threads, e.can_reply_to_threads, lk1),
        can_react: pick_bool(can_react, e.can_react, lk2),
        can_send_gifs: pick_bool(can_send_gifs, e.can_send_gifs, lk3),
        can_share_vfs_files: pick_bool(can_share_vfs_files, e.can_share_vfs_files, lk4),
        can_share_vfs_media: pick_bool(can_share_vfs_media, e.can_share_vfs_media, lk5),
        can_use_embeds: pick_bool(can_use_embeds, e.can_use_embeds, lk6),
        can_create_polls: pick_bool(can_create_polls, e.can_create_polls, lk7),
        can_pin_messages: pick_bool(can_pin_messages, e.can_pin_messages, lk8),
        can_manage_threads: pick_bool(can_manage_threads, e.can_manage_threads, lk9),
        require_share_review: pick_copy(require_share_review, e.require_share_review),
        max_file_size_bytes: pick_copy(max_file_size_bytes, e.max_file_size_bytes),
        allowed_share_types: pick_str(allowed_share_types, &e.allowed_share_types),
        shares_per_hour: pick_copy(shares_per_hour, e.shares_per_hour),
        auto_respond_mentions: pick_copy(auto_respond_mentions, e.auto_respond_mentions),
        owner_only_mentions: pick_copy(owner_only_mentions, e.owner_only_mentions),
        respond_in_threads_only: pick_copy(respond_in_threads_only, e.respond_in_threads_only),
        max_responses_per_minute: pick_copy(max_responses_per_minute, e.max_responses_per_minute),
        max_message_length: pick_copy(max_message_length, e.max_message_length),
        heartbeat_interval_ms: e.heartbeat_interval_ms,
        loop_detection_enabled: e.loop_detection_enabled,
        mentorship_stage: clone_opt(&e.mentorship_stage),
        created_at: e.created_at,
        updated_at: now,
        personality_vector_json: clone_opt(&e.personality_vector_json),
        soul_document: clone_opt(&e.soul_document),
        domain: clone_opt(&e.domain),
        demographics_json: clone_opt(&e.demographics_json),
    }
}

/// Update an agent's config — owner or platform admin. Capabilities locked by
/// an admin override for the owner's tier keep their value unless the caller
/// is a platform admin.
pub fn update_agent_config(
    db: &mut ChatDb,
    caller: &Caller,
    now: u64,
    agent_user_id: String,
    persona_prompt: Option<String>,
    personality_preset: Option<String>,
    default_model: Option<String>,
    temperature: Option<u64>,
    max_tokens: Option<u32>,
    can_send_messages: Option<bool>,
    can_reply_to_threads: Option<bool>,
    can_react: Option<bool>,
    can_send_gifs: Option<bool>,
    can_share_vfs_files: Option<bool>,
    can_share_vfs_media: Option<bool>,
    can_use_embeds: Option<bool>,
    can_create_polls: Option<bool>,
    can_pin_messages: Option<bool>,
    can_manage_threads: Option<bool>,
    require_share_review: Option<bool>,
    max_file_size_bytes: Option<u64>,
    allowed_share_types: Option<String>,
    shares_per_hour: Option<u32>,
    auto_respond_mentions: Option<bool>,
    owner_only_mentions: Option<bool>,
    respond_in_threads_only: Option<bool>,
    max_responses_per_minute: Option<u32>,
    max_message_length: Option<u32>,
) -> (r: Result<(), ChatError>)
    requires
        old(db)@.wf(),
    ensures
        final(db)@.wf(),
        r == update_agent_config_verdict(old(db)@, caller@, agent_user_id@),
        r is Err ==> final(db)@ == old(db)@,
        r is Ok ==> final(db)@ == (ChatDbV {
            agent_configs: replace_row(
                old(db)@.agent_configs,
                updated_config(old(db)@, caller@, agent_user_id@, now, opt_view(persona_prompt), opt_view(personality_preset), opt_view(default_model), temperature, max_tokens, can_send_messages, can_reply_to_threads, can_react, can_send_gifs, can_share_vfs_files, can_share_vfs_media, can_use_embeds, can_create_polls, can_pin_messages, can_manage_threads, require_share_review, max_file_size_bytes, opt_view(allowed_share_types), shares_per_hour, auto_respond_mentions, owner_only_mentions, respond_in_threads_only, max_responses_per_minute, max_message_length),
            ),
            ..old(db)@
        }),
{
    let uid = match &caller.user_id {
        Some(u) => u,
        None => return Err(ChatError::NotRegistered),
    };
    let ci = match find_key(&db.agent_credentials, &agent_user_id) {
        Some(i) => i,
        None => return Err(ChatError::NotFound),
    };
    if db.agent_credentials[ci].owner_user_id != *uid && !caller.is_platform_admin {
        return Err(ChatError::NotPermitted);
    }
    let ei = match find_key(&db.agent_configs, &agent_user_id) {
        Some(i) => i,
        None => return Err(ChatError::NotFound),
    };
    let tier = user_tier(&db.chat_users, &db.agent_credentials[ci].owner_user_id);
    let lk0 = is_locked(db, caller.is_platform_admin, &tier, "can_send_messages");
    let lk1 = is_locked(db, caller.is_platform_admin, &tier, "can_reply_to_threads");
    let lk2 = is_locked(db, caller.is_platform_admin, &tier, "can_react");
    let lk3 = is_locked(db, caller.is_platform_admin, &tier, "can_send_gifs");
    let lk4 = is_locked(db, caller.is_platform_admin, &tier, "can_share_vfs_files");
    let lk5 = is_locked(db, caller.is_platform_admin, &tier, "can_share_vfs_media");
    let lk6 = is_locked(db, caller.is_platform_admin, &tier, "can_use_embeds");
    let lk7 = is_locked(db, caller.is_platform_admin, &tier, "can_create_polls");
    let lk8 = is_locked(db, caller.is_platform_admin, &tier, "can_pin_messages");
    let lk9 = is_locked(db, caller.is_platform_admin, &tier, "can_manage_threads");
    let updated = merge_config(&db.agent_configs[ei], now, persona_prompt, personality_preset, default_model, temperature, max_tokens, can_send_messages, can_reply_to_threads, can_react, can_send_gifs, can_share_vfs_files, can_share_vfs_media, can_use_embeds, can_create_polls, can_pin_messages, can_manage_threads, require_share_review, max_file_size_bytes, allowed_share_types, shares_per_hour, auto_respond_mentions, owner_only_mentions, respond_in_threads_only, max_responses_per_minute, max_message_length, lk0, lk1, lk2, lk3, lk4, lk5, lk6, lk7, lk8, lk9);
    upsert(&mut db.agent_configs, updated);
    Ok(())
}

} // verus!
