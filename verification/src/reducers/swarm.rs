//! Provisioning a whole swarm of bots in one request, from a JSON list of
//! bot descriptions. Every write checks for an existing row first, so a
//! repeated request changes nothing more.

use vstd::prelude::*;
use crate::context::{Caller, CallerV, ChatError};
use crate::db::{ChatDb, ChatDbV};
use crate::tables::{AgentConfig, AgentConfigV, opt_view};
use crate::store::{lookup, has_key, replace_row, find_key, contains_key, insert_new, take_key, lemma_without_key};
use crate::json::{JsonValue, field, str_of, string_items, opt_text, opt_number, get_field, as_text, extract_opt_string,
    extract_opt_number, string_list};
use crate::membership::{join_rooms, views, join_room_list};
use crate::reducers::agents::{new_bot_row, new_credential, make_bot_user, make_credential};
use crate::reducers::agent_config::{config_row, make_config};
use crate::reducers::servers::{server_member_id, server_member_row, make_server_member};
use crate::reducers::system::{system_authorized, validate_system_token, is_bot_user};
use crate::id_list::{id_list, parse_id_list};
use crate::common::{is_set, flag};
use crate::text::{trim, byte_len, trim_str, utf8_len, to_owned_string, join2};

verus! {

/// A text member of a bot description.
pub open spec fn text_field(spec: JsonValue, key: Seq<char>) -> Option<Seq<char>> {
    match field(spec, key) {
        Some(v) => str_of(v),
        None => None,
    }
}

/// An optional-text member of a bot description (see [`opt_text`]).
pub open spec fn opt_text_field(spec: JsonValue, key: Seq<char>) -> Option<Seq<char>> {
    match field(spec, key) {
        Some(v) => opt_text(v),
        None => None,
    }
}

/// A non-empty text member of a bot description.
pub open spec fn nonempty_text_field(spec: JsonValue, key: Seq<char>) -> Option<Seq<char>> {
    match text_field(spec, key) {
        Some(s) => if s.len() > 0 { Some(s) } else { None },
        None => None,
    }
}

/// The rooms a bot description lists.
pub open spec fn spec_rooms(spec: JsonValue) -> Seq<Seq<char>> {
    match field(spec, "rooms"@) {
        Some(v) => string_items(v),
        None => Seq::empty(),
    }
}

/// The bot can be used: an existing row must be a bot; a new bot needs a
/// trimmed display name of 2 to 32 bytes.
pub open spec fn swarm_bot_usable(db: ChatDbV, bot: Seq<char>, name: Seq<char>) -> bool {
    match lookup(db.chat_users, bot) {
        Some(u) => is_set(u.is_bot),
        None => byte_len(trim(name)) >= 2 && byte_len(trim(name)) <= 32,
    }
}

/// The configuration of a bot after its identity is written: an existing one keeps
/// its settings but takes each given identity field; a new one has the
/// default capabilities.
pub open spec fn identity_config(
    db: ChatDbV,
    bot: Seq<char>,
    owner: Seq<char>,
    persona: Option<Seq<char>>,
    temperature: Option<u64>,
    domain: Option<Seq<char>>,
    soul: Option<Seq<char>>,
    vector: Option<Seq<char>>,
    demographics: Option<Seq<char>>,
    now: u64,
) -> AgentConfigV {
    match lookup(db.agent_configs, bot) {
        Some(c) => AgentConfigV {
            persona_prompt: if persona is Some { persona } else { c.persona_prompt },
            temperature: if temperature is Some { temperature } else { c.temperature },
            soul_document: if soul is Some { soul } else { c.soul_document },
            domain: if domain is Some { domain } else { c.domain },
            personality_vector_json: if vector is Some { vector } else { c.personality_vector_json },
            demographics_json: if demographics is Some { demographics } else { c.demographics_json },
            updated_at: now,
            ..c
        },
        None => config_row(bot, owner, persona, None, None, temperature, None, Some(10), Some(4000), now, vector, soul, domain, demographics),
    }
}

/// `given` leaves `current` as it is: nothing is given, or the same value.
pub open spec fn given_or_same<T>(given: Option<T>, current: Option<T>) -> bool {
    given is None || given == current
}

/// Writing the given identity fields would leave configuration `c` as it is.
pub open spec fn keeps_identity(
    c: AgentConfigV,
    persona: Option<Seq<char>>,
    temperature: Option<u64>,
    domain: Option<Seq<char>>,
    soul: Option<Seq<char>>,
    vector: Option<Seq<char>>,
    demographics: Option<Seq<char>>,
) -> bool {
    &&& given_or_same(persona, c.persona_prompt)
    &&& given_or_same(temperature, c.temperature)
    &&& given_or_same(domain, c.domain)
    &&& given_or_same(soul, c.soul_document)
    &&& given_or_same(vector, c.personality_vector_json)
    &&& given_or_same(demographics, c.demographics_json)
}

/// The configurations after the bulk request writes a bot's identity: as they
/// are where the bot's configuration already holds every given field (a
/// repeated request changes nothing), else with the bot's row replaced by
/// [`identity_config`].
pub open spec fn swarm_configs(
    db: ChatDbV,
    bot: Seq<char>,
    owner: Seq<char>,
    persona: Option<Seq<char>>,
    temperature: Option<u64>,
    domain: Option<Seq<char>>,
    soul: Option<Seq<char>>,
    vector: Option<Seq<char>>,
    demographics: Option<Seq<char>>,
    now: u64,
) -> Seq<AgentConfigV> {
    match lookup(db.agent_configs, bot) {
        Some(c) => if keeps_identity(c, persona, temperature, domain, soul, vector, demographics) {
            db.agent_configs
        } else {
            replace_row(db.agent_configs, identity_config(db, bot, owner, persona, temperature, domain, soul, vector, demographics, now))
        },
        None => replace_row(db.agent_configs, identity_config(db, bot, owner, persona, temperature, domain, soul, vector, demographics, now)),
    }
}

/// The temperature a bot description gives (as `f64` bits).
pub open spec fn spec_temperature(spec: JsonValue) -> Option<u64> {
    match field(spec, "temperature"@) {
        Some(v) => opt_number(v),
        None => None,
    }
}

/// The database after provisioning the bot of one description on `server`
/// for `owner`: nothing for a description without bot id or display name, or
/// for an unusable bot; else the bot's row (if new), its credentials (if
/// missing), its server membership (if missing), its memberships of the
/// listed rooms of that server, and its configuration (see [`swarm_configs`]).
pub open spec fn swarm_bot_provisioned(db: ChatDbV, spec: JsonValue, server: Seq<char>, owner: Seq<char>, now: u64) -> ChatDbV {
    let bot_opt = text_field(spec, "bot_user_id"@);
    let name_opt = text_field(spec, "display_name"@);
    if bot_opt is None || name_opt is None {
        db
    } else {
        let bot = bot_opt.unwrap();
        let name = name_opt.unwrap();
        if !swarm_bot_usable(db, bot, name) {
            db
        } else {
            let secret = match text_field(spec, "owner_secret"@) { Some(s) => s, None => Seq::empty() };
            let users = if has_key(db.chat_users, bot) {
                db.chat_users
            } else {
                db.chat_users.push(new_bot_row(bot, trim(name), "offline"@, now, None, owner, true))
            };
            let creds = if has_key(db.agent_credentials, bot) {
                db.agent_credentials
            } else {
                db.agent_credentials.push(new_credential(bot, owner, None, secret, false, now, None))
            };
            let smid = server_member_id(server, bot);
            let smembers = if has_key(db.server_members, smid) {
                db.server_members
            } else {
                db.server_members.push(server_member_row(server, bot, "member"@, now))
            };
            let configs = swarm_configs(db, bot, owner,
                opt_text_field(spec, "persona_prompt"@),
                spec_temperature(spec),
                opt_text_field(spec, "domain"@),
                opt_text_field(spec, "soul_document"@),
                nonempty_text_field(spec, "personality_vector_json"@),
                nonempty_text_field(spec, "demographics_json"@),
                now);
            ChatDbV {
                chat_users: users,
                agent_credentials: creds,
                server_members: smembers,
                room_members: join_rooms(db.room_members, db.rooms, spec_rooms(spec), Some(server), bot, now),
                agent_configs: configs,
                ..db
            }
        }
    }
}

/// The database after provisioning the bots of `specs` in turn.
pub open spec fn swarm_provisioned(db: ChatDbV, specs: Seq<JsonValue>, server: Seq<char>, owner: Seq<char>, now: u64) -> ChatDbV
    decreases specs.len(),
{
    if specs.len() == 0 {
        db
    } else {
        swarm_bot_provisioned(swarm_provisioned(db, specs.drop_last(), server, owner, now), specs.last(), server, owner, now)
    }
}

/// Outcome of [`system_bulk_provision_swarm`]; `bots` is the parsed list
/// (none when the text was not JSON).
pub open spec fn swarm_verdict(db: ChatDbV, c: CallerV, token: Seq<char>, server: Seq<char>, bots: Option<JsonValue>) -> Result<(), ChatError> {
    if !system_authorized(db, c, token) {
        Err(ChatError::NotPermitted)
    } else if !has_key(db.chat_servers, server) {
        Err(ChatError::NotFound)
    } else {
        match bots {
            Some(JsonValue::Array(_)) => Ok(()),
            _ => Err(ChatError::Invalid),
        }
    }
}

fn text_of<'a>(spec: &'a JsonValue, key: &str) -> (r: Option<&'a String>)
    ensures
        match r {
            Some(s) => text_field(*spec, key@) == Some(s@),
            None => text_field(*spec, key@) is None,
        },
{
    match get_field(spec, key) {
        Some(v) => as_text(v),
        None => None,
    }
}

fn opt_text_of(spec: &JsonValue, key: &str) -> (r: Option<String>)
    ensures
        opt_view(r) == opt_text_field(*spec, key@),
{
    match get_field(spec, key) {
        Some(v) => extract_opt_string(v),
        None => None,
    }
}

fn nonempty_text_of(spec: &JsonValue, key: &str) -> (r: Option<String>)
    ensures
        opt_view(r) == nonempty_text_field(*spec, key@),
{
    match text_of(spec, key) {
        Some(s) => if s.unicode_len() > 0 { Some(s.clone()) } else { None },
        None => None,
    }
}

/// Write the identity fields of a bot's configuration (see [`identity_config`]).
fn upsert_identity_config(
    db: &mut ChatDb,
    bot: &String,
    owner: &String,
    persona: Option<String>,
    temperature: Option<u64>,
    domain: Option<String>,
    soul: Option<String>,
    vector: Option<String>,
    demographics: Option<String>,
    now: u64,
)
    requires
        old(db)@.wf(),
    ensures
        final(db)@.wf(),
        final(db)@ == (ChatDbV {
            agent_configs: replace_row(old(db)@.agent_configs, identity_config(old(db)@, bot@, owner@, opt_view(persona),
                temperature, opt_view(domain), opt_view(soul), opt_view(vector), opt_view(demographics), now)),
            ..old(db)@
        }),
{
    match take_key(&mut db.agent_configs, bot) {
        Some(c) => {
            proof {
                lemma_without_key(old(db)@.agent_configs, bot@);
            }
            let updated = AgentConfig {
                persona_prompt: if persona.is_some() { persona } else { c.persona_prompt },
                temperature: if temperature.is_some() { temperature } else { c.temperature },
                soul_document: if soul.is_some() { soul } else { c.soul_document },
                domain: if domain.is_some() { domain } else { c.domain },
                personality_vector_json: if vector.is_some() { vector } else { c.personality_vector_json },
                demographics_json: if demographics.is_some() { demographics } else { c.demographics_json },
                updated_at: now,
                ..c
            };
            insert_new(&mut db.agent_configs, updated);
        },
        None => {
            proof {
                lemma_without_key(old(db)@.agent_configs, bot@);
            }
            let c = make_config(bot.clone(), owner.clone(), persona, None, None, temperature, None, Some(10), Some(4000), now,
                vector, soul, domain, demographics);
            insert_new(&mut db.agent_configs, c);
        },
    }
}

fn same_text(given: &Option<String>, current: &Option<String>) -> (r: bool)
    ensures
        r == given_or_same(opt_view(*given), opt_view(*current)),
{
    match given {
        None => true,
        Some(g) => match current {
            Some(c) => *g == *c,
            None => false,
        },
    }
}

fn same_number(given: Option<u64>, current: Option<u64>) -> (r: bool)
    ensures
        r == given_or_same(given, current),
{
    match given {
        None => true,
        Some(g) => match current {
            Some(c) => g == c,
            None => false,
        },
    }
}

/// Write the identity fields of a bot's configuration for the bulk request
/// (see [`swarm_configs`]): nothing is written where they are already there.
fn bulk_upsert_agent_config(
    db: &mut ChatDb,
    bot: &String,
    owner: &String,
    persona: Option<String>,
    temperature: Option<u64>,
    domain: Option<String>,
    soul: Option<String>,
    vector: Option<String>,
    demographics: Option<String>,
    now: u64,
)
    requires
        old(db)@.wf(),
    ensures
        final(db)@.wf(),
        final(db)@ == (ChatDbV {
            agent_configs: swarm_configs(old(db)@, bot@, owner@, opt_view(persona), temperature, opt_view(domain),
                opt_view(soul), opt_view(vector), opt_view(demographics), now),
            ..old(db)@
        }),
{
    match find_key(&db.agent_configs, bot) {
        Some(i) => {
            let c = &db.agent_configs[i];
            if same_text(&persona, &c.persona_prompt) && same_number(temperature, c.temperature)
                && same_text(&domain, &c.domain) && same_text(&soul, &c.soul_document)
                && same_text(&vector, &c.personality_vector_json) && same_text(&demographics, &c.demographics_json) {
                return;
            }
        },
        None => {},
    }
    upsert_identity_config(db, bot, owner, persona, temperature, domain, soul, vector, demographics, now);
}

/// Add the bot's user row unless it exists; whether the bot can be used
/// (see [`swarm_bot_usable`]).
fn bulk_upsert_chat_user(db: &mut ChatDb, bot: &String, name: &String, owner: &String, now: u64) -> (ok: bool)
    requires
        old(db)@.wf(),
    ensures
        final(db)@.wf(),
        ok == swarm_bot_usable(old(db)@, bot@, name@),
        final(db)@ == if ok && !has_key(old(db)@.chat_users, bot@) {
            ChatDbV {
                chat_users: old(db)@.chat_users.push(new_bot_row(bot@, trim(name@), "offline"@, now, None, owner@, true)),
                ..old(db)@
            }
        } else {
            old(db)@
        },
{
    match find_key(&db.chat_users, bot) {
        Some(i) => flag(db.chat_users[i].is_bot),
        None => {
            let t = trim_str(name.as_str());
            let n = utf8_len(t);
            if n < 2 || n > 32 {
                return false;
            }
            let u = make_bot_user(bot.clone(), to_owned_string(t), "offline", now, None, owner.clone(), true);
            insert_new(&mut db.chat_users, u);
            true
        },
    }
}

/// Add the bot's credentials unless it has some.
fn bulk_upsert_credential(db: &mut ChatDb, bot: &String, owner: &String, secret: String, now: u64)
    requires
        old(db)@.wf(),
    ensures
        final(db)@.wf(),
        final(db)@ == (ChatDbV {
            agent_credentials: if has_key(old(db)@.agent_credentials, bot@) {
                old(db)@.agent_credentials
            } else {
                old(db)@.agent_credentials.push(new_credential(bot@, owner@, None, secret@, false, now, None))
            },
            ..old(db)@
        }),
{
    if !contains_key(&db.agent_credentials, bot) {
        let c = make_credential(bot.clone(), owner.clone(), None, secret, false, now, None);
        insert_new(&mut db.agent_credentials, c);
    }
}

/// Add the bot's membership of `server` unless it has one, and its
/// memberships of the listed rooms of that server (see [`join_rooms`]).
fn bulk_upsert_memberships(db: &mut ChatDb, bot: &String, server: &String, rooms: &Vec<String>, now: u64)
    requires
        old(db)@.wf(),
    ensures
        final(db)@.wf(),
        final(db)@ == (ChatDbV {
            server_members: if has_key(old(db)@.server_members, server_member_id(server@, bot@)) {
                old(db)@.server_members
            } else {
                old(db)@.server_members.push(server_member_row(server@, bot@, "member"@, now))
            },
            room_members: join_rooms(old(db)@.room_members, old(db)@.rooms, views(rooms@), Some(server@), bot@, now),
            ..old(db)@
        }),
{
    let smid = join2(server.as_str(), "-", bot.as_str());
    if !contains_key(&db.server_members, &smid) {
        insert_new(&mut db.server_members, make_server_member(server, bot, "member", now));
    }
    let some_server = Some(server.clone());
    join_room_list(db, rooms, &some_server, bot, now);
}

fn provision_swarm_bot(db: &mut ChatDb, spec: &JsonValue, server: &String, owner: &String, now: u64)
    requires
        old(db)@.wf(),
    ensures
        final(db)@.wf(),
        final(db)@ == swarm_bot_provisioned(old(db)@, *spec, server@, owner@, now),
{
    let bot = match text_of(spec, "bot_user_id") {
        Some(b) => b.clone(),
        None => return,
    };
    let name = match text_of(spec, "display_name") {
        Some(n) => n.clone(),
        None => return,
    };
    let secret = match text_of(spec, "owner_secret") {
        Some(s) => s.clone(),
        None => String::new(),
    };
    let rooms = match get_field(spec, "rooms") {
        Some(v) => string_list(v),
        None => Vec::new(),
    };
    assert(views(rooms@) =~= spec_rooms(*spec));
    let persona = opt_text_of(spec, "persona_prompt");
    let temperature = match get_field(spec, "temperature") {
        Some(v) => extract_opt_number(v),
        None => None,
    };
    let domain = opt_text_of(spec, "domain");
    let soul = opt_text_of(spec, "soul_document");
    let vector = nonempty_text_of(spec, "personality_vector_json");
    let demographics = nonempty_text_of(spec, "demographics_json");
    let ghost o = db@;
    if !bulk_upsert_chat_user(db, &bot, &name, owner, now) {
        return;
    }
    bulk_upsert_credential(db, &bot, owner, secret, now);
    bulk_upsert_memberships(db, &bot, server, &rooms, now);
    let ghost before_config = db@;
    assert(swarm_configs(before_config, bot@, owner@, opt_view(persona), temperature, opt_view(domain), opt_view(soul),
        opt_view(vector), opt_view(demographics), now) == swarm_configs(o, bot@, owner@, opt_view(persona), temperature,
        opt_view(domain), opt_view(soul), opt_view(vector), opt_view(demographics), now));
    bulk_upsert_agent_config(db, &bot, owner, persona, temperature, domain, soul, vector, demographics, now);
}

/// Provision a swarm of bots on a server in one request (system token or
/// platform admin). `bots` is the request's JSON text as parsed (none when it
/// was not JSON) and must be an array; each description with a bot id and a
/// display name provisions its bot (see [`swarm_bot_provisioned`]); the
/// others are skipped.
pub fn system_bulk_provision_swarm(
    db: &mut ChatDb,
    caller: &Caller,
    now: u64,
    system_token: String,
    server_id: String,
    owner_user_id: String,
    bots: Option<JsonValue>,
) -> (r: Result<(), ChatError>)
    requires
        old(db)@.wf(),
    ensures
        final(db)@.wf(),
        r == swarm_verdict(old(db)@, caller@, system_token@, server_id@, bots),
        r is Err ==> final(db)@ == old(db)@,
        r is Ok ==> match bots {
            Some(JsonValue::Array(items)) => final(db)@ == swarm_provisioned(old(db)@, items@, server_id@, owner_user_id@, now),
            _ => false,
        },
{
    if !validate_system_token(db, system_token.as_str()) && !caller.is_platform_admin {
        return Err(ChatError::NotPermitted);
    }
    if !contains_key(&db.chat_servers, &server_id) {
        return Err(ChatError::NotFound);
    }
    let specs = match &bots {
        Some(JsonValue::Array(items)) => items,
        _ => return Err(ChatError::Invalid),
    };
    let ghost o = db@;
    let mut i: usize = 0;
    while i < specs.len()
        invariant
            i <= specs@.len(),
            db@.wf(),
            db@ == swarm_provisioned(o, specs@.take(i as int), server_id@, owner_user_id@, now),
        decreases specs.len() - i,
    {
        proof {
            assert(specs@.take(i + 1).drop_last() =~= specs@.take(i as int));
            assert(specs@.take(i + 1).last() == specs@[i as int]);
        }
        provision_swarm_bot(db, &specs[i], &server_id, &owner_user_id, now);
        i = i + 1;
    }
    assert(specs@.take(specs@.len() as int) =~= specs@);
    Ok(())
}

/// Outcome of [`system_add_bot_to_server`].
pub open spec fn add_bot_verdict(db: ChatDbV, c: CallerV, token: Seq<char>, bot: Seq<char>, server: Seq<char>) -> Result<(), ChatError> {
    if !system_authorized(db, c, token) {
        Err(ChatError::NotPermitted)
    } else if !is_bot_user(db, bot) {
        Err(ChatError::Invalid)
    } else if !has_key(db.chat_servers, server) {
        Err(ChatError::NotFound)
    } else {
        Ok(())
    }
}

/// Add a bot to a server (system token or platform admin) and to the rooms of
/// that server that a bracketed id list names (see [`id_list`]); rows that
/// exist are left alone, and rooms of other servers are skipped.
pub fn system_add_bot_to_server(
    db: &mut ChatDb,
    caller: &Caller,
    now: u64,
    system_token: String,
    bot_user_id: String,
    server_id: String,
    room_ids_json: String,
) -> (r: Result<(), ChatError>)
    requires
        old(db)@.wf(),
    ensures
        final(db)@.wf(),
        r == add_bot_verdict(old(db)@, caller@, system_token@, bot_user_id@, server_id@),
        r is Err ==> final(db)@ == old(db)@,
        r is Ok ==> ({
            let smid = server_member_id(server_id@, bot_user_id@);
            final(db)@ == (ChatDbV {
                server_members: if has_key(old(db)@.server_members, smid) {
                    old(db)@.server_members
                } else {
                    old(db)@.server_members.push(server_member_row(server_id@, bot_user_id@, "member"@, now))
                },
                room_members: join_rooms(old(db)@.room_members, old(db)@.rooms, id_list(room_ids_json@), Some(server_id@), bot_user_id@, now),
                ..old(db)@
            })
        }),
{
    if !validate_system_token(db, system_token.as_str()) && !caller.is_platform_admin {
        return Err(ChatError::NotPermitted);
    }
    match find_key(&db.chat_users, &bot_user_id) {
        Some(i) => {
            if !flag(db.chat_users[i].is_bot) {
                return Err(ChatError::Invalid);
            }
        },
        None => return Err(ChatError::Invalid),
    }
    if !contains_key(&db.chat_servers, &server_id) {
        return Err(ChatError::NotFound);
    }
    let smid = join2(server_id.as_str(), "-", bot_user_id.as_str());
    if !contains_key(&db.server_members, &smid) {
        insert_new(&mut db.server_members, make_server_member(&server_id, &bot_user_id, "member", now));
    }
    let ids = parse_id_list(room_ids_json.as_str());
    assert(views(ids@) =~= id_list(room_ids_json@));
    let some_server = Some(server_id.clone());
    join_room_list(db, &ids, &some_server, &bot_user_id, now);
    Ok(())
}

/// Outcome of the identity writes of other services: the request carries the
/// system token (or comes from a platform admin) and names a bot.
pub open spec fn bot_identity_verdict(db: ChatDbV, c: CallerV, token: Seq<char>, agent: Seq<char>) -> Result<(), ChatError> {
    if !system_authorized(db, c, token) {
        Err(ChatError::NotPermitted)
    } else if !is_bot_user(db, agent) {
        Err(ChatError::Invalid)
    } else {
        Ok(())
    }
}

/// The owner recorded on a bot's row ("" when none).
pub open spec fn bot_owner_of(db: ChatDbV, agent: Seq<char>) -> Seq<char> {
    match lookup(db.chat_users, agent) {
        Some(u) => match u.bot_owner_user_id {
            Some(o) => o,
            None => Seq::empty(),
        },
        None => Seq::empty(),
    }
}

fn owner_of_bot(db: &ChatDb, agent: &String) -> (o: String)
    requires
        db@.wf(),
    ensures
        o@ == bot_owner_of(db@, agent@),
{
    match find_key(&db.chat_users, agent) {
        Some(i) => match &db.chat_users[i].bot_owner_user_id {
            Some(o) => o.clone(),
            None => String::new(),
        },
        None => String::new(),
    }
}

/// Write a bot's persona, temperature (as `f64` bits), domain and SOUL
/// document (system token or platform admin); only given fields change an
/// existing configuration, and a missing one is created with the default
/// capabilities for the bot's owner.
pub fn system_update_agent_config(
    db: &mut ChatDb,
    caller: &Caller,
    now: u64,
    system_token: String,
    agent_user_id: String,
    persona_prompt: Option<String>,
    temperature: Option<u64>,
    domain: Option<String>,
    soul_document: Option<String>,
) -> (r: Result<(), ChatError>)
    requires
        old(db)@.wf(),
    ensures
        final(db)@.wf(),
        r == bot_identity_verdict(old(db)@, caller@, system_token@, agent_user_id@),
        r is Err ==> final(db)@ == old(db)@,
        r is Ok ==> final(db)@ == (ChatDbV {
            agent_configs: replace_row(old(db)@.agent_configs, identity_config(old(db)@, agent_user_id@,
                bot_owner_of(old(db)@, agent_user_id@), opt_view(persona_prompt), temperature, opt_view(domain),
                opt_view(soul_document), None, None, now)),
            ..old(db)@
        }),
{
    if !validate_system_token(db, system_token.as_str()) && !caller.is_platform_admin {
        return Err(ChatError::NotPermitted);
    }
    match find_key(&db.chat_users, &agent_user_id) {
        Some(i) => {
            if !flag(db.chat_users[i].is_bot) {
                return Err(ChatError::Invalid);
            }
        },
        None => return Err(ChatError::Invalid),
    }
    let owner = owner_of_bot(db, &agent_user_id);
    upsert_identity_config(db, &agent_user_id, &owner, persona_prompt, temperature, domain, soul_document, None, None, now);
    Ok(())
}

/// Some text, or none when empty.
pub open spec fn nonempty(s: Seq<char>) -> Option<Seq<char>> {
    if s.len() > 0 { Some(s) } else { None }
}

fn nonempty_string(s: String) -> (r: Option<String>)
    ensures
        opt_view(r) == nonempty(s@),
{
    if s.unicode_len() > 0 { Some(s) } else { None }
}

/// A bot's configuration after its full identity is written: the four
/// identity fields of an existing one take the given values (an empty text
/// is no value), its other settings stay; a missing one is created with the
/// default capabilities.
pub open spec fn written_identity(
    db: ChatDbV,
    agent: Seq<char>,
    owner: Seq<char>,
    vector: Option<Seq<char>>,
    demographics: Option<Seq<char>>,
    soul: Option<Seq<char>>,
    domain: Option<Seq<char>>,
    now: u64,
) -> AgentConfigV {
    match lookup(db.agent_configs, agent) {
        Some(c) => AgentConfigV {
            personality_vector_json: vector,
            demographics_json: demographics,
            soul_document: soul,
            domain: domain,
            updated_at: now,
            ..c
        },
        None => config_row(agent, owner, None, None, None, None, None, Some(10), Some(4000), now, vector, soul, domain, demographics),
    }
}

/// Store `written_identity` for a bot.
fn write_identity_config(
    db: &mut ChatDb,
    bot: &String,
    owner: &String,
    vector: Option<String>,
    demographics: Option<String>,
    soul: Option<String>,
    domain: Option<String>,
    now: u64,
)
    requires
        old(db)@.wf(),
    ensures
        final(db)@.wf(),
        final(db)@ == (ChatDbV {
            agent_configs: replace_row(old(db)@.agent_configs, written_identity(old(db)@, bot@, owner@, opt_view(vector),
                opt_view(demographics), opt_view(soul), opt_view(domain), now)),
            ..old(db)@
        }),
{
    match take_key(&mut db.agent_configs, bot) {
        Some(c) => {
            proof {
                lemma_without_key(old(db)@.agent_configs, bot@);
            }
            let updated = AgentConfig {
                personality_vector_json: vector,
                demographics_json: demographics,
                soul_document: soul,
                domain: domain,
                updated_at: now,
                ..c
            };
            insert_new(&mut db.agent_configs, updated);
        },
        None => {
            proof {
                lemma_without_key(old(db)@.agent_configs, bot@);
            }
            let c = make_config(bot.clone(), owner.clone(), None, None, None, None, None, Some(10), Some(4000), now,
                vector, soul, domain, demographics);
            insert_new(&mut db.agent_configs, c);
        },
    }
}

/// Write a bot's full identity (system token or platform admin): the
/// personality vector, demographics, SOUL document and domain are overwritten
/// in place, an empty text standing for no value (see [`written_identity`]).
pub fn system_write_agent_identity(
    db: &mut ChatDb,
    caller: &Caller,
    now: u64,
    system_token: String,
    agent_user_id: String,
    personality_vector_json: String,
    demographics_json: String,
    soul_document: String,
    domain: String,
) -> (r: Result<(), ChatError>)
    requires
        old(db)@.wf(),
    ensures
        final(db)@.wf(),
        r == bot_identity_verdict(old(db)@, caller@, system_token@, agent_user_id@),
        r is Err ==> final(db)@ == old(db)@,
        r is Ok ==> final(db)@ == (ChatDbV {
            agent_configs: replace_row(old(db)@.agent_configs, written_identity(old(db)@, agent_user_id@,
                bot_owner_of(old(db)@, agent_user_id@), nonempty(personality_vector_json@), nonempty(demographics_json@),
                nonempty(soul_document@), nonempty(domain@), now)),
            ..old(db)@
        }),
{
    if !validate_system_token(db, system_token.as_str()) && !caller.is_platform_admin {
        return Err(ChatError::NotPermitted);
    }
    match find_key(&db.chat_users, &agent_user_id) {
        Some(i) => {
            if !flag(db.chat_users[i].is_bot) {
                return Err(ChatError::Invalid);
            }
        },
        None => return Err(ChatError::Invalid),
    }
    let owner = owner_of_bot(db, &agent_user_id);
    let pvec = nonempty_string(personality_vector_json);
    let demo = nonempty_string(demographics_json);
    let soul = nonempty_string(soul_document);
    let dom = nonempty_string(domain);
    write_identity_config(db, &agent_user_id, &owner, pvec, demo, soul, dom, now);
    Ok(())
}

} // verus!
