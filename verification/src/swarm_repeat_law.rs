//! Provisioning the same swarm twice: every write of the bulk request checks
//! for an existing row first, so a second run changes nothing.

use vstd::prelude::*;
use crate::db::ChatDbV;
use crate::tables::{KeyedView, RoomV, RoomMemberV, AgentConfigV};
use crate::store::{lookup, has_key, unique_keys, lemma_push_unique, lemma_without_key};
use crate::json::JsonValue;
use crate::membership::{join_rooms, joinable, member_id, member_row};
use crate::common::is_set;
use crate::reducers::servers::server_member_id;
use crate::reducers::swarm::{text_field, opt_text_field, nonempty_text_field, spec_temperature, spec_rooms, swarm_bot_usable,
    swarm_bot_provisioned, swarm_provisioned, keeps_identity, identity_config};

verus! {

/// A row pushed onto a table keeps every key the table had.
proof fn lemma_key_kept<V: KeyedView>(s: Seq<V>, x: V, k: Seq<char>)
    requires
        has_key(s, k),
    ensures
        has_key(s.push(x), k),
{
    let i = choose|i: int| 0 <= i < s.len() && #[trigger] s[i].key() == k;
    assert(s.push(x)[i] == s[i]);
}

/// After `join_rooms`, the user has a membership row id in every joinable
/// room of the list, and every earlier row id remains.
pub proof fn lemma_join_cover(
    m: Seq<RoomMemberV>,
    rooms: Seq<RoomV>,
    ids: Seq<Seq<char>>,
    server: Option<Seq<char>>,
    user: Seq<char>,
    now: u64,
)
    ensures
        forall|k: Seq<char>| has_key(m, k) ==> #[trigger] has_key(join_rooms(m, rooms, ids, server, user, now), k),
        forall|j: int| 0 <= j < ids.len() && joinable(rooms, #[trigger] ids[j], server)
            ==> has_key(join_rooms(m, rooms, ids, server, user, now), member_id(ids[j], user)),
    decreases ids.len(),
{
    if ids.len() > 0 {
        let d = ids.drop_last();
        lemma_join_cover(m, rooms, d, server, user, now);
        let prev = join_rooms(m, rooms, d, server, user, now);
        let rid = ids.last();
        if !(!joinable(rooms, rid, server) || has_key(prev, member_id(rid, user))) {
            let x = member_row(rid, user, "member"@, now);
            assert forall|k: Seq<char>| has_key(prev, k) implies #[trigger] has_key(prev.push(x), k) by {
                lemma_key_kept(prev, x, k);
            }
            assert(prev.push(x)[prev.len() as int] == x);
            assert(prev.push(x)[prev.len() as int].key() == member_id(rid, user));
        }
        assert forall|j: int| 0 <= j < ids.len() && joinable(rooms, #[trigger] ids[j], server)
            implies has_key(join_rooms(m, rooms, ids, server, user, now), member_id(ids[j], user)) by {
            if j < d.len() {
                assert(d[j] == ids[j]);
            } else {
                assert(ids[j] == rid);
            }
        }
    }
}

/// `join_rooms` changes nothing where every joinable room of the list
/// already has the user's membership row id.
proof fn lemma_join_fixed(
    m: Seq<RoomMemberV>,
    rooms: Seq<RoomV>,
    ids: Seq<Seq<char>>,
    server: Option<Seq<char>>,
    user: Seq<char>,
    now: u64,
)
    requires
        forall|j: int| 0 <= j < ids.len() && joinable(rooms, #[trigger] ids[j], server) ==> has_key(m, member_id(ids[j], user)),
    ensures
        join_rooms(m, rooms, ids, server, user, now) == m,
    decreases ids.len(),
{
    if ids.len() > 0 {
        let d = ids.drop_last();
        assert forall|j: int| 0 <= j < d.len() && joinable(rooms, #[trigger] d[j], server) implies has_key(m, member_id(d[j], user)) by {
            assert(d[j] == ids[j]);
        }
        lemma_join_fixed(m, rooms, d, server, user, now);
        assert(ids.last() == ids[ids.len() - 1]);
    }
}

/// The bot of a description, if it names one.
pub open spec fn bot_of(spec: JsonValue) -> Option<Seq<char>> {
    text_field(spec, "bot_user_id"@)
}

/// The identity fields that description `spec` gives are already in the
/// configuration of `bot`.
pub open spec fn identity_held(db: ChatDbV, spec: JsonValue, bot: Seq<char>) -> bool {
    match lookup(db.agent_configs, bot) {
        Some(c) => keeps_identity(c, opt_text_field(spec, "persona_prompt"@), spec_temperature(spec),
            opt_text_field(spec, "domain"@), opt_text_field(spec, "soul_document"@),
            nonempty_text_field(spec, "personality_vector_json"@), nonempty_text_field(spec, "demographics_json"@)),
        None => false,
    }
}

/// Provisioning the description `spec` would change nothing in `db`: it names
/// no bot or no display name, its bot cannot be used, or the bot already has
/// its user row, credentials, server membership, a membership row id in each
/// listed room of the server, and a configuration holding the given identity.
pub open spec fn provided(db: ChatDbV, spec: JsonValue, server: Seq<char>) -> bool {
    let bot_opt = bot_of(spec);
    let name_opt = text_field(spec, "display_name"@);
    bot_opt is None || name_opt is None || !swarm_bot_usable(db, bot_opt.unwrap(), name_opt.unwrap()) || {
        let bot = bot_opt.unwrap();
        &&& has_key(db.chat_users, bot)
        &&& has_key(db.agent_credentials, bot)
        &&& has_key(db.server_members, server_member_id(server, bot))
        &&& forall|j: int| 0 <= j < spec_rooms(spec).len() && joinable(db.rooms, #[trigger] spec_rooms(spec)[j], Some(server))
            ==> has_key(db.room_members, member_id(spec_rooms(spec)[j], bot))
        &&& identity_held(db, spec, bot)
    }
}

/// The configuration [`identity_config`] makes belongs to its bot.
proof fn lemma_identity_config_key(
    db: ChatDbV,
    bot: Seq<char>,
    owner: Seq<char>,
    persona: Option<Seq<char>>,
    temperature: Option<u64>,
    domain: Option<Seq<char>>,
    soul: Option<Seq<char>>,
    vector: Option<Seq<char>>,
    demographics: Option<Seq<char>>,
    now: u64,
)
    ensures
        identity_config(db, bot, owner, persona, temperature, domain, soul, vector, demographics, now).key() == bot,
        keeps_identity(identity_config(db, bot, owner, persona, temperature, domain, soul, vector, demographics, now),
            persona, temperature, domain, soul, vector, demographics),
{
    if has_key(db.agent_configs, bot) {
        let i = choose|i: int| 0 <= i < db.agent_configs.len() && #[trigger] db.agent_configs[i].key() == bot;
        assert(lookup(db.agent_configs, bot).unwrap().key() == bot);
    }
}

/// Replacing the row of `x`'s key keeps the rows of the other keys and puts
/// `x` in place.
proof fn lemma_replace_lookup(s: Seq<AgentConfigV>, x: AgentConfigV)
    requires
        unique_keys(s),
    ensures
        unique_keys(crate::store::replace_row(s, x)),
        lookup(crate::store::replace_row(s, x), x.key()) == Some(x),
        forall|k: Seq<char>| k != x.key() ==> #[trigger] lookup(crate::store::replace_row(s, x), k) == lookup(s, k),
{
    lemma_without_key(s, x.key());
    lemma_push_unique(crate::store::without_key(s, x.key()), x);
}

/// A provided description changes nothing.
proof fn lemma_provided_step(db: ChatDbV, spec: JsonValue, server: Seq<char>, owner: Seq<char>, now: u64)
    requires
        provided(db, spec, server),
    ensures
        swarm_bot_provisioned(db, spec, server, owner, now) == db,
{
    let bot_opt = bot_of(spec);
    let name_opt = text_field(spec, "display_name"@);
    if !(bot_opt is None || name_opt is None || !swarm_bot_usable(db, bot_opt.unwrap(), name_opt.unwrap())) {
        lemma_join_fixed(db.room_members, db.rooms, spec_rooms(spec), Some(server), bot_opt.unwrap(), now);
    }
}

/// After its own step a description is provided, and user and configuration
/// keys stay unique.
proof fn lemma_own_step(db: ChatDbV, spec: JsonValue, server: Seq<char>, owner: Seq<char>, now: u64)
    requires
        unique_keys(db.chat_users),
        unique_keys(db.agent_configs),
    ensures
        provided(swarm_bot_provisioned(db, spec, server, owner, now), spec, server),
        unique_keys(swarm_bot_provisioned(db, spec, server, owner, now).chat_users),
        unique_keys(swarm_bot_provisioned(db, spec, server, owner, now).agent_configs),
{
    let d2 = swarm_bot_provisioned(db, spec, server, owner, now);
    let bot_opt = bot_of(spec);
    let name_opt = text_field(spec, "display_name"@);
    if !(bot_opt is None || name_opt is None || !swarm_bot_usable(db, bot_opt.unwrap(), name_opt.unwrap())) {
        let bot = bot_opt.unwrap();
        if !has_key(db.chat_users, bot) {
            let u = crate::reducers::agents::new_bot_row(bot, crate::text::trim(name_opt.unwrap()), "offline"@, now, None, owner, true);
            lemma_push_unique(db.chat_users, u);
        } else {
            let i = choose|i: int| 0 <= i < db.chat_users.len() && #[trigger] db.chat_users[i].key() == bot;
            crate::store::lemma_lookup_index(db.chat_users, i);
        }
        assert(lookup(d2.chat_users, bot) is Some);
        assert(is_set(lookup(d2.chat_users, bot).unwrap().is_bot));
        if !has_key(db.agent_credentials, bot) {
            let c = crate::reducers::agents::new_credential(bot, owner, None,
                match text_field(spec, "owner_secret"@) { Some(s) => s, None => Seq::empty() }, false, now, None);
            assert(db.agent_credentials.push(c)[db.agent_credentials.len() as int].key() == bot);
        }
        let smid = server_member_id(server, bot);
        if !has_key(db.server_members, smid) {
            let sm = crate::reducers::servers::server_member_row(server, bot, "member"@, now);
            assert(db.server_members.push(sm)[db.server_members.len() as int].key() == smid);
        }
        lemma_join_cover(db.room_members, db.rooms, spec_rooms(spec), Some(server), bot, now);
        config_step(db, spec, bot, owner, now);
    }
}

/// The configuration part of a description's step, for its bot `bot`.
proof fn config_step(db: ChatDbV, spec: JsonValue, bot: Seq<char>, owner: Seq<char>, now: u64)
    requires
        unique_keys(db.agent_configs),
    ensures
        ({
            let cfgs = crate::reducers::swarm::swarm_configs(db, bot, owner, opt_text_field(spec, "persona_prompt"@),
                spec_temperature(spec), opt_text_field(spec, "domain"@), opt_text_field(spec, "soul_document"@),
                nonempty_text_field(spec, "personality_vector_json"@), nonempty_text_field(spec, "demographics_json"@), now);
            &&& unique_keys(cfgs)
            &&& identity_held(ChatDbV { agent_configs: cfgs, ..db }, spec, bot)
            &&& forall|k: Seq<char>| k != bot ==> #[trigger] lookup(cfgs, k) == lookup(db.agent_configs, k)
        }),
{
    let persona = opt_text_field(spec, "persona_prompt"@);
    let temperature = spec_temperature(spec);
    let domain = opt_text_field(spec, "domain"@);
    let soul = opt_text_field(spec, "soul_document"@);
    let vector = nonempty_text_field(spec, "personality_vector_json"@);
    let demographics = nonempty_text_field(spec, "demographics_json"@);
    let x = identity_config(db, bot, owner, persona, temperature, domain, soul, vector, demographics, now);
    lemma_identity_config_key(db, bot, owner, persona, temperature, domain, soul, vector, demographics, now);
    lemma_replace_lookup(db.agent_configs, x);
}

/// Another description's step, for a different bot, keeps a description
/// provided.
proof fn lemma_other_step(db: ChatDbV, spec: JsonValue, other: JsonValue, server: Seq<char>, owner: Seq<char>, now: u64)
    requires
        unique_keys(db.chat_users),
        unique_keys(db.agent_configs),
        provided(db, spec, server),
        bot_of(spec) is Some && bot_of(other) is Some ==> bot_of(spec) != bot_of(other),
    ensures
        provided(swarm_bot_provisioned(db, other, server, owner, now), spec, server),
{
    let d2 = swarm_bot_provisioned(db, other, server, owner, now);
    let ob = bot_of(other);
    let oname = text_field(other, "display_name"@);
    if !(ob is None || oname is None || !swarm_bot_usable(db, ob.unwrap(), oname.unwrap())) && bot_of(spec) is Some {
        let bot = bot_of(spec).unwrap();
        let o = ob.unwrap();
        assert(o != bot);
        if !has_key(db.chat_users, o) {
            let u = crate::reducers::agents::new_bot_row(o, crate::text::trim(oname.unwrap()), "offline"@, now, None, owner, true);
            lemma_push_unique(db.chat_users, u);
            assert(lookup(d2.chat_users, bot) == lookup(db.chat_users, bot));
        }
        if has_key(db.agent_credentials, bot) && !has_key(db.agent_credentials, o) {
            let c = crate::reducers::agents::new_credential(o, owner, None,
                match text_field(other, "owner_secret"@) { Some(s) => s, None => Seq::empty() }, false, now, None);
            lemma_key_kept(db.agent_credentials, c, bot);
        }
        let smid = server_member_id(server, bot);
        let osmid = server_member_id(server, o);
        if has_key(db.server_members, smid) && !has_key(db.server_members, osmid) {
            let sm = crate::reducers::servers::server_member_row(server, o, "member"@, now);
            lemma_key_kept(db.server_members, sm, smid);
        }
        lemma_join_cover(db.room_members, db.rooms, spec_rooms(other), Some(server), o, now);
        config_step(db, other, o, owner, now);
        assert(lookup(d2.agent_configs, bot) == lookup(db.agent_configs, bot));
    }
}

/// Bots named by two descriptions of `specs` differ.
pub open spec fn distinct_bots(specs: Seq<JsonValue>) -> bool {
    forall|i: int, j: int| 0 <= i < specs.len() && 0 <= j < specs.len() && i != j
        && (#[trigger] bot_of(specs[i])) is Some && (#[trigger] bot_of(specs[j])) is Some
        ==> bot_of(specs[i]) != bot_of(specs[j])
}

proof fn lemma_first_run(db: ChatDbV, specs: Seq<JsonValue>, server: Seq<char>, owner: Seq<char>, now: u64, k: int)
    requires
        unique_keys(db.chat_users),
        unique_keys(db.agent_configs),
        distinct_bots(specs),
        0 <= k <= specs.len(),
    ensures
        unique_keys(swarm_provisioned(db, specs.take(k), server, owner, now).chat_users),
        unique_keys(swarm_provisioned(db, specs.take(k), server, owner, now).agent_configs),
        forall|j: int| 0 <= j < k ==> provided(swarm_provisioned(db, specs.take(k), server, owner, now), #[trigger] specs[j], server),
    decreases k,
{
    if k > 0 {
        lemma_first_run(db, specs, server, owner, now, k - 1);
        assert(specs.take(k).drop_last() =~= specs.take(k - 1));
        assert(specs.take(k).last() == specs[k - 1]);
        let prev = swarm_provisioned(db, specs.take(k - 1), server, owner, now);
        lemma_own_step(prev, specs[k - 1], server, owner, now);
        assert forall|j: int| 0 <= j < k implies provided(swarm_provisioned(db, specs.take(k), server, owner, now), #[trigger] specs[j], server) by {
            if j < k - 1 {
                lemma_other_step(prev, specs[j], specs[k - 1], server, owner, now);
            }
        }
    }
}

proof fn lemma_second_run(d1: ChatDbV, specs: Seq<JsonValue>, server: Seq<char>, owner: Seq<char>, now: u64, k: int)
    requires
        forall|j: int| 0 <= j < specs.len() ==> provided(d1, #[trigger] specs[j], server),
        0 <= k <= specs.len(),
    ensures
        swarm_provisioned(d1, specs.take(k), server, owner, now) == d1,
    decreases k,
{
    if k == 0 {
        assert(specs.take(0) =~= Seq::<JsonValue>::empty());
    } else {
        lemma_second_run(d1, specs, server, owner, now, k - 1);
        assert(specs.take(k).drop_last() =~= specs.take(k - 1));
        assert(specs.take(k).last() == specs[k - 1]);
        let prev = swarm_provisioned(d1, specs.take(k - 1), server, owner, now);
        assert(provided(d1, specs[k - 1], server));
        assert(provided(prev, specs[k - 1], server));
        lemma_provided_step(prev, specs[k - 1], server, owner, now);
    }
}

/// Running the same bulk provisioning a second time, with the bots of the
/// list pairwise distinct, changes nothing, whenever it runs: no row is
/// added, and no configuration is written again. The premise is needed: two
/// descriptions of one bot with different personas undo each other's write,
/// so every run writes that bot's configuration again.
pub proof fn law_swarm_repeat_changes_nothing(
    db: ChatDbV,
    specs: Seq<JsonValue>,
    server: Seq<char>,
    owner: Seq<char>,
    now: u64,
    later: u64,
)
    requires
        db.wf(),
        distinct_bots(specs),
    ensures
        ({
            let d1 = swarm_provisioned(db, specs, server, owner, now);
            swarm_provisioned(d1, specs, server, owner, later) == d1
        }),
{
    lemma_first_run(db, specs, server, owner, now, specs.len() as int);
    assert(specs.take(specs.len() as int) =~= specs);
    let d1 = swarm_provisioned(db, specs, server, owner, now);
    lemma_second_run(d1, specs, server, owner, later, specs.len() as int);
}

} // verus!
