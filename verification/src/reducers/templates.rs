//! Servers created from a channel template by other services.

use vstd::prelude::*;
use crate::context::{Caller, CallerV, ChatError};
use crate::db::{ChatDb, ChatDbV};
use crate::tables::{ChatServer, ChatServerV, ChannelCategory, ChannelCategoryV, Room, RoomV, RoomMemberV, KeyedView};
use crate::store::{has_key, rows, contains_key, insert_new, unique_keys, lemma_append_fresh};
use crate::common::str_eq;
use crate::text::{trim, trim_str, to_owned_string, join2, concat2, lemma_prefix_injective, lemma_suffix_injective};
use crate::membership::{member_id, member_row, make_member};
use crate::reducers::servers::{valid_name, check_name, server_member_id, server_member_row, make_server_member};
use crate::reducers::roles::{everyone_role_id, default_role_row, create_default_role};
use crate::reducers::system::{system_authorized, validate_system_token};

verus! {

/// The channels (name, description) of a server template; an unknown template
/// gives a single "general" channel.
pub open spec fn template_channel_list(t: Seq<char>) -> Seq<(Seq<char>, Seq<char>)> {
    if t == "swarm"@ {
        seq![
            ("tavern"@, "Main gathering place for conversation"@),
            ("marketplace"@, "Trade, barter, and economic activity"@),
            ("events"@, "Announcements and notable happenings"@),
        ]
    } else if t == "prediction"@ {
        seq![
            ("analysis"@, "Data analysis and research"@),
            ("decisions"@, "Final predictions and positions"@),
            ("debate"@, "Challenging and defending viewpoints"@),
        ]
    } else if t == "team"@ {
        seq![
            ("general"@, "General team discussion"@),
            ("standup"@, "Daily status updates"@),
            ("retrospective"@, "Reflections and process improvement"@),
        ]
    } else if t == "community"@ {
        seq![
            ("general"@, "General discussion"@),
            ("introductions"@, "Introduce yourself"@),
            ("off-topic"@, "Anything goes"@),
        ]
    } else if t == "research"@ {
        seq![
            ("findings"@, "Share research findings"@),
            ("methodology"@, "Discuss approaches and methods"@),
            ("review"@, "Peer review and feedback"@),
        ]
    } else if t == "focus-group"@ {
        seq![
            ("discussion"@, "Main focus group discussion"@),
            ("feedback"@, "Structured feedback and opinions"@),
            ("summary"@, "Session summaries and takeaways"@),
        ]
    } else {
        seq![("general"@, "General discussion"@)]
    }
}

/// The characters of each (name, description) pair.
pub open spec fn channel_views(v: Seq<(&str, &str)>) -> Seq<(Seq<char>, Seq<char>)> {
    v.map_values(|p: (&str, &str)| (p.0@, p.1@))
}

/// The (name, description) pairs of the channels of a server template.
pub fn template_channels(template: &str) -> (r: Vec<(&'static str, &'static str)>)
    ensures
        channel_views(r@) == template_channel_list(template@),
{
    let r: Vec<(&'static str, &'static str)> = if str_eq(template, "swarm") {
        vec![
            ("tavern", "Main gathering place for conversation"),
            ("marketplace", "Trade, barter, and economic activity"),
            ("events", "Announcements and notable happenings"),
        ]
    } else if str_eq(template, "prediction") {
        vec![
            ("analysis", "Data analysis and research"),
            ("decisions", "Final predictions and positions"),
            ("debate", "Challenging and defending viewpoints"),
        ]
    } else if str_eq(template, "team") {
        vec![
            ("general", "General team discussion"),
            ("standup", "Daily status updates"),
            ("retrospective", "Reflections and process improvement"),
        ]
    } else if str_eq(template, "community") {
        vec![
            ("general", "General discussion"),
            ("introductions", "Introduce yourself"),
            ("off-topic", "Anything goes"),
        ]
    } else if str_eq(template, "research") {
        vec![
            ("findings", "Share research findings"),
            ("methodology", "Discuss approaches and methods"),
            ("review", "Peer review and feedback"),
        ]
    } else if str_eq(template, "focus-group") {
        vec![
            ("discussion", "Main focus group discussion"),
            ("feedback", "Structured feedback and opinions"),
            ("summary", "Session summaries and takeaways"),
        ]
    } else {
        vec![("general", "General discussion")]
    };
    assert(channel_views(r@) =~= template_channel_list(template@));
    r
}

/// Channel names within a template are distinct, and a template has one to
/// three channels.
pub proof fn lemma_template_names_distinct(t: Seq<char>)
    ensures
        1 <= template_channel_list(t).len() <= 3,
        forall|i: int, j: int|
            0 <= i < template_channel_list(t).len() && 0 <= j < template_channel_list(t).len() && i != j
                ==> #[trigger] template_channel_list(t)[i].0 != #[trigger] template_channel_list(t)[j].0,
{
    reveal_strlit("tavern");
    reveal_strlit("marketplace");
    reveal_strlit("events");
    reveal_strlit("analysis");
    reveal_strlit("decisions");
    reveal_strlit("debate");
    reveal_strlit("general");
    reveal_strlit("standup");
    reveal_strlit("retrospective");
    reveal_strlit("introductions");
    reveal_strlit("off-topic");
    reveal_strlit("findings");
    reveal_strlit("methodology");
    reveal_strlit("review");
    reveal_strlit("discussion");
    reveal_strlit("feedback");
    reveal_strlit("summary");
    let l = template_channel_list(t);
    assert forall|i: int, j: int| 0 <= i < l.len() && 0 <= j < l.len() && i != j implies #[trigger] l[i].0 != #[trigger] l[j].0 by {
        if l[i].0 == l[j].0 {
            assert(l[i].0.len() == l[j].0.len());
            assert(l[i].0[0] == l[j].0[0]);
            assert(l[i].0[1] == l[j].0[1]);
        }
    }
}

/// Id of a room made from a template channel: "<server>-<channel>".
pub open spec fn template_room_id(server: Seq<char>, channel: Seq<char>) -> Seq<char> {
    server + "-"@ + channel
}

/// Id of the single category of a templated server: "<server>-channels-cat".
pub open spec fn template_category_id(server: Seq<char>) -> Seq<char> {
    server + "-channels-cat"@
}

/// The room made from channel `i` of a template.
pub open spec fn template_room(server: Seq<char>, owner: Seq<char>, now: u64, i: int, ch: (Seq<char>, Seq<char>)) -> RoomV {
    RoomV {
        id: template_room_id(server, ch.0),
        name: ch.0,
        created_by: owner,
        is_private: false,
        is_dm: false,
        created_at: now,
        server_id: Some(server),
        required_tier: None,
        description: Some(ch.1),
        sort_order: Some(i as u32),
        room_type: "text"@,
        category_id: Some(template_category_id(server)),
        topic: None,
        slowmode_seconds: None,
        nsfw: false,
        parent_room_id: None,
        archived: false,
        locked: false,
        auto_archive_minutes: None,
        default_sort_order: None,
        allow_attachments: None,
        allow_embeds: None,
        allow_reactions: None,
        rules_text: None,
    }
}

/// The rooms made from the channels of a template, in order.
pub open spec fn template_rooms(server: Seq<char>, owner: Seq<char>, now: u64, chans: Seq<(Seq<char>, Seq<char>)>) -> Seq<RoomV> {
    Seq::new(chans.len(), |i: int| template_room(server, owner, now, i, chans[i]))
}

/// The owner's admin memberships of the rooms made from a template, in order.
pub open spec fn template_members(server: Seq<char>, owner: Seq<char>, now: u64, chans: Seq<(Seq<char>, Seq<char>)>) -> Seq<RoomMemberV> {
    Seq::new(chans.len(), |i: int| member_row(template_room_id(server, chans[i].0), owner, "admin"@, now))
}

/// The server row of a templated server.
pub open spec fn template_server_row(server: Seq<char>, name: Seq<char>, owner: Seq<char>, is_public: bool, template: Seq<char>, now: u64) -> ChatServerV {
    ChatServerV {
        id: server,
        name: trim(name),
        description: Seq::empty(),
        audience_id: Seq::empty(),
        owner_user_id: owner,
        is_public: is_public,
        default_tier: "free"@,
        icon_url: Seq::empty(),
        created_at: now,
        updated_at: now,
        template: Some(template),
    }
}

/// The category of a templated server.
pub open spec fn template_category_row(server: Seq<char>, now: u64) -> ChannelCategoryV {
    ChannelCategoryV { id: template_category_id(server), server_id: server, name: "Channels"@, sort_order: 0, created_at: now }
}

/// Outcome of [`system_create_server_from_template`].
pub open spec fn template_server_verdict(db: ChatDbV, c: CallerV, server: Seq<char>, name: Seq<char>, token: Seq<char>) -> Result<(), ChatError> {
    if !system_authorized(db, c, token) {
        Err(ChatError::NotPermitted)
    } else if !valid_name(name) {
        Err(ChatError::Invalid)
    } else if has_key(db.chat_servers, server) {
        Err(ChatError::AlreadyExists)
    } else {
        Ok(())
    }
}

/// None of the rows a templated server adds collides with an existing key.
pub open spec fn template_keys_free(db: ChatDbV, server: Seq<char>, owner: Seq<char>, template: Seq<char>) -> bool {
    let chans = template_channel_list(template);
    &&& !has_key(db.server_members, server_member_id(server, owner))
    &&& !has_key(db.server_roles, everyone_role_id(server))
    &&& !has_key(db.channel_categories, template_category_id(server))
    &&& forall|i: int| 0 <= i < chans.len() ==> !has_key(db.rooms, #[trigger] template_room_id(server, chans[i].0))
    &&& forall|i: int| 0 <= i < chans.len() ==> !has_key(db.room_members, member_id(#[trigger] template_room_id(server, chans[i].0), owner))
}

proof fn lemma_template_rows_unique(db: ChatDbV, server: Seq<char>, owner: Seq<char>, now: u64, template: Seq<char>)
    requires
        db.wf(),
        template_keys_free(db, server, owner, template),
    ensures
        unique_keys(db.rooms + template_rooms(server, owner, now, template_channel_list(template))),
        unique_keys(db.room_members + template_members(server, owner, now, template_channel_list(template))),
{
    let chans = template_channel_list(template);
    lemma_template_names_distinct(template);
    let rs = template_rooms(server, owner, now, chans);
    let ms = template_members(server, owner, now, chans);
    assert forall|i: int, j: int| 0 <= i < rs.len() && 0 <= j < rs.len() && i != j implies #[trigger] rs[i].key() != #[trigger] rs[j].key() by {
        if rs[i].key() == rs[j].key() {
            lemma_prefix_injective(server + "-"@, chans[i].0, chans[j].0);
            assert((server + "-"@ + chans[i].0) =~= ((server + "-"@) + chans[i].0));
            assert((server + "-"@ + chans[j].0) =~= ((server + "-"@) + chans[j].0));
        }
    }
    assert forall|i: int, j: int| 0 <= i < ms.len() && 0 <= j < ms.len() && i != j implies #[trigger] ms[i].key() != #[trigger] ms[j].key() by {
        if ms[i].key() == ms[j].key() {
            let a = template_room_id(server, chans[i].0);
            let b = template_room_id(server, chans[j].0);
            assert(a + "-"@ + owner =~= a + ("-"@ + owner));
            assert(b + "-"@ + owner =~= b + ("-"@ + owner));
            lemma_suffix_injective(a, b, "-"@ + owner);
            assert((server + "-"@ + chans[i].0) =~= ((server + "-"@) + chans[i].0));
            assert((server + "-"@ + chans[j].0) =~= ((server + "-"@) + chans[j].0));
            lemma_prefix_injective(server + "-"@, chans[i].0, chans[j].0);
        }
    }
    assert forall|i: int| 0 <= i < rs.len() implies !has_key(db.rooms, #[trigger] rs[i].key()) by {
        assert(rs[i].key() == template_room_id(server, chans[i].0));
    }
    assert forall|i: int| 0 <= i < ms.len() implies !has_key(db.room_members, #[trigger] ms[i].key()) by {
        assert(ms[i].key() == member_id(template_room_id(server, chans[i].0), owner));
    }
    lemma_append_fresh(db.rooms, rs);
    lemma_append_fresh(db.room_members, ms);
}

/// Create a server from a channel template (system token or platform admin):
/// the server row tagged with its template, the owner's membership, the
/// "@everyone" role, one "Channels" category, and one text room per template
/// channel with the owner as room admin.
pub fn system_create_server_from_template(
    db: &mut ChatDb,
    caller: &Caller,
    now: u64,
    server_id: String,
    name: String,
    owner_user_id: String,
    is_public: bool,
    template: String,
    system_token: String,
) -> (r: Result<(), ChatError>)
    requires
        old(db)@.wf(),
        template_server_verdict(old(db)@, caller@, server_id@, name@, system_token@) is Ok
            ==> template_keys_free(old(db)@, server_id@, owner_user_id@, template@),
    ensures
        final(db)@.wf(),
        r == template_server_verdict(old(db)@, caller@, server_id@, name@, system_token@),
        r is Err ==> final(db)@ == old(db)@,
        r is Ok ==> ({
            let chans = template_channel_list(template@);
            final(db)@ == (ChatDbV {
                chat_servers: old(db)@.chat_servers.push(
                    template_server_row(server_id@, name@, owner_user_id@, is_public, template@, now),
                ),
                server_members: old(db)@.server_members.push(server_member_row(server_id@, owner_user_id@, "owner"@, now)),
                server_roles: old(db)@.server_roles.push(default_role_row(server_id@, now)),
                channel_categories: old(db)@.channel_categories.push(template_category_row(server_id@, now)),
                rooms: old(db)@.rooms + template_rooms(server_id@, owner_user_id@, now, chans),
                room_members: old(db)@.room_members + template_members(server_id@, owner_user_id@, now, chans),
                ..old(db)@
            })
        }),
{
    if !validate_system_token(db, system_token.as_str()) && !caller.is_platform_admin {
        return Err(ChatError::NotPermitted);
    }
    if !check_name(name.as_str()) {
        return Err(ChatError::Invalid);
    }
    if contains_key(&db.chat_servers, &server_id) {
        return Err(ChatError::AlreadyExists);
    }
    let ghost chans = template_channel_list(template@);
    let channels = template_channels(template.as_str());
    proof {
        lemma_template_names_distinct(template@);
        lemma_template_rows_unique(db@, server_id@, owner_user_id@, now, template@);
    }
    let server = ChatServer {
        id: server_id.clone(),
        name: to_owned_string(trim_str(name.as_str())),
        description: String::new(),
        audience_id: String::new(),
        owner_user_id: owner_user_id.clone(),
        is_public,
        default_tier: to_owned_string("free"),
        icon_url: String::new(),
        created_at: now,
        updated_at: now,
        template: Some(template.clone()),
    };
    insert_new(&mut db.chat_servers, server);
    insert_new(&mut db.server_members, make_server_member(&server_id, &owner_user_id, "owner", now));
    create_default_role(db, now, server_id.as_str());
    let cat_id = concat2(server_id.as_str(), "-channels-cat");
    insert_new(
        &mut db.channel_categories,
        ChannelCategory { id: cat_id.clone(), server_id: server_id.clone(), name: to_owned_string("Channels"), sort_order: 0, created_at: now },
    );
    let ghost mid = db@;
    let mut i: usize = 0;
    while i < channels.len()
        invariant
            i <= channels@.len(),
            channel_views(channels@) == chans,
            chans.len() <= 3,
            cat_id@ == template_category_id(server_id@),
            db@ == (ChatDbV {
                rooms: mid.rooms + template_rooms(server_id@, owner_user_id@, now, chans).take(i as int),
                room_members: mid.room_members + template_members(server_id@, owner_user_id@, now, chans).take(i as int),
                ..mid
            }),
        decreases channels.len() - i,
    {
        let (ch_name, ch_desc) = channels[i];
        assert(ch_name@ == chans[i as int].0 && ch_desc@ == chans[i as int].1);
        let room_id = join2(server_id.as_str(), "-", ch_name);
        let room = Room {
            id: room_id.clone(),
            name: to_owned_string(ch_name),
            created_by: owner_user_id.clone(),
            is_private: false,
            is_dm: false,
            created_at: now,
            server_id: Some(server_id.clone()),
            required_tier: None,
            description: Some(to_owned_string(ch_desc)),
            sort_order: Some(i as u32),
            room_type: to_owned_string("text"),
            category_id: Some(cat_id.clone()),
            topic: None,
            slowmode_seconds: None,
            nsfw: false,
            parent_room_id: None,
            archived: false,
            locked: false,
            auto_archive_minutes: None,
            default_sort_order: None,
            allow_attachments: None,
            allow_embeds: None,
            allow_reactions: None,
            rules_text: None,
        };
        let member = make_member(&room_id, &owner_user_id, "admin", now);
        let ghost before = db@;
        let ghost rv = room@;
        let ghost mv = member@;
        proof {
            let rs = template_rooms(server_id@, owner_user_id@, now, chans);
            let ms = template_members(server_id@, owner_user_id@, now, chans);
            assert(rv == rs[i as int]);
            assert(mv == ms[i as int]);
            assert(rs.take(i + 1) =~= rs.take(i as int).push(rs[i as int]));
            assert(ms.take(i + 1) =~= ms.take(i as int).push(ms[i as int]));
        }
        db.rooms.push(room);
        db.room_members.push(member);
        proof {
            assert(db@.rooms =~= before.rooms.push(rv));
            assert(db@.room_members =~= before.room_members.push(mv));
        }
        i = i + 1;
    }
    proof {
        let rs = template_rooms(server_id@, owner_user_id@, now, chans);
        let ms = template_members(server_id@, owner_user_id@, now, chans);
        assert(rs.take(chans.len() as int) =~= rs);
        assert(ms.take(chans.len() as int) =~= ms);
    }
    Ok(())
}

} // verus!
