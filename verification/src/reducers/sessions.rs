//! Start-up, connections and identity links: which application user a
//! connection speaks for, and the presence it gives.

use vstd::prelude::*;
use crate::context::{Caller, ChatError};
use crate::db::{ChatDb, ChatDbV};
use crate::tables::{Room, RoomV, ChatUser, ChatUserV, UserIdentityLink, UserIdentityLinkV, AgentCredential, AgentCredentialV,
    TypingIndicator, TypingIndicatorV};
use crate::store::{rows, lookup, has_key, replace_row, without_key, find_key, contains_key, insert_new, take_key,
    retain_keyed, remove_key, count_rows, lemma_without_key};
use crate::accounts::ensure_chat_user;
use crate::reducers::rooms::with_caller_user;
use crate::common::{is_set, flag, str_eq};
use crate::text::{trim, trim_str, to_owned_string};

verus! {

/// Id of the default #general room.
pub open spec fn general_id() -> Seq<char> {
    "00000000-0000-0000-0000-000000000001"@
}

/// The default #general room.
pub open spec fn general_room(now: u64) -> RoomV {
    RoomV {
        id: general_id(),
        name: "general"@,
        created_by: "system"@,
        is_private: false,
        is_dm: false,
        created_at: now,
        server_id: None,
        required_tier: None,
        description: None,
        sort_order: None,
        room_type: "text"@,
        category_id: None,
        topic: None,
        slowmode_seconds: None,
        nsfw: false,
        parent_room_id: None,
        archived: false,
        locked: false,
        auto_archive_minutes: None,
        default_sort_order: None,
        allow_attachments: None,
        allow_embeds: None,
        allow_reactions: None,
        rules_text: None,
    }
}

/// Set the database up: the default #general room is created unless it exists.
pub fn init(db: &mut ChatDb, now: u64)
    requires
        old(db)@.wf(),
    ensures
        final(db)@.wf(),
        final(db)@ == if has_key(old(db)@.rooms, general_id()) {
            old(db)@
        } else {
            ChatDbV { rooms: old(db)@.rooms.push(general_room(now)), ..old(db)@ }
        },
{
    let id = to_owned_string("00000000-0000-0000-0000-000000000001");
    if contains_key(&db.rooms, &id) {
        return;
    }
    let room = Room {
        id,
        name: to_owned_string("general"),
        created_by: to_owned_string("system"),
        is_private: false,
        is_dm: false,
        created_at: now,
        server_id: None,
        required_tier: None,
        description: None,
        sort_order: None,
        room_type: to_owned_string("text"),
        category_id: None,
        topic: None,
        slowmode_seconds: None,
        nsfw: false,
        parent_room_id: None,
        archived: false,
        locked: false,
        auto_archive_minutes: None,
        default_sort_order: None,
        allow_attachments: None,
        allow_embeds: None,
        allow_reactions: None,
        rules_text: None,
    };
    insert_new(&mut db.rooms, room);
}

/// A connection comes in: a registered caller's chat user row is made sure
/// of, takes the connection's identity, and goes online (staying invisible if
/// it was). An unregistered connection changes nothing.
pub fn client_connected(db: &mut ChatDb, caller: &Caller, now: u64)
    requires
        old(db)@.wf(),
    ensures
        final(db)@.wf(),
        final(db)@ == match caller@.user_id {
            Some(uid) => {
                let mid = with_caller_user(old(db)@, caller@, now);
                let u = lookup(mid.chat_users, uid).unwrap();
                ChatDbV {
                    chat_users: replace_row(mid.chat_users, ChatUserV {
                        stdb_identity: caller@.identity,
                        status: if u.status == "invisible"@ { "invisible"@ } else { "online"@ },
                        online: true,
                        last_seen_at: now,
                        ..u
                    }),
                    ..mid
                }
            },
            None => old(db)@,
        },
{
    let uid = match &caller.user_id {
        Some(u) => u.clone(),
        None => return,
    };
    let _ = ensure_chat_user(db, &uid, &caller.identity, now);
    let ghost mid = db@;
    let u = take_key(&mut db.chat_users, &uid).unwrap();
    proof {
        lemma_without_key(mid.chat_users, uid@);
    }
    let status = if str_eq(u.status.as_str(), "invisible") { to_owned_string("invisible") } else { to_owned_string("online") };
    insert_new(&mut db.chat_users, ChatUser { stdb_identity: caller.identity.clone(), status, online: true, last_seen_at: now, ..u });
}

/// Typing markers of users other than `user`.
pub open spec fn typing_not_by(user: Seq<char>) -> spec_fn(TypingIndicatorV) -> bool {
    |t: TypingIndicatorV| t.user_id != user
}

/// A connection goes away: a registered caller goes offline (if they have a
/// row) and their typing markers go.
pub fn client_disconnected(db: &mut ChatDb, caller: &Caller, now: u64)
    requires
        old(db)@.wf(),
    ensures
        final(db)@.wf(),
        final(db)@ == match caller@.user_id {
            Some(uid) => ChatDbV {
                chat_users: match lookup(old(db)@.chat_users, uid) {
                    Some(u) => replace_row(old(db)@.chat_users, ChatUserV { status: "offline"@, online: false, last_seen_at: now, ..u }),
                    None => old(db)@.chat_users,
                },
                typing_indicators: old(db)@.typing_indicators.filter(typing_not_by(uid)),
                ..old(db)@
            },
            None => old(db)@,
        },
{
    let uid = match &caller.user_id {
        Some(u) => u.clone(),
        None => return,
    };
    proof {
        lemma_without_key(old(db)@.chat_users, uid@);
    }
    match take_key(&mut db.chat_users, &uid) {
        Some(u) => {
            insert_new(&mut db.chat_users, ChatUser { status: to_owned_string("offline"), online: false, last_seen_at: now, ..u });
        },
        None => {
            proof {
                crate::store::lemma_without_absent(old(db)@.chat_users, uid@);
            }
        },
    }
    let keep = |t: &TypingIndicator| -> (b: bool) ensures b == typing_not_by(uid@)(t@), { t.user_id != uid };
    retain_keyed(&mut db.typing_indicators, keep, Ghost(typing_not_by(uid@)));
}

/// Most identity links one user keeps.
pub const MAX_LINKS_PER_USER: usize = 10;

/// Links of user `user`.
pub open spec fn link_of(user: Seq<char>) -> spec_fn(UserIdentityLinkV) -> bool {
    |l: UserIdentityLinkV| l.user_id == user
}

/// Position `i` holds the oldest link of `user`: no link of the user is
/// older, and none as old comes earlier.
pub open spec fn is_oldest(links: Seq<UserIdentityLinkV>, user: Seq<char>, i: int) -> bool {
    &&& 0 <= i < links.len()
    &&& links[i].user_id == user
    &&& forall|j: int| 0 <= j < links.len() && #[trigger] links[j].user_id == user ==> links[i].linked_at <= links[j].linked_at
        && (links[j].linked_at == links[i].linked_at ==> i <= j)
}

/// The identity of the oldest link of `user`.
pub open spec fn oldest_identity(links: Seq<UserIdentityLinkV>, user: Seq<char>) -> Seq<char> {
    links[choose|i: int| is_oldest(links, user, i)].stdb_identity
}

/// `links` after the oldest links of `user` are dropped, one at a time and
/// at most `n` times, until the user keeps [`MAX_LINKS_PER_USER`].
pub open spec fn pruned(links: Seq<UserIdentityLinkV>, user: Seq<char>, n: nat) -> Seq<UserIdentityLinkV>
    decreases n,
{
    if n == 0 || links.filter(link_of(user)).len() <= MAX_LINKS_PER_USER {
        links
    } else {
        pruned(without_key(links, oldest_identity(links, user)), user, (n - 1) as nat)
    }
}

/// Identity links after `identity` is linked to `user` at `now`: the first
/// link of an identity wins (an existing one is kept as it is); a new link
/// is added and the user's oldest links are pruned down to
/// [`MAX_LINKS_PER_USER`].
pub open spec fn linked(links: Seq<UserIdentityLinkV>, identity: Seq<char>, user: Seq<char>, now: u64) -> Seq<UserIdentityLinkV> {
    if has_key(links, identity) {
        links
    } else {
        let l = links.push(UserIdentityLinkV { stdb_identity: identity, user_id: user, linked_at: now });
        pruned(l, user, l.len())
    }
}

/// Position of the oldest link of `user`, if the user has one.
fn oldest_link(links: &Vec<UserIdentityLink>, user: &String) -> (r: Option<usize>)
    ensures
        match r {
            Some(i) => is_oldest(rows(links@), user@, i as int),
            None => forall|j: int| 0 <= j < links@.len() ==> #[trigger] rows(links@)[j].user_id != user@,
        },
{
    let ghost ls = rows(links@);
    let mut best: Option<usize> = None;
    let mut i: usize = 0;
    while i < links.len()
        invariant
            i <= links@.len(),
            ls == rows(links@),
            match best {
                Some(b) => b < i && ls[b as int].user_id == user@ && forall|j: int| 0 <= j < i && #[trigger] ls[j].user_id == user@
                    ==> ls[b as int].linked_at <= ls[j].linked_at && (ls[j].linked_at == ls[b as int].linked_at ==> b <= j),
                None => forall|j: int| 0 <= j < i ==> #[trigger] ls[j].user_id != user@,
            },
        decreases links.len() - i,
    {
        assert(ls[i as int] == links@[i as int]@);
        if links[i].user_id == *user {
            match best {
                Some(b) => {
                    if links[i].linked_at < links[b].linked_at {
                        best = Some(i);
                    }
                },
                None => {
                    best = Some(i);
                },
            }
        }
        i = i + 1;
    }
    best
}

proof fn lemma_oldest_unique(links: Seq<UserIdentityLinkV>, user: Seq<char>, i: int)
    requires
        is_oldest(links, user, i),
    ensures
        oldest_identity(links, user) == links[i].stdb_identity,
{
    let k = choose|k: int| is_oldest(links, user, k);
    assert(is_oldest(links, user, k));
    assert(links[k].user_id == user);
    assert(links[i].user_id == user);
    assert(k == i);
}

/// Link a connection identity to an application user (see [`linked`]).
pub fn register_identity_link(db: &mut ChatDb, identity: &String, user: &String, now: u64)
    requires
        old(db)@.wf(),
    ensures
        final(db)@.wf(),
        final(db)@ == (ChatDbV { user_identity_links: linked(old(db)@.user_identity_links, identity@, user@, now), ..old(db)@ }),
{
    if contains_key(&db.user_identity_links, identity) {
        return;
    }
    insert_new(&mut db.user_identity_links, UserIdentityLink { stdb_identity: identity.clone(), user_id: user.clone(), linked_at: now });
    let ghost start = db@;
    let mut n: usize = db.user_identity_links.len();
    loop
        invariant
            db@.wf(),
            db@ == (ChatDbV { user_identity_links: db@.user_identity_links, ..start }),
            pruned(start.user_identity_links, user@, start.user_identity_links.len()) == pruned(db@.user_identity_links, user@, n as nat),
        ensures
            db@.wf(),
            db@ == (ChatDbV { user_identity_links: db@.user_identity_links, ..start }),
            pruned(start.user_identity_links, user@, start.user_identity_links.len()) == db@.user_identity_links,
        decreases n,
    {
        let is_mine = |l: &UserIdentityLink| -> (b: bool)
            ensures
                b == link_of(user@)(l@),
            { l.user_id == *user };
        let count = count_rows(&db.user_identity_links, is_mine, Ghost(link_of(user@)));
        if n == 0 || count <= MAX_LINKS_PER_USER {
            break;
        }
        let oi = oldest_link(&db.user_identity_links, user);
        match oi {
            Some(i) => {
                proof {
                    lemma_oldest_unique(db@.user_identity_links, user@, i as int);
                }
                let id = db.user_identity_links[i].stdb_identity.clone();
                remove_key(&mut db.user_identity_links, &id);
            },
            None => {
                proof {
                    let ls = db@.user_identity_links;
                    assert forall|j: int| 0 <= j < ls.len() implies !link_of(user@)(#[trigger] ls[j]) by {}
                    crate::lookups::lemma_filter_empty(ls, link_of(user@));
                }
                break;
            },
        }
        n = n - 1;
    }
}

/// Link the caller's connection to an application user id (not blank).
pub fn register_identity(db: &mut ChatDb, caller: &Caller, now: u64, user_id: String) -> (r: Result<(), ChatError>)
    requires
        old(db)@.wf(),
    ensures
        final(db)@.wf(),
        r is Err <==> trim(user_id@).len() == 0,
        r is Err ==> r == Err::<(), ChatError>(ChatError::Invalid) && final(db)@ == old(db)@,
        r is Ok ==> final(db)@ == (ChatDbV {
            user_identity_links: linked(old(db)@.user_identity_links, caller@.identity, user_id@, now),
            ..old(db)@
        }),
{
    if trim_str(user_id.as_str()).unicode_len() == 0 {
        return Err(ChatError::Invalid);
    }
    register_identity_link(db, &caller.identity, &user_id, now);
    Ok(())
}

/// Outcome of [`register_agent_identity`].
pub open spec fn agent_identity_verdict(db: ChatDbV, agent: Seq<char>, secret: Seq<char>) -> Result<(), ChatError> {
    match lookup(db.chat_users, agent) {
        None => Err(ChatError::NotFound),
        Some(u) => if !is_set(u.is_bot) {
            Err(ChatError::Invalid)
        } else {
            match lookup(db.agent_credentials, agent) {
                None => Err(ChatError::NotFound),
                Some(c) => if c.owner_secret != secret { Err(ChatError::NotPermitted) } else { Ok(()) },
            }
        },
    }
}

/// A bot's own connection claims the bot with its owner secret: the
/// connection's identity is linked to the bot, the bot takes that identity
/// and goes online, and its credentials record the activity.
pub fn register_agent_identity(db: &mut ChatDb, caller: &Caller, now: u64, agent_user_id: String, owner_secret: String) -> (r: Result<(), ChatError>)
    requires
        old(db)@.wf(),
    ensures
        final(db)@.wf(),
        r == agent_identity_verdict(old(db)@, agent_user_id@, owner_secret@),
        r is Err ==> final(db)@ == old(db)@,
        r is Ok ==> ({
            let o = old(db)@;
            let u = lookup(o.chat_users, agent_user_id@).unwrap();
            let c = lookup(o.agent_credentials, agent_user_id@).unwrap();
            final(db)@ == (ChatDbV {
                user_identity_links: linked(o.user_identity_links, caller@.identity, agent_user_id@, now),
                chat_users: replace_row(o.chat_users, ChatUserV { stdb_identity: caller@.identity, online: true, last_seen_at: now, ..u }),
                agent_credentials: replace_row(o.agent_credentials, AgentCredentialV { last_active_at: now, ..c }),
                ..o
            })
        }),
{
    let ui = match find_key(&db.chat_users, &agent_user_id) {
        Some(i) => i,
        None => return Err(ChatError::NotFound),
    };
    if !flag(db.chat_users[ui].is_bot) {
        return Err(ChatError::Invalid);
    }
    let ci = match find_key(&db.agent_credentials, &agent_user_id) {
        Some(i) => i,
        None => return Err(ChatError::NotFound),
    };
    if db.agent_credentials[ci].owner_secret != owner_secret {
        return Err(ChatError::NotPermitted);
    }
    register_identity_link(db, &caller.identity, &agent_user_id, now);
    let u = take_key(&mut db.chat_users, &agent_user_id).unwrap();
    proof {
        lemma_without_key(old(db)@.chat_users, agent_user_id@);
    }
    insert_new(&mut db.chat_users, ChatUser { stdb_identity: caller.identity.clone(), online: true, last_seen_at: now, ..u });
    let c = take_key(&mut db.agent_credentials, &agent_user_id).unwrap();
    proof {
        lemma_without_key(old(db)@.agent_credentials, agent_user_id@);
    }
    insert_new(&mut db.agent_credentials, AgentCredential { last_active_at: now, ..c });
    Ok(())
}

} // verus!
