//! Chat user rows created on first contact.

use vstd::prelude::*;
use crate::db::{ChatDb, ChatDbV};
use crate::tables::{ChatUser, ChatUserV};
use crate::store::{has_key, lookup, find_key, insert_new, lemma_push_unique};
use crate::text::to_owned_string;
use crate::common::clone_opt;

verus! {

/// The chat user row made for a user seen for the first time: named by its
/// user id, online, with no tier or flags.
pub open spec fn default_user_row(uid: Seq<char>, identity: Seq<char>, now: u64) -> ChatUserV {
    ChatUserV {
        user_id: uid,
        stdb_identity: identity,
        display_name: uid,
        status: "online"@,
        online: true,
        last_message_at: 0,
        last_typing_at: 0,
        last_seen_at: now,
        created_at: now,
        tier: None,
        avatar_data: None,
        custom_status: None,
        custom_status_emoji: None,
        platform_role: None,
        is_bot: None,
        is_platform_agent: None,
        bot_owner_user_id: None,
        is_swarm_member: None,
        is_steward_projection: None,
    }
}

/// The chat users after making sure `uid` has a row.
pub open spec fn ensured_users(users: Seq<ChatUserV>, uid: Seq<char>, identity: Seq<char>, now: u64) -> Seq<ChatUserV> {
    if has_key(users, uid) {
        users
    } else {
        users.push(default_user_row(uid, identity, now))
    }
}

/// A copy of a chat user row.
pub fn copy_user(u: &ChatUser) -> (r: ChatUser)
    ensures
        r@ == u@,
{
    ChatUser {
        user_id: u.user_id.clone(),
        stdb_identity: u.stdb_identity.clone(),
        display_name: u.display_name.clone(),
        status: u.status.clone(),
        online: u.online,
        last_message_at: u.last_message_at,
        last_typing_at: u.last_typing_at,
        last_seen_at: u.last_seen_at,
        created_at: u.created_at,
        tier: clone_opt(&u.tier),
        avatar_data: clone_opt(&u.avatar_data),
        custom_status: clone_opt(&u.custom_status),
        custom_status_emoji: clone_opt(&u.custom_status_emoji),
        platform_role: clone_opt(&u.platform_role),
        is_bot: u.is_bot,
        is_platform_agent: u.is_platform_agent,
        bot_owner_user_id: clone_opt(&u.bot_owner_user_id),
        is_swarm_member: u.is_swarm_member,
        is_steward_projection: u.is_steward_projection,
    }
}

/// The chat user row of `uid`, created with default values when missing.
pub fn ensure_chat_user(db: &mut ChatDb, uid: &String, identity: &String, now: u64) -> (u: ChatUser)
    requires
        old(db)@.wf(),
    ensures
        final(db)@.wf(),
        final(db)@ == (ChatDbV { chat_users: ensured_users(old(db)@.chat_users, uid@, identity@, now), ..old(db)@ }),
        lookup(final(db)@.chat_users, uid@) == Some(u@),
{
    match find_key(&db.chat_users, uid) {
        Some(i) => copy_user(&db.chat_users[i]),
        None => {
            let u = ChatUser {
                user_id: uid.clone(),
                stdb_identity: identity.clone(),
                display_name: uid.clone(),
                status: to_owned_string("online"),
                online: true,
                last_message_at: 0,
                last_typing_at: 0,
                last_seen_at: now,
                created_at: now,
                tier: None,
                avatar_data: None,
                custom_status: None,
                custom_status_emoji: None,
                platform_role: None,
                is_bot: None,
                is_platform_agent: None,
                bot_owner_user_id: None,
                is_swarm_member: None,
                is_steward_projection: None,
            };
            proof {
                lemma_push_unique(db@.chat_users, u@);
            }
            let r = copy_user(&u);
            insert_new(&mut db.chat_users, u);
            r
        },
    }
}

} // verus!
