//! Spec vocabulary shared by the reducers, and small executable helpers.

use vstd::prelude::*;
use crate::tables::{ChatUser, ChatUserV, AgentSpawnLimit, KeyedView};
use crate::store::{lookup, rows, unique_keys, find_key};
use crate::text::to_owned_string;

verus! {

/// Some element of `s` satisfies `p`.
pub open spec fn any_row<V>(s: Seq<V>, p: spec_fn(V) -> bool) -> bool {
    exists|i: int| 0 <= i < s.len() && p(#[trigger] s[i])
}

/// An optional flag that is set and true.
pub open spec fn is_set(o: Option<bool>) -> bool {
    o == Some(true)
}

/// Whether an optional flag is set and true.
pub fn flag(o: Option<bool>) -> (b: bool)
    ensures
        b == is_set(o),
{
    match o {
        Some(b) => b,
        None => false,
    }
}

/// Whether two strings have the same characters.
pub fn str_eq(a: &str, b: &str) -> (r: bool)
    ensures
        r == (a@ == b@),
{
    let x = to_owned_string(a);
    let y = to_owned_string(b);
    x == y
}

/// Whether an optional string is present and equal to `b`.
pub fn opt_str_eq(a: &Option<String>, b: &str) -> (r: bool)
    ensures
        r == (crate::tables::opt_view(*a) == Some(b@)),
{
    match a {
        Some(s) => str_eq(s.as_str(), b),
        None => false,
    }
}

/// An optional string, or `default` when absent.
pub open spec fn or_default(o: Option<Seq<char>>, default: Seq<char>) -> Seq<char> {
    match o {
        Some(s) => s,
        None => default,
    }
}

/// The tier of a user: its recorded tier, else "free" (also for unknown users).
pub open spec fn tier_of(users: Seq<ChatUserV>, uid: Seq<char>) -> Seq<char> {
    match lookup(users, uid) {
        Some(u) => or_default(u.tier, "free"@),
        None => "free"@,
    }
}

/// The tier recorded on one user row, else "free".
pub open spec fn row_tier(u: ChatUserV) -> Seq<char> {
    or_default(u.tier, "free"@)
}

/// Copy of an optional string.
pub fn clone_opt(o: &Option<String>) -> (r: Option<String>)
    ensures
        crate::tables::opt_view(r) == crate::tables::opt_view(*o),
{
    match o {
        Some(s) => Some(s.clone()),
        None => None,
    }
}

/// The tier of user `uid` as the chat tables record it ("free" by default).
pub fn user_tier(users: &Vec<ChatUser>, uid: &String) -> (t: String)
    requires
        unique_keys(rows(users@)),
    ensures
        t@ == tier_of(rows(users@), uid@),
{
    match find_key(users, uid) {
        Some(i) => match &users[i].tier {
            Some(t) => t.clone(),
            None => to_owned_string("free"),
        },
        None => to_owned_string("free"),
    }
}

/// The spawn-limit row of a tier, if any.
pub fn spawn_limit(limits: &Vec<AgentSpawnLimit>, tier: &String) -> (r: Option<usize>)
    requires
        unique_keys(rows(limits@)),
    ensures
        r is None <==> lookup(rows(limits@), tier@) is None,
        r matches Some(i) ==> i < limits@.len() && lookup(rows(limits@), tier@) == Some(limits@[i as int]@),
{
    find_key(limits, tier)
}

} // verus!
