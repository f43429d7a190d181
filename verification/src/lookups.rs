//! Membership lookups the reducers share: a user's membership in a room or a
//! server, and the standing it gives.

use vstd::prelude::*;
use crate::db::{ChatDb, ChatDbV};
use crate::tables::{RoomMember, RoomMemberV, ServerMember, ServerMemberV};
use crate::store::{rows, position};
use crate::common::str_eq;

verus! {

/// The first element of `s` satisfying `p`, if any.
pub open spec fn first_match<V>(s: Seq<V>, p: spec_fn(V) -> bool) -> Option<V> {
    if s.filter(p).len() > 0 {
        Some(s.filter(p)[0])
    } else {
        None
    }
}

pub proof fn lemma_first_match<V>(s: Seq<V>, p: spec_fn(V) -> bool, i: int)
    requires
        0 <= i < s.len(),
        p(s[i]),
        forall|j: int| 0 <= j < i ==> !p(#[trigger] s[j]),
    ensures
        first_match(s, p) == Some(s[i]),
    decreases s.len(),
{
    reveal_with_fuel(Seq::filter, 1);
    if i < s.len() - 1 {
        let d = s.drop_last();
        assert(d[i] == s[i]);
        assert forall|j: int| 0 <= j < i implies !p(#[trigger] d[j]) by {
            assert(d[j] == s[j]);
        }
        lemma_first_match(d, p, i);
        if p(s.last()) {
            assert(s.filter(p) == d.filter(p).push(s.last()));
        }
    } else {
        let d = s.drop_last();
        assert forall|j: int| 0 <= j < d.len() implies !p(#[trigger] d[j]) by {
            assert(d[j] == s[j]);
        }
        lemma_filter_empty(d, p);
        assert(s.filter(p) == d.filter(p).push(s.last()));
    }
}

pub proof fn lemma_filter_empty<V>(s: Seq<V>, p: spec_fn(V) -> bool)
    requires
        forall|j: int| 0 <= j < s.len() ==> !p(#[trigger] s[j]),
    ensures
        s.filter(p).len() == 0,
    decreases s.len(),
{
    reveal_with_fuel(Seq::filter, 1);
    if s.len() > 0 {
        let d = s.drop_last();
        assert forall|j: int| 0 <= j < d.len() implies !p(#[trigger] d[j]) by {
            assert(d[j] == s[j]);
        }
        lemma_filter_empty(d, p);
    }
}

/// Membership rows of `user` in `room`.
pub open spec fn member_of(room: Seq<char>, user: Seq<char>) -> spec_fn(RoomMemberV) -> bool {
    |m: RoomMemberV| m.room_id == room && m.user_id == user
}

/// Membership rows of `user` in `server`.
pub open spec fn server_member_of(server: Seq<char>, user: Seq<char>) -> spec_fn(ServerMemberV) -> bool {
    |m: ServerMemberV| m.server_id == server && m.user_id == user
}

/// The (first) membership of `user` in `room`.
pub open spec fn room_membership(db: ChatDbV, room: Seq<char>, user: Seq<char>) -> Option<RoomMemberV> {
    first_match(db.room_members, member_of(room, user))
}

/// The (first) membership of `user` in `server`.
pub open spec fn server_membership(db: ChatDbV, server: Seq<char>, user: Seq<char>) -> Option<ServerMemberV> {
    first_match(db.server_members, server_member_of(server, user))
}

/// `user` is a member of `room` and not banned from it.
pub open spec fn is_room_member(db: ChatDbV, room: Seq<char>, user: Seq<char>) -> bool {
    match room_membership(db, room, user) {
        Some(m) => m.role != "banned"@,
        None => false,
    }
}

/// `user` is an admin of `room`.
pub open spec fn is_room_admin(db: ChatDbV, room: Seq<char>, user: Seq<char>) -> bool {
    match room_membership(db, room, user) {
        Some(m) => m.role == "admin"@,
        None => false,
    }
}

/// `user` is the owner or an admin of `server`.
pub open spec fn is_server_admin(db: ChatDbV, server: Seq<char>, user: Seq<char>) -> bool {
    match server_membership(db, server, user) {
        Some(m) => m.role == "owner"@ || m.role == "admin"@,
        None => false,
    }
}

/// `user` is the owner of `server`.
pub open spec fn is_server_owner(db: ChatDbV, server: Seq<char>, user: Seq<char>) -> bool {
    match server_membership(db, server, user) {
        Some(m) => m.role == "owner"@,
        None => false,
    }
}

/// Position of the membership of `user` in `room`.
pub fn find_membership(db: &ChatDb, room: &String, user: &String) -> (r: Option<usize>)
    ensures
        match r {
            Some(i) => i < db.room_members@.len() && room_membership(db@, room@, user@) == Some(db@.room_members[i as int]),
            None => room_membership(db@, room@, user@) is None,
        },
{
    let test = |m: &RoomMember| -> (b: bool)
        ensures
            b == member_of(room@, user@)(m@),
        { m.room_id == *room && m.user_id == *user };
    let r = position(&db.room_members, test, Ghost(member_of(room@, user@)));
    proof {
        match r {
            Some(i) => lemma_first_match(db@.room_members, member_of(room@, user@), i as int),
            None => lemma_filter_empty(db@.room_members, member_of(room@, user@)),
        }
    }
    r
}

/// Position of the membership of `user` in `server`.
pub fn find_server_membership(db: &ChatDb, server: &String, user: &String) -> (r: Option<usize>)
    ensures
        match r {
            Some(i) => i < db.server_members@.len() && server_membership(db@, server@, user@) == Some(db@.server_members[i as int]),
            None => server_membership(db@, server@, user@) is None,
        },
{
    let test = |m: &ServerMember| -> (b: bool)
        ensures
            b == server_member_of(server@, user@)(m@),
        { m.server_id == *server && m.user_id == *user };
    let r = position(&db.server_members, test, Ghost(server_member_of(server@, user@)));
    proof {
        match r {
            Some(i) => lemma_first_match(db@.server_members, server_member_of(server@, user@), i as int),
            None => lemma_filter_empty(db@.server_members, server_member_of(server@, user@)),
        }
    }
    r
}

/// Whether `user` is a member of `room` and not banned from it.
pub fn require_membership(db: &ChatDb, room: &String, user: &String) -> (b: bool)
    ensures
        b == is_room_member(db@, room@, user@),
{
    match find_membership(db, room, user) {
        Some(i) => !str_eq(db.room_members[i].role.as_str(), "banned"),
        None => false,
    }
}

/// Whether `user` is an admin of `room`.
pub fn require_admin(db: &ChatDb, room: &String, user: &String) -> (b: bool)
    ensures
        b == is_room_admin(db@, room@, user@),
{
    match find_membership(db, room, user) {
        Some(i) => str_eq(db.room_members[i].role.as_str(), "admin"),
        None => false,
    }
}

/// Whether `user` is the owner or an admin of `server`.
pub fn require_server_admin(db: &ChatDb, server: &String, user: &String) -> (b: bool)
    ensures
        b == is_server_admin(db@, server@, user@),
{
    match find_server_membership(db, server, user) {
        Some(i) => str_eq(db.server_members[i].role.as_str(), "owner") || str_eq(
            db.server_members[i].role.as_str(),
            "admin",
        ),
        None => false,
    }
}

/// Whether `user` is the owner of `server`.
pub fn require_server_owner(db: &ChatDb, server: &String, user: &String) -> (b: bool)
    ensures
        b == is_server_owner(db@, server@, user@),
{
    match find_server_membership(db, server, user) {
        Some(i) => str_eq(db.server_members[i].role.as_str(), "owner"),
        None => false,
    }
}

} // verus!
