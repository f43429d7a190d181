//! Starting a direct conversation twice: the second start, by either of the
//! two users, finds the room the first one made and adds nothing.

use vstd::prelude::*;
use crate::db::ChatDbV;
use crate::context::CallerV;
use crate::tables::{KeyedView, RoomV, RoomMemberV};
use crate::store::{has_key, lookup, unique_keys, replace_row, without_key, key_is_not, lemma_push_unique,
    lemma_lookup_index};
use crate::lookups::{first_match, lemma_first_match};
use crate::membership::{member_id, member_row};
use crate::text::{seq_lt, lt_at, lemma_prefix_injective};
use crate::reducers::rooms::with_caller_user;
use crate::reducers::private_rooms::{dm_started, dm_between, dm_name, room_user_ids, dm_room_row};

verus! {

/// No two sequences sort before each other.
proof fn lemma_seq_lt_asymmetric(a: Seq<char>, b: Seq<char>)
    requires
        seq_lt(a, b),
    ensures
        !seq_lt(b, a),
{
    let k1 = choose|k: int|
        0 <= k <= a.len() && k <= b.len() && (forall|j: int| 0 <= j < k ==> a[j] == b[j]) && #[trigger] lt_at(a, b, k);
    if seq_lt(b, a) {
        let k2 = choose|k: int|
            0 <= k <= b.len() && k <= a.len() && (forall|j: int| 0 <= j < k ==> b[j] == a[j]) && #[trigger] lt_at(b, a, k);
        if k1 < k2 {
            assert(b[k1] == a[k1]);
        } else if k2 < k1 {
            assert(a[k2] == b[k2]);
        }
    }
}

/// Of two different sequences that agree below `i`, one sorts before the other.
proof fn lemma_seq_lt_total(a: Seq<char>, b: Seq<char>, i: int)
    requires
        0 <= i <= a.len(),
        i <= b.len(),
        forall|j: int| 0 <= j < i ==> a[j] == b[j],
        a != b,
    ensures
        seq_lt(a, b) || seq_lt(b, a),
    decreases a.len() - i,
{
    if i == a.len() && i == b.len() {
        assert(a =~= b);
    } else if i == a.len() {
        assert(lt_at(a, b, i));
    } else if i == b.len() {
        assert(lt_at(b, a, i));
    } else if a[i] != b[i] {
        let (ca, cb) = (a[i], b[i]);
        vstd::utf8::char_u32_cast(ca, ca as u32);
        vstd::utf8::char_u32_cast(cb, cb as u32);
        assert((ca as u32) != (cb as u32));
        if (a[i] as u32) < (b[i] as u32) {
            assert(lt_at(a, b, i));
        } else {
            assert(lt_at(b, a, i));
        }
    } else {
        lemma_seq_lt_total(a, b, i + 1);
    }
}

/// The name of the direct messages of two different users does not depend
/// on their order.
pub proof fn lemma_dm_name_symmetric(a: Seq<char>, b: Seq<char>)
    requires
        a != b,
    ensures
        dm_name(a, b) == dm_name(b, a),
{
    lemma_seq_lt_total(a, b, 0);
    if seq_lt(a, b) {
        lemma_seq_lt_asymmetric(a, b);
    } else {
        lemma_seq_lt_asymmetric(b, a);
    }
}

/// A membership row pushed onto a table adds its user to its own room only.
proof fn lemma_user_ids_push(s: Seq<RoomMemberV>, x: RoomMemberV, rid: Seq<char>)
    ensures
        room_user_ids(s.push(x), rid) == if x.room_id == rid {
            room_user_ids(s, rid).push(x.user_id)
        } else {
            room_user_ids(s, rid)
        },
{
    let f = |m: RoomMemberV| m.room_id == rid;
    s.lemma_filter_push(x, f);
    if x.room_id == rid {
        assert(s.filter(f).push(x).map_values(|m: RoomMemberV| m.user_id)
            =~= s.filter(f).map_values(|m: RoomMemberV| m.user_id).push(x.user_id));
    }
}

/// A room without membership rows has no users.
proof fn lemma_user_ids_none(s: Seq<RoomMemberV>, rid: Seq<char>)
    requires
        forall|i: int| 0 <= i < s.len() ==> #[trigger] s[i].room_id != rid,
    ensures
        room_user_ids(s, rid) == Seq::<Seq<char>>::empty(),
{
    let f = |m: RoomMemberV| m.room_id == rid;
    crate::lookups::lemma_filter_empty(s, f);
    assert(room_user_ids(s, rid) =~= Seq::<Seq<char>>::empty());
}

/// Replacing a row by itself keeps the rows of the table.
proof fn lemma_replace_same_row(s: Seq<RoomMemberV>, k: Seq<char>)
    requires
        unique_keys(s),
        has_key(s, k),
    ensures
        replace_row(s, lookup(s, k).unwrap()).len() == s.len(),
        forall|e: RoomMemberV| #[trigger] replace_row(s, lookup(s, k).unwrap()).contains(e) <==> s.contains(e),
{
    let i = choose|i: int| 0 <= i < s.len() && #[trigger] s[i].key() == k;
    lemma_lookup_index(s, i);
    let m = s[i];
    let p = key_is_not::<RoomMemberV>(k);
    let f = s.filter(p);
    s.filter_lemma(p);
    assert forall|e: RoomMemberV| #[trigger] replace_row(s, m).contains(e) <==> s.contains(e) by {
        if s.contains(e) {
            let j = choose|j: int| 0 <= j < s.len() && s[j] == e;
            if e.key() == k {
                assert(i == j);
                assert(replace_row(s, m)[f.len() as int] == m);
            } else {
                assert(p(s[j]));
                assert(f.contains(e));
                let h = choose|h: int| 0 <= h < f.len() && f[h] == e;
                assert(replace_row(s, m)[h] == e);
            }
        }
        if replace_row(s, m).contains(e) {
            let j = choose|j: int| 0 <= j < replace_row(s, m).len() && replace_row(s, m)[j] == e;
            if j < f.len() {
                assert(f[j] == e);
                s.lemma_filter_contains_rev(p, e);
            } else {
                assert(e == s[i]);
            }
        }
    }
    // One row has key `k`, so the filter drops exactly one.
    assert(f.len() + 1 == s.len()) by {
        crate::store::lemma_remove_is_filter(s, i);
    }
}

/// The direct-message room of `a` and `b`: the first direct-message room
/// whose two members are they.
pub open spec fn dm_room_of(db: ChatDbV, a: Seq<char>, b: Seq<char>) -> Option<RoomV> {
    first_match(db.rooms, dm_between(db.room_members, a, b))
}

/// Starting a direct conversation that makes a new room, and then starting
/// it again (by either of the two users, under any room id, at any later
/// time) adds no room and renames nothing: the second start finds the room
/// the first one made, already under the sorted name of the pair, and the
/// membership rows stay the same rows. The premise that no membership row
/// names the new room id yet is needed: with such a row the first start makes
/// a room of three users, which is no room of the pair, so the second start
/// makes another room.
pub proof fn law_start_dm_again_reuses_the_room(
    db: ChatDbV,
    first: CallerV,
    second: CallerV,
    u: Seq<char>,
    t: Seq<char>,
    room: Seq<char>,
    other_room: Seq<char>,
    by_target: bool,
    now: u64,
    later: u64,
)
    requires
        db.wf(),
        u != t,
        first.user_id == Some(u),
        second.user_id == Some(if by_target { t } else { u }),
        dm_room_of(db, u, t) is None,
        !has_key(db.rooms, room),
        !has_key(db.room_members, member_id(room, u)),
        !has_key(db.room_members, member_id(room, t)),
        forall|i: int| 0 <= i < db.room_members.len() ==> #[trigger] db.room_members[i].room_id != room,
    ensures
        ({
            let a = if by_target { t } else { u };
            let b = if by_target { u } else { t };
            let db1 = dm_started(with_caller_user(db, first, now), room, u, t, now);
            let db2 = dm_started(with_caller_user(db1, second, later), other_room, a, b, later);
            &&& dm_room_of(db1, a, b) == Some(dm_room_row(room, dm_name(u, t), u, now))
            &&& db2.rooms == db1.rooms
            &&& db2.room_members.len() == db1.room_members.len()
            &&& forall|m: RoomMemberV| #[trigger] db2.room_members.contains(m) <==> db1.room_members.contains(m)
        }),
{
    let a = if by_target { t } else { u };
    let b = if by_target { u } else { t };
    let w = with_caller_user(db, first, now);
    let big_r = dm_room_row(room, dm_name(u, t), u, now);
    let x = member_row(room, u, "admin"@, now);
    let y = member_row(room, t, "admin"@, now);
    let m0 = db.room_members;
    let m1 = m0.push(x).push(y);
    let db1 = dm_started(w, room, u, t, now);
    assert(db1.rooms == db.rooms.push(big_r));
    assert(db1.room_members == m1);

    // In the first database no room holds the pair.
    let p0 = dm_between(m0, u, t);
    let p1 = dm_between(m1, a, b);
    db.rooms.filter_lemma(p0);
    assert forall|j: int| 0 <= j < db.rooms.len() implies !p1(#[trigger] db.rooms[j]) by {
        let r = db.rooms[j];
        assert(r.key() != room);
        lemma_user_ids_push(m0, x, r.id);
        lemma_user_ids_push(m0.push(x), y, r.id);
        if p0(r) {
            assert(db.rooms.filter(p0).contains(r));
        }
    }
    // The new room holds exactly the pair.
    lemma_user_ids_none(m0, room);
    lemma_user_ids_push(m0, x, room);
    lemma_user_ids_push(m0.push(x), y, room);
    assert(room_user_ids(m1, room) =~= seq![u, t]);
    assert(room_user_ids(m1, room)[0] == u);
    assert(room_user_ids(m1, room)[1] == t);
    assert(p1(big_r));
    assert forall|j: int| 0 <= j < db1.rooms.len() - 1 implies !p1(#[trigger] db1.rooms[j]) by {
        assert(db1.rooms[j] == db.rooms[j]);
    }
    assert(db1.rooms[db1.rooms.len() - 1] == big_r);
    lemma_first_match(db1.rooms, p1, db1.rooms.len() - 1);

    // The second start reuses that room under the same name.
    if by_target {
        lemma_dm_name_symmetric(u, t);
    }
    assert(dm_name(a, b) == dm_name(u, t));
    let w2 = with_caller_user(db1, second, later);
    assert(w2.rooms == db1.rooms && w2.room_members == db1.room_members);

    // The caller's membership row is there and is put back as it was.
    assert(member_id(room, u) != member_id(room, t)) by {
        if member_id(room, u) == member_id(room, t) {
            assert((room + "-"@) + u == (room + "-"@) + t);
            lemma_prefix_injective(room + "-"@, u, t);
        }
    }
    lemma_push_unique(m0, x);
    lemma_push_unique(m0.push(x), y);
    assert(x.key() == member_id(room, u));
    assert(y.key() == member_id(room, t));
    assert(has_key(m1, member_id(room, a)));
    lemma_replace_same_row(m1, member_id(room, a));
}

} // verus!
