//! The clean-up of direct-message rooms is idempotent: once it has run,
//! every direct-message room has members, a room of two bears the name of
//! its pair, and no two such rooms share a pair, so a second run changes
//! nothing.

use vstd::prelude::*;
use crate::db::ChatDbV;
use crate::tables::{KeyedView, RoomV, RoomMemberV};
use crate::store::{lookup, unique_keys, without_key, lemma_lookup_index, lemma_filter_unique, lemma_without_key,
    lemma_push_unique};
use crate::reducers::rooms::member_elsewhere;
use crate::reducers::private_rooms::room_user_ids;
use crate::reducers::dm_migration::{dm_pair_key, pair_lookup, dm_step, dm_sweep, dm_migrated, is_dm_room,
    without_room, has_messages};

verus! {

/// The pair key of room `rid` from its first two memberships.
pub open spec fn pair_of(members: Seq<RoomMemberV>, rid: Seq<char>) -> Seq<char> {
    let u = room_user_ids(members, rid);
    dm_pair_key(u[0], u[1])
}

/// Room `r` is settled: it has members, and with exactly two it bears the
/// name of its pair and `seen` records it for that pair.
pub open spec fn settled(db: ChatDbV, seen: Seq<(Seq<char>, Seq<char>)>, r: RoomV) -> bool {
    let u = room_user_ids(db.room_members, r.id);
    &&& u.len() > 0
    &&& u.len() == 2 ==> r.name == "dm:"@ + pair_of(db.room_members, r.id)
        && pair_lookup(seen, pair_of(db.room_members, r.id)) == Some(r.id)
}

/// Some room of `s` from position `k` on has id `id`.
pub open spec fn unprocessed(s: Seq<RoomV>, k: int, id: Seq<char>) -> bool {
    exists|m: int| k <= m < s.len() && #[trigger] s[m].id == id
}

/// Some room of `s` before position `k` has id `id`.
pub open spec fn processed(s: Seq<RoomV>, k: int, id: Seq<char>) -> bool {
    exists|j: int| 0 <= j < k && #[trigger] s[j].id == id
}

/// What holds after the rooms of `s` before position `k` are cleaned up.
pub open spec fn sweep_inv(db0: ChatDbV, s: Seq<RoomV>, k: int, db: ChatDbV, seen: Seq<(Seq<char>, Seq<char>)>) -> bool {
    &&& unique_keys(db.rooms)
    &&& forall|m: int| k <= m < s.len() ==> lookup(db.rooms, #[trigger] s[m].id) == Some(s[m])
        && room_user_ids(db.room_members, s[m].id) == room_user_ids(db0.room_members, s[m].id)
    &&& forall|id: Seq<char>| #[trigger] lookup(db.rooms, id) is Some && lookup(db.rooms, id).unwrap().is_dm
        ==> unprocessed(s, k, id) || settled(db, seen, lookup(db.rooms, id).unwrap())
    &&& forall|e: int| 0 <= e < seen.len() ==> processed(s, k, #[trigger] seen[e].1)
}

proof fn lemma_pair_lookup_found(seen: Seq<(Seq<char>, Seq<char>)>, key: Seq<char>)
    requires
        pair_lookup(seen, key) is Some,
    ensures
        exists|e: int| 0 <= e < seen.len() && #[trigger] seen[e].0 == key && seen[e].1 == pair_lookup(seen, key).unwrap(),
    decreases seen.len(),
{
    if seen.last().0 == key {
        assert(seen[seen.len() - 1].0 == key);
    } else {
        lemma_pair_lookup_found(seen.drop_last(), key);
        let e = choose|e: int| 0 <= e < seen.drop_last().len() && #[trigger] seen.drop_last()[e].0 == key
            && seen.drop_last()[e].1 == pair_lookup(seen.drop_last(), key).unwrap();
        assert(seen[e] == seen.drop_last()[e]);
    }
}

proof fn lemma_pair_lookup_push(seen: Seq<(Seq<char>, Seq<char>)>, key: Seq<char>, id: Seq<char>, k2: Seq<char>)
    ensures
        pair_lookup(seen.push((key, id)), k2) == (if key == k2 { Some(id) } else { pair_lookup(seen, k2) }),
{
    assert(seen.push((key, id)).drop_last() =~= seen);
    assert(seen.push((key, id)).last() == (key, id));
}

proof fn lemma_filter_filter<V>(s: Seq<V>, q: spec_fn(V) -> bool, p: spec_fn(V) -> bool)
    requires
        forall|x: V| #[trigger] p(x) ==> q(x),
    ensures
        s.filter(q).filter(p) == s.filter(p),
    decreases s.len(),
{
    reveal_with_fuel(Seq::filter, 1);
    if s.len() > 0 {
        let d = s.drop_last();
        lemma_filter_filter(d, q, p);
        let x = s.last();
        if q(x) {
            assert(s.filter(q).drop_last() =~= d.filter(q));
            assert(s.filter(q).last() == x);
        } else {
            assert(s.filter(q) == d.filter(q));
        }
    }
}

/// Dropping the memberships of room `a` leaves the users of another room as they are.
proof fn lemma_users_elsewhere(members: Seq<RoomMemberV>, a: Seq<char>, b: Seq<char>)
    requires
        a != b,
    ensures
        room_user_ids(members.filter(member_elsewhere(a)), b) == room_user_ids(members, b),
{
    lemma_filter_filter(members, member_elsewhere(a), |m: RoomMemberV| m.room_id == b);
}

/// Replacing the row of `x`'s key by `x` keeps keys unique, finds `x` by its
/// key, and finds every other key as before.
proof fn lemma_lookup_pushed<V: KeyedView>(s: Seq<V>, x: V, k: Seq<char>)
    requires
        unique_keys(s),
    ensures
        unique_keys(without_key(s, x.key()).push(x)),
        lookup(without_key(s, x.key()).push(x), x.key()) == Some(x),
        k != x.key() ==> lookup(without_key(s, x.key()).push(x), k) == lookup(s, k),
{
    lemma_without_key(s, x.key());
    lemma_push_unique(without_key(s, x.key()), x);
}

/// One step of the clean-up keeps its invariant.
proof fn lemma_step(db0: ChatDbV, s: Seq<RoomV>, k: int, db: ChatDbV, seen: Seq<(Seq<char>, Seq<char>)>)
    requires
        unique_keys(s),
        0 <= k < s.len(),
        sweep_inv(db0, s, k, db, seen),
    ensures
        sweep_inv(db0, s, k + 1, dm_step((db, seen), s[k]).0, dm_step((db, seen), s[k]).1),
{
    let x = s[k];
    let st = dm_step((db, seen), x);
    let d2 = st.0;
    let seen2 = st.1;
    let users = room_user_ids(db.room_members, x.id);
    assert(lookup(db.rooms, x.id) == Some(x));
    lemma_without_key(db.rooms, x.id);
    // Ids of the rooms still to come differ from x's and from those already seen.
    assert forall|m: int| k < m < s.len() implies #[trigger] s[m].id != x.id by {
        assert(s[m].key() != s[k].key());
    }
    assert forall|e: int, m: int| 0 <= e < seen.len() && k <= m < s.len() implies #[trigger] seen[e].1 != #[trigger] s[m].id by {
        assert(processed(s, k, seen[e].1));
        let j = choose|j: int| 0 <= j < k && #[trigger] s[j].id == seen[e].1;
        assert(s[j].key() != s[m].key());
    }
    let name = "dm:"@ + dm_pair_key(users[0], users[1]);
    let key = dm_pair_key(users[0], users[1]);
    if users.len() == 0 {
        assert(d2 == ChatDbV { rooms: without_key(db.rooms, x.id), ..db });
        assert forall|id: Seq<char>| #[trigger] lookup(d2.rooms, id) is Some && lookup(d2.rooms, id).unwrap().is_dm
            implies unprocessed(s, k + 1, id) || settled(d2, seen2, lookup(d2.rooms, id).unwrap()) by {
            assert(id != x.id);
            assert(lookup(d2.rooms, id) == lookup(db.rooms, id));
            if unprocessed(s, k, id) {
                let m = choose|m: int| k <= m < s.len() && #[trigger] s[m].id == id;
                assert(m != k);
            }
        }
        assert forall|e: int| 0 <= e < seen2.len() implies processed(s, k + 1, #[trigger] seen2[e].1) by {
            assert(processed(s, k, seen[e].1));
            let j = choose|j: int| 0 <= j < k && #[trigger] s[j].id == seen[e].1;
            assert(s[j].id == seen2[e].1);
        }
    } else if users.len() != 2 {
        assert(st == (db, seen));
        assert forall|id: Seq<char>| #[trigger] lookup(d2.rooms, id) is Some && lookup(d2.rooms, id).unwrap().is_dm
            implies unprocessed(s, k + 1, id) || settled(d2, seen2, lookup(d2.rooms, id).unwrap()) by {
            if id == x.id {
                assert(settled(d2, seen2, x));
            } else if unprocessed(s, k, id) {
                let m = choose|m: int| k <= m < s.len() && #[trigger] s[m].id == id;
                assert(m != k);
            }
        }
        assert forall|e: int| 0 <= e < seen2.len() implies processed(s, k + 1, #[trigger] seen2[e].1) by {
            assert(processed(s, k, seen[e].1));
            let j = choose|j: int| 0 <= j < k && #[trigger] s[j].id == seen[e].1;
            assert(s[j].id == seen2[e].1);
        }
    } else {
        let y = RoomV { name: name, ..x };
        assert(y.key() == x.id);
        match pair_lookup(seen, key) {
            Some(kept) => {
                lemma_pair_lookup_found(seen, key);
                let e0 = choose|e: int| 0 <= e < seen.len() && #[trigger] seen[e].0 == key && seen[e].1 == kept;
                assert(kept != x.id) by {
                    assert(seen[e0].1 != s[k].id);
                }
                if has_messages(db, x.id) && !has_messages(db, kept) {
                    let db1 = without_room(db, kept);
                    lemma_without_key(db.rooms, kept);
                    lemma_users_elsewhere(db.room_members, kept, x.id);
                    assert(lookup(db1.rooms, x.id) == Some(x));
                    lemma_without_key(db1.rooms, x.id);
                    assert(room_user_ids(db1.room_members, x.id) == users);
                    assert(seen2 == seen.push((key, x.id)));
                    if x.name != name {
                        lemma_lookup_pushed(db1.rooms, y, x.id);
                        assert(d2.rooms == without_key(db1.rooms, x.id).push(y));
                    } else {
                        assert(d2 == db1);
                    }
                    assert(d2.room_members == db1.room_members);
                    assert forall|m: int| k + 1 <= m < s.len() implies lookup(d2.rooms, #[trigger] s[m].id) == Some(s[m])
                        && room_user_ids(d2.room_members, s[m].id) == room_user_ids(db0.room_members, s[m].id) by {
                        assert(s[m].id != x.id);
                        assert(seen[e0].1 != s[m].id);
                        lemma_users_elsewhere(db.room_members, kept, s[m].id);
                        if x.name != name {
                            lemma_lookup_pushed(db1.rooms, y, s[m].id);
                        }
                    }
                    assert forall|id: Seq<char>| #[trigger] lookup(d2.rooms, id) is Some && lookup(d2.rooms, id).unwrap().is_dm
                        implies unprocessed(s, k + 1, id) || settled(d2, seen2, lookup(d2.rooms, id).unwrap()) by {
                        lemma_pair_lookup_push(seen, key, x.id, pair_of(d2.room_members, id));
                        if x.name != name {
                            lemma_lookup_pushed(db1.rooms, y, id);
                        }
                        if id == x.id {
                            assert(lookup(d2.rooms, id).unwrap().name == name);
                            assert(pair_of(d2.room_members, x.id) == key);
                        } else {
                            assert(id != kept);
                            assert(lookup(d2.rooms, id) == lookup(db.rooms, id));
                            lemma_users_elsewhere(db.room_members, kept, id);
                            assert(room_user_ids(d2.room_members, id) == room_user_ids(db.room_members, id));
                            if unprocessed(s, k, id) {
                                let m = choose|m: int| k <= m < s.len() && #[trigger] s[m].id == id;
                                assert(m != k);
                            } else {
                                let r = lookup(db.rooms, id).unwrap();
                                assert(settled(db, seen, r));
                                if room_user_ids(db.room_members, id).len() == 2 {
                                    if pair_of(db.room_members, id) == key {
                                        assert(pair_lookup(seen, key) == Some(id));
                                    }
                                }
                            }
                        }
                    }
                    assert forall|e: int| 0 <= e < seen2.len() implies processed(s, k + 1, #[trigger] seen2[e].1) by {
                        if e < seen.len() {
                            assert(seen2[e] == seen[e]);
                            assert(processed(s, k, seen[e].1));
                            let j = choose|j: int| 0 <= j < k && #[trigger] s[j].id == seen[e].1;
                            assert(s[j].id == seen2[e].1);
                        } else {
                            assert(seen2[e].1 == s[k].id);
                        }
                    }
                } else {
                    assert(d2 == without_room(db, x.id));
                    assert(seen2 == seen);
                    assert forall|m: int| k + 1 <= m < s.len() implies lookup(d2.rooms, #[trigger] s[m].id) == Some(s[m])
                        && room_user_ids(d2.room_members, s[m].id) == room_user_ids(db0.room_members, s[m].id) by {
                        assert(s[m].id != x.id);
                        lemma_users_elsewhere(db.room_members, x.id, s[m].id);
                    }
                    assert forall|id: Seq<char>| #[trigger] lookup(d2.rooms, id) is Some && lookup(d2.rooms, id).unwrap().is_dm
                        implies unprocessed(s, k + 1, id) || settled(d2, seen2, lookup(d2.rooms, id).unwrap()) by {
                        assert(id != x.id);
                        assert(lookup(d2.rooms, id) == lookup(db.rooms, id));
                        lemma_users_elsewhere(db.room_members, x.id, id);
                        if unprocessed(s, k, id) {
                            let m = choose|m: int| k <= m < s.len() && #[trigger] s[m].id == id;
                            assert(m != k);
                        }
                    }
                    assert forall|e: int| 0 <= e < seen2.len() implies processed(s, k + 1, #[trigger] seen2[e].1) by {
                        assert(processed(s, k, seen[e].1));
                        let j = choose|j: int| 0 <= j < k && #[trigger] s[j].id == seen[e].1;
                        assert(s[j].id == seen2[e].1);
                    }
                }
            },
            None => {
                assert(seen2 == seen.push((key, x.id)));
                if x.name != name {
                    lemma_lookup_pushed(db.rooms, y, x.id);
                    assert(d2.rooms == without_key(db.rooms, x.id).push(y));
                } else {
                    assert(d2 == db);
                }
                assert(d2.room_members == db.room_members);
                assert forall|m: int| k + 1 <= m < s.len() implies lookup(d2.rooms, #[trigger] s[m].id) == Some(s[m])
                    && room_user_ids(d2.room_members, s[m].id) == room_user_ids(db0.room_members, s[m].id) by {
                    assert(s[m].id != x.id);
                    if x.name != name {
                        lemma_lookup_pushed(db.rooms, y, s[m].id);
                    }
                }
                assert forall|id: Seq<char>| #[trigger] lookup(d2.rooms, id) is Some && lookup(d2.rooms, id).unwrap().is_dm
                    implies unprocessed(s, k + 1, id) || settled(d2, seen2, lookup(d2.rooms, id).unwrap()) by {
                    lemma_pair_lookup_push(seen, key, x.id, pair_of(d2.room_members, id));
                    if x.name != name {
                        lemma_lookup_pushed(db.rooms, y, id);
                    }
                    if id == x.id {
                        assert(pair_of(d2.room_members, x.id) == key);
                    } else {
                        assert(lookup(d2.rooms, id) == lookup(db.rooms, id));
                        if unprocessed(s, k, id) {
                            let m = choose|m: int| k <= m < s.len() && #[trigger] s[m].id == id;
                            assert(m != k);
                        } else {
                            let r = lookup(db.rooms, id).unwrap();
                            assert(settled(db, seen, r));
                            if room_user_ids(db.room_members, id).len() == 2 && pair_of(db.room_members, id) == key {
                                assert(pair_lookup(seen, key) == Some(id));
                            }
                        }
                    }
                }
                assert forall|e: int| 0 <= e < seen2.len() implies processed(s, k + 1, #[trigger] seen2[e].1) by {
                    if e < seen.len() {
                        assert(seen2[e] == seen[e]);
                        assert(processed(s, k, seen[e].1));
                        let j = choose|j: int| 0 <= j < k && #[trigger] s[j].id == seen[e].1;
                        assert(s[j].id == seen2[e].1);
                    } else {
                        assert(seen2[e].1 == s[k].id);
                    }
                }
            },
        }
    }
}

proof fn lemma_inv_start(db0: ChatDbV)
    requires
        unique_keys(db0.rooms),
    ensures
        sweep_inv(db0, db0.rooms.filter(is_dm_room()), 0, db0, Seq::empty()),
{
    let s = db0.rooms.filter(is_dm_room());
    db0.rooms.filter_lemma(is_dm_room());
    assert forall|m: int| 0 <= m < s.len() implies lookup(db0.rooms, #[trigger] s[m].id) == Some(s[m])
        && room_user_ids(db0.room_members, s[m].id) == room_user_ids(db0.room_members, s[m].id) by {
        assert(s.contains(s[m]));
        db0.rooms.lemma_filter_contains_rev(is_dm_room(), s[m]);
        let i = choose|i: int| 0 <= i < db0.rooms.len() && db0.rooms[i] == s[m];
        lemma_lookup_index(db0.rooms, i);
    }
    assert forall|id: Seq<char>| #[trigger] lookup(db0.rooms, id) is Some && lookup(db0.rooms, id).unwrap().is_dm
        implies unprocessed(s, 0, id) || settled(db0, Seq::empty(), lookup(db0.rooms, id).unwrap()) by {
        let i = choose|i: int| 0 <= i < db0.rooms.len() && #[trigger] db0.rooms[i].key() == id;
        assert(is_dm_room()(db0.rooms[i]));
        assert(s.contains(db0.rooms[i]));
        let m = choose|m: int| 0 <= m < s.len() && s[m] == db0.rooms[i];
        assert(s[m].id == id);
    }
}

proof fn lemma_sweep(db0: ChatDbV, s: Seq<RoomV>, k: int)
    requires
        unique_keys(db0.rooms),
        unique_keys(s),
        s == db0.rooms.filter(is_dm_room()),
        0 <= k <= s.len(),
    ensures
        sweep_inv(db0, s, k, dm_sweep(db0, s.take(k)).0, dm_sweep(db0, s.take(k)).1),
    decreases k,
{
    if k == 0 {
        assert(s.take(0) =~= Seq::<RoomV>::empty());
        lemma_inv_start(db0);
    } else {
        lemma_sweep(db0, s, k - 1);
        assert(s.take(k).drop_last() =~= s.take(k - 1));
        assert(s.take(k).last() == s[k - 1]);
        let prev = dm_sweep(db0, s.take(k - 1));
        lemma_step(db0, s, k - 1, prev.0, prev.1);
    }
}

/// Every direct-message room of `d` is settled with respect to `seen`.
pub open spec fn all_settled(d: ChatDbV, seen: Seq<(Seq<char>, Seq<char>)>) -> bool {
    forall|id: Seq<char>| #[trigger] lookup(d.rooms, id) is Some && lookup(d.rooms, id).unwrap().is_dm
        ==> settled(d, seen, lookup(d.rooms, id).unwrap())
}

/// `entry` names a room of `l` before position `k` that has two members and
/// the entry's pair.
pub open spec fn recorded(d: ChatDbV, l: Seq<RoomV>, k: int, entry: (Seq<char>, Seq<char>)) -> bool {
    exists|j: int| 0 <= j < k && #[trigger] l[j].id == entry.1
        && room_user_ids(d.room_members, l[j].id).len() == 2 && pair_of(d.room_members, l[j].id) == entry.0
}

proof fn lemma_second_pass(d: ChatDbV, seen1: Seq<(Seq<char>, Seq<char>)>, k: int)
    requires
        unique_keys(d.rooms),
        unique_keys(d.rooms.filter(is_dm_room())),
        all_settled(d, seen1),
        0 <= k <= d.rooms.filter(is_dm_room()).len(),
    ensures
        ({
            let l = d.rooms.filter(is_dm_room());
            let st = dm_sweep(d, l.take(k));
            &&& st.0 == d
            &&& forall|e: int| 0 <= e < st.1.len() ==> recorded(d, l, k, #[trigger] st.1[e])
        }),
    decreases k,
{
    let l = d.rooms.filter(is_dm_room());
    if k == 0 {
        assert(l.take(0) =~= Seq::<RoomV>::empty());
    } else {
        lemma_second_pass(d, seen1, k - 1);
        assert(l.take(k).drop_last() =~= l.take(k - 1));
        assert(l.take(k).last() == l[k - 1]);
        let prev = dm_sweep(d, l.take(k - 1));
        let seen2 = prev.1;
        let r = l[k - 1];
        assert(l.contains(r));
        d.rooms.lemma_filter_contains_rev(is_dm_room(), r);
        let i = choose|i: int| 0 <= i < d.rooms.len() && d.rooms[i] == r;
        lemma_lookup_index(d.rooms, i);
        d.rooms.filter_lemma(is_dm_room());
        assert(is_dm_room()(l[k - 1]));
        assert(settled(d, seen1, r));
        let users = room_user_ids(d.room_members, r.id);
        let st = dm_step(prev, r);
        if users.len() == 2 {
            let key = pair_of(d.room_members, r.id);
            if pair_lookup(seen2, key) is Some {
                lemma_pair_lookup_found(seen2, key);
                let e = choose|e: int| 0 <= e < seen2.len() && #[trigger] seen2[e].0 == key
                    && seen2[e].1 == pair_lookup(seen2, key).unwrap();
                assert(recorded(d, l, k - 1, seen2[e]));
                let j = choose|j: int| 0 <= j < k - 1 && #[trigger] l[j].id == seen2[e].1
                    && room_user_ids(d.room_members, l[j].id).len() == 2 && pair_of(d.room_members, l[j].id) == seen2[e].0;
                assert(l.contains(l[j]));
                d.rooms.lemma_filter_contains_rev(is_dm_room(), l[j]);
                let i2 = choose|i2: int| 0 <= i2 < d.rooms.len() && d.rooms[i2] == l[j];
                lemma_lookup_index(d.rooms, i2);
                assert(is_dm_room()(l[j]));
                assert(settled(d, seen1, l[j]));
                assert(l[j].key() != l[k - 1].key());
                assert(false);
            }
            assert(st.0 == d);
            assert forall|e: int| 0 <= e < st.1.len() implies recorded(d, l, k, #[trigger] st.1[e]) by {
                if e < seen2.len() {
                    assert(st.1[e] == seen2[e]);
                    assert(recorded(d, l, k - 1, seen2[e]));
                    let j = choose|j: int| 0 <= j < k - 1 && #[trigger] l[j].id == seen2[e].1
                        && room_user_ids(d.room_members, l[j].id).len() == 2 && pair_of(d.room_members, l[j].id) == seen2[e].0;
                    assert(l[j].id == st.1[e].1);
                } else {
                    assert(st.1[e] == (key, r.id));
                    assert(l[k - 1].id == st.1[e].1);
                }
            }
        } else {
            assert(st == prev);
            assert forall|e: int| 0 <= e < st.1.len() implies recorded(d, l, k, #[trigger] st.1[e]) by {
                assert(recorded(d, l, k - 1, st.1[e]));
                let j = choose|j: int| 0 <= j < k - 1 && #[trigger] l[j].id == st.1[e].1
                    && room_user_ids(d.room_members, l[j].id).len() == 2 && pair_of(d.room_members, l[j].id) == st.1[e].0;
                assert(l[j].id == st.1[e].1);
            }
        }
    }
}

/// Cleaning up the direct-message rooms a second time changes nothing.
pub proof fn law_dm_cleanup_idempotent(db: ChatDbV)
    requires
        db.wf(),
    ensures
        dm_migrated(dm_migrated(db)) == dm_migrated(db),
{
    let s = db.rooms.filter(is_dm_room());
    lemma_filter_unique(db.rooms, is_dm_room());
    lemma_sweep(db, s, s.len() as int);
    assert(s.take(s.len() as int) =~= s);
    let st = dm_sweep(db, s);
    let d = st.0;
    let seen1 = st.1;
    assert forall|id: Seq<char>| #[trigger] lookup(d.rooms, id) is Some && lookup(d.rooms, id).unwrap().is_dm
        implies settled(d, seen1, lookup(d.rooms, id).unwrap()) by {
        if unprocessed(s, s.len() as int, id) {
            let m = choose|m: int| s.len() <= m < s.len() && #[trigger] s[m].id == id;
        }
    }
    let l = d.rooms.filter(is_dm_room());
    lemma_filter_unique(d.rooms, is_dm_room());
    lemma_second_pass(d, seen1, l.len() as int);
    assert(l.take(l.len() as int) =~= l);
}

/// Some room of `s` has id `id`.
pub open spec fn names_room(s: Seq<RoomV>, id: Seq<char>) -> bool {
    exists|m: int| 0 <= m < s.len() && #[trigger] s[m].id == id
}

/// The row found under a key has that key.
proof fn lemma_lookup_key(s: Seq<RoomV>, id: Seq<char>)
    requires
        lookup(s, id) is Some,
    ensures
        lookup(s, id).unwrap().id == id,
{
    let i = choose|i: int| 0 <= i < s.len() && #[trigger] s[i].key() == id;
}

/// The clean-up touches only the rooms it goes through: room keys stay
/// unique, the pairs it records name such rooms, and every other room is
/// found as before.
proof fn lemma_sweep_others(db0: ChatDbV, s: Seq<RoomV>)
    requires
        unique_keys(db0.rooms),
    ensures
        unique_keys(dm_sweep(db0, s).0.rooms),
        forall|e: int| 0 <= e < dm_sweep(db0, s).1.len() ==> names_room(s, #[trigger] dm_sweep(db0, s).1[e].1),
        forall|id: Seq<char>| !names_room(s, id) ==> #[trigger] lookup(dm_sweep(db0, s).0.rooms, id) == lookup(db0.rooms, id),
    decreases s.len(),
{
    if s.len() > 0 {
        let d = s.drop_last();
        lemma_sweep_others(db0, d);
        let prev = dm_sweep(db0, d);
        let db = prev.0;
        let seen = prev.1;
        let room = s.last();
        assert(s[s.len() - 1].id == room.id);
        assert forall|id: Seq<char>| names_room(d, id) implies names_room(s, id) by {
            let m = choose|m: int| 0 <= m < d.len() && #[trigger] d[m].id == id;
            assert(s[m] == d[m]);
        }
        let st = dm_step(prev, room);
        assert(st == dm_sweep(db0, s));
        let users = room_user_ids(db.room_members, room.id);
        lemma_without_key(db.rooms, room.id);
        if users.len() == 2 {
            let key = dm_pair_key(users[0], users[1]);
            let name = "dm:"@ + key;
            let x = RoomV { name: name, ..room };
            match pair_lookup(seen, key) {
                Some(kept) => {
                    lemma_pair_lookup_found(seen, key);
                    let e = choose|e: int| 0 <= e < seen.len() && #[trigger] seen[e].0 == key && seen[e].1 == kept;
                    assert(names_room(d, seen[e].1));
                    if has_messages(db, room.id) && !has_messages(db, kept) {
                        let w = without_room(db, kept);
                        lemma_without_key(db.rooms, kept);
                        assert forall|id: Seq<char>| !names_room(s, id) implies #[trigger] lookup(st.0.rooms, id) == lookup(db0.rooms, id) by {
                            lemma_lookup_pushed(w.rooms, x, id);
                        }
                        lemma_lookup_pushed(w.rooms, x, room.id);
                        assert forall|f: int| 0 <= f < st.1.len() implies names_room(s, #[trigger] st.1[f].1) by {
                            if f < seen.len() {
                                assert(st.1[f] == seen[f]);
                            }
                        }
                    }
                },
                None => {
                    assert forall|id: Seq<char>| !names_room(s, id) implies #[trigger] lookup(st.0.rooms, id) == lookup(db0.rooms, id) by {
                        lemma_lookup_pushed(db.rooms, x, id);
                    }
                    lemma_lookup_pushed(db.rooms, x, room.id);
                    assert forall|f: int| 0 <= f < st.1.len() implies names_room(s, #[trigger] st.1[f].1) by {
                        if f < seen.len() {
                            assert(st.1[f] == seen[f]);
                        }
                    }
                },
            }
        }
    }
}

/// Room `id` of `d` is a direct-message room with exactly two members.
pub open spec fn two_member_dm(d: ChatDbV, id: Seq<char>) -> bool {
    &&& lookup(d.rooms, id) is Some
    &&& lookup(d.rooms, id).unwrap().is_dm
    &&& room_user_ids(d.room_members, id).len() == 2
}

/// After the clean-up of the direct-message rooms, every direct-message room
/// has members, every one with two members is named "dm:" and the sorted
/// pair of its members, no two of those share a pair, and every room that
/// was not a direct-message room is as it was.
pub proof fn law_dm_cleanup_result(db: ChatDbV)
    requires
        db.wf(),
    ensures
        ({
            let d = dm_migrated(db);
            &&& forall|id: Seq<char>| #[trigger] lookup(d.rooms, id) is Some && lookup(d.rooms, id).unwrap().is_dm
                ==> room_user_ids(d.room_members, id).len() > 0
            &&& forall|id: Seq<char>| #[trigger] two_member_dm(d, id)
                ==> lookup(d.rooms, id).unwrap().name == "dm:"@ + pair_of(d.room_members, id)
            &&& forall|id1: Seq<char>, id2: Seq<char>| #[trigger] two_member_dm(d, id1) && #[trigger] two_member_dm(d, id2)
                && pair_of(d.room_members, id1) == pair_of(d.room_members, id2) ==> id1 == id2
            &&& forall|id: Seq<char>| lookup(db.rooms, id) is Some && !lookup(db.rooms, id).unwrap().is_dm
                ==> #[trigger] lookup(d.rooms, id) == lookup(db.rooms, id)
        }),
{
    let s = db.rooms.filter(is_dm_room());
    lemma_filter_unique(db.rooms, is_dm_room());
    lemma_sweep(db, s, s.len() as int);
    assert(s.take(s.len() as int) =~= s);
    let st = dm_sweep(db, s);
    let d = st.0;
    let seen1 = st.1;
    assert forall|id: Seq<char>| #[trigger] lookup(d.rooms, id) is Some && lookup(d.rooms, id).unwrap().is_dm
        implies settled(d, seen1, lookup(d.rooms, id).unwrap()) by {
        if unprocessed(s, s.len() as int, id) {
            let m = choose|m: int| s.len() <= m < s.len() && #[trigger] s[m].id == id;
        }
    }
    assert forall|id: Seq<char>| #[trigger] lookup(d.rooms, id) is Some && lookup(d.rooms, id).unwrap().is_dm
        implies room_user_ids(d.room_members, id).len() > 0 by {
        lemma_lookup_key(d.rooms, id);
    }
    assert forall|id: Seq<char>| #[trigger] two_member_dm(d, id)
        implies lookup(d.rooms, id).unwrap().name == "dm:"@ + pair_of(d.room_members, id) by {
        lemma_lookup_key(d.rooms, id);
    }
    assert forall|id1: Seq<char>, id2: Seq<char>| #[trigger] two_member_dm(d, id1) && #[trigger] two_member_dm(d, id2)
        && pair_of(d.room_members, id1) == pair_of(d.room_members, id2) implies id1 == id2 by {
        lemma_lookup_key(d.rooms, id1);
        lemma_lookup_key(d.rooms, id2);
        assert(settled(d, seen1, lookup(d.rooms, id1).unwrap()));
        assert(settled(d, seen1, lookup(d.rooms, id2).unwrap()));
    }
    lemma_sweep_others(db, s);
    db.rooms.filter_lemma(is_dm_room());
    assert forall|id: Seq<char>| lookup(db.rooms, id) is Some && !lookup(db.rooms, id).unwrap().is_dm
        implies #[trigger] lookup(d.rooms, id) == lookup(db.rooms, id) by {
        if names_room(s, id) {
            let m = choose|m: int| 0 <= m < s.len() && #[trigger] s[m].id == id;
            assert(s.contains(s[m]));
            db.rooms.lemma_filter_contains_rev(is_dm_room(), s[m]);
            let i = choose|i: int| 0 <= i < db.rooms.len() && db.rooms[i] == s[m];
            lemma_lookup_index(db.rooms, i);
        }
    }
}

/// Room `r` has two members in `db`, of pair `key`, and has messages.
pub open spec fn pair_room_with_messages(db: ChatDbV, r: RoomV, key: Seq<char>) -> bool {
    &&& room_user_ids(db.room_members, r.id).len() == 2
    &&& pair_of(db.room_members, r.id) == key
    &&& has_messages(db, r.id)
}

/// While the clean-up goes through `s`, messages stay, and for every pair of
/// which a room gone through had two members and messages, the room recorded
/// for the pair has messages.
proof fn lemma_sweep_keeps_messages(db0: ChatDbV, s: Seq<RoomV>, k: int)
    requires
        unique_keys(db0.rooms),
        unique_keys(s),
        s == db0.rooms.filter(is_dm_room()),
        0 <= k <= s.len(),
    ensures
        dm_sweep(db0, s.take(k)).0.messages == db0.messages,
        forall|key: Seq<char>, j: int| 0 <= j < k && #[trigger] pair_room_with_messages(db0, s[j], key) ==> {
            let seen = dm_sweep(db0, s.take(k)).1;
            &&& pair_lookup(seen, key) is Some
            &&& has_messages(db0, pair_lookup(seen, key).unwrap())
        },
    decreases k,
{
    if k == 0 {
        assert(s.take(0) =~= Seq::<RoomV>::empty());
    } else {
        lemma_sweep_keeps_messages(db0, s, k - 1);
        lemma_sweep(db0, s, k - 1);
        assert(s.take(k).drop_last() =~= s.take(k - 1));
        assert(s.take(k).last() == s[k - 1]);
        let prev = dm_sweep(db0, s.take(k - 1));
        let db = prev.0;
        let seen = prev.1;
        let r = s[k - 1];
        let st = dm_step(prev, r);
        assert(st == dm_sweep(db0, s.take(k)));
        assert(room_user_ids(db.room_members, r.id) == room_user_ids(db0.room_members, r.id));
        assert(has_messages(db, r.id) == has_messages(db0, r.id));
        let users = room_user_ids(db.room_members, r.id);
        if users.len() == 2 {
            let key = dm_pair_key(users[0], users[1]);
            assert(key == pair_of(db0.room_members, r.id));
            match pair_lookup(seen, key) {
                Some(kept) => {
                    assert(has_messages(db, kept) == has_messages(db0, kept));
                    if has_messages(db, r.id) && !has_messages(db, kept) {
                        assert forall|key2: Seq<char>, j: int| 0 <= j < k && #[trigger] pair_room_with_messages(db0, s[j], key2)
                            implies pair_lookup(st.1, key2) is Some && has_messages(db0, pair_lookup(st.1, key2).unwrap()) by {
                            lemma_pair_lookup_push(seen, key, r.id, key2);
                        }
                    } else {
                        assert forall|key2: Seq<char>, j: int| 0 <= j < k && #[trigger] pair_room_with_messages(db0, s[j], key2)
                            implies pair_lookup(st.1, key2) is Some && has_messages(db0, pair_lookup(st.1, key2).unwrap()) by {
                            if j == k - 1 {
                                assert(key2 == key);
                            }
                        }
                    }
                },
                None => {
                    assert forall|key2: Seq<char>, j: int| 0 <= j < k && #[trigger] pair_room_with_messages(db0, s[j], key2)
                        implies pair_lookup(st.1, key2) is Some && has_messages(db0, pair_lookup(st.1, key2).unwrap()) by {
                        lemma_pair_lookup_push(seen, key, r.id, key2);
                        if j < k - 1 && key2 == key {
                            assert(pair_room_with_messages(db0, s[j], key2));
                        }
                    }
                },
            }
        } else {
            assert forall|key2: Seq<char>, j: int| 0 <= j < k && #[trigger] pair_room_with_messages(db0, s[j], key2)
                implies pair_lookup(st.1, key2) is Some && has_messages(db0, pair_lookup(st.1, key2).unwrap()) by {
                if j == k - 1 {
                    assert(room_user_ids(db0.room_members, s[j].id).len() == 2);
                }
            }
        }
    }
}

/// The clean-up of the direct-message rooms keeps, for each pair, a room
/// with messages where one of the pair's rooms had messages: every remaining
/// direct-message room of two members has messages if some direct-message
/// room of the same two members had messages before.
pub proof fn law_dm_cleanup_keeps_a_room_with_messages(db: ChatDbV)
    requires
        db.wf(),
    ensures
        ({
            let d = dm_migrated(db);
            forall|id: Seq<char>, r: RoomV| #[trigger] two_member_dm(d, id) && db.rooms.contains(r) && r.is_dm
                && #[trigger] pair_room_with_messages(db, r, pair_of(d.room_members, id)) ==> has_messages(d, id)
        }),
{
    let s = db.rooms.filter(is_dm_room());
    lemma_filter_unique(db.rooms, is_dm_room());
    lemma_sweep(db, s, s.len() as int);
    lemma_sweep_keeps_messages(db, s, s.len() as int);
    assert(s.take(s.len() as int) =~= s);
    let st = dm_sweep(db, s);
    let d = st.0;
    let seen1 = st.1;
    db.rooms.filter_lemma(is_dm_room());
    assert forall|id: Seq<char>, r: RoomV| #[trigger] two_member_dm(d, id) && db.rooms.contains(r) && r.is_dm
        && #[trigger] pair_room_with_messages(db, r, pair_of(d.room_members, id)) implies has_messages(d, id) by {
        let i = choose|i: int| 0 <= i < db.rooms.len() && db.rooms[i] == r;
        assert(is_dm_room()(db.rooms[i]));
        assert(s.contains(r));
        let j = choose|j: int| 0 <= j < s.len() && s[j] == r;
        assert(pair_room_with_messages(db, s[j], pair_of(d.room_members, id)));
        if unprocessed(s, s.len() as int, id) {
            let m = choose|m: int| s.len() <= m < s.len() && #[trigger] s[m].id == id;
        }
        lemma_lookup_key(d.rooms, id);
        assert(settled(d, seen1, lookup(d.rooms, id).unwrap()));
    }
}

} // verus!
