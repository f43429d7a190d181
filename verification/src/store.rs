//! Generic operations on tables held as vectors of keyed rows, stated over
//! the rows' views.

use vstd::prelude::*;
use crate::tables::{KeyedView, Row};

verus! {

/// The views of the rows of a table, in order.
pub open spec fn rows<T: View>(v: Seq<T>) -> Seq<T::V> {
    v.map_values(|x: T| x@)
}

/// Some row of `s` has primary key `k`.
pub open spec fn has_key<V: KeyedView>(s: Seq<V>, k: Seq<char>) -> bool {
    exists|i: int| 0 <= i < s.len() && #[trigger] s[i].key() == k
}

/// No two rows of `s` share a primary key.
pub open spec fn unique_keys<V: KeyedView>(s: Seq<V>) -> bool {
    forall|i: int, j: int|
        0 <= i < s.len() && 0 <= j < s.len() && i != j ==> #[trigger] s[i].key() != #[trigger] s[j].key()
}

/// The row of `s` with primary key `k`, if there is one.
pub open spec fn lookup<V: KeyedView>(s: Seq<V>, k: Seq<char>) -> Option<V> {
    if has_key(s, k) {
        Some(s[choose|i: int| 0 <= i < s.len() && #[trigger] s[i].key() == k])
    } else {
        None
    }
}

/// Rows whose primary key is not `k`.
pub open spec fn key_is_not<V: KeyedView>(k: Seq<char>) -> spec_fn(V) -> bool {
    |x: V| x.key() != k
}

/// `s` without the row of key `k`.
pub open spec fn without_key<V: KeyedView>(s: Seq<V>, k: Seq<char>) -> Seq<V> {
    s.filter(key_is_not(k))
}

/// `s` with the row of the key of `x` (if any) replaced by `x`, placed last.
pub open spec fn replace_row<V: KeyedView>(s: Seq<V>, x: V) -> Seq<V> {
    without_key(s, x.key()).push(x)
}

pub proof fn lemma_rows_filter<T: View>(s: Seq<T>, p: spec_fn(T::V) -> bool)
    ensures
        rows(s.filter(|x: T| p(x@))) == rows(s).filter(p),
    decreases s.len(),
{
    reveal_with_fuel(Seq::filter, 1);
    let q = |x: T| p(x@);
    if s.len() > 0 {
        let d = s.drop_last();
        lemma_rows_filter(d, p);
        assert(rows(s).drop_last() =~= rows(d));
        if q(s.last()) {
            assert(rows(d.filter(q).push(s.last())) =~= rows(d.filter(q)).push(s.last()@));
        }
    } else {
        assert(rows(s.filter(q)) =~= rows(s).filter(p));
    }
}

pub proof fn lemma_lookup_index<V: KeyedView>(s: Seq<V>, i: int)
    requires
        unique_keys(s),
        0 <= i < s.len(),
    ensures
        lookup(s, s[i].key()) == Some(s[i]),
        has_key(s, s[i].key()),
{
    let k = s[i].key();
    assert(has_key(s, k));
    let j = choose|j: int| 0 <= j < s.len() && #[trigger] s[j].key() == k;
    assert(i == j);
}

pub proof fn lemma_filter_has_key<V: KeyedView>(s: Seq<V>, p: spec_fn(V) -> bool, k: Seq<char>)
    ensures
        has_key(s.filter(p), k) <==> exists|i: int| 0 <= i < s.len() && #[trigger] s[i].key() == k && p(s[i]),
    decreases s.len(),
{
    reveal_with_fuel(Seq::filter, 1);
    if s.len() > 0 {
        let d = s.drop_last();
        lemma_filter_has_key(d, p, k);
        let f = s.filter(p);
        let fd = d.filter(p);
        if has_key(f, k) {
            let i = choose|i: int| 0 <= i < f.len() && #[trigger] f[i].key() == k;
            if p(s.last()) && i == fd.len() {
                assert(s[s.len() - 1].key() == k && p(s[s.len() - 1]));
            } else {
                assert(fd[i].key() == k);
                let j = choose|j: int| 0 <= j < d.len() && #[trigger] d[j].key() == k && p(d[j]);
                assert(s[j] == d[j]);
            }
        }
        if exists|i: int| 0 <= i < s.len() && #[trigger] s[i].key() == k && p(s[i]) {
            let i = choose|i: int| 0 <= i < s.len() && #[trigger] s[i].key() == k && p(s[i]);
            if i == s.len() - 1 {
                assert(f[fd.len() as int].key() == k);
            } else {
                assert(d[i] == s[i]);
                let j = choose|j: int| 0 <= j < fd.len() && #[trigger] fd[j].key() == k;
                assert(f[j] == fd[j]);
            }
        }
    }
}

pub proof fn lemma_filter_unique<V: KeyedView>(s: Seq<V>, p: spec_fn(V) -> bool)
    requires
        unique_keys(s),
    ensures
        unique_keys(s.filter(p)),
    decreases s.len(),
{
    reveal_with_fuel(Seq::filter, 1);
    if s.len() > 0 {
        let d = s.drop_last();
        assert(unique_keys(d)) by {
            assert forall|i: int, j: int|
                0 <= i < d.len() && 0 <= j < d.len() && i != j implies #[trigger] d[i].key() != #[trigger] d[j].key() by {
                assert(d[i] == s[i] && d[j] == s[j]);
            }
        }
        lemma_filter_unique(d, p);
        let fd = d.filter(p);
        if p(s.last()) {
            let k = s.last().key();
            lemma_filter_has_key(d, p, k);
            if has_key(fd, k) {
                let j = choose|j: int| 0 <= j < d.len() && #[trigger] d[j].key() == k && p(d[j]);
                assert(s[j].key() == s[s.len() - 1].key());
            }
            let f = fd.push(s.last());
            assert forall|i: int, j: int|
                0 <= i < f.len() && 0 <= j < f.len() && i != j implies #[trigger] f[i].key() != #[trigger] f[j].key() by {
                if i == fd.len() {
                    assert(fd[j].key() == f[j].key());
                } else if j == fd.len() {
                    assert(fd[i].key() == f[i].key());
                } else {
                    assert(fd[i] == f[i] && fd[j] == f[j]);
                }
            }
        }
    }
}

pub proof fn lemma_filter_all<T>(s: Seq<T>, p: spec_fn(T) -> bool)
    requires
        forall|i: int| 0 <= i < s.len() ==> p(#[trigger] s[i]),
    ensures
        s.filter(p) == s,
    decreases s.len(),
{
    reveal_with_fuel(Seq::filter, 1);
    if s.len() > 0 {
        let d = s.drop_last();
        assert forall|i: int| 0 <= i < d.len() implies p(#[trigger] d[i]) by {
            assert(d[i] == s[i]);
        }
        lemma_filter_all(d, p);
        assert(s.filter(p) =~= s);
    }
}

pub proof fn lemma_remove_is_filter<V: KeyedView>(s: Seq<V>, i: int)
    requires
        unique_keys(s),
        0 <= i < s.len(),
    ensures
        s.remove(i) == without_key(s, s[i].key()),
    decreases s.len(),
{
    reveal_with_fuel(Seq::filter, 1);
    let k = s[i].key();
    let p = key_is_not::<V>(k);
    let d = s.drop_last();
    if i == s.len() - 1 {
        assert forall|j: int| 0 <= j < d.len() implies p(#[trigger] d[j]) by {
            assert(d[j] == s[j]);
        }
        lemma_filter_all(d, p);
        assert(s.remove(i) =~= d);
    } else {
        assert(unique_keys(d)) by {
            assert forall|a: int, b: int|
                0 <= a < d.len() && 0 <= b < d.len() && a != b implies #[trigger] d[a].key() != #[trigger] d[b].key() by {
                assert(d[a] == s[a] && d[b] == s[b]);
            }
        }
        assert(d[i] == s[i]);
        lemma_remove_is_filter(d, i);
        assert(p(s.last()));
        assert(s.remove(i) =~= d.remove(i).push(s.last()));
    }
}

pub proof fn lemma_push_unique<V: KeyedView>(s: Seq<V>, x: V)
    requires
        unique_keys(s),
        !has_key(s, x.key()),
    ensures
        unique_keys(s.push(x)),
        has_key(s.push(x), x.key()),
        lookup(s.push(x), x.key()) == Some(x),
        forall|k: Seq<char>| #[trigger] has_key(s.push(x), k) <==> (has_key(s, k) || k == x.key()),
        forall|k: Seq<char>| k != x.key() ==> #[trigger] lookup(s.push(x), k) == lookup(s, k),
{
    let t = s.push(x);
    assert(t[s.len() as int] == x);
    assert forall|i: int, j: int|
        0 <= i < t.len() && 0 <= j < t.len() && i != j implies #[trigger] t[i].key() != #[trigger] t[j].key() by {
        if i < s.len() {
            assert(t[i] == s[i]);
        }
        if j < s.len() {
            assert(t[j] == s[j]);
        }
    }
    lemma_lookup_index(t, s.len() as int);
    assert forall|k: Seq<char>| #[trigger] has_key(t, k) <== (has_key(s, k) || k == x.key()) by {
        if has_key(s, k) {
            let i = choose|i: int| 0 <= i < s.len() && #[trigger] s[i].key() == k;
            assert(t[i] == s[i]);
        }
    }
    assert forall|k: Seq<char>| #[trigger] has_key(t, k) ==> (has_key(s, k) || k == x.key()) by {
        if has_key(t, k) {
            let i = choose|i: int| 0 <= i < t.len() && #[trigger] t[i].key() == k;
            if i < s.len() {
                assert(t[i] == s[i]);
            }
        }
    }
    assert forall|k: Seq<char>| k != x.key() implies #[trigger] lookup(t, k) == lookup(s, k) by {
        if has_key(s, k) {
            let i = choose|i: int| 0 <= i < s.len() && #[trigger] s[i].key() == k;
            assert(t[i] == s[i]);
            lemma_lookup_index(t, i);
            lemma_lookup_index(s, i);
        }
    }
}

pub proof fn lemma_without_key<V: KeyedView>(s: Seq<V>, k: Seq<char>)
    requires
        unique_keys(s),
    ensures
        unique_keys(without_key(s, k)),
        !has_key(without_key(s, k), k),
        forall|k2: Seq<char>| k2 != k ==> (#[trigger] has_key(without_key(s, k), k2) <==> has_key(s, k2)),
        forall|k2: Seq<char>| k2 != k ==> #[trigger] lookup(without_key(s, k), k2) == lookup(s, k2),
{
    let p = key_is_not::<V>(k);
    lemma_filter_unique(s, p);
    lemma_filter_has_key(s, p, k);
    let f = s.filter(p);
    assert forall|k2: Seq<char>| k2 != k implies (#[trigger] has_key(f, k2) <==> has_key(s, k2)) by {
        lemma_filter_has_key(s, p, k2);
        if has_key(s, k2) {
            let i = choose|i: int| 0 <= i < s.len() && #[trigger] s[i].key() == k2;
            assert(p(s[i]));
        }
    }
    assert forall|k2: Seq<char>| k2 != k implies #[trigger] lookup(f, k2) == lookup(s, k2) by {
        lemma_filter_has_key(s, p, k2);
        if has_key(f, k2) {
            let i = choose|i: int| 0 <= i < f.len() && #[trigger] f[i].key() == k2;
            s.lemma_filter_contains_rev(p, f[i]);
            assert(s.contains(f[i]));
            let j = choose|j: int| 0 <= j < s.len() && s[j] == f[i];
            lemma_lookup_index(f, i);
            lemma_lookup_index(s, j);
        }
    }
}

/// Whether some row of `v` has primary key `k`.
pub fn contains_key<T: Row>(v: &Vec<T>, k: &String) -> (r: bool)
    where T::V: KeyedView,
    ensures
        r == has_key(rows(v@), k@),
{
    let mut i: usize = 0;
    while i < v.len()
        invariant
            i <= v@.len(),
            forall|j: int| 0 <= j < i ==> #[trigger] rows(v@)[j].key() != k@,
        decreases v.len() - i,
    {
        if v[i].key_str().eq(k) {
            assert(rows(v@)[i as int].key() == k@);
            return true;
        }
        i = i + 1;
    }
    false
}

/// Position of the row of `v` with primary key `k`.
pub fn find_key<T: Row>(v: &Vec<T>, k: &String) -> (r: Option<usize>)
    where T::V: KeyedView,
    requires
        unique_keys(rows(v@)),
    ensures
        r is None <==> !has_key(rows(v@), k@),
        r is None ==> lookup(rows(v@), k@) is None,
        r matches Some(i) ==> i < v@.len() && v@[i as int]@.key() == k@ && lookup(rows(v@), k@) == Some(v@[i as int]@),
{
    let mut i: usize = 0;
    while i < v.len()
        invariant
            i <= v@.len(),
            unique_keys(rows(v@)),
            forall|j: int| 0 <= j < i ==> #[trigger] rows(v@)[j].key() != k@,
        decreases v.len() - i,
    {
        if v[i].key_str().eq(k) {
            proof {
                lemma_lookup_index(rows(v@), i as int);
            }
            return Some(i);
        }
        i = i + 1;
    }
    None
}

/// Remove and return the row of `v` with primary key `k`, if any.
pub fn take_key<T: Row>(v: &mut Vec<T>, k: &String) -> (r: Option<T>)
    where T::V: KeyedView,
    requires
        unique_keys(rows(old(v)@)),
    ensures
        match r {
            Some(x) => lookup(rows(old(v)@), k@) == Some(x@),
            None => lookup(rows(old(v)@), k@) is None,
        },
        rows(final(v)@) == without_key(rows(old(v)@), k@),
        unique_keys(rows(final(v)@)),
{
    proof {
        lemma_without_key(rows(v@), k@);
    }
    match find_key(v, k) {
        Some(i) => {
            proof {
                lemma_remove_is_filter(rows(v@), i as int);
                assert(rows(v@.remove(i as int)) =~= rows(v@).remove(i as int));
            }
            Some(v.remove(i))
        },
        None => {
            proof {
                assert forall|j: int| 0 <= j < rows(v@).len() implies key_is_not::<T::V>(k@)(#[trigger] rows(v@)[j]) by {
                    if rows(v@)[j].key() == k@ {
                        assert(has_key(rows(v@), k@));
                    }
                }
                lemma_filter_all(rows(v@), key_is_not::<T::V>(k@));
            }
            None
        },
    }
}

/// Remove the row of `v` with primary key `k`, if any.
pub fn remove_key<T: Row>(v: &mut Vec<T>, k: &String)
    where T::V: KeyedView,
    requires
        unique_keys(rows(old(v)@)),
    ensures
        rows(final(v)@) == without_key(rows(old(v)@), k@),
        unique_keys(rows(final(v)@)),
{
    let _ = take_key(v, k);
}

/// Append a row whose key is not yet in `v`.
pub fn insert_new<T: Row>(v: &mut Vec<T>, x: T)
    where T::V: KeyedView,
    requires
        unique_keys(rows(old(v)@)),
        !has_key(rows(old(v)@), x@.key()),
    ensures
        rows(final(v)@) == rows(old(v)@).push(x@),
        unique_keys(rows(final(v)@)),
{
    proof {
        lemma_push_unique(rows(v@), x@);
        assert(rows(v@.push(x)) =~= rows(v@).push(x@));
    }
    v.push(x);
}

/// Replace the row with the key of `x` (if any) by `x`, placed last.
pub fn upsert<T: Row>(v: &mut Vec<T>, x: T)
    where T::V: KeyedView,
    requires
        unique_keys(rows(old(v)@)),
    ensures
        rows(final(v)@) == replace_row(rows(old(v)@), x@),
        unique_keys(rows(final(v)@)),
{
    let kk = x.key_str().clone();
    remove_key(v, &kk);
    proof {
        lemma_without_key(rows(old(v)@), kk@);
    }
    insert_new(v, x);
}

/// Keep the rows of `v` for which `f` holds (`keep` is what `f` computes on views).
pub fn retain_rows<T: View, F: Fn(&T) -> bool>(v: &mut Vec<T>, f: F, Ghost(keep): Ghost<spec_fn(T::V) -> bool>)
    requires
        forall|x: &T| #[trigger] f.requires((x,)),
        forall|x: &T, b: bool| f.ensures((x,), b) ==> b == keep(x@),
    ensures
        rows(final(v)@) == rows(old(v)@).filter(keep),
{
    let mut out: Vec<T> = Vec::new();
    let ghost orig = v@;
    let ghost q = |x: T| keep(x@);
    let mut rest: Vec<T> = Vec::new();
    std::mem::swap(&mut rest, v);
    while rest.len() > 0
        invariant
            forall|x: &T| #[trigger] f.requires((x,)),
            forall|x: &T, b: bool| f.ensures((x,), b) ==> b == keep(x@),
            q == (|x: T| keep(x@)),
            rest@.len() <= orig.len(),
            rest@ == orig.skip(orig.len() - rest@.len()),
            out@ == orig.take(orig.len() - rest@.len()).filter(q),
        decreases rest.len(),
    {
        let ghost k = orig.len() - rest@.len();
        let x = rest.remove(0);
        assert(x == orig[k]);
        assert(orig.take(k + 1).drop_last() == orig.take(k));
        assert(rest@ == orig.skip(k + 1));
        reveal_with_fuel(Seq::filter, 1);
        if f(&x) {
            out.push(x);
        }
    }
    assert(orig.take(orig.len() as int) == orig);
    proof {
        lemma_rows_filter(orig, keep);
    }
    *v = out;
}

/// Keep the keyed rows of `v` for which `f` holds; keys stay unique.
pub fn retain_keyed<T: Row, F: Fn(&T) -> bool>(v: &mut Vec<T>, f: F, Ghost(keep): Ghost<spec_fn(T::V) -> bool>)
    where T::V: KeyedView,
    requires
        unique_keys(rows(old(v)@)),
        forall|x: &T| #[trigger] f.requires((x,)),
        forall|x: &T, b: bool| f.ensures((x,), b) ==> b == keep(x@),
    ensures
        rows(final(v)@) == rows(old(v)@).filter(keep),
        unique_keys(rows(final(v)@)),
{
    proof {
        lemma_filter_unique(rows(v@), keep);
    }
    retain_rows(v, f, Ghost(keep));
}

/// Position of the first row of `v` for which `f` holds (`p` is what `f` computes on views).
pub fn position<T: View, F: Fn(&T) -> bool>(v: &Vec<T>, f: F, Ghost(p): Ghost<spec_fn(T::V) -> bool>) -> (r: Option<usize>)
    requires
        forall|x: &T| #[trigger] f.requires((x,)),
        forall|x: &T, b: bool| f.ensures((x,), b) ==> b == p(x@),
    ensures
        match r {
            Some(i) => i < v@.len() && p(rows(v@)[i as int]) && forall|j: int| 0 <= j < i ==> !p(#[trigger] rows(v@)[j]),
            None => forall|j: int| 0 <= j < v@.len() ==> !p(#[trigger] rows(v@)[j]),
        },
{
    let mut i: usize = 0;
    while i < v.len()
        invariant
            i <= v@.len(),
            forall|x: &T| #[trigger] f.requires((x,)),
            forall|x: &T, b: bool| f.ensures((x,), b) ==> b == p(x@),
            forall|j: int| 0 <= j < i ==> !p(#[trigger] rows(v@)[j]),
        decreases v.len() - i,
    {
        if f(&v[i]) {
            return Some(i);
        }
        i = i + 1;
    }
    None
}

/// Number of rows of `v` for which `f` holds (`p` is what `f` computes on views).
pub fn count_rows<T: View, F: Fn(&T) -> bool>(v: &Vec<T>, f: F, Ghost(p): Ghost<spec_fn(T::V) -> bool>) -> (n: usize)
    requires
        forall|x: &T| #[trigger] f.requires((x,)),
        forall|x: &T, b: bool| f.ensures((x,), b) ==> b == p(x@),
    ensures
        n == rows(v@).filter(p).len(),
{
    let mut i: usize = 0;
    let mut n: usize = 0;
    while i < v.len()
        invariant
            i <= v@.len(),
            forall|x: &T| #[trigger] f.requires((x,)),
            forall|x: &T, b: bool| f.ensures((x,), b) ==> b == p(x@),
            n == rows(v@).take(i as int).filter(p).len(),
            n <= i,
        decreases v.len() - i,
    {
        proof {
            assert(rows(v@).take(i + 1).drop_last() =~= rows(v@).take(i as int));
            assert(rows(v@).take(i + 1).last() == v@[i as int]@);
            reveal_with_fuel(Seq::filter, 1);
        }
        if f(&v[i]) {
            n = n + 1;
        }
        i = i + 1;
    }
    assert(rows(v@).take(v@.len() as int) =~= rows(v@));
    n
}

} // verus!

verus! {

/// Apply `f` to every row of `v` (`g` is what `f` computes on views).
pub fn map_rows<T: View, F: Fn(T) -> T>(v: &mut Vec<T>, f: F, Ghost(g): Ghost<spec_fn(T::V) -> T::V>)
    requires
        forall|x: T| #[trigger] f.requires((x,)),
        forall|x: T, y: T| f.ensures((x,), y) ==> y@ == g(x@),
    ensures
        rows(final(v)@) == rows(old(v)@).map_values(g),
{
    let mut out: Vec<T> = Vec::new();
    let ghost orig = v@;
    let mut rest: Vec<T> = Vec::new();
    std::mem::swap(&mut rest, v);
    while rest.len() > 0
        invariant
            forall|x: T| #[trigger] f.requires((x,)),
            forall|x: T, y: T| f.ensures((x,), y) ==> y@ == g(x@),
            rest@.len() <= orig.len(),
            rest@ == orig.skip(orig.len() - rest@.len()),
            rows(out@) == rows(orig.take(orig.len() - rest@.len())).map_values(g),
        decreases rest.len(),
    {
        let ghost k = orig.len() - rest@.len();
        let x = rest.remove(0);
        assert(x == orig[k]);
        assert(rest@ == orig.skip(k + 1));
        let ghost prev = out@;
        let y = f(x);
        assert(y@ == g(orig[k]@));
        out.push(y);
        assert(rows(orig.take(k + 1)) =~= rows(orig.take(k)).push(orig[k]@));
        assert(rows(out@) =~= rows(prev).push(y@));
        assert(rows(out@) =~= rows(orig.take(k + 1)).map_values(g));
    }
    assert(orig.take(orig.len() as int) == orig);
    *v = out;
}

pub proof fn lemma_map_unique<V: KeyedView>(s: Seq<V>, g: spec_fn(V) -> V)
    requires
        unique_keys(s),
        forall|x: V| #[trigger] g(x).key() == x.key(),
    ensures
        unique_keys(s.map_values(g)),
        forall|k: Seq<char>| #[trigger] has_key(s.map_values(g), k) == has_key(s, k),
{
    let t = s.map_values(g);
    assert forall|i: int, j: int|
        0 <= i < t.len() && 0 <= j < t.len() && i != j implies #[trigger] t[i].key() != #[trigger] t[j].key() by {
        assert(t[i] == g(s[i]) && t[j] == g(s[j]));
    }
    assert forall|k: Seq<char>| has_key(s, k) implies #[trigger] has_key(t, k) by {
        let i = choose|i: int| 0 <= i < s.len() && #[trigger] s[i].key() == k;
        assert(t[i] == g(s[i]));
        assert(t[i].key() == k);
    }
    assert forall|k: Seq<char>| #[trigger] has_key(t, k) implies has_key(s, k) by {
        let i = choose|i: int| 0 <= i < t.len() && #[trigger] t[i].key() == k;
        assert(t[i] == g(s[i]));
        assert(s[i].key() == k);
    }
}

/// Whether `s` is one of the strings of `v`.
pub fn str_in(v: &Vec<String>, s: &String) -> (r: bool)
    ensures
        r == v@.map_values(|x: String| x@).contains(s@),
{
    let mut i: usize = 0;
    while i < v.len()
        invariant
            i <= v@.len(),
            forall|j: int| 0 <= j < i ==> v@[j]@ != s@,
        decreases v.len() - i,
    {
        if v[i] == *s {
            assert(v@.map_values(|x: String| x@)[i as int] == s@);
            return true;
        }
        i = i + 1;
    }
    proof {
        let w = v@.map_values(|x: String| x@);
        assert forall|j: int| 0 <= j < w.len() implies w[j] != s@ by {
            assert(w[j] == v@[j]@);
        }
    }
    false
}

/// Appending rows whose keys are pairwise distinct and new keeps keys unique.
pub proof fn lemma_append_fresh<V: KeyedView>(s: Seq<V>, t: Seq<V>)
    requires
        unique_keys(s),
        unique_keys(t),
        forall|i: int| 0 <= i < t.len() ==> !has_key(s, #[trigger] t[i].key()),
    ensures
        unique_keys(s + t),
{
    let u = s + t;
    assert forall|i: int, j: int|
        0 <= i < u.len() && 0 <= j < u.len() && i != j implies #[trigger] u[i].key() != #[trigger] u[j].key() by {
        if i < s.len() && j < s.len() {
            assert(u[i] == s[i] && u[j] == s[j]);
        } else if i >= s.len() && j >= s.len() {
            assert(u[i] == t[i - s.len()] && u[j] == t[j - s.len()]);
        } else if i < s.len() {
            assert(u[i] == s[i] && u[j] == t[j - s.len()]);
            assert(!has_key(s, t[j - s.len()].key()));
        } else {
            assert(u[j] == s[j] && u[i] == t[i - s.len()]);
            assert(!has_key(s, t[i - s.len()].key()));
        }
    }
}

/// Primary keys of the rows of `s` that satisfy `p`, in order.
pub open spec fn keys_where<V: KeyedView>(s: Seq<V>, p: spec_fn(V) -> bool) -> Seq<Seq<char>> {
    s.filter(p).map_values(|x: V| x.key())
}

/// Primary keys of the rows of `v` for which `f` holds (`p` is what `f` computes on views).
pub fn collect_keys<T: Row, F: Fn(&T) -> bool>(v: &Vec<T>, f: F, Ghost(p): Ghost<spec_fn(T::V) -> bool>) -> (ids: Vec<String>)
    where T::V: KeyedView,
    requires
        forall|x: &T| #[trigger] f.requires((x,)),
        forall|x: &T, b: bool| f.ensures((x,), b) ==> b == p(x@),
    ensures
        ids@.map_values(|x: String| x@) == keys_where(rows(v@), p),
{
    let mut ids: Vec<String> = Vec::new();
    let mut i: usize = 0;
    while i < v.len()
        invariant
            i <= v@.len(),
            forall|x: &T| #[trigger] f.requires((x,)),
            forall|x: &T, b: bool| f.ensures((x,), b) ==> b == p(x@),
            ids@.map_values(|x: String| x@) == keys_where(rows(v@).take(i as int), p),
        decreases v.len() - i,
    {
        let x = &v[i];
        proof {
            assert(rows(v@).take(i + 1).drop_last() =~= rows(v@).take(i as int));
            assert(rows(v@).take(i + 1).last() == x@);
            reveal_with_fuel(Seq::filter, 1);
        }
        let ghost before = ids@;
        let hit = f(x);
        if hit {
            ids.push(x.key_str().clone());
            assert(ids@.map_values(|x: String| x@) =~= before.map_values(|x: String| x@).push(x@.key()));
        }
        proof {
            assert(keys_where(rows(v@).take(i + 1), p) =~= (if hit {
                keys_where(rows(v@).take(i as int), p).push(x@.key())
            } else {
                keys_where(rows(v@).take(i as int), p)
            }));
        }
        i = i + 1;
    }
    assert(rows(v@).take(v@.len() as int) =~= rows(v@));
    ids
}

/// Removing a key that no row has changes nothing.
pub proof fn lemma_without_absent<V: KeyedView>(s: Seq<V>, k: Seq<char>)
    requires
        !has_key(s, k),
    ensures
        without_key(s, k) == s,
{
    assert forall|j: int| 0 <= j < s.len() implies key_is_not::<V>(k)(#[trigger] s[j]) by {
        if s[j].key() == k {
            assert(has_key(s, k));
        }
    }
    lemma_filter_all(s, key_is_not::<V>(k));
}

} // verus!
