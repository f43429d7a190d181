//! Lists of ids written as a bracketed, comma-separated text, as in
//! `["id1","id2"]`, read leniently: brackets and quotes are stripped, pieces
//! are trimmed, and empty pieces are dropped.

use vstd::prelude::*;
use crate::text::{trim, trim_str, chars_of, to_owned_string};

verus! {

/// Number of leading copies of `c` in `s`.
pub open spec fn leading_char(s: Seq<char>, c: char) -> nat
    decreases s.len(),
{
    if s.len() > 0 && s[0] == c { 1 + leading_char(s.drop_first(), c) } else { 0 }
}

/// Number of trailing copies of `c` in `s`.
pub open spec fn trailing_char(s: Seq<char>, c: char) -> nat
    decreases s.len(),
{
    if s.len() > 0 && s.last() == c { 1 + trailing_char(s.drop_last(), c) } else { 0 }
}

/// `s` without its leading copies of `c` (`str::trim_start_matches`).
pub open spec fn strip_start(s: Seq<char>, c: char) -> Seq<char> {
    s.skip(leading_char(s, c) as int)
}

/// `s` without its trailing copies of `c` (`str::trim_end_matches`).
pub open spec fn strip_end(s: Seq<char>, c: char) -> Seq<char> {
    s.take(s.len() - trailing_char(s, c))
}

/// `s` without leading and trailing copies of `c` (`str::trim_matches`).
pub open spec fn strip_both(s: Seq<char>, c: char) -> Seq<char> {
    strip_end(strip_start(s, c), c)
}

/// The finished pieces and the current piece of `s` split at `sep`.
pub open spec fn split_state(s: Seq<char>, sep: char) -> (Seq<Seq<char>>, Seq<char>)
    decreases s.len(),
{
    if s.len() == 0 {
        (Seq::empty(), Seq::empty())
    } else {
        let (done, cur) = split_state(s.drop_last(), sep);
        if s.last() == sep { (done.push(cur), Seq::empty()) } else { (done, cur.push(s.last())) }
    }
}

/// The pieces of `s` between separators `sep` (`str::split`; an empty text
/// is one empty piece).
pub open spec fn split_at_char(s: Seq<char>, sep: char) -> Seq<Seq<char>> {
    split_state(s, sep).0.push(split_state(s, sep).1)
}

/// A piece cleaned up: trimmed, then stripped of quotes at both ends.
pub open spec fn clean_piece(p: Seq<char>) -> Seq<char> {
    strip_both(trim(p), '"')
}

/// The non-empty cleaned pieces of `pieces`, in order.
pub open spec fn clean_pieces(pieces: Seq<Seq<char>>) -> Seq<Seq<char>>
    decreases pieces.len(),
{
    if pieces.len() == 0 {
        Seq::empty()
    } else {
        let rest = clean_pieces(pieces.drop_last());
        let p = clean_piece(pieces.last());
        if p.len() > 0 { rest.push(p) } else { rest }
    }
}

/// The ids a bracketed list text names.
pub open spec fn id_list(text: Seq<char>) -> Seq<Seq<char>> {
    clean_pieces(split_at_char(strip_end(strip_start(text, '['), ']'), ','))
}

proof fn lemma_leading_char(s: Seq<char>, c: char, i: int)
    requires
        0 <= i <= s.len(),
        forall|j: int| 0 <= j < i ==> #[trigger] s[j] == c,
        i == s.len() || s[i] != c,
    ensures
        leading_char(s, c) == i,
    decreases i,
{
    if i > 0 {
        let t = s.drop_first();
        assert forall|j: int| 0 <= j < i - 1 implies #[trigger] t[j] == c by {
            assert(t[j] == s[j + 1]);
        }
        if i - 1 < t.len() {
            assert(t[i - 1] == s[i]);
        }
        lemma_leading_char(t, c, i - 1);
    }
}

proof fn lemma_trailing_char(s: Seq<char>, c: char, k: int)
    requires
        0 <= k <= s.len(),
        forall|j: int| s.len() - k <= j < s.len() ==> #[trigger] s[j] == c,
        k == s.len() || s[s.len() - k - 1] != c,
    ensures
        trailing_char(s, c) == k,
    decreases k,
{
    if k > 0 {
        let t = s.drop_last();
        assert forall|j: int| t.len() - (k - 1) <= j < t.len() implies #[trigger] t[j] == c by {
            assert(t[j] == s[j]);
        }
        if k - 1 < t.len() {
            assert(t[t.len() - (k - 1) - 1] == s[s.len() - k - 1]);
        }
        lemma_trailing_char(t, c, k - 1);
    }
}

fn leading_count(s: &Vec<char>, c: char) -> (n: usize)
    ensures
        n == leading_char(s@, c),
        n <= s@.len(),
{
    let mut i: usize = 0;
    while i < s.len() && s[i] == c
        invariant
            i <= s@.len(),
            forall|j: int| 0 <= j < i ==> #[trigger] s@[j] == c,
        decreases s.len() - i,
    {
        i = i + 1;
    }
    proof {
        lemma_leading_char(s@, c, i as int);
    }
    i
}

fn trailing_count(s: &Vec<char>, c: char) -> (k: usize)
    ensures
        k == trailing_char(s@, c),
        k <= s@.len(),
{
    let n = s.len();
    let mut k: usize = 0;
    while k < n && s[n - 1 - k] == c
        invariant
            k <= n,
            n == s@.len(),
            forall|j: int| n - k <= j < n ==> #[trigger] s@[j] == c,
        decreases n - k,
    {
        k = k + 1;
    }
    proof {
        lemma_trailing_char(s@, c, k as int);
    }
    k
}

/// `s` without leading and trailing copies of `c`.
pub fn strip_both_str(s: &str, c: char) -> (r: &str)
    ensures
        r@ == strip_both(s@, c),
{
    let cs = chars_of(s);
    let a = leading_count(&cs, c);
    let front = s.substring_char(a, cs.len());
    assert(front@ =~= strip_start(s@, c));
    let fc = chars_of(front);
    let b = trailing_count(&fc, c);
    let r = front.substring_char(0, fc.len() - b);
    assert(r@ =~= strip_end(front@, c));
    r
}

/// `s` without leading copies of `open` and then trailing copies of `close`.
pub fn strip_brackets(s: &str, open: char, close: char) -> (r: &str)
    ensures
        r@ == strip_end(strip_start(s@, open), close),
{
    let cs = chars_of(s);
    let a = leading_count(&cs, open);
    let front = s.substring_char(a, cs.len());
    assert(front@ =~= strip_start(s@, open));
    let fc = chars_of(front);
    let b = trailing_count(&fc, close);
    let r = front.substring_char(0, fc.len() - b);
    assert(r@ =~= strip_end(front@, close));
    r
}

/// The pieces of `s` between separators `sep`.
pub fn split_str<'a>(s: &'a str, sep: char) -> (r: Vec<&'a str>)
    ensures
        r@.map_values(|p: &str| p@) == split_at_char(s@, sep),
{
    let cs = chars_of(s);
    let mut done: Vec<&'a str> = Vec::new();
    let mut start: usize = 0;
    let mut i: usize = 0;
    while i < cs.len()
        invariant
            cs@ == s@,
            start <= i <= cs@.len(),
            done@.map_values(|p: &str| p@) == split_state(s@.take(i as int), sep).0,
            s@.subrange(start as int, i as int) == split_state(s@.take(i as int), sep).1,
        decreases cs.len() - i,
    {
        proof {
            assert(s@.take(i + 1).drop_last() =~= s@.take(i as int));
            assert(s@.take(i + 1).last() == s@[i as int]);
        }
        let ghost before = done@;
        if cs[i] == sep {
            let piece = s.substring_char(start, i);
            done.push(piece);
            assert(done@.map_values(|p: &str| p@) =~= before.map_values(|p: &str| p@).push(piece@));
            start = i + 1;
            assert(s@.subrange(start as int, (i + 1) as int) =~= Seq::<char>::empty());
        } else {
            assert(s@.subrange(start as int, (i + 1) as int) =~= s@.subrange(start as int, i as int).push(s@[i as int]));
        }
        i = i + 1;
    }
    assert(s@.take(cs@.len() as int) =~= s@);
    let last = s.substring_char(start, cs.len());
    let ghost before = done@;
    done.push(last);
    assert(done@.map_values(|p: &str| p@) =~= before.map_values(|p: &str| p@).push(last@));
    done
}

/// The ids a bracketed list text names (see [`id_list`]).
pub fn parse_id_list(text: &str) -> (ids: Vec<String>)
    ensures
        ids@.map_values(|s: String| s@) == id_list(text@),
{
    let body = strip_brackets(text, '[', ']');
    let pieces = split_str(body, ',');
    let ghost pv = pieces@.map_values(|p: &str| p@);
    let mut ids: Vec<String> = Vec::new();
    let mut i: usize = 0;
    while i < pieces.len()
        invariant
            i <= pieces@.len(),
            pv == pieces@.map_values(|p: &str| p@),
            ids@.map_values(|s: String| s@) == clean_pieces(pv.take(i as int)),
        decreases pieces.len() - i,
    {
        proof {
            assert(pv.take(i + 1).drop_last() =~= pv.take(i as int));
            assert(pv.take(i + 1).last() == pieces@[i as int]@);
        }
        let t = trim_str(pieces[i]);
        let v = strip_both_str(t, '"');
        let ghost before = ids@;
        if v.unicode_len() > 0 {
            ids.push(to_owned_string(v));
            assert(ids@.map_values(|s: String| s@) =~= before.map_values(|s: String| s@).push(v@));
        }
        i = i + 1;
    }
    assert(pv.take(pv.len() as int) =~= pv);
    ids
}

/// The pieces of `p` at odd positions below `k`: with `p` the text split at
/// double quotes, these are the texts between an opening and a closing quote.
pub open spec fn odd_items(p: Seq<Seq<char>>, k: nat) -> Seq<Seq<char>>
    decreases k,
{
    if k == 0 {
        Seq::empty()
    } else {
        let rest = odd_items(p, (k - 1) as nat);
        if (k - 1) % 2 == 1 { rest.push(p[k - 1]) } else { rest }
    }
}

/// The strings of a JSON array of strings, as `["a","b"]`, in order: each
/// text enclosed by a pair of double quotes (a quote left open at the end
/// encloses nothing). Ids carry no escape sequences, so none are decoded.
pub open spec fn string_array_items(text: Seq<char>) -> Seq<Seq<char>> {
    let p = split_at_char(text, '"');
    odd_items(p, (p.len() - 1) as nat)
}

/// The strings of a JSON array of strings (see [`string_array_items`]).
pub fn json_string_array(text: &str) -> (ids: Vec<String>)
    ensures
        ids@.map_values(|s: String| s@) == string_array_items(text@),
{
    let pieces = split_str(text, '"');
    let ghost pv = pieces@.map_values(|p: &str| p@);
    assert(pv.len() >= 1);
    let n = pieces.len() - 1;
    let mut ids: Vec<String> = Vec::new();
    let mut i: usize = 0;
    while i < n
        invariant
            n + 1 == pieces@.len(),
            pv == pieces@.map_values(|p: &str| p@),
            i <= n,
            ids@.map_values(|s: String| s@) == odd_items(pv, i as nat),
        decreases n - i,
    {
        let ghost before = ids@;
        if i % 2 == 1 {
            ids.push(to_owned_string(pieces[i]));
            assert(ids@.map_values(|s: String| s@) =~= before.map_values(|s: String| s@).push(pv[i as int]));
        }
        i = i + 1;
    }
    ids
}

} // verus!
