//! Locating one map object's coordinates in the map-object list
//! (`/map_obj.json`).
//!
//! An object is found by the pattern
//! `\{[^{}]*K1\s*:\s*V1[^{}]*,[^{}]*K2\s*:\s*(N),[^{}]*K3\s*:\s*(N)[^{}]*\}`
//! where `N` is `-?\d+(\.\d+)?` and `\s` the six ASCII whitespace characters.
//! Matches are taken from left to right without overlap; within a match each
//! `[^{}]*` is greedy: of all the ways to match, the one that takes the
//! farthest `K1`, then the farthest `,`, then the farthest `K2`, then the
//! farthest `K3` is chosen.  All positions are character positions.
use vstd::prelude::*;
use crate::number::{parse_i32_spec, parse_i32};
use crate::text::{
    char_pos_from, either_pos_from, lemma_char_pos_bounds, lemma_either_pos_bounds, occurs_at,
    occurs_at_exec, scan_to, scan_to_either, string_from_chars, sub_chars, to_chars,
};

verus! {

/// Whitespace of the pattern (`\s`): space, tab, line feed, vertical tab,
/// form feed, carriage return.
pub open spec fn pattern_ws(c: char) -> bool {
    c == ' ' || c == '\t' || c == '\n' || c == '\x0B' || c == '\x0C' || c == '\r'
}

/// The first index `>= p` that is not whitespace (`p` itself from the end on).
pub open spec fn skip_ws(t: Seq<char>, p: int) -> int
    decreases t.len() - p,
{
    if p < 0 || p >= t.len() || !pattern_ws(t[p]) {
        p
    } else {
        skip_ws(t, p + 1)
    }
}

pub open spec fn ascii_digit(c: char) -> bool {
    '0' <= c && c <= '9'
}

/// The first index `>= p` that is not a digit (`p` itself from the end on).
pub open spec fn digits_end(t: Seq<char>, p: int) -> int
    decreases t.len() - p,
{
    if p < 0 || p >= t.len() || !ascii_digit(t[p]) {
        p
    } else {
        digits_end(t, p + 1)
    }
}

/// The end of the number `-?\d+(\.\d+)?` that starts at `pos`, taking the
/// fraction when digits follow the point; `None` when no number starts there.
pub open spec fn number_end(t: Seq<char>, pos: int) -> Option<int> {
    let p = if 0 <= pos < t.len() && t[pos] == '-' {
        pos + 1
    } else {
        pos
    };
    let d = digits_end(t, p);
    if d == p {
        None
    } else if d + 1 < t.len() && t[d] == '.' && digits_end(t, d + 1) > d + 1 {
        Some(digits_end(t, d + 1))
    } else {
        Some(d)
    }
}

/// End of the brace-free stretch from `from` (`[^{}]*`): the first `{` or `}`
/// at or after `from`, or the length.
pub open spec fn brace_free_end(t: Seq<char>, from: int) -> int {
    either_pos_from(t, '{', '}', from)
}

/// `key\s*:\s*N` at `at`: the start and end of the number.
pub open spec fn key_number(t: Seq<char>, at: int, key: Seq<char>) -> Option<(int, int)> {
    if occurs_at(t, key, at) {
        let c = skip_ws(t, at + key.len());
        if 0 <= c < t.len() && t[c] == ':' {
            let s = skip_ws(t, c + 1);
            match number_end(t, s) {
                Some(e) => Some((s, e)),
                None => None,
            }
        } else {
            None
        }
    } else {
        None
    }
}

/// `key\s*:\s*val` at `at`: the end of `val`.
pub open spec fn key_value_end(t: Seq<char>, at: int, key: Seq<char>, val: Seq<char>) -> Option<int> {
    if occurs_at(t, key, at) {
        let c = skip_ws(t, at + key.len());
        if 0 <= c < t.len() && t[c] == ':' {
            let s = skip_ws(t, c + 1);
            if occurs_at(t, val, s) {
                Some(s + val.len())
            } else {
                None
            }
        } else {
            None
        }
    } else {
        None
    }
}

/// The largest `k` in `lo..=hi` for which `ok(k)` holds.
pub open spec fn last_ok(lo: int, hi: int, ok: spec_fn(int) -> bool) -> Option<int>
    decreases hi - lo + 1,
{
    if hi < lo {
        None
    } else if ok(hi) {
        Some(hi)
    } else {
        last_ok(lo, hi - 1, ok)
    }
}

/// `K3\s*:\s*(N)[^{}]*\}` matches at `k`.
pub open spec fn tail_ok(t: Seq<char>, key3: Seq<char>, k: int) -> bool {
    match key_number(t, k, key3) {
        Some((s, e)) => {
            let x = brace_free_end(t, e);
            x < t.len() && t[x] == '}'
        },
        None => false,
    }
}

/// [`tail_ok`] as a predicate on positions.
pub open spec fn tail_pred(t: Seq<char>, key3: Seq<char>) -> spec_fn(int) -> bool {
    |k: int| tail_ok(t, key3, k)
}

/// Where the farthest `K3` of the match lies, for the stretch starting at `from`.
pub open spec fn best_tail(t: Seq<char>, key3: Seq<char>, from: int) -> Option<int> {
    last_ok(from, brace_free_end(t, from), tail_pred(t, key3))
}

/// `K2\s*:\s*(N),[^{}]*` followed by a matching tail, at `k`.
pub open spec fn second_ok(t: Seq<char>, key2: Seq<char>, key3: Seq<char>, k: int) -> bool {
    match key_number(t, k, key2) {
        Some((s, e)) => 0 <= e < t.len() && t[e] == ',' && best_tail(t, key3, e + 1) is Some,
        None => false,
    }
}

/// [`second_ok`] as a predicate on positions.
pub open spec fn second_pred(t: Seq<char>, key2: Seq<char>, key3: Seq<char>) -> spec_fn(int) -> bool {
    |k: int| second_ok(t, key2, key3, k)
}

/// Where the farthest `K2` of the match lies, for the stretch starting at `from`.
pub open spec fn best_second(t: Seq<char>, key2: Seq<char>, key3: Seq<char>, from: int) -> Option<
    int,
> {
    last_ok(from, brace_free_end(t, from), second_pred(t, key2, key3))
}

/// The `,` at `k` is followed by a matching rest.
pub open spec fn comma_ok(t: Seq<char>, key2: Seq<char>, key3: Seq<char>, k: int) -> bool {
    &&& 0 <= k < t.len()
    &&& t[k] == ','
    &&& best_second(t, key2, key3, k + 1) is Some
}

/// [`comma_ok`] as a predicate on positions.
pub open spec fn comma_pred(t: Seq<char>, key2: Seq<char>, key3: Seq<char>) -> spec_fn(int) -> bool {
    |k: int| comma_ok(t, key2, key3, k)
}

/// Where the farthest `,` of the match lies, for the stretch starting at `from`.
pub open spec fn best_comma(t: Seq<char>, key2: Seq<char>, key3: Seq<char>, from: int) -> Option<
    int,
> {
    last_ok(from, brace_free_end(t, from), comma_pred(t, key2, key3))
}

/// `K1\s*:\s*V1` at `k`, followed by a matching rest.
pub open spec fn first_ok(
    t: Seq<char>,
    key1: Seq<char>,
    val1: Seq<char>,
    key2: Seq<char>,
    key3: Seq<char>,
    k: int,
) -> bool {
    match key_value_end(t, k, key1, val1) {
        Some(p) => best_comma(t, key2, key3, p) is Some,
        None => false,
    }
}

/// [`first_ok`] as a predicate on positions.
pub open spec fn first_pred(
    t: Seq<char>,
    key1: Seq<char>,
    val1: Seq<char>,
    key2: Seq<char>,
    key3: Seq<char>,
) -> spec_fn(int) -> bool {
    |k: int| first_ok(t, key1, val1, key2, key3, k)
}

/// The match that starts at the `{` at `start`: the index just after its `}`,
/// and the start and end of its two numbers.
pub open spec fn match_at(
    t: Seq<char>,
    key1: Seq<char>,
    val1: Seq<char>,
    key2: Seq<char>,
    key3: Seq<char>,
    start: int,
) -> Option<(int, (int, int), (int, int))> {
    match last_ok(start + 1, brace_free_end(t, start + 1), first_pred(t, key1, val1, key2, key3)) {
        Some(k1) => {
            let p = key_value_end(t, k1, key1, val1)->0;
            let c = best_comma(t, key2, key3, p)->0;
            let k2 = best_second(t, key2, key3, c + 1)->0;
            let g1 = key_number(t, k2, key2)->0;
            let k3 = best_tail(t, key3, g1.1 + 1)->0;
            let g3 = key_number(t, k3, key3)->0;
            Some((brace_free_end(t, g3.1) + 1, g1, g3))
        },
        None => None,
    }
}

proof fn lemma_skip_ws(t: Seq<char>, p: int)
    requires
        0 <= p,
    ensures
        p <= skip_ws(t, p),
        p <= t.len() ==> skip_ws(t, p) <= t.len(),
    decreases t.len() - p,
{
    if p < t.len() && pattern_ws(t[p]) {
        lemma_skip_ws(t, p + 1);
    }
}

proof fn lemma_digits_end(t: Seq<char>, p: int)
    requires
        0 <= p,
    ensures
        p <= digits_end(t, p),
        p <= t.len() ==> digits_end(t, p) <= t.len(),
    decreases t.len() - p,
{
    if p < t.len() && ascii_digit(t[p]) {
        lemma_digits_end(t, p + 1);
    }
}

proof fn lemma_number_end(t: Seq<char>, pos: int)
    requires
        0 <= pos <= t.len(),
    ensures
        number_end(t, pos) matches Some(e) ==> pos < e <= t.len(),
{
    let p = if 0 <= pos < t.len() && t[pos] == '-' {
        pos + 1
    } else {
        pos
    };
    lemma_digits_end(t, p);
    let d = digits_end(t, p);
    if d + 1 < t.len() {
        lemma_digits_end(t, d + 1);
    }
}

proof fn lemma_key_number(t: Seq<char>, at: int, key: Seq<char>)
    requires
        0 <= at,
    ensures
        key_number(t, at, key) matches Some((s, e)) ==> at <= s < e <= t.len(),
{
    if occurs_at(t, key, at) {
        lemma_skip_ws(t, at + key.len());
        let c = skip_ws(t, at + key.len());
        if 0 <= c < t.len() && t[c] == ':' {
            lemma_skip_ws(t, c + 1);
            lemma_number_end(t, skip_ws(t, c + 1));
        }
    }
}

proof fn lemma_key_value_end(t: Seq<char>, at: int, key: Seq<char>, val: Seq<char>)
    requires
        0 <= at,
    ensures
        key_value_end(t, at, key, val) matches Some(p) ==> at <= p <= t.len(),
{
    if occurs_at(t, key, at) {
        lemma_skip_ws(t, at + key.len());
        let c = skip_ws(t, at + key.len());
        if 0 <= c < t.len() && t[c] == ':' {
            lemma_skip_ws(t, c + 1);
        }
    }
}

proof fn lemma_last_ok(lo: int, hi: int, ok: spec_fn(int) -> bool)
    ensures
        last_ok(lo, hi, ok) matches Some(k) ==> lo <= k <= hi && ok(k),
        last_ok(lo, hi, ok) is None ==> forall|k: int| lo <= k <= hi ==> !#[trigger] ok(k),
    decreases hi - lo + 1,
{
    if hi >= lo && !ok(hi) {
        lemma_last_ok(lo, hi - 1, ok);
    }
}

/// A match ends after the `{` it starts at.
pub proof fn lemma_match_end(
    t: Seq<char>,
    key1: Seq<char>,
    val1: Seq<char>,
    key2: Seq<char>,
    key3: Seq<char>,
    start: int,
)
    requires
        0 <= start < t.len(),
    ensures
        match_at(t, key1, val1, key2, key3, start) matches Some((end, g1, g3)) ==> {
            &&& start + 1 < end <= t.len()
            &&& start < g1.0 < g1.1 <= t.len()
            &&& start < g3.0 < g3.1 <= t.len()
        },
{
    let ok1 = first_pred(t, key1, val1, key2, key3);
    let e1 = brace_free_end(t, start + 1);
    lemma_last_ok(start + 1, e1, ok1);
    if let Some(k1) = last_ok(start + 1, e1, ok1) {
        assert(ok1(k1));
        lemma_key_value_end(t, k1, key1, val1);
        let p = key_value_end(t, k1, key1, val1)->0;
        let ok2 = comma_pred(t, key2, key3);
        lemma_last_ok(p, brace_free_end(t, p), ok2);
        let c = best_comma(t, key2, key3, p)->0;
        assert(ok2(c));
        let ok3 = second_pred(t, key2, key3);
        lemma_last_ok(c + 1, brace_free_end(t, c + 1), ok3);
        let k2 = best_second(t, key2, key3, c + 1)->0;
        assert(ok3(k2));
        lemma_key_number(t, k2, key2);
        let g1 = key_number(t, k2, key2)->0;
        let ok4 = tail_pred(t, key3);
        lemma_last_ok(g1.1 + 1, brace_free_end(t, g1.1 + 1), ok4);
        let k3 = best_tail(t, key3, g1.1 + 1)->0;
        assert(ok4(k3));
        lemma_key_number(t, k3, key3);
        let g3 = key_number(t, k3, key3)->0;
        lemma_either_pos_bounds(t, '{', '}', g3.1);
    }
}

/// A whole number text `-?\d+(\.\d+)?`.
pub open spec fn number_text(s: Seq<char>) -> bool {
    number_end(s, 0) == Some(s.len() as int)
}

proof fn lemma_digits_end_sub(t: Seq<char>, a: int, b: int, p: int)
    requires
        0 <= a <= p <= b <= t.len(),
        digits_end(t, p) <= b,
    ensures
        digits_end(t.subrange(a, b), p - a) == digits_end(t, p) - a,
    decreases t.len() - p,
{
    let sub = t.subrange(a, b);
    if p < t.len() && ascii_digit(t[p]) {
        lemma_digits_end(t, p + 1);
        assert(p < b);
        assert(sub[p - a] == t[p]);
        lemma_digits_end_sub(t, a, b, p + 1);
    } else if p < b {
        assert(sub[p - a] == t[p]);
    }
}

proof fn lemma_number_text_sub(t: Seq<char>, pos: int, e: int)
    requires
        0 <= pos <= t.len(),
        number_end(t, pos) == Some(e),
    ensures
        number_text(t.subrange(pos, e)),
{
    lemma_number_end(t, pos);
    let sub = t.subrange(pos, e);
    let p = if 0 <= pos < t.len() && t[pos] == '-' {
        pos + 1
    } else {
        pos
    };
    lemma_digits_end(t, p);
    let d = digits_end(t, p);
    if pos < t.len() && pos < e {
        assert(sub[0] == t[pos]);
    }
    if d + 1 < t.len() && t[d] == '.' && digits_end(t, d + 1) > d + 1 {
        lemma_digits_end(t, d + 1);
        lemma_digits_end_sub(t, pos, e, p);
        lemma_digits_end_sub(t, pos, e, d + 1);
        assert(sub[d - pos] == t[d]);
    } else {
        lemma_digits_end_sub(t, pos, e, p);
    }
}

proof fn lemma_match_numbers(
    t: Seq<char>,
    key1: Seq<char>,
    val1: Seq<char>,
    key2: Seq<char>,
    key3: Seq<char>,
    start: int,
)
    requires
        0 <= start < t.len(),
        match_at(t, key1, val1, key2, key3, start) is Some,
    ensures
        ({
            let (end, g1, g3) = match_at(t, key1, val1, key2, key3, start)->0;
            number_text(t.subrange(g1.0, g1.1)) && number_text(t.subrange(g3.0, g3.1))
        }),
{
    let ok1 = first_pred(t, key1, val1, key2, key3);
    let e1 = brace_free_end(t, start + 1);
    lemma_last_ok(start + 1, e1, ok1);
    let k1 = last_ok(start + 1, e1, ok1)->0;
    assert(ok1(k1));
    lemma_key_value_end(t, k1, key1, val1);
    let p = key_value_end(t, k1, key1, val1)->0;
    let ok2 = comma_pred(t, key2, key3);
    lemma_last_ok(p, brace_free_end(t, p), ok2);
    let c = best_comma(t, key2, key3, p)->0;
    assert(ok2(c));
    let ok3 = second_pred(t, key2, key3);
    lemma_last_ok(c + 1, brace_free_end(t, c + 1), ok3);
    let k2 = best_second(t, key2, key3, c + 1)->0;
    assert(ok3(k2));
    lemma_key_number(t, k2, key2);
    let g1 = key_number(t, k2, key2)->0;
    lemma_number_text_sub(t, g1.0, g1.1);
    let ok4 = tail_pred(t, key3);
    lemma_last_ok(g1.1 + 1, brace_free_end(t, g1.1 + 1), ok4);
    let k3 = best_tail(t, key3, g1.1 + 1)->0;
    assert(ok4(k3));
    lemma_key_number(t, k3, key3);
    let g3 = key_number(t, k3, key3)->0;
    lemma_number_text_sub(t, g3.0, g3.1);
}

proof fn lemma_pairs_are_numbers(
    t: Seq<char>,
    key1: Seq<char>,
    val1: Seq<char>,
    key2: Seq<char>,
    key3: Seq<char>,
    start: nat,
)
    ensures
        forall|i: int|
            #![trigger pairs_from(t, key1, val1, key2, key3, start)[i]]
            0 <= i < pairs_from(t, key1, val1, key2, key3, start).len() ==> number_text(
                pairs_from(t, key1, val1, key2, key3, start)[i].0,
            ) && number_text(pairs_from(t, key1, val1, key2, key3, start)[i].1),
    decreases t.len() - start,
{
    if start < t.len() {
        if t[start as int] == '{' && match_at(t, key1, val1, key2, key3, start as int) is Some {
            let (end, g1, g3) = match_at(t, key1, val1, key2, key3, start as int)->0;
            lemma_match_end(t, key1, val1, key2, key3, start as int);
            lemma_match_numbers(t, key1, val1, key2, key3, start as int);
            lemma_pairs_are_numbers(t, key1, val1, key2, key3, end as nat);
            let rest = pairs_from(t, key1, val1, key2, key3, end as nat);
            let all = pairs_from(t, key1, val1, key2, key3, start);
            assert(all == seq![(t.subrange(g1.0, g1.1), t.subrange(g3.0, g3.1))] + rest);
            assert forall|i: int| 0 <= i < all.len() implies number_text(#[trigger] all[i].0)
                && number_text(all[i].1) by {
                if i > 0 {
                    assert(all[i] == rest[i - 1]);
                }
            }
        } else {
            lemma_pairs_are_numbers(t, key1, val1, key2, key3, start + 1);
            assert(pairs_from(t, key1, val1, key2, key3, start) == pairs_from(
                t,
                key1,
                val1,
                key2,
                key3,
                start + 1,
            ));
        }
    }
}

/// Every text [`find_pairs`] gives is a whole number `-?\d+(\.\d+)?`, so that
/// reading it as a number cannot fail.
pub proof fn law_pairs_are_numbers(
    t: Seq<char>,
    key1: Seq<char>,
    val1: Seq<char>,
    key2: Seq<char>,
    key3: Seq<char>,
    i: int,
)
    requires
        0 <= i < pairs_from(t, key1, val1, key2, key3, 0).len(),
    ensures
        number_text(pairs_from(t, key1, val1, key2, key3, 0)[i].0),
        number_text(pairs_from(t, key1, val1, key2, key3, 0)[i].1),
{
    lemma_pairs_are_numbers(t, key1, val1, key2, key3, 0);
}

/// The pairs of numbers of the matches from `start` on, left to right
/// without overlap.
pub open spec fn pairs_from(
    t: Seq<char>,
    key1: Seq<char>,
    val1: Seq<char>,
    key2: Seq<char>,
    key3: Seq<char>,
    start: nat,
) -> Seq<(Seq<char>, Seq<char>)>
    decreases t.len() - start,
{
    if start >= t.len() {
        Seq::empty()
    } else if t[start as int] == '{' && match_at(t, key1, val1, key2, key3, start as int) is Some {
        let (end, g1, g3) = match_at(t, key1, val1, key2, key3, start as int)->0;
        proof {
            lemma_match_end(t, key1, val1, key2, key3, start as int);
        }
        seq![(t.subrange(g1.0, g1.1), t.subrange(g3.0, g3.1))] + pairs_from(
            t,
            key1,
            val1,
            key2,
            key3,
            end as nat,
        )
    } else {
        pairs_from(t, key1, val1, key2, key3, start + 1)
    }
}

/// The optional index as an integer.
pub open spec fn opt_index(o: Option<usize>) -> Option<int> {
    match o {
        Some(i) => Some(i as int),
        None => None,
    }
}

/// The texts of a list of pairs.
pub open spec fn pairs_view(v: Seq<(String, String)>) -> Seq<(Seq<char>, Seq<char>)> {
    v.map_values(|p: (String, String)| (p.0@, p.1@))
}

fn is_pattern_ws(c: char) -> (r: bool)
    ensures
        r == pattern_ws(c),
{
    c == ' ' || c == '\t' || c == '\n' || c == '\x0B' || c == '\x0C' || c == '\r'
}

fn skip_ws_exec(t: &Vec<char>, p: usize) -> (r: usize)
    requires
        p <= t.len(),
    ensures
        r as int == skip_ws(t@, p as int),
        p <= r <= t.len(),
{
    let mut i = p;
    while i < t.len() && is_pattern_ws(t[i])
        invariant
            p <= i <= t.len(),
            skip_ws(t@, p as int) == skip_ws(t@, i as int),
        decreases t.len() - i,
    {
        i += 1;
    }
    i
}

fn digits_end_exec(t: &Vec<char>, p: usize) -> (r: usize)
    requires
        p <= t.len(),
    ensures
        r as int == digits_end(t@, p as int),
        p <= r <= t.len(),
{
    let mut i = p;
    while i < t.len() && '0' <= t[i] && t[i] <= '9'
        invariant
            p <= i <= t.len(),
            digits_end(t@, p as int) == digits_end(t@, i as int),
        decreases t.len() - i,
    {
        i += 1;
    }
    i
}

fn number_end_exec(t: &Vec<char>, pos: usize) -> (r: Option<usize>)
    requires
        pos <= t.len(),
    ensures
        opt_index(r) == number_end(t@, pos as int),
        r matches Some(e) ==> e <= t.len(),
{
    let p = if pos < t.len() && t[pos] == '-' {
        pos + 1
    } else {
        pos
    };
    let d = digits_end_exec(t, p);
    if d == p {
        None
    } else if d < t.len() && d + 1 < t.len() && t[d] == '.' {
        let f = digits_end_exec(t, d + 1);
        if f > d + 1 {
            Some(f)
        } else {
            Some(d)
        }
    } else {
        Some(d)
    }
}

fn key_number_exec(t: &Vec<char>, at: usize, key: &Vec<char>) -> (r: Option<(usize, usize)>)
    requires
        at <= t.len(),
    ensures
        match r {
            Some((s, e)) => key_number(t@, at as int, key@) == Some((s as int, e as int)),
            None => key_number(t@, at as int, key@) is None,
        },
        r matches Some((s, e)) ==> at <= s < e <= t.len(),
{
    proof {
        lemma_key_number(t@, at as int, key@);
    }
    if !occurs_at_exec(t, key, at) {
        return None;
    }
    let c = skip_ws_exec(t, at + key.len());
    if c < t.len() && t[c] == ':' {
        let s = skip_ws_exec(t, c + 1);
        match number_end_exec(t, s) {
            Some(e) => Some((s, e)),
            None => None,
        }
    } else {
        None
    }
}

fn key_value_end_exec(t: &Vec<char>, at: usize, key: &Vec<char>, val: &Vec<char>) -> (r: Option<
    usize,
>)
    requires
        at <= t.len(),
    ensures
        opt_index(r) == key_value_end(t@, at as int, key@, val@),
        r matches Some(p) ==> at <= p <= t.len(),
{
    proof {
        lemma_key_value_end(t@, at as int, key@, val@);
    }
    if !occurs_at_exec(t, key, at) {
        return None;
    }
    let c = skip_ws_exec(t, at + key.len());
    if c < t.len() && t[c] == ':' {
        let s = skip_ws_exec(t, c + 1);
        if occurs_at_exec(t, val, s) {
            Some(s + val.len())
        } else {
            None
        }
    } else {
        None
    }
}

fn tail_ok_exec(t: &Vec<char>, key3: &Vec<char>, k: usize) -> (r: bool)
    requires
        k <= t.len(),
    ensures
        r == tail_ok(t@, key3@, k as int),
{
    match key_number_exec(t, k, key3) {
        Some((_s, e)) => {
            let x = scan_to_either(t, '{', '}', e);
            x < t.len() && t[x] == '}'
        },
        None => false,
    }
}

fn best_tail_exec(t: &Vec<char>, key3: &Vec<char>, from: usize) -> (r: Option<usize>)
    requires
        from <= t.len(),
    ensures
        opt_index(r) == best_tail(t@, key3@, from as int),
{
    let ghost ok = tail_pred(t@, key3@);
    let hi = scan_to_either(t, '{', '}', from);
    let mut k = hi;
    loop
        invariant
            ok == tail_pred(t@, key3@),
            from <= k <= hi <= t.len(),
            best_tail(t@, key3@, from as int) == last_ok(from as int, k as int, ok),
        decreases k,
    {
        if tail_ok_exec(t, key3, k) {
            return Some(k);
        }
        if k == from {
            assert(last_ok(from as int, from - 1, ok) is None);
            return None;
        }
        k -= 1;
    }
}

fn second_ok_exec(t: &Vec<char>, key2: &Vec<char>, key3: &Vec<char>, k: usize) -> (r: bool)
    requires
        k <= t.len(),
    ensures
        r == second_ok(t@, key2@, key3@, k as int),
{
    match key_number_exec(t, k, key2) {
        Some((_s, e)) => e < t.len() && t[e] == ',' && best_tail_exec(t, key3, e + 1).is_some(),
        None => false,
    }
}

fn best_second_exec(t: &Vec<char>, key2: &Vec<char>, key3: &Vec<char>, from: usize) -> (r: Option<
    usize,
>)
    requires
        from <= t.len(),
    ensures
        opt_index(r) == best_second(t@, key2@, key3@, from as int),
{
    let ghost ok = second_pred(t@, key2@, key3@);
    let hi = scan_to_either(t, '{', '}', from);
    let mut k = hi;
    loop
        invariant
            ok == second_pred(t@, key2@, key3@),
            from <= k <= hi <= t.len(),
            best_second(t@, key2@, key3@, from as int) == last_ok(from as int, k as int, ok),
        decreases k,
    {
        if second_ok_exec(t, key2, key3, k) {
            return Some(k);
        }
        if k == from {
            assert(last_ok(from as int, from - 1, ok) is None);
            return None;
        }
        k -= 1;
    }
}

fn comma_ok_exec(t: &Vec<char>, key2: &Vec<char>, key3: &Vec<char>, k: usize) -> (r: bool)
    requires
        k <= t.len(),
    ensures
        r == comma_ok(t@, key2@, key3@, k as int),
{
    k < t.len() && t[k] == ',' && best_second_exec(t, key2, key3, k + 1).is_some()
}

fn best_comma_exec(t: &Vec<char>, key2: &Vec<char>, key3: &Vec<char>, from: usize) -> (r: Option<
    usize,
>)
    requires
        from <= t.len(),
    ensures
        opt_index(r) == best_comma(t@, key2@, key3@, from as int),
{
    let ghost ok = comma_pred(t@, key2@, key3@);
    let hi = scan_to_either(t, '{', '}', from);
    let mut k = hi;
    loop
        invariant
            ok == comma_pred(t@, key2@, key3@),
            from <= k <= hi <= t.len(),
            best_comma(t@, key2@, key3@, from as int) == last_ok(from as int, k as int, ok),
        decreases k,
    {
        if comma_ok_exec(t, key2, key3, k) {
            return Some(k);
        }
        if k == from {
            assert(last_ok(from as int, from - 1, ok) is None);
            return None;
        }
        k -= 1;
    }
}

fn first_ok_exec(
    t: &Vec<char>,
    key1: &Vec<char>,
    val1: &Vec<char>,
    key2: &Vec<char>,
    key3: &Vec<char>,
    k: usize,
) -> (r: bool)
    requires
        k <= t.len(),
    ensures
        r == first_ok(t@, key1@, val1@, key2@, key3@, k as int),
{
    match key_value_end_exec(t, k, key1, val1) {
        Some(p) => best_comma_exec(t, key2, key3, p).is_some(),
        None => false,
    }
}

fn best_first_exec(
    t: &Vec<char>,
    key1: &Vec<char>,
    val1: &Vec<char>,
    key2: &Vec<char>,
    key3: &Vec<char>,
    from: usize,
) -> (r: Option<usize>)
    requires
        from <= t.len(),
    ensures
        opt_index(r) == last_ok(
            from as int,
            brace_free_end(t@, from as int),
            first_pred(t@, key1@, val1@, key2@, key3@),
        ),
{
    let ghost ok = first_pred(t@, key1@, val1@, key2@, key3@);
    let hi = scan_to_either(t, '{', '}', from);
    let mut k = hi;
    loop
        invariant
            ok == first_pred(t@, key1@, val1@, key2@, key3@),
            from <= k <= hi <= t.len(),
            hi as int == brace_free_end(t@, from as int),
            last_ok(from as int, hi as int, ok) == last_ok(from as int, k as int, ok),
        decreases k,
    {
        if first_ok_exec(t, key1, val1, key2, key3, k) {
            return Some(k);
        }
        if k == from {
            assert(last_ok(from as int, from - 1, ok) is None);
            return None;
        }
        k -= 1;
    }
}

/// The match that starts at the `{` at `start` (see [`match_at`]).
fn match_at_exec(
    t: &Vec<char>,
    key1: &Vec<char>,
    val1: &Vec<char>,
    key2: &Vec<char>,
    key3: &Vec<char>,
    start: usize,
) -> (r: Option<(usize, (usize, usize), (usize, usize))>)
    requires
        start < t.len(),
    ensures
        match r {
            Some((end, g1, g3)) => match_at(t@, key1@, val1@, key2@, key3@, start as int) == Some(
                (end as int, (g1.0 as int, g1.1 as int), (g3.0 as int, g3.1 as int)),
            ),
            None => match_at(t@, key1@, val1@, key2@, key3@, start as int) is None,
        },
{
    let ghost ok = first_pred(t@, key1@, val1@, key2@, key3@);
    let hi = scan_to_either(t, '{', '}', start + 1);
    let k1 = best_first_exec(t, key1, val1, key2, key3, start + 1);
    match k1 {
        None => None,
        Some(k1) => {
            proof {
                lemma_last_ok(start + 1, hi as int, ok);
            }
            assert(ok(k1 as int));
            let p = key_value_end_exec(t, k1, key1, val1).unwrap();
            let c = best_comma_exec(t, key2, key3, p).unwrap();
            proof {
                lemma_last_ok(p as int, brace_free_end(t@, p as int), comma_pred(t@, key2@, key3@));
            }
            let k2 = best_second_exec(t, key2, key3, c + 1).unwrap();
            proof {
                lemma_last_ok(c + 1, brace_free_end(t@, c + 1), second_pred(t@, key2@, key3@));
            }
            let g1 = key_number_exec(t, k2, key2).unwrap();
            let k3 = best_tail_exec(t, key3, g1.1 + 1).unwrap();
            proof {
                lemma_last_ok(g1.1 + 1, brace_free_end(t@, g1.1 + 1), tail_pred(t@, key3@));
            }
            let g3 = key_number_exec(t, k3, key3).unwrap();
            let x = scan_to_either(t, '{', '}', g3.1);
            Some((x + 1, g1, g3))
        },
    }
}

/// The number pairs of all objects matching `key1 : val1 … key2 : N , … key3 : N`,
/// left to right (see the module documentation).
pub fn find_pairs(text: &str, key1: &str, val1: &str, key2: &str, key3: &str) -> (r: Vec<(String, String)>)
    ensures
        pairs_view(r@) == pairs_from(text@, key1@, val1@, key2@, key3@, 0),
{
    let t = to_chars(text);
    let k1 = to_chars(key1);
    let v1 = to_chars(val1);
    let k2 = to_chars(key2);
    let k3 = to_chars(key3);
    let ghost whole = pairs_from(t@, k1@, v1@, k2@, k3@, 0);
    let mut out: Vec<(String, String)> = Vec::new();
    let mut start: usize = 0;
    while start < t.len()
        invariant
            start <= t.len(),
            pairs_view(out@) + pairs_from(t@, k1@, v1@, k2@, k3@, start as nat) == whole,
        decreases t.len() - start,
    {
        if t[start] == '{' {
            match match_at_exec(&t, &k1, &v1, &k2, &k3, start) {
                Some((end, g1, g3)) => {
                    proof {
                        lemma_match_end(t@, k1@, v1@, k2@, k3@, start as int);
                    }
                    let a = string_from_chars(&t, g1.0, g1.1);
                    let b = string_from_chars(&t, g3.0, g3.1);
                    let ghost before = out@;
                    out.push((a, b));
                    assert(pairs_view(out@) =~= pairs_view(before).push((a@, b@)));
                    assert(pairs_view(out@) + pairs_from(t@, k1@, v1@, k2@, k3@, end as nat)
                        =~= pairs_view(before) + pairs_from(t@, k1@, v1@, k2@, k3@, start as nat));
                    start = end;
                    continue ;
                },
                None => {},
            }
        }
        start += 1;
    }
    assert(pairs_view(out@) =~= whole);
    out
}

/// The last of a list of pairs.
pub open spec fn last_pair(ps: Seq<(Seq<char>, Seq<char>)>) -> Option<(Seq<char>, Seq<char>)> {
    if ps.len() == 0 {
        None
    } else {
        Some(ps.last())
    }
}

fn last_of(v: Vec<(String, String)>) -> (r: Option<(String, String)>)
    ensures
        match r {
            Some((a, b)) => last_pair(pairs_view(v@)) == Some((a@, b@)),
            None => last_pair(pairs_view(v@)) is None,
        },
{
    let mut v = v;
    v.pop()
}

/// The `x` and `y` texts of the last object whose icon is `Player`.
pub fn player_location(json_text: &str) -> (r: Option<(String, String)>)
    ensures
        match r {
            Some((a, b)) => last_pair(
                pairs_from(json_text@, "\"icon\""@, "\"Player\""@, "\"x\""@, "\"y\""@, 0),
            ) == Some((a@, b@)),
            None => pairs_from(json_text@, "\"icon\""@, "\"Player\""@, "\"x\""@, "\"y\""@, 0).len() == 0,
        },
{
    last_of(find_pairs(json_text, "\"icon\"", "\"Player\"", "\"x\"", "\"y\""))
}

/// The `dx` and `dy` texts of the last object whose icon is `Player`.
pub fn player_direction(json_text: &str) -> (r: Option<(String, String)>)
    ensures
        match r {
            Some((a, b)) => last_pair(
                pairs_from(json_text@, "\"icon\""@, "\"Player\""@, "\"dx\""@, "\"dy\""@, 0),
            ) == Some((a@, b@)),
            None => pairs_from(json_text@, "\"icon\""@, "\"Player\""@, "\"dx\""@, "\"dy\""@, 0).len()
                == 0,
        },
{
    last_of(find_pairs(json_text, "\"icon\"", "\"Player\"", "\"dx\"", "\"dy\""))
}

/// The `sx` and `sy` texts of every airfield, in order.
pub fn airfield_locations(json_text: &str) -> (r: Vec<(String, String)>)
    ensures
        pairs_view(r@) == pairs_from(json_text@, "\"type\""@, "\"airfield\""@, "\"sx\""@, "\"sy\""@, 0),
{
    find_pairs(json_text, "\"type\"", "\"airfield\"", "\"sx\"", "\"sy\"")
}

// ---------------------------------------------------------------------------
// The fields of one object, read by position.
//
// An object `{"type":"..","color":"..","color[]":[r,g,b],"blink":n,"icon":"..",
// "icon_bg":"..","x":..,"y":..[,"dx":..,"dy":..]}` is read by moving from
// delimiter to delimiter; the offsets suit the compact form without spaces.
// Where a delimiter is missing, or a colour component or the blink count is
// not an integer, the object cannot be read.
// ---------------------------------------------------------------------------

/// The index of the first `c` at or after `p`, when there is one.
pub open spec fn seek(t: Seq<char>, c: char, p: int) -> Option<int> {
    if 0 <= p && char_pos_from(t, c, p) < t.len() {
        Some(char_pos_from(t, c, p))
    } else {
        None
    }
}

/// The index of the first `c1` or `c2` at or after `p`, when there is one.
pub open spec fn seek2(t: Seq<char>, c1: char, c2: char, p: int) -> Option<int> {
    if 0 <= p && either_pos_from(t, c1, c2, p) < t.len() {
        Some(either_pos_from(t, c1, c2, p))
    } else {
        None
    }
}

/// The index just after the `n`-th `"` from `p` on.
pub open spec fn past_quotes(t: Seq<char>, p: int, n: nat) -> Option<int>
    decreases n,
{
    if n == 0 {
        Some(p)
    } else {
        match seek(t, '"', p) {
            Some(q) => past_quotes(t, q + 1, (n - 1) as nat),
            None => None,
        }
    }
}

/// The text between the third `"` from `p` on and the next `"`, and the
/// index of that closing `"`.
pub open spec fn quoted_after(t: Seq<char>, p: int) -> Option<(int, Seq<char>)> {
    match past_quotes(t, p, 3) {
        Some(b) => match seek(t, '"', b) {
            Some(e) => Some((e, t.subrange(b, e))),
            None => None,
        },
        None => None,
    }
}

/// The text after the `:` that follows the second `"` from `p` on, up to the
/// next `,` (or `}` as well when `or_brace`), and the index where it ends.
pub open spec fn value_after(t: Seq<char>, p: int, or_brace: bool) -> Option<(int, Seq<char>)> {
    match past_quotes(t, p, 2) {
        Some(q) => match seek(t, ':', q) {
            Some(c) => {
                let b = c + 1;
                let end = if or_brace {
                    seek2(t, ',', '}', b)
                } else {
                    seek(t, ',', b)
                };
                match end {
                    Some(e) => Some((e, t.subrange(b, e))),
                    None => None,
                }
            },
            None => None,
        },
        None => None,
    }
}

/// The type text of an object whose first `"` is at `q`, and where it ends.
pub open spec fn type_after(t: Seq<char>, q: int) -> Option<(int, Seq<char>)> {
    match seek(t, ':', q + 5) {
        Some(c) => {
            let b = c + 2;
            match seek(t, '"', b) {
                Some(e) => Some((e, t.subrange(b, e))),
                None => None,
            }
        },
        None => None,
    }
}

/// The three colour components after `p`: the texts between `[`, the two
/// `,` and `]`, as integers, and the index of the `]`.
pub open spec fn rgb_after(t: Seq<char>, p: int) -> Option<(int, i32, i32, i32)> {
    match past_quotes(t, p + 2, 2) {
        Some(q) => match seek(t, '[', q) {
            Some(o) => match seek(t, ',', o + 1) {
                Some(c1) => match seek(t, ',', c1 + 1) {
                    Some(c2) => match seek(t, ']', c2 + 1) {
                        Some(e) => match (
                            parse_i32_spec(t.subrange(o + 1, c1)),
                            parse_i32_spec(t.subrange(c1 + 1, c2)),
                            parse_i32_spec(t.subrange(c2 + 1, e)),
                        ) {
                            (Some(r), Some(g), Some(b)) => Some((e, r, g, b)),
                            _ => None,
                        },
                        None => None,
                    },
                    None => None,
                },
                None => None,
            },
            None => None,
        },
        None => None,
    }
}

/// The fields of an object, as texts where the panels convert them further.
pub struct ObjTexts {
    pub obj_type: String,
    pub color: String,
    /// Red, green, blue (each kept to its low eight bits) and an opaque alpha.
    pub colorg: [u8; 4],
    pub blink: i32,
    pub icon: String,
    pub icon_bg: String,
    pub x: String,
    pub y: String,
    /// True when the object has a direction (`dx`, `dy` follow `y`).
    pub moving: bool,
    /// Empty when the object does not move.
    pub dx: String,
    pub dy: String,
}

/// The mathematical value of [`ObjTexts`].
pub struct ObjModel {
    pub obj_type: Seq<char>,
    pub color: Seq<char>,
    pub colorg: Seq<u8>,
    pub blink: i32,
    pub icon: Seq<char>,
    pub icon_bg: Seq<char>,
    pub x: Seq<char>,
    pub y: Seq<char>,
    pub moving: bool,
    pub dx: Seq<char>,
    pub dy: Seq<char>,
}

impl ObjTexts {
    pub open spec fn model(&self) -> ObjModel {
        ObjModel {
            obj_type: self.obj_type@,
            color: self.color@,
            colorg: self.colorg@,
            blink: self.blink,
            icon: self.icon@,
            icon_bg: self.icon_bg@,
            x: self.x@,
            y: self.y@,
            moving: self.moving,
            dx: self.dx@,
            dy: self.dy@,
        }
    }
}

/// The fields of the object text `t`: `Some(None)` when it has no `"` at
/// all, `None` when it cannot be read.
pub open spec fn object_fields(t: Seq<char>) -> Option<Option<ObjModel>> {
    match seek(t, '"', 0) {
        None => Some(None),
        Some(q) => match type_after(t, q) {
            None => None,
            Some((e1, ty)) => match quoted_after(t, e1 + 2) {
                None => None,
                Some((e2, color)) => match rgb_after(t, e2) {
                    None => None,
                    Some((e3, r, g, b)) => match value_after(t, e3 + 2, false) {
                        None => None,
                        Some((e4, blink_text)) => match parse_i32_spec(blink_text) {
                            None => None,
                            Some(blink) => match quoted_after(t, e4 + 1) {
                                None => None,
                                Some((e5, icon)) => match quoted_after(t, e5 + 2) {
                                    None => None,
                                    Some((e6, icon_bg)) => match value_after(t, e6 + 2, false) {
                                        None => None,
                                        Some((e7, x)) => match value_after(t, e7 + 1, true) {
                                            None => None,
                                            Some((e8, y)) => {
                                                let base = ObjModel {
                                                    obj_type: ty,
                                                    color,
                                                    colorg: seq![r as u8, g as u8, b as u8, 255u8],
                                                    blink,
                                                    icon,
                                                    icon_bg,
                                                    x,
                                                    y,
                                                    moving: false,
                                                    dx: Seq::empty(),
                                                    dy: Seq::empty(),
                                                };
                                                if t[e8] == '}' {
                                                    Some(Some(base))
                                                } else {
                                                    match value_after(t, e8 + 1, true) {
                                                        None => None,
                                                        Some((e9, dx)) => match value_after(
                                                            t,
                                                            e9 + 1,
                                                            true,
                                                        ) {
                                                            None => None,
                                                            Some((_e10, dy)) => Some(
                                                                Some(
                                                                    ObjModel {
                                                                        moving: true,
                                                                        dx,
                                                                        dy,
                                                                        ..base
                                                                    },
                                                                ),
                                                            ),
                                                        },
                                                    }
                                                }
                                            },
                                        },
                                    },
                                },
                            },
                        },
                    },
                },
            },
        },
    }
}

fn seek_exec(t: &Vec<char>, c: char, p: usize) -> (r: Option<usize>)
    ensures
        opt_index(r) == seek(t@, c, p as int),
        r matches Some(i) ==> p <= i < t@.len(),
{
    if p > t.len() {
        proof {
            lemma_char_pos_bounds(t@, c, p as int);
        }
        return None;
    }
    let i = scan_to(t, c, p);
    if i < t.len() {
        Some(i)
    } else {
        None
    }
}

fn seek2_exec(t: &Vec<char>, c1: char, c2: char, p: usize) -> (r: Option<usize>)
    ensures
        opt_index(r) == seek2(t@, c1, c2, p as int),
        r matches Some(i) ==> p <= i < t@.len(),
{
    if p > t.len() {
        proof {
            lemma_either_pos_bounds(t@, c1, c2, p as int);
        }
        return None;
    }
    let i = scan_to_either(t, c1, c2, p);
    if i < t.len() {
        Some(i)
    } else {
        None
    }
}

fn past_quotes_exec(t: &Vec<char>, p: usize, n: usize) -> (r: Option<usize>)
    requires
        t@.len() < 0x7fff_ffff,
        p <= t@.len() + 8,
    ensures
        opt_index(r) == past_quotes(t@, p as int, n as nat),
        r matches Some(i) ==> i <= t@.len() + 8,
    decreases n,
{
    if n == 0 {
        return Some(p);
    }
    match seek_exec(t, '"', p) {
        Some(q) => past_quotes_exec(t, q + 1, n - 1),
        None => None,
    }
}

fn quoted_after_exec(t: &Vec<char>, p: usize) -> (r: Option<(usize, String)>)
    requires
        t@.len() < 0x7fff_ffff,
        p <= t@.len() + 8,
    ensures
        match r {
            Some((e, v)) => quoted_after(t@, p as int) == Some((e as int, v@)) && e < t@.len(),
            None => quoted_after(t@, p as int) is None,
        },
{
    match past_quotes_exec(t, p, 3) {
        Some(b) => match seek_exec(t, '"', b) {
            Some(e) => Some((e, string_from_chars(t, b, e))),
            None => None,
        },
        None => None,
    }
}

fn value_after_exec(t: &Vec<char>, p: usize, or_brace: bool) -> (r: Option<(usize, String)>)
    requires
        t@.len() < 0x7fff_ffff,
        p <= t@.len() + 8,
    ensures
        match r {
            Some((e, v)) => value_after(t@, p as int, or_brace) == Some((e as int, v@)) && e < t@.len(),
            None => value_after(t@, p as int, or_brace) is None,
        },
{
    match past_quotes_exec(t, p, 2) {
        Some(q) => match seek_exec(t, ':', q) {
            Some(c) => {
                let b = c + 1;
                let end = if or_brace {
                    seek2_exec(t, ',', '}', b)
                } else {
                    seek_exec(t, ',', b)
                };
                match end {
                    Some(e) => Some((e, string_from_chars(t, b, e))),
                    None => None,
                }
            },
            None => None,
        },
        None => None,
    }
}

fn int_between(t: &Vec<char>, from: usize, to: usize) -> (r: Option<i32>)
    requires
        from <= to <= t@.len(),
    ensures
        r == parse_i32_spec(t@.subrange(from as int, to as int)),
{
    let v = sub_chars(t, from, to);
    parse_i32(v.as_slice())
}

fn rgb_after_exec(t: &Vec<char>, p: usize) -> (r: Option<(usize, i32, i32, i32)>)
    requires
        t@.len() < 0x7fff_ffff,
        p < t@.len(),
    ensures
        match r {
            Some((e, x, y, z)) => rgb_after(t@, p as int) == Some((e as int, x, y, z)) && e < t@.len(),
            None => rgb_after(t@, p as int) is None,
        },
{
    let q = match past_quotes_exec(t, p + 2, 2) {
        Some(q) => q,
        None => {
            return None;
        },
    };
    let o = match seek_exec(t, '[', q) {
        Some(o) => o,
        None => {
            return None;
        },
    };
    let c1 = match seek_exec(t, ',', o + 1) {
        Some(c) => c,
        None => {
            return None;
        },
    };
    let c2 = match seek_exec(t, ',', c1 + 1) {
        Some(c) => c,
        None => {
            return None;
        },
    };
    let e = match seek_exec(t, ']', c2 + 1) {
        Some(e) => e,
        None => {
            return None;
        },
    };
    let r = int_between(t, o + 1, c1);
    let g = int_between(t, c1 + 1, c2);
    let b = int_between(t, c2 + 1, e);
    match (r, g, b) {
        (Some(r), Some(g), Some(b)) => Some((e, r, g, b)),
        _ => None,
    }
}

fn type_after_exec(t: &Vec<char>, q: usize) -> (r: Option<(usize, String)>)
    requires
        t@.len() < 0x7fff_ffff,
        q < t@.len(),
    ensures
        match r {
            Some((e, v)) => type_after(t@, q as int) == Some((e as int, v@)) && e < t@.len(),
            None => type_after(t@, q as int) is None,
        },
{
    match seek_exec(t, ':', q + 5) {
        Some(c) => {
            let b = c + 2;
            match seek_exec(t, '"', b) {
                Some(e) => Some((e, string_from_chars(t, b, e))),
                None => None,
            }
        },
        None => None,
    }
}

/// What reading an object text gives: nothing when it has no `"` at all,
/// or its fields.
pub enum ObjScan {
    NoFields,
    Object(ObjTexts),
}

/// Reads the fields of one object text (see [`object_fields`]); `None` when
/// it cannot be read.
pub fn scan_object(text: &str) -> (r: Option<ObjScan>)
    requires
        text@.len() < 0x7fff_ffff,
    ensures
        match r {
            None => object_fields(text@) is None,
            Some(ObjScan::NoFields) => object_fields(text@) == Some(None::<ObjModel>),
            Some(ObjScan::Object(f)) => object_fields(text@) == Some(Some(f.model())),
        },
{
    let t = to_chars(text);
    let q = match seek_exec(&t, '"', 0) {
        Some(q) => q,
        None => {
            return Some(ObjScan::NoFields);
        },
    };
    let (e1, obj_type) = match type_after_exec(&t, q) {
        Some(v) => v,
        None => {
            return None;
        },
    };
    let (e2, color) = match quoted_after_exec(&t, e1 + 2) {
        Some(v) => v,
        None => {
            return None;
        },
    };
    let (e3, r, g, b) = match rgb_after_exec(&t, e2) {
        Some(v) => v,
        None => {
            return None;
        },
    };
    let (e4, blink_text) = match value_after_exec(&t, e3 + 2, false) {
        Some(v) => v,
        None => {
            return None;
        },
    };
    let bt = to_chars(blink_text.as_str());
    let blink = match parse_i32(bt.as_slice()) {
        Some(v) => v,
        None => {
            return None;
        },
    };
    let (e5, icon) = match quoted_after_exec(&t, e4 + 1) {
        Some(v) => v,
        None => {
            return None;
        },
    };
    let (e6, icon_bg) = match quoted_after_exec(&t, e5 + 2) {
        Some(v) => v,
        None => {
            return None;
        },
    };
    let (e7, x) = match value_after_exec(&t, e6 + 2, false) {
        Some(v) => v,
        None => {
            return None;
        },
    };
    let (e8, y) = match value_after_exec(&t, e7 + 1, true) {
        Some(v) => v,
        None => {
            return None;
        },
    };
    let colorg: [u8; 4] = [r as u8, g as u8, b as u8, 255u8];
    assert(colorg@ =~= seq![r as u8, g as u8, b as u8, 255u8]);
    if t[e8] == '}' {
        return Some(
            ObjScan::Object(
                ObjTexts {
                    obj_type,
                    color,
                    colorg,
                    blink,
                    icon,
                    icon_bg,
                    x,
                    y,
                    moving: false,
                    dx: String::new(),
                    dy: String::new(),
                },
            ),
        );
    }
    let (e9, dx) = match value_after_exec(&t, e8 + 1, true) {
        Some(v) => v,
        None => {
            return None;
        },
    };
    let (_e10, dy) = match value_after_exec(&t, e9 + 1, true) {
        Some(v) => v,
        None => {
            return None;
        },
    };
    Some(
        ObjScan::Object(
            ObjTexts { obj_type, color, colorg, blink, icon, icon_bg, x, y, moving: true, dx, dy },
        ),
    )
}

/// The next object text of the remaining map text `s` and the text after it:
/// from the first `{` to the first `}` of `s`.  An empty object text ends the
/// list: there is no `{`, or no `}` and the `{` comes first.  `None` when the
/// first `}` comes before the first `{`, or there is no `}` and text comes
/// before the `{` (the cut cannot be made).
pub open spec fn next_object_spec(s: Seq<char>) -> Option<(Seq<char>, Seq<char>)> {
    let b = char_pos_from(s, '{', 0);
    if b >= s.len() {
        Some((Seq::empty(), s))
    } else {
        let e = char_pos_from(s, '}', 0);
        let end = if e < s.len() {
            e + 1
        } else {
            0
        };
        if end < b {
            None
        } else {
            Some((s.subrange(b, end), s.subrange(end, s.len() as int)))
        }
    }
}

/// Cuts the next object text off the remaining map text (see [`next_object_spec`]).
pub fn next_object(s: &str) -> (r: Option<(String, String)>)
    ensures
        match r {
            Some((o, rest)) => next_object_spec(s@) == Some((o@, rest@)),
            None => next_object_spec(s@) is None,
        },
{
    let t = to_chars(s);
    proof {
        lemma_char_pos_bounds(t@, '{', 0);
        lemma_char_pos_bounds(t@, '}', 0);
    }
    let b = scan_to(&t, '{', 0);
    if b >= t.len() {
        return Some((String::new(), string_from_chars(&t, 0, t.len())));
    }
    let e = scan_to(&t, '}', 0);
    let end = if e < t.len() {
        e + 1
    } else {
        0
    };
    if end < b {
        None
    } else {
        Some((string_from_chars(&t, b, end), string_from_chars(&t, end, t.len())))
    }
}

/// Where a read object is kept by the map panel.
#[derive(Debug, Clone, Copy, PartialEq, Eq, Structural)]
pub enum ObjSlot {
    /// The list of static objects.
    Static,
    /// The selected object.
    Selected,
    /// The list of moving objects.
    Moving,
    /// The player.
    Player,
}

/// Where an object is kept: the player (a moving object with icon `Player`),
/// the selected object (any other object whose icon background is not
/// `none`), or the list of moving or static objects.
pub fn object_slot(moving: bool, icon: &str, icon_bg: &str) -> (r: ObjSlot)
    ensures
        r == (if moving && icon@ == "Player"@ {
            ObjSlot::Player
        } else if icon_bg@ != "none"@ {
            ObjSlot::Selected
        } else if moving {
            ObjSlot::Moving
        } else {
            ObjSlot::Static
        }),
{
    let is_player = crate::text::str_eq(icon, "Player");
    let is_selected = !crate::text::str_eq(icon_bg, "none");
    if !moving {
        if is_selected {
            ObjSlot::Selected
        } else {
            ObjSlot::Static
        }
    } else if !is_player {
        if is_selected {
            ObjSlot::Selected
        } else {
            ObjSlot::Moving
        }
    } else {
        ObjSlot::Player
    }
}

} // verus!
