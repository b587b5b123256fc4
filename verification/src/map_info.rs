//! The coordinate pairs of the `/map_info` text (`"key": [x, y]`).
//!
//! The scanner keeps the offsets of the game client it reads for: the text of
//! `x` starts four characters after the `:`, so it never holds the first
//! character of the value, and the text of `y` starts two characters after the
//! `,` and stops one character before the `]`.  Turning the texts into numbers
//! is left to the caller.
use vstd::prelude::*;
use crate::text::{
    char_pos_from, find_from, first_occurrence, first_occurrence_from, lemma_char_pos_bounds,
    occurs_at, scan_to, string_from_chars, to_chars,
};

verus! {

/// Positions `(colon, comma, bracket)` that the scan of the pair after the key
/// found at `b` stops at.
pub open spec fn pair_marks(s: Seq<char>, b: int) -> (int, int, int) {
    let c = char_pos_from(s, ':', b);
    let d = char_pos_from(s, ',', c + 1);
    let e = char_pos_from(s, ']', d);
    (c, d, e)
}

/// True when the pair after the key found at `b` can be cut out: there is a
/// `:`, then a `,`, then a `]`, and neither text would start after its end.
pub open spec fn pair_marks_ok(s: Seq<char>, b: int) -> bool {
    let (c, d, e) = pair_marks(s, b);
    &&& e < s.len()
    &&& c + 4 <= d
    &&& d + 2 <= e - 1
}

/// True when [`map_info_pair`] can read the pair of `key` in `s`.
pub open spec fn pair_ok(s: Seq<char>, key: Seq<char>) -> bool {
    first_occurrence(s, key) matches Some(b) ==> pair_marks_ok(s, b)
}

/// The texts of the pair of `key` in `s`; `None` when the key does not occur.
pub open spec fn pair_texts(s: Seq<char>, key: Seq<char>) -> Option<(Seq<char>, Seq<char>)> {
    match first_occurrence(s, key) {
        None => None,
        Some(b) => {
            let (c, d, e) = pair_marks(s, b);
            Some((s.subrange(c + 4, d), s.subrange(d + 2, e - 1)))
        },
    }
}

proof fn lemma_first_occurrence_in(hay: Seq<char>, needle: Seq<char>, from: int)
    requires
        0 <= from,
    ensures
        first_occurrence_from(hay, needle, from) matches Some(i) ==> from <= i && i
            + needle.len() <= hay.len(),
    decreases hay.len() - from,
{
    if !(from < 0 || from + needle.len() > hay.len()) && !occurs_at(hay, needle, from) && from
        < hay.len() {
        lemma_first_occurrence_in(hay, needle, from + 1);
    }
}

/// The marks of the pair after the key found at `b`; `None` when they cannot
/// be found in the order the pair needs.
fn marks(cs: &Vec<char>, b: usize) -> (r: Option<(usize, usize, usize)>)
    requires
        b <= cs.len(),
    ensures
        r is Some == pair_marks_ok(cs@, b as int),
        r matches Some((c, d, e)) ==> (c as int, d as int, e as int) == pair_marks(cs@, b as int),
{
    proof {
        lemma_char_pos_bounds(cs@, ':', b as int);
    }
    let c = scan_to(cs, ':', b);
    if c >= cs.len() {
        proof {
            lemma_char_pos_bounds(cs@, ',', c + 1);
            lemma_char_pos_bounds(cs@, ']', char_pos_from(cs@, ',', c + 1));
        }
        return None;
    }
    proof {
        lemma_char_pos_bounds(cs@, ',', c + 1);
    }
    let d = scan_to(cs, ',', c + 1);
    proof {
        lemma_char_pos_bounds(cs@, ']', d as int);
    }
    let e = scan_to(cs, ']', d);
    if e < cs.len() && d >= 4 && c <= d - 4 && e >= 1 && d + 2 <= e - 1 {
        Some((c, d, e))
    } else {
        None
    }
}

/// The texts of the `x` and `y` of the pair that follows the first occurrence
/// of `key` in `s`; `None` when `key` does not occur.
pub fn map_info_pair(s: &str, key: &str) -> (r: Option<(String, String)>)
    requires
        pair_ok(s@, key@),
    ensures
        match r {
            None => pair_texts(s@, key@) is None,
            Some((x, y)) => pair_texts(s@, key@) == Some((x@, y@)),
        },
{
    let cs = to_chars(s);
    let needle = to_chars(key);
    match find_from(&cs, &needle, 0) {
        None => None,
        Some(b) => {
            proof {
                lemma_first_occurrence_in(cs@, needle@, 0);
            }
            match marks(&cs, b) {
                Some((c, d, e)) => {
                    let x = string_from_chars(&cs, c + 4, d);
                    let y = string_from_chars(&cs, d + 2, e - 1);
                    Some((x, y))
                },
                None => None,
            }
        },
    }
}

/// True when [`map_info_pair`] can read the pair of `key` in `s`.
pub fn can_read_pair(s: &str, key: &str) -> (ok: bool)
    ensures
        ok == pair_ok(s@, key@),
{
    let cs = to_chars(s);
    let needle = to_chars(key);
    match find_from(&cs, &needle, 0) {
        None => true,
        Some(b) => {
            proof {
                lemma_first_occurrence_in(cs@, needle@, 0);
            }
            marks(&cs, b).is_some()
        },
    }
}

} // verus!
