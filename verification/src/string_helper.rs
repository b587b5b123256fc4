//! Substring extraction from the game's telemetry JSON and integer parsing.
//!
//! A value is located by its key: from the key, the scanner moves to the next
//! `:`, skips it and one more character (the space of `"key": value`), and
//! takes everything up to the next `,` or `}`.  All positions are character
//! positions.
use vstd::prelude::*;
use crate::number::{parse_i32_spec, parse_i32_str};
use crate::text::{
    char_pos_from, either_pos_from, find_from, find_last, first_occurrence, first_occurrence_from,
    last_occurrence, last_occurrence_upto, lemma_char_pos_bounds, lemma_either_pos_bounds, occurs_at,
    scan_to, scan_to_either, substring, to_chars,
};

verus! {

/// The integer that stands for a missing value.
pub const I_INVALID: i32 = -65535;

/// The position of the `:` that follows position `key_at`.
pub open spec fn colon_after(r: Seq<char>, key_at: int) -> int {
    char_pos_from(r, ':', key_at)
}

/// True when the value that follows the key found at `key_at` can be cut out:
/// there is a `:` after it, followed by at least one character that is not `,` or `}`.
pub open spec fn value_cut_ok(r: Seq<char>, key_at: int) -> bool {
    let c = colon_after(r, key_at);
    &&& c + 1 < r.len()
    &&& r[c + 1] != ','
    &&& r[c + 1] != '}'
}

/// First position of the value that follows the key found at `key_at`.
pub open spec fn value_start(r: Seq<char>, key_at: int) -> int {
    colon_after(r, key_at) + 2
}

/// Position just after the value that follows the key found at `key_at`.
pub open spec fn value_end(r: Seq<char>, key_at: int) -> int {
    either_pos_from(r, ',', '}', colon_after(r, key_at) + 1)
}

/// The value that follows the key found at `key_at`.
pub open spec fn value_after(r: Seq<char>, key_at: int) -> Seq<char> {
    r.subrange(value_start(r, key_at), value_end(r, key_at))
}

/// The inputs on which `get_string` cuts a value out without failing.
pub open spec fn get_string_ok(r: Seq<char>, s: Seq<char>) -> bool {
    first_occurrence(r, s) matches Some(b) ==> value_cut_ok(r, b)
}

/// The inputs on which `get_string_builder` cuts a value out without failing.
pub open spec fn get_string_builder_ok(r: Seq<char>, s: Seq<char>) -> bool {
    last_occurrence(r, s) matches Some(b) ==> value_cut_ok(r, b)
}

proof fn lemma_value_bounds(r: Seq<char>, b: int)
    requires
        0 <= b <= r.len(),
        value_cut_ok(r, b),
    ensures
        b <= colon_after(r, b),
        colon_after(r, b) + 2 <= value_end(r, b) <= r.len(),
{
    lemma_char_pos_bounds(r, ':', b);
    let c = colon_after(r, b);
    lemma_either_pos_bounds(r, ',', '}', c + 1);
}

proof fn lemma_first_occurrence_bounds(hay: Seq<char>, needle: Seq<char>, from: int)
    ensures
        first_occurrence_from(hay, needle, from) matches Some(i) ==> from <= i && i + needle.len()
            <= hay.len(),
    decreases hay.len() - from,
{
    if !(from < 0 || from + needle.len() > hay.len()) && !occurs_at(hay, needle, from) && from
        < hay.len() {
        lemma_first_occurrence_bounds(hay, needle, from + 1);
    }
}

proof fn lemma_last_occurrence_bounds(hay: Seq<char>, needle: Seq<char>, upto: int)
    ensures
        last_occurrence_upto(hay, needle, upto) matches Some(i) ==> 0 <= i <= upto && i
            + needle.len() <= hay.len(),
    decreases upto + 1,
{
    if upto >= 0 && !occurs_at(hay, needle, upto) {
        lemma_last_occurrence_bounds(hay, needle, upto - 1);
    }
}

/// Positions `(start, end)` of the value after the key found at `b`.
fn cut_value(chars: &Vec<char>, b: usize) -> (r: (usize, usize))
    requires
        b <= chars.len(),
        value_cut_ok(chars@, b as int),
    ensures
        r.0 as int == value_start(chars@, b as int),
        r.1 as int == value_end(chars@, b as int),
        r.0 <= r.1 <= chars.len(),
{
    proof {
        lemma_value_bounds(chars@, b as int);
    }
    let colon = scan_to(chars, ':', b);
    let end = scan_to_either(chars, ',', '}', colon + 1);
    (colon + 2, end)
}

/// Locates the last occurrence of `s` in `r` and copies the bytes of the value
/// that follows it into `buf` from position `buflen` on; when `s` does not occur
/// in `r`, `buf` is left as it is.
pub fn get_string_builder(r: &str, s: &str, buf: &mut [u8], buflen: usize)
    requires
        get_string_builder_ok(r@, s@),
        last_occurrence(r@, s@) matches Some(b) ==> buflen + vstd::utf8::encode_utf8(
            value_after(r@, b),
        ).len() <= old(buf)@.len(),
    ensures
        last_occurrence(r@, s@) is None ==> final(buf)@ == old(buf)@,
        last_occurrence(r@, s@) matches Some(b) ==> {
            let bytes = vstd::utf8::encode_utf8(value_after(r@, b));
            &&& final(buf)@.len() == old(buf)@.len()
            &&& final(buf)@.subrange(0, buflen as int) == old(buf)@.subrange(0, buflen as int)
            &&& final(buf)@.subrange(buflen as int, buflen + bytes.len()) == bytes
            &&& final(buf)@.subrange(buflen + bytes.len(), old(buf)@.len() as int) == old(
                buf,
            )@.subrange(buflen + bytes.len(), old(buf)@.len() as int)
        },
{
    let chars = to_chars(r);
    let needle = to_chars(s);
    match find_last(&chars, &needle) {
        None => {},
        Some(b) => {
            proof {
                lemma_last_occurrence_bounds(chars@, needle@, chars@.len() - needle@.len());
            }
            let (from, to) = cut_value(&chars, b);
            let piece = substring(r, from, to);
            let bytes = piece.as_bytes();
            let n = bytes.len();
            let ghost before = buf@;
            let total = buf.len();
            let mut k: usize = 0;
            while k < n
                invariant
                    k <= n,
                    n == bytes@.len(),
                    buflen + n <= buf@.len(),
                    buf@.len() == before.len(),
                    total == buf@.len(),
                    forall|j: int| 0 <= j < buflen ==> buf@[j] == before[j],
                    forall|j: int| 0 <= j < k ==> buf@[buflen + j] == bytes@[j],
                    forall|j: int| buflen + n <= j < before.len() ==> buf@[j] == before[j],
                    forall|j: int| buflen + k <= j < buflen + n ==> buf@[j] == before[j],
                decreases n - k,
            {
                buf[buflen + k] = bytes[k];
                k += 1;
            }
            assert(buf@.subrange(0, buflen as int) =~= before.subrange(0, buflen as int));
            assert(buf@.subrange(buflen as int, buflen + n) =~= bytes@);
            assert(buf@.subrange(buflen + n, before.len() as int) =~= before.subrange(
                buflen + n,
                before.len() as int,
            ));
        },
    }
}

/// Locates the first occurrence of `s` in `r` and returns the value that follows
/// it; `None` when `s` does not occur in `r`.
pub fn get_string<'a>(r: &'a str, s: &str) -> (res: Option<&'a str>)
    requires
        get_string_ok(r@, s@),
    ensures
        first_occurrence(r@, s@) is None ==> res is None,
        first_occurrence(r@, s@) matches Some(b) ==> res matches Some(v) && v@ == value_after(
            r@,
            b,
        ),
{
    let chars = to_chars(r);
    let needle = to_chars(s);
    match find_from(&chars, &needle, 0) {
        None => None,
        Some(b) => {
            proof {
                lemma_first_occurrence_bounds(chars@, needle@, 0);
            }
            let (from, to) = cut_value(&chars, b);
            Some(substring(r, from, to))
        },
    }
}

/// True when [`get_string`] can read the value after `s` in `r`: `s` does not
/// occur, or a `:` follows it with a value character after the one that is skipped.
pub fn can_get_string(r: &str, s: &str) -> (ok: bool)
    ensures
        ok == get_string_ok(r@, s@),
{
    let chars = to_chars(r);
    let needle = to_chars(s);
    match find_from(&chars, &needle, 0) {
        None => true,
        Some(b) => {
            proof {
                lemma_first_occurrence_bounds(chars@, needle@, 0);
            }
            let c = scan_to(&chars, ':', b);
            c < chars.len() && c + 1 < chars.len() && chars[c + 1] != ',' && chars[c + 1] != '}'
        },
    }
}

/// Parses an integer value; a missing value gives [`I_INVALID`].
pub fn get_data_int(sdata: Option<&str>) -> (r: i32)
    requires
        sdata matches Some(s) ==> parse_i32_spec(s@) is Some,
    ensures
        sdata is None ==> r == I_INVALID,
        sdata matches Some(s) ==> Some(r) == parse_i32_spec(s@),
{
    match sdata {
        Some(s) => match parse_i32_str(s) {
            Some(v) => v,
            None => I_INVALID,
        },
        None => I_INVALID,
    }
}

} // verus!
