//! The syntax of floating-point literals accepted by Java's `Double.parseDouble`.
//!
//! Leading and trailing characters up to U+0020 are ignored; what remains is an
//! optional sign followed by `NaN`, `Infinity`, a hexadecimal literal
//! `0x h[.h] p [sign] d [fFdD]` or a decimal literal
//! `d[.d] [e [sign] d] [fFdD]` with at least one mantissa digit.
use vstd::prelude::*;
use crate::number::{all_digits, is_digit};
use crate::text::{char_pos_from, either_pos_from, lemma_char_pos_bounds, lemma_either_pos_bounds};

verus! {

pub open spec fn is_trim_char(c: char) -> bool {
    (c as u32) <= 0x20
}

pub open spec fn is_hex_digit(c: char) -> bool {
    ('0' <= c && c <= '9') || ('a' <= c && c <= 'f') || ('A' <= c && c <= 'F')
}

pub open spec fn all_hex(s: Seq<char>) -> bool {
    forall|i: int| 0 <= i < s.len() ==> is_hex_digit(#[trigger] s[i])
}

/// First index `>= i` whose character is not ignored by trimming.
pub open spec fn lead_from(s: Seq<char>, i: int) -> int
    decreases s.len() - i,
{
    if i >= s.len() {
        s.len() as int
    } else if i >= 0 && !is_trim_char(s[i]) {
        i
    } else {
        lead_from(s, i + 1)
    }
}

/// Largest end `<= j` whose last character is not ignored by trimming (0 when none).
pub open spec fn trail_upto(s: Seq<char>, j: int) -> int
    decreases j,
{
    if j <= 0 {
        0
    } else if j <= s.len() && !is_trim_char(s[j - 1]) {
        j
    } else {
        trail_upto(s, j - 1)
    }
}

/// `s` without leading and trailing characters up to U+0020 (Java `String.trim`).
pub open spec fn java_trim(s: Seq<char>) -> Seq<char> {
    let a = lead_from(s, 0);
    if a >= s.len() {
        Seq::empty()
    } else {
        s.subrange(a, trail_upto(s, s.len() as int))
    }
}

pub open spec fn is_fd_suffix(c: char) -> bool {
    c == 'f' || c == 'F' || c == 'd' || c == 'D'
}

/// `s` without one trailing type suffix `f`, `F`, `d` or `D`.
pub open spec fn strip_type_suffix(s: Seq<char>) -> Seq<char> {
    if s.len() > 0 && is_fd_suffix(s.last()) {
        s.drop_last()
    } else {
        s
    }
}

/// An exponent: an optional sign and at least one decimal digit.
pub open spec fn valid_exponent(e: Seq<char>) -> bool {
    let d = if e.len() > 0 && (e[0] == '+' || e[0] == '-') {
        e.drop_first()
    } else {
        e
    };
    d.len() > 0 && all_digits(d)
}

/// The part of a mantissa before its first `.`.
pub open spec fn int_part(m: Seq<char>) -> Seq<char> {
    m.subrange(0, char_pos_from(m, '.', 0))
}

/// The part of a mantissa after its first `.` (empty when there is none).
pub open spec fn frac_part(m: Seq<char>) -> Seq<char> {
    let d = char_pos_from(m, '.', 0);
    if d < m.len() {
        m.subrange(d + 1, m.len() as int)
    } else {
        Seq::empty()
    }
}

pub open spec fn valid_hex_mantissa(m: Seq<char>) -> bool {
    &&& all_hex(int_part(m))
    &&& all_hex(frac_part(m))
    &&& !(int_part(m).len() == 0 && frac_part(m).len() == 0)
}

pub open spec fn valid_dec_mantissa(m: Seq<char>) -> bool {
    &&& all_digits(int_part(m))
    &&& all_digits(frac_part(m))
    &&& !(int_part(m).len() == 0 && frac_part(m).len() == 0)
}

/// The body of a hexadecimal literal (after `0x`).
pub open spec fn valid_hex_body(hex: Seq<char>) -> bool {
    let h = strip_type_suffix(hex);
    let p = either_pos_from(h, 'p', 'P', 0);
    &&& p < h.len()
    &&& valid_hex_mantissa(h.subrange(0, p))
    &&& valid_exponent(h.subrange(p + 1, h.len() as int))
}

/// An unsigned decimal literal.
pub open spec fn valid_dec_body(rest: Seq<char>) -> bool {
    let core = strip_type_suffix(rest);
    let e = either_pos_from(core, 'e', 'E', 0);
    &&& valid_dec_mantissa(core.subrange(0, e))
    &&& (e < core.len() ==> valid_exponent(core.subrange(e + 1, core.len() as int)))
}

pub open spec fn nan_chars() -> Seq<char> {
    seq!['N', 'a', 'N']
}

pub open spec fn infinity_chars() -> Seq<char> {
    seq!['I', 'n', 'f', 'i', 'n', 'i', 't', 'y']
}

/// `s` without one leading sign.
pub open spec fn strip_sign(t: Seq<char>) -> Seq<char> {
    if t.len() > 0 && (t[0] == '-' || t[0] == '+') {
        t.drop_first()
    } else {
        t
    }
}

pub open spec fn has_hex_prefix(rest: Seq<char>) -> bool {
    rest.len() >= 2 && rest[0] == '0' && (rest[1] == 'x' || rest[1] == 'X')
}

/// True exactly when Java's `Double.parseDouble(s)` accepts `s`.
pub open spec fn java_number_syntax(s: Seq<char>) -> bool {
    let t = java_trim(s);
    let rest = strip_sign(t);
    &&& t.len() > 0
    &&& (rest == nan_chars() || rest == infinity_chars() || if has_hex_prefix(rest) {
        valid_hex_body(rest.subrange(2, rest.len() as int))
    } else {
        valid_dec_body(rest)
    })
}

/// A copy of `v[lo..hi]`.
pub fn slice_chars(v: &Vec<char>, lo: usize, hi: usize) -> (r: Vec<char>)
    requires
        lo <= hi <= v.len(),
    ensures
        r@ == v@.subrange(lo as int, hi as int),
{
    let mut r: Vec<char> = Vec::new();
    let mut i = lo;
    while i < hi
        invariant
            lo <= i <= hi <= v.len(),
            r@ == v@.subrange(lo as int, i as int),
        decreases hi - i,
    {
        r.push(v[i]);
        assert(v@.subrange(lo as int, i + 1) =~= v@.subrange(lo as int, i as int).push(v@[i as int]));
        i += 1;
    }
    r
}

fn is_hex_digit_exec(c: char) -> (r: bool)
    ensures
        r == is_hex_digit(c),
{
    ('0' <= c && c <= '9') || ('a' <= c && c <= 'f') || ('A' <= c && c <= 'F')
}

fn all_hex_exec(v: &Vec<char>) -> (r: bool)
    ensures
        r == all_hex(v@),
{
    let mut i: usize = 0;
    while i < v.len()
        invariant
            i <= v.len(),
            forall|j: int| 0 <= j < i ==> is_hex_digit(#[trigger] v@[j]),
        decreases v.len() - i,
    {
        if !is_hex_digit_exec(v[i]) {
            return false;
        }
        i += 1;
    }
    true
}

/// True when every character of `v` is a decimal digit.
pub fn all_digits_exec(v: &Vec<char>) -> (r: bool)
    ensures
        r == all_digits(v@),
{
    let mut i: usize = 0;
    while i < v.len()
        invariant
            i <= v.len(),
            forall|j: int| 0 <= j < i ==> is_digit(#[trigger] v@[j]),
        decreases v.len() - i,
    {
        if !('0' <= v[i] && v[i] <= '9') {
            assert(!is_digit(v@[i as int]));
            return false;
        }
        i += 1;
    }
    true
}

fn java_trim_exec(v: &Vec<char>) -> (r: Vec<char>)
    ensures
        r@ == java_trim(v@),
{
    let n = v.len();
    let mut lo: usize = 0;
    while lo < n && (v[lo] as u32) <= 0x20
        invariant
            lo <= n == v.len(),
            lead_from(v@, 0) == lead_from(v@, lo as int),
        decreases n - lo,
    {
        lo += 1;
    }
    if lo >= n {
        return Vec::new();
    }
    let mut hi: usize = n;
    while hi > lo && (v[hi - 1] as u32) <= 0x20
        invariant
            lo < hi <= n == v.len(),
            !is_trim_char(v@[lo as int]),
            trail_upto(v@, n as int) == trail_upto(v@, hi as int),
        decreases hi,
    {
        hi -= 1;
    }
    slice_chars(v, lo, hi)
}

fn strip_type_suffix_exec(v: &Vec<char>) -> (r: Vec<char>)
    ensures
        r@ == strip_type_suffix(v@),
{
    let n = v.len();
    if n > 0 && (v[n - 1] == 'f' || v[n - 1] == 'F' || v[n - 1] == 'd' || v[n - 1] == 'D') {
        let r = slice_chars(v, 0, n - 1);
        assert(r@ =~= v@.drop_last());
        r
    } else {
        let r = slice_chars(v, 0, n);
        assert(r@ =~= v@);
        r
    }
}

fn valid_exponent_exec(e: &Vec<char>) -> (r: bool)
    ensures
        r == valid_exponent(e@),
{
    let n = e.len();
    let d = if n > 0 && (e[0] == '+' || e[0] == '-') {
        let d = slice_chars(e, 1, n);
        assert(d@ =~= e@.drop_first());
        d
    } else {
        let d = slice_chars(e, 0, n);
        assert(d@ =~= e@);
        d
    };
    d.len() > 0 && all_digits_exec(&d)
}

/// Splits a mantissa at its first `.` into its integer and fraction parts.
fn split_mantissa(m: &Vec<char>) -> (r: (Vec<char>, Vec<char>))
    ensures
        r.0@ == int_part(m@),
        r.1@ == frac_part(m@),
{
    proof {
        lemma_char_pos_bounds(m@, '.', 0);
    }
    let d = crate::text::scan_to(m, '.', 0);
    let ip = slice_chars(m, 0, d);
    let fp = if d < m.len() {
        slice_chars(m, d + 1, m.len())
    } else {
        Vec::new()
    };
    (ip, fp)
}

fn valid_hex_body_exec(hex: &Vec<char>) -> (r: bool)
    ensures
        r == valid_hex_body(hex@),
{
    let h = strip_type_suffix_exec(hex);
    proof {
        lemma_either_pos_bounds(h@, 'p', 'P', 0);
    }
    let p = crate::text::scan_to_either(&h, 'p', 'P', 0);
    if p >= h.len() {
        return false;
    }
    let m = slice_chars(&h, 0, p);
    let exp = slice_chars(&h, p + 1, h.len());
    let (ip, fp) = split_mantissa(&m);
    all_hex_exec(&ip) && all_hex_exec(&fp) && !(ip.len() == 0 && fp.len() == 0)
        && valid_exponent_exec(&exp)
}

fn valid_dec_body_exec(rest: &Vec<char>) -> (r: bool)
    ensures
        r == valid_dec_body(rest@),
{
    let core = strip_type_suffix_exec(rest);
    proof {
        lemma_either_pos_bounds(core@, 'e', 'E', 0);
    }
    let e = crate::text::scan_to_either(&core, 'e', 'E', 0);
    let m = slice_chars(&core, 0, e);
    let (ip, fp) = split_mantissa(&m);
    if !(all_digits_exec(&ip) && all_digits_exec(&fp) && !(ip.len() == 0 && fp.len() == 0)) {
        return false;
    }
    if e < core.len() {
        let exp = slice_chars(&core, e + 1, core.len());
        valid_exponent_exec(&exp)
    } else {
        true
    }
}

fn is_nan_chars(v: &Vec<char>) -> (r: bool)
    ensures
        r == (v@ == nan_chars()),
{
    let r = v.len() == 3 && v[0] == 'N' && v[1] == 'a' && v[2] == 'N';
    if r {
        assert(v@ =~= nan_chars());
    }
    r
}

fn is_infinity_chars(v: &Vec<char>) -> (r: bool)
    ensures
        r == (v@ == infinity_chars()),
{
    let r = v.len() == 8 && v[0] == 'I' && v[1] == 'n' && v[2] == 'f' && v[3] == 'i' && v[4] == 'n'
        && v[5] == 'i' && v[6] == 't' && v[7] == 'y';
    if r {
        assert(v@ =~= infinity_chars());
    }
    r
}

/// True exactly when Java's `Double.parseDouble` accepts the characters of `s`.
pub fn is_java_number(s: &Vec<char>) -> (r: bool)
    ensures
        r == java_number_syntax(s@),
{
    let t = java_trim_exec(s);
    if t.len() == 0 {
        return false;
    }
    let rest = if t[0] == '-' || t[0] == '+' {
        let r = slice_chars(&t, 1, t.len());
        assert(r@ =~= t@.drop_first());
        r
    } else {
        let r = slice_chars(&t, 0, t.len());
        assert(r@ =~= t@);
        r
    };
    assert(rest@ == strip_sign(t@));
    if is_nan_chars(&rest) || is_infinity_chars(&rest) {
        return true;
    }
    if rest.len() >= 2 && rest[0] == '0' && (rest[1] == 'x' || rest[1] == 'X') {
        let hex = slice_chars(&rest, 2, rest.len());
        valid_hex_body_exec(&hex)
    } else {
        valid_dec_body_exec(&rest)
    }
}

} // verus!
