//! Character-level text helpers shared by the scanners of this crate.
//!
//! Every scanner in the library works on the character sequence of a string
//! (`s@`), so the specifications here are stated over `Seq<char>`.
use vstd::prelude::*;
use vstd::string::StrSliceExecFns;

verus! {

/// True when `needle` occurs in `hay` starting at index `i`.
pub open spec fn occurs_at(hay: Seq<char>, needle: Seq<char>, i: int) -> bool {
    &&& 0 <= i
    &&& i + needle.len() <= hay.len()
    &&& hay.subrange(i, i + needle.len()) == needle
}

/// `s` from position `i` on, with the occurrences of `pat` found from the
/// left, without overlapping, replaced by `with` (std `str::replace`).
pub open spec fn replaced_from(s: Seq<char>, pat: Seq<char>, with: Seq<char>, i: int) -> Seq<char>
    decreases s.len() - i,
{
    if i < 0 || i >= s.len() {
        Seq::empty()
    } else if pat.len() > 0 && occurs_at(s, pat, i) {
        with + replaced_from(s, pat, with, i + pat.len())
    } else {
        seq![s[i]] + replaced_from(s, pat, with, i + 1)
    }
}

/// `s` with every occurrence of `pat` replaced by `with` (see [`replaced_from`]).
pub open spec fn replaced(s: Seq<char>, pat: Seq<char>, with: Seq<char>) -> Seq<char> {
    replaced_from(s, pat, with, 0)
}

/// Computes [`replaced`] for a non-empty `pat`.
pub fn replace_all(s: &str, pat: &str, with: &str) -> (r: String)
    requires
        pat@.len() > 0,
    ensures
        r@ == replaced(s@, pat@, with@),
{
    let cs = to_chars(s);
    let ps = to_chars(pat);
    let n = cs.len();
    let mut out = String::new();
    let mut i: usize = 0;
    while i < n
        invariant
            i <= n == cs@.len(),
            cs@ == s@,
            ps@ == pat@,
            ps@.len() > 0,
            out@ + replaced_from(s@, pat@, with@, i as int) == replaced(s@, pat@, with@),
        decreases n - i,
    {
        if occurs_at_exec(&cs, &ps, i) {
            assert(replaced_from(s@, pat@, with@, i as int) == with@ + replaced_from(
                s@,
                pat@,
                with@,
                i + pat@.len(),
            ));
            assert(out@ + with@ + replaced_from(s@, pat@, with@, i + pat@.len()) =~= out@
                + replaced_from(s@, pat@, with@, i as int));
            push_text(&mut out, with);
            i = i + ps.len();
        } else {
            assert(out@.push(cs@[i as int]) + replaced_from(s@, pat@, with@, i + 1) =~= out@
                + replaced_from(s@, pat@, with@, i as int));
            push_char(&mut out, cs[i]);
            i = i + 1;
        }
    }
    assert(out@ =~= out@ + replaced_from(s@, pat@, with@, i as int));
    out
}

/// The first index `>= from` at which `needle` occurs in `hay`.
pub open spec fn first_occurrence_from(hay: Seq<char>, needle: Seq<char>, from: int) -> Option<int>
    decreases hay.len() - from,
{
    if from < 0 || from + needle.len() > hay.len() {
        None
    } else if occurs_at(hay, needle, from) {
        Some(from)
    } else if from >= hay.len() {
        None
    } else {
        first_occurrence_from(hay, needle, from + 1)
    }
}

pub proof fn lemma_first_occurrence_from(hay: Seq<char>, needle: Seq<char>, from: int)
    ensures
        first_occurrence_from(hay, needle, from) matches Some(i) ==> from <= i && occurs_at(
            hay,
            needle,
            i,
        ),
        0 <= from && first_occurrence_from(hay, needle, from) is None ==> forall|i: int|
            from <= i ==> !#[trigger] occurs_at(hay, needle, i),
    decreases hay.len() - from,
{
    if from < 0 || from + needle.len() > hay.len() {
    } else if occurs_at(hay, needle, from) {
    } else if from >= hay.len() {
    } else {
        lemma_first_occurrence_from(hay, needle, from + 1);
    }
}

/// The first index at which `needle` occurs in `hay`.
pub open spec fn first_occurrence(hay: Seq<char>, needle: Seq<char>) -> Option<int> {
    first_occurrence_from(hay, needle, 0)
}

/// The last index `<= upto` at which `needle` occurs in `hay`.
pub open spec fn last_occurrence_upto(hay: Seq<char>, needle: Seq<char>, upto: int) -> Option<int>
    decreases upto + 1,
{
    if upto < 0 {
        None
    } else if occurs_at(hay, needle, upto) {
        Some(upto)
    } else {
        last_occurrence_upto(hay, needle, upto - 1)
    }
}

pub proof fn lemma_last_occurrence_upto(hay: Seq<char>, needle: Seq<char>, upto: int)
    ensures
        last_occurrence_upto(hay, needle, upto) matches Some(i) ==> 0 <= i <= upto && occurs_at(
            hay,
            needle,
            i,
        ),
    decreases upto + 1,
{
    if upto >= 0 && !occurs_at(hay, needle, upto) {
        lemma_last_occurrence_upto(hay, needle, upto - 1);
    }
}

pub proof fn lemma_last_occurrence(hay: Seq<char>, needle: Seq<char>)
    ensures
        last_occurrence(hay, needle) matches Some(i) ==> 0 <= i && occurs_at(hay, needle, i),
{
    lemma_last_occurrence_upto(hay, needle, hay.len() - needle.len());
}

/// The last index at which `needle` occurs in `hay`.
pub open spec fn last_occurrence(hay: Seq<char>, needle: Seq<char>) -> Option<int> {
    last_occurrence_upto(hay, needle, hay.len() - needle.len())
}

/// The first index `>= from` holding `c`, or the length of `s` when there is none.
pub open spec fn char_pos_from(s: Seq<char>, c: char, from: int) -> int
    decreases s.len() - from,
{
    if from >= s.len() {
        s.len() as int
    } else if from >= 0 && s[from] == c {
        from
    } else {
        char_pos_from(s, c, from + 1)
    }
}

/// The first index `>= from` holding `c1` or `c2`, or the length of `s` when there is none.
pub open spec fn either_pos_from(s: Seq<char>, c1: char, c2: char, from: int) -> int
    decreases s.len() - from,
{
    if from >= s.len() {
        s.len() as int
    } else if from >= 0 && (s[from] == c1 || s[from] == c2) {
        from
    } else {
        either_pos_from(s, c1, c2, from + 1)
    }
}

pub proof fn lemma_char_pos_bounds(s: Seq<char>, c: char, from: int)
    requires
        0 <= from,
    ensures
        from <= char_pos_from(s, c, from) || (from > s.len() && char_pos_from(s, c, from) == s.len()),
        char_pos_from(s, c, from) <= s.len() || from > s.len(),
        char_pos_from(s, c, from) < s.len() ==> s[char_pos_from(s, c, from)] == c,
        forall|j: int| from <= j < char_pos_from(s, c, from) ==> s[j] != c,
    decreases s.len() - from,
{
    if from < s.len() && s[from] != c {
        lemma_char_pos_bounds(s, c, from + 1);
    }
}

pub proof fn lemma_either_pos_bounds(s: Seq<char>, c1: char, c2: char, from: int)
    requires
        0 <= from,
    ensures
        from <= either_pos_from(s, c1, c2, from) || (from > s.len() && either_pos_from(
            s,
            c1,
            c2,
            from,
        ) == s.len()),
        either_pos_from(s, c1, c2, from) <= s.len() || from > s.len(),
        either_pos_from(s, c1, c2, from) < s.len() ==> (s[either_pos_from(s, c1, c2, from)] == c1
            || s[either_pos_from(s, c1, c2, from)] == c2),
        forall|j: int| from <= j < either_pos_from(s, c1, c2, from) ==> s[j] != c1 && s[j] != c2,
    decreases s.len() - from,
{
    if from < s.len() && s[from] != c1 && s[from] != c2 {
        lemma_either_pos_bounds(s, c1, c2, from + 1);
    }
}

/// Collects the characters of `s` into a vector.
pub fn to_chars(s: &str) -> (v: Vec<char>)
    ensures
        v@ == s@,
{
    let mut v: Vec<char> = Vec::new();
    for c in it: s.chars()
        invariant
            v@ == it.seq().take(it.index() as int),
    {
        v.push(c);
    }
    v
}

/// Appends one character to a string (std `String::push`).
#[verifier::external_body]
pub(crate) fn push_char(s: &mut String, c: char)
    ensures
        final(s)@ == old(s)@.push(c),
{
    s.push(c);
}

/// Appends the characters of `t` to `s`.
pub fn push_text(s: &mut String, t: &str)
    ensures
        final(s)@ == old(s)@ + t@,
{
    let v = to_chars(t);
    let ghost start = s@;
    let mut i: usize = 0;
    while i < v.len()
        invariant
            i <= v@.len(),
            v@ == t@,
            s@ == start + v@.take(i as int),
        decreases v.len() - i,
    {
        push_char(s, v[i]);
        assert(v@.take(i + 1) =~= v@.take(i as int).push(v@[i as int]));
        i += 1;
    }
    assert(v@.take(v@.len() as int) =~= v@);
}

/// The characters `v[from..to]`.
pub fn sub_chars(v: &Vec<char>, from: usize, to: usize) -> (r: Vec<char>)
    requires
        from <= to <= v.len(),
    ensures
        r@ == v@.subrange(from as int, to as int),
{
    let mut r: Vec<char> = Vec::new();
    let mut i = from;
    while i < to
        invariant
            from <= i <= to <= v.len(),
            r@ == v@.subrange(from as int, i as int),
        decreases to - i,
    {
        r.push(v[i]);
        assert(v@.subrange(from as int, i + 1) =~= v@.subrange(from as int, i as int).push(v@[i as int]));
        i += 1;
    }
    r
}

/// The string made of `chars[from..to]`.
pub fn string_from_chars(chars: &Vec<char>, from: usize, to: usize) -> (r: String)
    requires
        from <= to <= chars.len(),
    ensures
        r@ == chars@.subrange(from as int, to as int),
{
    let mut r = String::new();
    let mut i = from;
    while i < to
        invariant
            from <= i <= to <= chars.len(),
            r@ == chars@.subrange(from as int, i as int),
        decreases to - i,
    {
        push_char(&mut r, chars[i]);
        assert(chars@.subrange(from as int, i + 1) == chars@.subrange(from as int, i as int).push(
            chars@[i as int],
        ));
        i += 1;
    }
    r
}

/// The owned copy of a string slice.
pub fn owned(s: &str) -> (r: String)
    ensures
        r@ == s@,
{
    s.to_owned()
}

/// Character-sequence equality of two strings.
pub fn str_eq(a: &str, b: &str) -> (r: bool)
    ensures
        r == (a@ == b@),
{
    let ca = to_chars(a);
    let cb = to_chars(b);
    chars_eq(&ca, &cb)
}

/// Equality of two character vectors.
pub fn chars_eq(a: &Vec<char>, b: &Vec<char>) -> (r: bool)
    ensures
        r == (a@ == b@),
{
    if a.len() != b.len() {
        return false;
    }
    let mut i: usize = 0;
    while i < a.len()
        invariant
            a.len() == b.len(),
            i <= a.len(),
            forall|j: int| 0 <= j < i ==> a@[j] == b@[j],
        decreases a.len() - i,
    {
        if a[i] != b[i] {
            return false;
        }
        i += 1;
    }
    assert(a@ =~= b@);
    true
}

/// True when `needle` occurs in `hay` at index `i`.
pub fn occurs_at_exec(hay: &Vec<char>, needle: &Vec<char>, i: usize) -> (r: bool)
    ensures
        r == occurs_at(hay@, needle@, i as int),
{
    if needle.len() > hay.len() || i > hay.len() - needle.len() {
        return false;
    }
    let mut k: usize = 0;
    while k < needle.len()
        invariant
            i + needle.len() <= hay.len(),
            k <= needle.len(),
            forall|j: int| 0 <= j < k ==> hay@[i + j] == needle@[j],
        decreases needle.len() - k,
    {
        if hay[i + k] != needle[k] {
            assert(hay@.subrange(i as int, i + needle.len())[k as int] != needle@[k as int]);
            return false;
        }
        k += 1;
    }
    assert(hay@.subrange(i as int, i + needle.len()) =~= needle@);
    true
}

/// The first index `>= from` at which `needle` occurs in `hay`.
pub fn find_from(hay: &Vec<char>, needle: &Vec<char>, from: usize) -> (r: Option<usize>)
    ensures
        r matches Some(i) ==> first_occurrence_from(hay@, needle@, from as int) == Some(i as int),
        r is None ==> first_occurrence_from(hay@, needle@, from as int) is None,
{
    let mut i = from;
    while i <= hay.len()
        invariant
            from <= i,
            first_occurrence_from(hay@, needle@, from as int) == first_occurrence_from(
                hay@,
                needle@,
                i as int,
            ),
        decreases hay.len() + 1 - i,
    {
        if needle.len() > hay.len() || i > hay.len() - needle.len() {
            return None;
        }
        if occurs_at_exec(hay, needle, i) {
            return Some(i);
        }
        if i >= hay.len() {
            return None;
        }
        i += 1;
    }
    None
}

/// The last index at which `needle` occurs in `hay`.
pub fn find_last(hay: &Vec<char>, needle: &Vec<char>) -> (r: Option<usize>)
    ensures
        r matches Some(i) ==> last_occurrence(hay@, needle@) == Some(i as int),
        r is None ==> last_occurrence(hay@, needle@) is None,
{
    if needle.len() > hay.len() {
        return None;
    }
    let mut i = hay.len() - needle.len();
    loop
        invariant
            i <= hay.len() - needle.len(),
            needle.len() <= hay.len(),
            last_occurrence(hay@, needle@) == last_occurrence_upto(hay@, needle@, i as int),
        decreases i,
    {
        if occurs_at_exec(hay, needle, i) {
            return Some(i);
        }
        if i == 0 {
            assert(last_occurrence_upto(hay@, needle@, -1) is None);
            return None;
        }
        i -= 1;
    }
}

/// The first index `>= from` holding `c`, or the length when there is none.
pub fn scan_to(s: &Vec<char>, c: char, from: usize) -> (r: usize)
    requires
        from <= s.len(),
    ensures
        r as int == char_pos_from(s@, c, from as int),
        from <= r <= s.len(),
{
    proof {
        lemma_char_pos_bounds(s@, c, from as int);
    }
    let mut i = from;
    while i < s.len() && s[i] != c
        invariant
            from <= i <= s.len(),
            char_pos_from(s@, c, from as int) == char_pos_from(s@, c, i as int),
        decreases s.len() - i,
    {
        i += 1;
    }
    i
}

/// The first index `>= from` holding `c1` or `c2`, or the length when there is none.
pub fn scan_to_either(s: &Vec<char>, c1: char, c2: char, from: usize) -> (r: usize)
    requires
        from <= s.len(),
    ensures
        r as int == either_pos_from(s@, c1, c2, from as int),
        from <= r <= s.len(),
{
    proof {
        lemma_either_pos_bounds(s@, c1, c2, from as int);
    }
    let mut i = from;
    while i < s.len() && s[i] != c1 && s[i] != c2
        invariant
            from <= i <= s.len(),
            either_pos_from(s@, c1, c2, from as int) == either_pos_from(s@, c1, c2, i as int),
        decreases s.len() - i,
    {
        i += 1;
    }
    i
}

/// The slice of `s` made of its characters `from..to`.
pub fn substring<'a>(s: &'a str, from: usize, to: usize) -> (r: &'a str)
    requires
        from <= to <= s@.len(),
    ensures
        r@ == s@.subrange(from as int, to as int),
{
    s.substring_char(from, to)
}

/// Unicode `White_Space` (what `str::trim` removes): U+0009..U+000D, U+0020,
/// U+0085, U+00A0, U+1680, U+2000..U+200A, U+2028, U+2029, U+202F, U+205F, U+3000.
pub open spec fn unicode_whitespace(c: char) -> bool {
    let u = c as u32;
    ||| 0x09 <= u && u <= 0x0d
    ||| u == 0x20
    ||| u == 0x85
    ||| u == 0xa0
    ||| u == 0x1680
    ||| 0x2000 <= u && u <= 0x200a
    ||| u == 0x2028
    ||| u == 0x2029
    ||| u == 0x202f
    ||| u == 0x205f
    ||| u == 0x3000
}

pub fn is_unicode_whitespace(c: char) -> (r: bool)
    ensures
        r == unicode_whitespace(c),
{
    let u = c as u32;
    (0x09 <= u && u <= 0x0d) || u == 0x20 || u == 0x85 || u == 0xa0 || u == 0x1680 || (0x2000 <= u
        && u <= 0x200a) || u == 0x2028 || u == 0x2029 || u == 0x202f || u == 0x205f || u == 0x3000
}

/// First index `>= i` that is not whitespace (the length when there is none).
pub open spec fn non_ws_from(s: Seq<char>, i: int) -> int
    decreases s.len() - i,
{
    if i >= s.len() {
        s.len() as int
    } else if i >= 0 && !unicode_whitespace(s[i]) {
        i
    } else {
        non_ws_from(s, i + 1)
    }
}

/// Largest end `<= j` whose last character is not whitespace (0 when none).
pub open spec fn non_ws_upto(s: Seq<char>, j: int) -> int
    decreases j,
{
    if j <= 0 {
        0
    } else if j <= s.len() && !unicode_whitespace(s[j - 1]) {
        j
    } else {
        non_ws_upto(s, j - 1)
    }
}

/// `s` without leading and trailing whitespace (Rust `str::trim`).
pub open spec fn trim_spec(s: Seq<char>) -> Seq<char> {
    let a = non_ws_from(s, 0);
    if a >= s.len() {
        Seq::empty()
    } else {
        s.subrange(a, non_ws_upto(s, s.len() as int))
    }
}

/// `s` without leading and trailing whitespace.
pub fn trim<'a>(s: &'a str) -> (r: &'a str)
    ensures
        r@ == trim_spec(s@),
{
    let v = to_chars(s);
    let n = v.len();
    let mut lo: usize = 0;
    while lo < n && is_unicode_whitespace(v[lo])
        invariant
            lo <= n == v.len(),
            v@ == s@,
            non_ws_from(v@, 0) == non_ws_from(v@, lo as int),
        decreases n - lo,
    {
        lo += 1;
    }
    if lo >= n {
        return substring(s, 0, 0);
    }
    let mut hi: usize = n;
    while hi > lo && is_unicode_whitespace(v[hi - 1])
        invariant
            lo < hi <= n == v.len(),
            v@ == s@,
            !unicode_whitespace(v@[lo as int]),
            non_ws_upto(v@, n as int) == non_ws_upto(v@, hi as int),
        decreases hi,
    {
        hi -= 1;
    }
    substring(s, lo, hi)
}

/// The text of an optional string.
pub open spec fn opt_view(v: Option<String>) -> Option<Seq<char>> {
    match v {
        Some(s) => Some(s@),
        None => None,
    }
}

/// The code of `c` with ASCII upper-case letters mapped to lower case.
pub open spec fn ascii_fold(c: char) -> int {
    let u = c as u32;
    if 0x41 <= u && u <= 0x5a {
        u + 32
    } else {
        u as int
    }
}

/// Equality of two texts up to ASCII case (Rust `str::eq_ignore_ascii_case`).
pub open spec fn eq_ignore_ascii_case_spec(a: Seq<char>, b: Seq<char>) -> bool {
    &&& a.len() == b.len()
    &&& forall|i: int| 0 <= i < a.len() ==> #[trigger] ascii_fold(a[i]) == ascii_fold(b[i])
}

/// True when `a` and `b` are equal up to ASCII case.
pub fn eq_ignore_ascii_case(a: &str, b: &str) -> (r: bool)
    ensures
        r == eq_ignore_ascii_case_spec(a@, b@),
{
    let va = to_chars(a);
    let vb = to_chars(b);
    if va.len() != vb.len() {
        return false;
    }
    let mut i: usize = 0;
    while i < va.len()
        invariant
            i <= va@.len() == vb@.len(),
            va@ == a@,
            vb@ == b@,
            forall|j: int| 0 <= j < i ==> #[trigger] ascii_fold(va@[j]) == ascii_fold(vb@[j]),
        decreases va.len() - i,
    {
        let x = va[i] as u32;
        let y = vb[i] as u32;
        let fx = if 0x41 <= x && x <= 0x5a {
            x + 32
        } else {
            x
        };
        let fy = if 0x41 <= y && y <= 0x5a {
            y + 32
        } else {
            y
        };
        if fx != fy {
            assert(ascii_fold(va@[i as int]) != ascii_fold(vb@[i as int]));
            return false;
        }
        i += 1;
    }
    true
}

/// `c` with an ASCII upper-case letter mapped to lower case.
pub open spec fn ascii_lower(c: char) -> char {
    if 'A' <= c && c <= 'Z' {
        ((c as u32) + 32) as char
    } else {
        c
    }
}

/// `s` with its ASCII letters in lower case (Rust `str::to_ascii_lowercase`).
pub open spec fn ascii_lower_text(s: Seq<char>) -> Seq<char> {
    s.map_values(|c: char| ascii_lower(c))
}

/// The ASCII lower-case form of `c`.
pub fn lower_char(c: char) -> (r: char)
    ensures
        r == ascii_lower(c),
{
    if 'A' <= c && c <= 'Z' {
        let l = ((c as u8) + 32) as char;
        assert((c as u8) as u32 == c as u32);
        l
    } else {
        c
    }
}

/// The ASCII lower-case form of `s`.
pub fn to_ascii_lower(s: &str) -> (r: String)
    ensures
        r@ == ascii_lower_text(s@),
{
    let v = to_chars(s);
    let mut r = String::new();
    let mut i: usize = 0;
    while i < v.len()
        invariant
            i <= v@.len(),
            v@ == s@,
            r@ == ascii_lower_text(v@.take(i as int)),
        decreases v.len() - i,
    {
        let l = lower_char(v[i]);
        push_char(&mut r, l);
        assert(ascii_lower_text(v@.take(i + 1)) =~= ascii_lower_text(v@.take(i as int)).push(l));
        i += 1;
    }
    assert(v@.take(v@.len() as int) =~= v@);
    r
}

/// The lines of `s` from index `from` on, as `str::lines` gives them: the
/// text is cut after every `\n`, which is removed together with a `\r` just
/// before it; a last piece without `\n` is a line when it is not empty.
pub open spec fn lines_from(s: Seq<char>, from: int) -> Seq<Seq<char>>
    decreases s.len() - from,
{
    if from < 0 || from >= s.len() {
        Seq::empty()
    } else {
        let e = char_pos_from(s, '\n', from);
        if e >= s.len() {
            seq![s.subrange(from, s.len() as int)]
        } else {
            let l = s.subrange(from, e);
            let line = if l.len() > 0 && l.last() == '\r' {
                l.drop_last()
            } else {
                l
            };
            proof {
                lemma_char_pos_bounds(s, '\n', from);
            }
            seq![line] + lines_from(s, e + 1)
        }
    }
}

/// The lines of `s` (Rust `str::lines`).
pub open spec fn text_lines(s: Seq<char>) -> Seq<Seq<char>> {
    lines_from(s, 0)
}

/// The lines of `s`.
pub fn lines(s: &str) -> (r: Vec<String>)
    ensures
        r@.map_values(|l: String| l@) == text_lines(s@),
{
    let v = to_chars(s);
    let mut out: Vec<String> = Vec::new();
    let mut from: usize = 0;
    while from < v.len()
        invariant
            from <= v@.len(),
            v@ == s@,
            out@.map_values(|l: String| l@) + lines_from(v@, from as int) == text_lines(v@),
        decreases v.len() - from,
    {
        let e = scan_to(&v, '\n', from);
        let ghost before = out@.map_values(|l: String| l@);
        if e >= v.len() {
            let line = string_from_chars(&v, from, v.len());
            out.push(line);
            assert(out@.map_values(|l: String| l@) =~= before.push(line@));
            assert(lines_from(v@, v@.len() as int) =~= Seq::<Seq<char>>::empty());
            from = v.len();
        } else {
            let mut end = e;
            if e > from && v[e - 1] == '\r' {
                end = e - 1;
            }
            let line = string_from_chars(&v, from, end);
            proof {
                let l = v@.subrange(from as int, e as int);
                if l.len() > 0 && l.last() == '\r' {
                    assert(l.drop_last() =~= v@.subrange(from as int, end as int));
                } else {
                    assert(l =~= v@.subrange(from as int, end as int));
                }
            }
            out.push(line);
            assert(out@.map_values(|l: String| l@) =~= before.push(line@));
            from = e + 1;
        }
    }
    assert(lines_from(v@, from as int) =~= Seq::<Seq<char>>::empty());
    assert(out@.map_values(|l: String| l@) =~= text_lines(v@));
    out
}

/// True when `c` occurs in `s`.
pub fn contains_char(s: &str, c: char) -> (r: bool)
    ensures
        r == (char_pos_from(s@, c, 0) < s@.len()),
{
    let v = to_chars(s);
    proof {
        lemma_char_pos_bounds(v@, c, 0);
    }
    scan_to(&v, c, 0) < v.len()
}

/// The pieces of `s` from `lo` on, cut at every `sep`.
pub open spec fn split_from(s: Seq<char>, sep: char, lo: int) -> Seq<Seq<char>>
    decreases s.len() - lo,
{
    let p = char_pos_from(s, sep, lo);
    if lo < 0 || lo > s.len() || p >= s.len() {
        seq![s.subrange(lo, s.len() as int)]
    } else {
        proof {
            lemma_char_pos_bounds(s, sep, lo);
        }
        seq![s.subrange(lo, p)] + split_from(s, sep, p + 1)
    }
}

/// `ps` without its trailing empty pieces.
pub open spec fn drop_trailing_empty(ps: Seq<Seq<char>>) -> Seq<Seq<char>>
    decreases ps.len(),
{
    if ps.len() > 0 && ps.last().len() == 0 {
        drop_trailing_empty(ps.drop_last())
    } else {
        ps
    }
}

/// Splitting at one separator character: the pieces between the separators,
/// without the trailing empty ones.
pub open spec fn java_split_spec(s: Seq<char>, sep: char) -> Seq<Seq<char>> {
    drop_trailing_empty(split_from(s, sep, 0))
}

pub open spec fn str_views<'a>(ps: Seq<&'a str>) -> Seq<Seq<char>> {
    ps.map_values(|p: &'a str| p@)
}

/// Splits `s` at the separator `sep` (see [`java_split_spec`]).
pub fn java_split<'a>(s: &'a str, sep: char) -> (r: Vec<&'a str>)
    ensures
        str_views(r@) == java_split_spec(s@, sep),
{
    let v = to_chars(s);
    let n = v.len();
    let mut pieces: Vec<&'a str> = Vec::new();
    let mut lo: usize = 0;
    loop
        invariant_except_break
            lo <= n == v.len(),
            v@ == s@,
            str_views(pieces@) + split_from(v@, sep, lo as int) == split_from(v@, sep, 0),
        ensures
            str_views(pieces@) == split_from(v@, sep, 0),
            v@ == s@,
        decreases n - lo,
    {
        proof {
            lemma_char_pos_bounds(v@, sep, lo as int);
        }
        let p = scan_to(&v, sep, lo);
        let ghost before = pieces@;
        let piece = substring(s, lo, p);
        pieces.push(piece);
        assert(str_views(pieces@) =~= str_views(before).push(piece@));
        if p >= n {
            assert(str_views(pieces@) =~= str_views(before) + split_from(v@, sep, lo as int));
            assert(str_views(pieces@) == split_from(v@, sep, 0));
            break;
        }
        assert(str_views(pieces@) + split_from(v@, sep, p + 1) =~= str_views(before) + split_from(
            v@,
            sep,
            lo as int,
        ));
        lo = p + 1;
    }
    let ghost full = str_views(pieces@);
    assert(full == split_from(v@, sep, 0));
    while pieces.len() > 0 && pieces[pieces.len() - 1].is_empty()
        invariant
            drop_trailing_empty(str_views(pieces@)) == drop_trailing_empty(full),
        decreases pieces.len(),
    {
        let ghost before = pieces@;
        pieces.pop();
        assert(str_views(pieces@) =~= str_views(before).drop_last());
    }
    pieces
}

} // verus!
