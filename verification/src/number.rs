//! Decimal integer syntax (the grammar accepted by `i32::from_str`).
use vstd::prelude::*;

verus! {

pub open spec fn is_digit(c: char) -> bool {
    '0' <= c && c <= '9'
}

pub open spec fn digit_value(c: char) -> int {
    c as int - '0' as int
}

pub open spec fn all_digits(s: Seq<char>) -> bool {
    forall|i: int| 0 <= i < s.len() ==> is_digit(#[trigger] s[i])
}

/// The value of a run of decimal digits, most significant first.
pub open spec fn digits_value(s: Seq<char>) -> int
    decreases s.len(),
{
    if s.len() == 0 {
        0
    } else {
        digits_value(s.drop_last()) * 10 + digit_value(s.last())
    }
}

/// The digits of an integer literal once its optional sign is removed.
pub open spec fn unsigned_part(s: Seq<char>) -> Seq<char> {
    if s.len() > 0 && (s[0] == '-' || s[0] == '+') {
        s.drop_first()
    } else {
        s
    }
}

/// The value of an optionally signed decimal literal, or `None` when `s` is not one.
pub open spec fn int_literal_value(s: Seq<char>) -> Option<int> {
    let body = unsigned_part(s);
    if body.len() > 0 && all_digits(body) {
        if s[0] == '-' {
            Some(-digits_value(body))
        } else {
            Some(digits_value(body))
        }
    } else {
        None
    }
}

/// What `i32::from_str` gives for `s`: the value when `s` is a signed decimal
/// literal within the range of `i32`, `None` otherwise.
pub open spec fn parse_i32_spec(s: Seq<char>) -> Option<i32> {
    match int_literal_value(s) {
        Some(v) => if i32::MIN <= v && v <= i32::MAX {
            Some(v as i32)
        } else {
            None
        },
        None => None,
    }
}

pub proof fn lemma_digits_value_nonneg(s: Seq<char>)
    requires
        all_digits(s),
    ensures
        digits_value(s) >= 0,
    decreases s.len(),
{
    if s.len() > 0 {
        assert(all_digits(s.drop_last()));
        lemma_digits_value_nonneg(s.drop_last());
        assert(is_digit(s[s.len() - 1]));
    }
}

/// Parses a signed decimal integer; `None` when `s` is not one or it leaves the range of `i32`.
pub fn parse_i32(s: &[char]) -> (r: Option<i32>)
    ensures
        r == parse_i32_spec(s@),
{
    let n = s.len();
    let mut start: usize = 0;
    let mut neg = false;
    if n > 0 && (s[0] == '-' || s[0] == '+') {
        neg = s[0] == '-';
        start = 1;
    }
    let ghost body = unsigned_part(s@);
    assert(body =~= s@.subrange(start as int, n as int));
    if start >= n {
        return None;
    }
    // `acc` holds the value of the digits read so far while it stays at most 2^31.
    let mut acc: i64 = 0;
    let mut over = false;
    let mut i = start;
    while i < n
        invariant
            start <= i <= n,
            n == s@.len(),
            body =~= s@.subrange(start as int, n as int),
            body == unsigned_part(s@),
            neg == (n > 0 && s@[0] == '-'),
            all_digits(body.take(i - start)),
            !over ==> acc as int == digits_value(body.take(i - start)) && 0 <= acc <= 2147483648,
            over ==> digits_value(body.take(i - start)) > 2147483648,
        decreases n - i,
    {
        let c = s[i];
        if !('0' <= c && c <= '9') {
            assert(body[i - start] == c);
            assert(!is_digit(body[i - start]));
            assert(!all_digits(body));
            return None;
        }
        let ghost prev = body.take(i - start);
        let ghost next = body.take(i - start + 1);
        assert(next.drop_last() =~= prev);
        assert(next.last() == c);
        assert(all_digits(next)) by {
            assert forall|j: int| 0 <= j < next.len() implies is_digit(#[trigger] next[j]) by {
                if j < prev.len() {
                    assert(next[j] == prev[j]);
                }
            }
        }
        let d = (c as u32 - '0' as u32) as i64;
        assert(d as int == digit_value(c));
        if !over {
            let v = acc * 10 + d;
            if v > 2147483648 {
                over = true;
            } else {
                acc = v;
            }
        } else {
            proof {
                lemma_digits_value_nonneg(prev);
            }
        }
        i += 1;
    }
    assert(body.take(n - start) =~= body);
    if over {
        return None;
    }
    if neg {
        Some((0 - acc) as i32)
    } else if acc <= 2147483647 {
        Some(acc as i32)
    } else {
        None
    }
}

/// Parses a signed decimal integer held in a string.
pub fn parse_i32_str(s: &str) -> (r: Option<i32>)
    ensures
        r == parse_i32_spec(s@),
{
    let v = crate::text::to_chars(s);
    parse_i32(v.as_slice())
}

/// The digits of an unsigned literal: the text without one leading `+`.
pub open spec fn plus_stripped(s: Seq<char>) -> Seq<char> {
    if s.len() > 0 && s[0] == '+' {
        s.drop_first()
    } else {
        s
    }
}

/// The value of an unsigned decimal literal (an optional `+` and at least one
/// digit), or `None` when `s` is not one.
pub open spec fn unsigned_literal_value(s: Seq<char>) -> Option<int> {
    let b = plus_stripped(s);
    if b.len() > 0 && all_digits(b) {
        Some(digits_value(b))
    } else {
        None
    }
}

/// What `from_str` of an unsigned integer type with maximum `max` gives for `s`.
pub open spec fn parse_unsigned_spec(s: Seq<char>, max: int) -> Option<int> {
    match unsigned_literal_value(s) {
        Some(v) => if v <= max {
            Some(v)
        } else {
            None
        },
        None => None,
    }
}

/// Parses an unsigned decimal literal no larger than `max`.
pub fn parse_unsigned(s: &[char], max: u64) -> (r: Option<u64>)
    ensures
        match r {
            Some(v) => parse_unsigned_spec(s@, max as int) == Some(v as int),
            None => parse_unsigned_spec(s@, max as int) is None,
        },
{
    let n = s.len();
    let start: usize = if n > 0 && s[0] == '+' {
        1
    } else {
        0
    };
    let ghost body = plus_stripped(s@);
    assert(body =~= s@.subrange(start as int, n as int));
    if start >= n {
        return None;
    }
    let mut acc: u128 = 0;
    let mut over = false;
    let mut i = start;
    while i < n
        invariant
            start <= i <= n,
            n == s@.len(),
            body =~= s@.subrange(start as int, n as int),
            body == plus_stripped(s@),
            all_digits(body.take(i - start)),
            !over ==> acc as int == digits_value(body.take(i - start)) && acc <= max,
            over ==> digits_value(body.take(i - start)) > max,
        decreases n - i,
    {
        let c = s[i];
        if !('0' <= c && c <= '9') {
            assert(body[i - start] == c);
            assert(!is_digit(body[i - start]));
            assert(!all_digits(body));
            return None;
        }
        let ghost prev = body.take(i - start);
        let ghost next = body.take(i - start + 1);
        assert(next.drop_last() =~= prev);
        assert(next.last() == c);
        assert(all_digits(next)) by {
            assert forall|j: int| 0 <= j < next.len() implies is_digit(#[trigger] next[j]) by {
                if j < prev.len() {
                    assert(next[j] == prev[j]);
                }
            }
        }
        let d = (c as u32 - '0' as u32) as u128;
        assert(d as int == digit_value(c));
        if !over {
            let v = acc * 10 + d;
            if v > max as u128 {
                over = true;
            } else {
                acc = v;
            }
        } else {
            proof {
                lemma_digits_value_nonneg(prev);
            }
        }
        i += 1;
    }
    assert(body.take(n - start) =~= body);
    if over {
        None
    } else {
        Some(acc as u64)
    }
}

/// The value of a hexadecimal digit (either case).
pub open spec fn hex_digit_value(c: char) -> Option<int> {
    if '0' <= c && c <= '9' {
        Some(c as int - '0' as int)
    } else if 'a' <= c && c <= 'f' {
        Some(c as int - 'a' as int + 10)
    } else if 'A' <= c && c <= 'F' {
        Some(c as int - 'A' as int + 10)
    } else {
        None
    }
}

/// The value of a run of hexadecimal digits, or `None` when a character is not one.
pub open spec fn hex_digits_value(s: Seq<char>) -> Option<int>
    decreases s.len(),
{
    if s.len() == 0 {
        Some(0)
    } else {
        match (hex_digits_value(s.drop_last()), hex_digit_value(s.last())) {
            (Some(a), Some(d)) => Some(a * 16 + d),
            _ => None,
        }
    }
}

/// What `from_str_radix(s, 16)` of an unsigned type with maximum `max` gives:
/// an optional `+` and at least one hexadecimal digit, with a value up to `max`.
pub open spec fn parse_hex_spec(s: Seq<char>, max: int) -> Option<int> {
    let b = plus_stripped(s);
    if b.len() == 0 {
        None
    } else {
        match hex_digits_value(b) {
            Some(v) => if v <= max {
                Some(v)
            } else {
                None
            },
            None => None,
        }
    }
}

proof fn lemma_hex_value_nonneg(s: Seq<char>)
    ensures
        hex_digits_value(s) matches Some(v) ==> v >= 0,
    decreases s.len(),
{
    if s.len() > 0 {
        lemma_hex_value_nonneg(s.drop_last());
    }
}

proof fn lemma_hex_prefix_fails(s: Seq<char>, k: int)
    requires
        0 <= k <= s.len(),
        hex_digits_value(s.take(k)) is None,
    ensures
        hex_digits_value(s) is None,
    decreases s.len() - k,
{
    if k < s.len() {
        assert(s.take(k + 1).drop_last() =~= s.take(k));
        lemma_hex_prefix_fails(s, k + 1);
    } else {
        assert(s.take(k) =~= s);
    }
}

proof fn lemma_hex_prefix_grows(s: Seq<char>, k: int, v: int)
    requires
        0 <= k <= s.len(),
        hex_digits_value(s.take(k)) == Some(v),
    ensures
        hex_digits_value(s) matches Some(w) ==> w >= v,
    decreases s.len() - k,
{
    if k < s.len() {
        assert(s.take(k + 1).drop_last() =~= s.take(k));
        lemma_hex_value_nonneg(s.take(k));
        match hex_digit_value(s[k]) {
            Some(d) => {
                lemma_hex_prefix_grows(s, k + 1, v * 16 + d);
            },
            None => {
                lemma_hex_prefix_fails(s, k + 1);
            },
        }
    } else {
        assert(s.take(k) =~= s);
    }
}

pub proof fn lemma_parse_hex_nonneg(s: Seq<char>, max: int)
    ensures
        parse_hex_spec(s, max) matches Some(v) ==> v >= 0,
{
    lemma_hex_value_nonneg(plus_stripped(s));
}

/// Parses an unsigned hexadecimal literal no larger than `max`.
pub fn parse_hex(s: &[char], max: u64) -> (r: Option<u64>)
    ensures
        match r {
            Some(v) => parse_hex_spec(s@, max as int) == Some(v as int),
            None => parse_hex_spec(s@, max as int) is None,
        },
{
    let n = s.len();
    let start: usize = if n > 0 && s[0] == '+' {
        1
    } else {
        0
    };
    let ghost body = plus_stripped(s@);
    assert(body =~= s@.subrange(start as int, n as int));
    if start >= n {
        return None;
    }
    let mut acc: u128 = 0;
    let mut i = start;
    while i < n
        invariant
            start <= i <= n,
            n == s@.len(),
            body =~= s@.subrange(start as int, n as int),
            body == plus_stripped(s@),
            hex_digits_value(body.take(i - start)) == Some(acc as int),
            acc <= max,
        decreases n - i,
    {
        let c = s[i];
        let ghost prev = body.take(i - start);
        let ghost next = body.take(i - start + 1);
        assert(next.drop_last() =~= prev);
        assert(next.last() == c);
        let d: u128 = if '0' <= c && c <= '9' {
            (c as u32 - '0' as u32) as u128
        } else if 'a' <= c && c <= 'f' {
            (c as u32 - 'a' as u32 + 10) as u128
        } else if 'A' <= c && c <= 'F' {
            (c as u32 - 'A' as u32 + 10) as u128
        } else {
            assert(hex_digit_value(c) is None);
            assert(hex_digits_value(next) is None);
            proof {
                lemma_hex_prefix_fails(body, i - start + 1);
            }
            return None;
        };
        assert(hex_digit_value(c) == Some(d as int));
        let v = acc * 16 + d;
        assert(hex_digits_value(next) == Some(v as int));
        if v > max as u128 {
            proof {
                lemma_hex_prefix_grows(body, i - start + 1, v as int);
            }
            return None;
        }
        acc = v;
        i += 1;
    }
    assert(body.take(n - start) =~= body);
    Some(acc as u64)
}

/// The decimal digits of `n`, most significant first, without leading zeros.
pub open spec fn decimal_text(n: nat) -> Seq<char>
    decreases n,
{
    if n < 10 {
        seq![(n + '0' as nat) as char]
    } else {
        decimal_text(n / 10).push(((n % 10) + '0' as nat) as char)
    }
}

/// The decimal text of `n`.
pub fn decimal_string(n: u64) -> (r: String)
    ensures
        r@ == decimal_text(n as nat),
    decreases n,
{
    let c = char_of_digit((n % 10) as u32);
    if n < 10 {
        let mut r = String::new();
        crate::text::push_char(&mut r, c);
        assert(r@ =~= decimal_text(n as nat));
        r
    } else {
        let mut r = decimal_string(n / 10);
        crate::text::push_char(&mut r, c);
        r
    }
}

fn char_of_digit(d: u32) -> (c: char)
    requires
        d < 10,
    ensures
        c == (d + '0' as nat) as char,
{
    match d {
        0 => '0',
        1 => '1',
        2 => '2',
        3 => '3',
        4 => '4',
        5 => '5',
        6 => '6',
        7 => '7',
        8 => '8',
        _ => '9',
    }
}

proof fn lemma_decimal_text_digits(n: nat)
    ensures
        all_digits(decimal_text(n)),
        decimal_text(n).len() > 0,
        digits_value(decimal_text(n)) == n,
    decreases n,
{
    if n < 10 {
        assert(((n + '0' as nat) as char) as int == n + 48);
        assert(decimal_text(n).drop_last() =~= Seq::<char>::empty());
        assert(digits_value(Seq::<char>::empty()) == 0);
        assert(digits_value(decimal_text(n)) == digits_value(decimal_text(n).drop_last()) * 10
            + digit_value(decimal_text(n).last()));
    } else {
        assert(((n % 10 + '0' as nat) as char) as int == n % 10 + 48);
        lemma_decimal_text_digits(n / 10);
        let s = decimal_text(n / 10);
        let t = decimal_text(n);
        assert(t.drop_last() =~= s);
        vstd::arithmetic::div_mod::lemma_fundamental_div_mod(n as int, 10);
        assert(digits_value(t) == digits_value(s) * 10 + digit_value(t.last()));
        assert(t.last() == ((n % 10 + '0' as nat) as char));
        assert forall|i: int| 0 <= i < t.len() implies is_digit(#[trigger] t[i]) by {
            if i < s.len() {
                assert(t[i] == s[i]);
            }
        }
    }
}

/// Reading the decimal text of a number gives the number back: the text
/// [`decimal_string`] makes is a literal that [`parse_unsigned`] reads as `n`
/// whenever `n` is within the bound.
pub proof fn law_decimal_round_trip(n: nat, max: int)
    requires
        n <= max,
    ensures
        parse_unsigned_spec(decimal_text(n), max) == Some(n as int),
{
    lemma_decimal_text_digits(n);
    let t = decimal_text(n);
    assert(t[0] != '+');
    assert(plus_stripped(t) == t);
}

/// A single hexadecimal digit is read with its value: `0`..`9` (code points
/// 48..57) as 0..9, and `a`..`f` (97..102) and `A`..`F` (65..70) as 10..15.
pub proof fn law_hex_digit_values(c: char, max: int)
    requires
        max >= 15,
    ensures
        '0' <= c <= '9' ==> parse_hex_spec(seq![c], max) == Some(c as int - 48),
        'a' <= c <= 'f' ==> parse_hex_spec(seq![c], max) == Some(c as int - 87),
        'A' <= c <= 'F' ==> parse_hex_spec(seq![c], max) == Some(c as int - 55),
        !('0' <= c <= '9' || 'a' <= c <= 'f' || 'A' <= c <= 'F') ==> parse_hex_spec(seq![c], max) is None,
{
    let s = seq![c];
    assert(s.drop_last() =~= Seq::<char>::empty());
    assert(hex_digits_value(s.drop_last()) == Some(0int));
    assert(s.last() == c);
    assert(hex_digits_value(s) == match hex_digit_value(c) {
        Some(d) => Some(0 * 16 + d),
        None => None::<int>,
    });
    if c == '+' {
        assert(plus_stripped(s) =~= Seq::<char>::empty());
    } else {
        assert(plus_stripped(s) == s);
    }
}

/// A further hexadecimal digit multiplies the value read so far by 16 and
/// adds its own value: `ff` is 255, `10` is 16.
pub proof fn law_hex_next_digit(s: Seq<char>, c: char, max: int)
    requires
        s.len() > 0,
        s[0] != '+',
        parse_hex_spec(s, max) is Some,
        parse_hex_spec(seq![c], max) is Some,
        parse_hex_spec(s, max)->0 * 16 + parse_hex_spec(seq![c], max)->0 <= max,
    ensures
        parse_hex_spec(s.push(c), max) == Some(
            parse_hex_spec(s, max)->0 * 16 + parse_hex_spec(seq![c], max)->0,
        ),
{
    let t = s.push(c);
    assert(t.drop_last() =~= s);
    assert(t[0] == s[0]);
    assert(plus_stripped(s) == s);
    assert(plus_stripped(t) == t);
    let u = seq![c];
    assert(u.drop_last() =~= Seq::<char>::empty());
    assert(hex_digits_value(u.drop_last()) == Some(0int));
    assert(u.last() == c);
    if c == '+' {
        assert(plus_stripped(u) =~= Seq::<char>::empty());
    } else {
        assert(plus_stripped(u) == u);
    }
    assert(hex_digit_value(c) == Some(parse_hex_spec(u, max)->0));
    assert(hex_digits_value(s) == Some(parse_hex_spec(s, max)->0));
    assert(t.last() == c);
}

} // verus!
