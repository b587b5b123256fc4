//! The HUD message feed (`/hudmsg`): picks the last damage message out of the
//! JSON text the game serves.  All positions are character positions, since
//! messages hold CJK text.
use vstd::prelude::*;
use crate::number::{parse_i32, parse_i32_spec};
use crate::text::{
    char_pos_from, either_pos_from, find_from, first_occurrence, first_occurrence_from,
    lemma_char_pos_bounds, lemma_either_pos_bounds, scan_to, scan_to_either, string_from_chars,
    to_chars,
};

verus! {

/// Placeholder for the event list of the feed.
pub struct Events {}

/// A damage message.  `sender`, `enemy` and `mode` are never filled by the parser.
pub struct Damage {
    pub id: i32,
    pub msg: Option<String>,
    pub sender: Option<String>,
    pub enemy: bool,
    pub mode: Option<String>,
    pub updated: bool,
}

impl Default for Damage {
    fn default() -> (r: Damage)
        ensures
            r.id == 0,
            r.msg is None,
            r.sender is None,
            !r.enemy,
            r.mode is None,
            !r.updated,
    {
        Damage { id: 0, msg: None, sender: None, enemy: false, mode: None, updated: false }
    }
}

/// The last index `<= j` holding `c`, or -1 when there is none.
pub open spec fn char_pos_back(s: Seq<char>, c: char, j: int) -> int
    decreases j + 1,
{
    if j < 0 {
        -1
    } else if j < s.len() && s[j] == c {
        j
    } else {
        char_pos_back(s, c, j - 1)
    }
}

proof fn lemma_char_pos_back_bounds(s: Seq<char>, c: char, j: int)
    requires
        -1 <= j < s.len(),
    ensures
        -1 <= char_pos_back(s, c, j) <= j,
        char_pos_back(s, c, j) >= 0 ==> s[char_pos_back(s, c, j)] == c,
        forall|k: int| char_pos_back(s, c, j) < k <= j ==> s[k] != c,
    decreases j + 1,
{
    if j >= 0 && s[j] != c {
        lemma_char_pos_back_bounds(s, c, j - 1);
    }
}

/// True when the last object of a feed text of more than 30 characters can be
/// cut out: there is a `{` before the closing `]}`.
pub open spec fn last_line_ok(s: Seq<char>) -> bool {
    s.len() > 30 ==> char_pos_back(s, '{', s.len() - 3) >= 0
}

/// The last `{...}` object of a feed text (the text without its closing `]}`,
/// from the last `{` before it); empty for texts of at most 30 characters.
pub open spec fn last_line(s: Seq<char>) -> Seq<char> {
    if s.len() > 30 {
        s.subrange(char_pos_back(s, '{', s.len() - 3), s.len() - 2)
    } else {
        Seq::empty()
    }
}

/// Position of the first `:` of a damage object (its id field).
pub open spec fn id_colon(cs: Seq<char>) -> int {
    char_pos_from(cs, ':', 0)
}

/// End of the id value: the `,` after it.
pub open spec fn id_end(cs: Seq<char>) -> int {
    char_pos_from(cs, ',', id_colon(cs) + 2)
}

/// The text of the id value (after `: `).
pub open spec fn id_text(cs: Seq<char>) -> Seq<char> {
    cs.subrange(id_colon(cs) + 2, id_end(cs))
}

/// Position of the `:` of the message field.
pub open spec fn msg_colon(cs: Seq<char>) -> int {
    char_pos_from(cs, ':', id_end(cs) + 1)
}

/// Position of the opening quote of the message.
pub open spec fn msg_open(cs: Seq<char>) -> int {
    char_pos_from(cs, '"', msg_colon(cs) + 1)
}

/// Position of the closing quote of the message.
pub open spec fn msg_close(cs: Seq<char>) -> int {
    char_pos_from(cs, '"', msg_open(cs) + 1)
}

/// The message text.
pub open spec fn msg_text(cs: Seq<char>) -> Seq<char> {
    cs.subrange(msg_open(cs) + 1, msg_close(cs))
}

/// True when a damage object of more than 20 characters can be read: it has
/// an id field `"id": N,` whose value is an integer and a quoted message.
pub open spec fn object_ok(cs: Seq<char>) -> bool {
    &&& id_colon(cs) < cs.len()
    &&& id_end(cs) < cs.len()
    &&& parse_i32_spec(id_text(cs)) is Some
    &&& msg_colon(cs) < cs.len()
    &&& msg_open(cs) < cs.len()
    &&& msg_close(cs) < cs.len()
}

/// True when `update` reads the feed text `s` without failing.
pub open spec fn update_ok(s: Seq<char>) -> bool {
    &&& last_line_ok(s)
    &&& last_line(s).len() > 20 ==> object_ok(last_line(s))
}

/// The reader of the HUD message feed.
pub struct HudMsg {
    /// The current feed text.
    pub s: String,
    /// The last damage message; `None` until [`HudMsg::init`].
    pub dmg: Option<Damage>,
}

impl HudMsg {
    pub open spec fn text(&self) -> Seq<char> {
        self.s@
    }

    pub fn new() -> (r: HudMsg)
        ensures
            r.dmg is None,
            r.text() == Seq::<char>::empty(),
    {
        HudMsg { s: String::new(), dmg: None }
    }

    /// The last `{...}` object of the current feed text.
    fn get_dmg_last_line(&self) -> (r: String)
        requires
            last_line_ok(self.s@),
        ensures
            r@ == last_line(self.s@),
    {
        let cs = to_chars(self.s.as_str());
        if cs.len() > 30 {
            let eix = cs.len() - 2;
            let mut bix = eix - 1;
            proof {
                lemma_char_pos_back_bounds(cs@, '{', bix as int);
            }
            while cs[bix] != '{'
                invariant
                    bix < cs.len(),
                    char_pos_back(cs@, '{', cs.len() - 3) == char_pos_back(cs@, '{', bix as int),
                    char_pos_back(cs@, '{', bix as int) >= 0,
                decreases bix,
            {
                proof {
                    lemma_char_pos_back_bounds(cs@, '{', bix as int);
                }
                bix -= 1;
            }
            string_from_chars(&cs, bix, eix)
        } else {
            String::new()
        }
    }

    /// The first `{...}` object after the first occurrence of `a` in the
    /// current feed text; empty when `a` does not occur or a `]` closes the
    /// array before an object starts.
    fn get_line(&self, a: &str) -> (r: String)
        requires
            line_ok(self.s@, a@),
        ensures
            r@ == line_after(self.s@, a@),
    {
        let cs = to_chars(self.s.as_str());
        let needle = to_chars(a);
        match find_from(&cs, &needle, 0) {
            None => String::new(),
            Some(bix) => {
                let mut eix = bix + 1;
                if cs[eix] != '{' {
                    proof {
                        lemma_either_pos_bounds(cs@, ']', '{', eix + 1);
                    }
                    let k = scan_to_either(&cs, ']', '{', eix + 1);
                    if cs[k] == ']' {
                        return String::new();
                    }
                    eix = k;
                }
                let start = eix;
                proof {
                    lemma_char_pos_bounds(cs@, '}', start + 1);
                }
                let close = scan_to(&cs, '}', start + 1);
                string_from_chars(&cs, start, close + 1)
            },
        }
    }

    /// Reads one damage object into `dmg`: its id and its message.  Returns 1
    /// when the object was read, 0 when it is too short (at most 20 characters).
    pub fn parse_obj(&mut self, buf: &str) -> (r: i32)
        requires
            buf@.len() > 20 ==> old(self).dmg is Some && object_ok(buf@),
        ensures
            buf@.len() <= 20 ==> r == 0 && final(self).dmg == old(self).dmg,
            buf@.len() > 20 ==> r == 1,
            buf@.len() > 20 ==> (final(self).dmg matches Some(d) && old(self).dmg matches Some(od)
                && {
                &&& d.id == parse_i32_spec(id_text(buf@)).unwrap()
                &&& d.msg matches Some(m) && m@ == msg_text(buf@)
                &&& d.sender == od.sender
                &&& d.enemy == od.enemy
                &&& d.mode == od.mode
                &&& d.updated == od.updated
            }),
            final(self).s == old(self).s,
    {
        let cs = to_chars(buf);
        if cs.len() > 20 {
            let ghost c = cs@;
            proof {
                lemma_char_pos_bounds(c, ':', 0);
            }
            let colon = scan_to(&cs, ':', 0);
            proof {
                lemma_char_pos_bounds(c, ',', colon + 2);
            }
            let comma = scan_to(&cs, ',', colon + 2);
            let id = match parse_i32(&cs.as_slice()[colon + 2..comma]) {
                Some(v) => v,
                None => {
                    assert(cs@.subrange(colon + 2, comma as int) == id_text(c));
                    assert(false);
                    0
                },
            };
            proof {
                lemma_char_pos_bounds(c, ':', comma + 1);
            }
            let colon2 = scan_to(&cs, ':', comma + 1);
            proof {
                lemma_char_pos_bounds(c, '"', colon2 + 1);
            }
            let open = scan_to(&cs, '"', colon2 + 1);
            proof {
                lemma_char_pos_bounds(c, '"', open + 1);
            }
            let close = scan_to(&cs, '"', open + 1);
            let msg = string_from_chars(&cs, open + 1, close);
            match &mut self.dmg {
                Some(d) => {
                    d.id = id;
                    d.msg = Some(msg);
                },
                None => {},
            }
            1
        } else {
            0
        }
    }

    /// Starts a fresh damage record.
    pub fn init(&mut self)
        ensures
            final(self).dmg matches Some(d) && d.id == 0 && d.msg is None && d.sender is None
                && !d.enemy && d.mode is None && !d.updated,
            final(self).s == old(self).s,
    {
        self.dmg = Some(Damage::default());
    }

    /// Takes a new feed text: reads its last damage object and returns that
    /// object's id, or `last_dmg` when the text holds no object.  `updated`
    /// tells whether an object was read.
    pub fn update(&mut self, s: &str, last_dmg: i32) -> (r: i32)
        requires
            old(self).dmg is Some,
            update_ok(s@),
        ensures
            final(self).text() == s@,
            final(self).dmg matches Some(d) && old(self).dmg matches Some(od) && {
                &&& if last_line(s@).len() > 20 {
                    &&& r == d.id
                    &&& d.updated
                    &&& d.id == parse_i32_spec(id_text(last_line(s@))).unwrap()
                    &&& d.msg matches Some(m) && m@ == msg_text(last_line(s@))
                } else {
                    &&& r == last_dmg
                    &&& !d.updated
                    &&& d.id == od.id
                    &&& d.msg == od.msg
                }
                &&& d.sender == od.sender
                &&& d.enemy == od.enemy
                &&& d.mode == od.mode
            },
    {
        self.s = crate::text::owned(s);
        match &mut self.dmg {
            Some(d) => {
                d.updated = false;
            },
            None => {},
        }
        let lastbuf = self.get_dmg_last_line();
        if self.parse_obj(lastbuf.as_str()) == 1 {
            match &mut self.dmg {
                Some(d) => {
                    d.updated = true;
                    d.id
                },
                None => last_dmg,
            }
        } else {
            last_dmg
        }
    }

    /// True when [`HudMsg::update`] can read the feed text `s`.
    pub fn can_update(s: &str) -> (r: bool)
        ensures
            r == update_ok(s@),
    {
        let cs = to_chars(s);
        let n = cs.len();
        if n <= 30 {
            return true;
        }
        let mut b = n - 3;
        proof {
            lemma_char_pos_back_bounds(cs@, '{', b as int);
        }
        loop
            invariant_except_break
                b <= n - 3,
                n > 30,
                cs@ == s@,
                b < n == cs.len(),
                char_pos_back(cs@, '{', n - 3) == char_pos_back(cs@, '{', b as int),
            ensures
                b <= n - 3,
                n > 30,
                cs@ == s@,
                n == cs.len(),
                char_pos_back(cs@, '{', n - 3) == b,
            decreases b,
        {
            if cs[b] == '{' {
                break;
            }
            if b == 0 {
                assert(char_pos_back(cs@, '{', -1) == -1);
                assert(char_pos_back(cs@, '{', 0) == -1);
                return false;
            }
            b -= 1;
        }
        let line = crate::java_number::slice_chars(&cs, b, n - 2);
        assert(line@ == last_line(s@));
        if line.len() <= 20 {
            return true;
        }
        object_ok_exec(&line)
    }
}

/// True when a damage object can be read.
fn object_ok_exec(cs: &Vec<char>) -> (r: bool)
    ensures
        r == object_ok(cs@),
{
    let n = cs.len();
    let ghost c = cs@;
    proof {
        lemma_char_pos_bounds(c, ':', 0);
    }
    let colon = scan_to(cs, ':', 0);
    if colon >= n {
        return false;
    }
    if n - colon < 2 {
        return false;
    }
    proof {
        lemma_char_pos_bounds(c, ',', colon + 2);
    }
    let comma = scan_to(cs, ',', colon + 2);
    if comma >= n {
        return false;
    }
    if parse_i32(&cs.as_slice()[colon + 2..comma]).is_none() {
        return false;
    }
    proof {
        lemma_char_pos_bounds(c, ':', comma + 1);
    }
    let colon2 = scan_to(cs, ':', comma + 1);
    if colon2 >= n {
        return false;
    }
    proof {
        lemma_char_pos_bounds(c, '"', colon2 + 1);
    }
    let open = scan_to(cs, '"', colon2 + 1);
    if open >= n {
        return false;
    }
    proof {
        lemma_char_pos_bounds(c, '"', open + 1);
    }
    let close = scan_to(cs, '"', open + 1);
    close < n
}

/// Position of the `{` that starts the object after the key found at `b`
/// (`b + 1` itself, or the first `{` or `]` after it).
pub open spec fn line_open(s: Seq<char>, b: int) -> int {
    if s[b + 1] == '{' {
        b + 1
    } else {
        either_pos_from(s, ']', '{', b + 2)
    }
}

/// True when `get_line` reads the feed text `s` for the key `a` without failing.
pub open spec fn line_ok(s: Seq<char>, a: Seq<char>) -> bool {
    first_occurrence(s, a) matches Some(b) ==> {
        &&& b + 1 < s.len()
        &&& line_open(s, b) < s.len()
        &&& (s[line_open(s, b)] == '{' ==> char_pos_from(s, '}', line_open(s, b) + 1) < s.len())
    }
}

/// The first object after the key `a`, or empty (see [`HudMsg::get_line`]).
pub open spec fn line_after(s: Seq<char>, a: Seq<char>) -> Seq<char> {
    match first_occurrence(s, a) {
        None => Seq::empty(),
        Some(b) => if s[line_open(s, b)] == ']' {
            Seq::empty()
        } else {
            s.subrange(line_open(s, b), char_pos_from(s, '}', line_open(s, b) + 1) + 1)
        },
    }
}

} // verus!
