//! A small S-expression reader for the overlay layout configuration.
//!
//! Supported forms: lists `(a b c)`, strings `"hello world"`, numbers
//! (`123`, `12.34`, every literal Java's `Double.parseDouble` accepts),
//! booleans `true`/`false`, keywords `:x` and symbols `panel`.  A `;` starts a
//! comment that runs to the end of the line.
use vstd::prelude::*;
use std::rc::Rc;
use vstd::string::StringExecFns;
use crate::java_number::{is_java_number, java_number_syntax, slice_chars};
use crate::text::{char_pos_from, lemma_char_pos_bounds, push_char, scan_to, string_from_chars, to_chars};

verus! {

// --- AST nodes ---

/// An S-expression: a list or an atom.
#[derive(Debug, Clone, PartialEq, Eq)]
pub enum SExp {
    List(SList),
    Atom(SAtom),
}

/// A parenthesised list of S-expressions.
#[derive(Debug, Clone, PartialEq, Eq)]
pub struct SList {
    pub children: Vec<Rc<SExp>>,
}

/// The kind of an atom.
#[derive(Debug, Clone, Copy, PartialEq, Eq, Structural)]
pub enum AtomType {
    String,
    Number,
    Boolean,
    Keyword,
    Symbol,
}

/// An atom: its text and its kind.
#[derive(Debug, Clone, PartialEq, Eq)]
pub struct SAtom {
    pub value: String,
    pub atom_type: AtomType,
}

/// The mathematical value of an S-expression.
pub enum SExpModel {
    List(Seq<SExpModel>),
    Atom(Seq<char>, AtomType),
}

impl SAtom {
    pub open spec fn model(&self) -> SExpModel {
        SExpModel::Atom(self.value@, self.atom_type)
    }
}

impl SExp {
    pub open spec fn model(&self) -> SExpModel
        decreases self,
    {
        match self {
            SExp::List(l) => SExpModel::List(children_model(l.children@)),
            SExp::Atom(a) => a.model(),
        }
    }
}

/// The values of a sequence of shared S-expressions.
pub open spec fn children_model(cs: Seq<Rc<SExp>>) -> Seq<SExpModel>
    decreases cs,
{
    if cs.len() == 0 {
        Seq::empty()
    } else {
        children_model(cs.drop_last()).push((*cs.last()).model())
    }
}

pub proof fn lemma_children_model_push(cs: Seq<Rc<SExp>>, e: Rc<SExp>)
    ensures
        children_model(cs.push(e)) == children_model(cs).push((*e).model()),
{
    assert(cs.push(e).drop_last() =~= cs);
}

pub proof fn lemma_children_model_index(cs: Seq<Rc<SExp>>)
    ensures
        children_model(cs).len() == cs.len(),
        forall|i: int| 0 <= i < cs.len() ==> #[trigger] children_model(cs)[i] == (*cs[i]).model(),
    decreases cs.len(),
{
    if cs.len() > 0 {
        lemma_children_model_index(cs.drop_last());
    }
}

/// The printed form of an S-expression: a list is its children separated by
/// single spaces inside parentheses; a string atom is its text inside double
/// quotes (inner quotes are not escaped); other atoms are their text.
pub open spec fn model_text(m: SExpModel) -> Seq<char>
    decreases m,
{
    match m {
        SExpModel::List(items) => seq!['('] + items_text(items) + seq![')'],
        SExpModel::Atom(v, t) => if t == AtomType::String {
            seq!['"'] + v + seq!['"']
        } else {
            v
        },
    }
}

/// The printed forms of `items` separated by single spaces.
pub open spec fn items_text(items: Seq<SExpModel>) -> Seq<char>
    decreases items,
{
    if items.len() == 0 {
        Seq::empty()
    } else if items.len() == 1 {
        model_text(items[0])
    } else {
        items_text(items.drop_last()) + seq![' '] + model_text(items.last())
    }
}

impl SExp {
    pub fn is_list(&self) -> (r: bool)
        ensures
            r == (self is List),
    {
        match self {
            SExp::List(_) => true,
            SExp::Atom(_) => false,
        }
    }

    pub fn is_atom(&self) -> (r: bool)
        ensures
            r == (self is Atom),
    {
        match self {
            SExp::List(_) => false,
            SExp::Atom(_) => true,
        }
    }

    /// The list this expression is; only defined on lists.
    pub fn as_list(&self) -> (r: &SList)
        requires
            self is List,
        ensures
            self == SExp::List(*r),
    {
        match self {
            SExp::List(l) => l,
            SExp::Atom(_) => {
                assert(false);
                unreached()
            },
        }
    }

    /// The atom this expression is; only defined on atoms.
    pub fn as_atom(&self) -> (r: &SAtom)
        requires
            self is Atom,
        ensures
            self == SExp::Atom(*r),
    {
        match self {
            SExp::Atom(a) => a,
            SExp::List(_) => {
                assert(false);
                unreached()
            },
        }
    }

    /// The printed form of this expression.
    pub fn to_string(&self) -> (r: String)
        ensures
            r@ == model_text(self.model()),
        decreases self,
    {
        match self {
            SExp::List(l) => l.to_string(),
            SExp::Atom(a) => a.to_string(),
        }
    }
}

impl SList {
    pub open spec fn model(&self) -> SExpModel {
        SExpModel::List(children_model(self.children@))
    }

    pub fn new() -> (r: SList)
        ensures
            r.children@ == Seq::<Rc<SExp>>::empty(),
    {
        SList { children: Vec::new() }
    }

    /// Appends a child.
    pub fn add(&mut self, exp: Rc<SExp>)
        ensures
            final(self).children@ == old(self).children@.push(exp),
    {
        self.children.push(exp);
    }

    /// The printed form of this list.
    pub fn to_string(&self) -> (r: String)
        ensures
            r@ == model_text(self.model()),
        decreases self,
    {
        let mut r = String::new();
        push_char(&mut r, '(');
        let n = self.children.len();
        let ghost cs = self.children@;
        proof {
            lemma_children_model_index(cs);
        }
        let mut i: usize = 0;
        while i < n
            invariant
                i <= n == cs.len(),
                cs == self.children@,
                children_model(cs).len() == cs.len(),
                forall|k: int| 0 <= k < cs.len() ==> #[trigger] children_model(cs)[k] == (*cs[k]).model(),
                r@ == seq!['('] + items_text(children_model(cs).take(i as int)),
            decreases n - i,
        {
            let ghost before = children_model(cs).take(i as int);
            let ghost after = children_model(cs).take(i + 1);
            assert(after.drop_last() =~= before);
            assert(decreases_to!(self => self.children));
            let child: &SExp = &self.children[i];
            let t = child.to_string();
            if i > 0 {
                push_char(&mut r, ' ');
            }
            r.append(t.as_str());
            proof {
                if i == 0 {
                    assert(after.len() == 1);
                    assert(r@ =~= seq!['('] + items_text(after));
                } else {
                    assert(r@ =~= seq!['('] + items_text(after));
                }
            }
            i += 1;
        }
        assert(children_model(cs).take(n as int) =~= children_model(cs));
        push_char(&mut r, ')');
        r
    }
}

impl SAtom {
    pub fn new(value: String, atom_type: AtomType) -> (r: SAtom)
        ensures
            r.value == value,
            r.atom_type == atom_type,
    {
        SAtom { value, atom_type }
    }

    pub fn get_string(&self) -> (r: &str)
        ensures
            r@ == self.value@,
    {
        self.value.as_str()
    }

    /// True when the text equals `true` ignoring ASCII case.
    pub fn get_bool(&self) -> (r: bool)
        ensures
            r == is_true_ignoring_case(self.value@),
    {
        let v = to_chars(self.value.as_str());
        v.len() == 4 && (v[0] == 't' || v[0] == 'T') && (v[1] == 'r' || v[1] == 'R') && (v[2]
            == 'u' || v[2] == 'U') && (v[3] == 'e' || v[3] == 'E')
    }

    pub fn is_keyword(&self) -> (r: bool)
        ensures
            r == (self.atom_type == AtomType::Keyword),
    {
        match self.atom_type {
            AtomType::Keyword => true,
            _ => false,
        }
    }

    pub fn is_symbol(&self) -> (r: bool)
        ensures
            r == (self.atom_type == AtomType::Symbol),
    {
        match self.atom_type {
            AtomType::Symbol => true,
            _ => false,
        }
    }

    /// The printed form of this atom.
    pub fn to_string(&self) -> (r: String)
        ensures
            r@ == model_text(self.model()),
    {
        let is_string = match self.atom_type {
            AtomType::String => true,
            _ => false,
        };
        if is_string {
            let mut r = String::new();
            push_char(&mut r, '"');
            r.append(self.value.as_str());
            push_char(&mut r, '"');
            r
        } else {
            self.value.clone()
        }
    }
}

/// The text equals `true` ignoring ASCII case.
pub open spec fn is_true_ignoring_case(v: Seq<char>) -> bool {
    &&& v.len() == 4
    &&& (v[0] == 't' || v[0] == 'T')
    &&& (v[1] == 'r' || v[1] == 'R')
    &&& (v[2] == 'u' || v[2] == 'U')
    &&& (v[3] == 'e' || v[3] == 'E')
}

// --- Tokenizer ---

/// The kind of a token.
#[derive(Debug, Clone, Copy, PartialEq, Eq, Structural)]
pub enum TokenType {
    LParen,
    RParen,
    String,
    Number,
    Boolean,
    Keyword,
    Symbol,
    Eof,
}

/// A token: its kind and its text.
struct Token {
    kind: TokenType,
    value: String,
}

/// The mathematical value of a token.
pub type TokenModel = (TokenType, Seq<char>);

impl Token {
    spec fn model(&self) -> TokenModel {
        (self.kind, self.value@)
    }

    fn new(kind: TokenType, value: String) -> (r: Token)
        ensures
            r.model() == (kind, value@),
    {
        Token { kind, value }
    }

    fn single(kind: TokenType, c: char) -> (r: Token)
        ensures
            r.model() == (kind, seq![c]),
    {
        let mut v = String::new();
        push_char(&mut v, c);
        Token { kind, value: v }
    }
}

spec fn tokens_model(ts: Seq<Token>) -> Seq<TokenModel> {
    ts.map_values(|t: Token| t.model())
}

/// Whitespace between tokens: the code points U+0009..U+000D, U+001C..U+0020,
/// U+1680, U+180E, U+2000..U+2006, U+2008..U+200A, U+2028, U+2029, U+205F and U+3000.
pub open spec fn java_whitespace(c: char) -> bool {
    let u = c as u32;
    ||| 0x09 <= u && u <= 0x0d
    ||| 0x1c <= u && u <= 0x20
    ||| u == 0x1680
    ||| u == 0x180e
    ||| 0x2000 <= u && u <= 0x2006
    ||| 0x2008 <= u && u <= 0x200a
    ||| u == 0x2028
    ||| u == 0x2029
    ||| u == 0x205f
    ||| u == 0x3000
}

/// Whitespace between tokens (see [`java_whitespace`]).
pub fn java_is_whitespace(c: char) -> (r: bool)
    ensures
        r == java_whitespace(c),
{
    let u = c as u32;
    (0x09 <= u && u <= 0x0d) || (0x1c <= u && u <= 0x20) || u == 0x1680 || u == 0x180e || (0x2000
        <= u && u <= 0x2006) || (0x2008 <= u && u <= 0x200a) || u == 0x2028 || u == 0x2029 || u
        == 0x205f || u == 0x3000
}

/// Characters that end an atom: whitespace, parentheses and `;` (not quotes).
pub open spec fn is_atom_delimiter(c: char) -> bool {
    java_whitespace(c) || c == '(' || c == ')' || c == ';'
}

/// The end of the atom that starts at `i`.
pub open spec fn atom_end(s: Seq<char>, i: int) -> int
    decreases s.len() - i,
{
    if i >= s.len() {
        s.len() as int
    } else if i >= 0 && is_atom_delimiter(s[i]) {
        i
    } else {
        atom_end(s, i + 1)
    }
}

/// The text of a string literal whose body starts at `i`, and the position after
/// it.  A backslash takes the next character verbatim (unless it is the last
/// character); the literal ends at the next `"` or at the end of the input.
pub open spec fn string_body(s: Seq<char>, i: int) -> (Seq<char>, int)
    decreases s.len() - i,
{
    if i >= s.len() {
        (Seq::empty(), i)
    } else if i >= 0 && s[i] == '"' {
        (Seq::empty(), i + 1)
    } else if i >= 0 && s[i] == '\\' && i + 1 < s.len() {
        let rest = string_body(s, i + 2);
        (seq![s[i + 1]] + rest.0, rest.1)
    } else {
        let rest = string_body(s, i + 1);
        (seq![s[i]] + rest.0, rest.1)
    }
}

pub open spec fn true_chars() -> Seq<char> {
    seq!['t', 'r', 'u', 'e']
}

pub open spec fn false_chars() -> Seq<char> {
    seq!['f', 'a', 'l', 's', 'e']
}

/// The kind of an atom by its text: a leading `:` makes a keyword, `true` and
/// `false` booleans, a number literal (see [`java_number_syntax`]) a number,
/// anything else a symbol.
pub open spec fn classify_atom(a: Seq<char>) -> TokenType {
    if a.len() > 0 && a[0] == ':' {
        TokenType::Keyword
    } else if a == true_chars() || a == false_chars() {
        TokenType::Boolean
    } else if java_number_syntax(a) {
        TokenType::Number
    } else {
        TokenType::Symbol
    }
}

pub proof fn lemma_atom_end_bounds(s: Seq<char>, i: int)
    requires
        0 <= i <= s.len(),
    ensures
        i <= atom_end(s, i) <= s.len(),
        forall|k: int| i <= k < atom_end(s, i) ==> !is_atom_delimiter(#[trigger] s[k]),
        atom_end(s, i) < s.len() ==> is_atom_delimiter(s[atom_end(s, i)]),
    decreases s.len() - i,
{
    if i < s.len() && !is_atom_delimiter(s[i]) {
        lemma_atom_end_bounds(s, i + 1);
    }
}

pub proof fn lemma_string_body_bounds(s: Seq<char>, i: int)
    requires
        0 <= i <= s.len(),
    ensures
        i <= string_body(s, i).1 <= s.len(),
    decreases s.len() - i,
{
    if i < s.len() && s[i] != '"' {
        if s[i] == '\\' && i + 1 < s.len() {
            lemma_string_body_bounds(s, i + 2);
        } else {
            lemma_string_body_bounds(s, i + 1);
        }
    }
}

/// The tokens of `s` from position `i` on (without the final end marker).
pub open spec fn tokens_from(s: Seq<char>, i: int) -> Seq<TokenModel>
    decreases s.len() - i,
{
    if i < 0 || i >= s.len() {
        Seq::empty()
    } else if java_whitespace(s[i]) {
        tokens_from(s, i + 1)
    } else if s[i] == ';' {
        proof {
            lemma_char_pos_bounds(s, '\n', i);
        }
        tokens_from(s, char_pos_from(s, '\n', i))
    } else if s[i] == '(' {
        seq![(TokenType::LParen, seq!['('])] + tokens_from(s, i + 1)
    } else if s[i] == ')' {
        seq![(TokenType::RParen, seq![')'])] + tokens_from(s, i + 1)
    } else if s[i] == '"' {
        proof {
            lemma_string_body_bounds(s, i + 1);
        }
        let b = string_body(s, i + 1);
        seq![(TokenType::String, b.0)] + tokens_from(s, b.1)
    } else {
        proof {
            lemma_atom_end_bounds(s, i + 1);
        }
        let j = atom_end(s, i + 1);
        let a = s.subrange(i, j);
        seq![(classify_atom(a), a)] + tokens_from(s, j)
    }
}

/// The tokens of `s`, closed by the end marker.
pub open spec fn tokenize_spec(s: Seq<char>) -> Seq<TokenModel> {
    tokens_from(s, 0).push((TokenType::Eof, Seq::empty()))
}

/// True when the characters of `v` are the characters of `lit`.
fn chars_are(v: &Vec<char>, lit: &Vec<char>) -> (r: bool)
    ensures
        r == (v@ == lit@),
{
    crate::text::chars_eq(v, lit)
}

fn classify_atom_exec(a: &Vec<char>) -> (r: TokenType)
    ensures
        r == classify_atom(a@),
{
    let mut t: Vec<char> = Vec::new();
    t.push('t');
    t.push('r');
    t.push('u');
    t.push('e');
    let mut f: Vec<char> = Vec::new();
    f.push('f');
    f.push('a');
    f.push('l');
    f.push('s');
    f.push('e');
    assert(t@ =~= true_chars());
    assert(f@ =~= false_chars());
    if a.len() > 0 && a[0] == ':' {
        TokenType::Keyword
    } else if chars_are(a, &t) || chars_are(a, &f) {
        TokenType::Boolean
    } else if is_java_number(a) {
        TokenType::Number
    } else {
        TokenType::Symbol
    }
}

// --- Parser ---

/// The kind of the token at `pos` (the end marker past the last token).
pub open spec fn peek_kind(t: Seq<TokenModel>, pos: int) -> TokenType {
    if 0 <= pos < t.len() {
        t[pos].0
    } else {
        TokenType::Eof
    }
}

/// The text of the token at `pos` (empty past the last token).
pub open spec fn peek_text(t: Seq<TokenModel>, pos: int) -> Seq<char> {
    if 0 <= pos < t.len() {
        t[pos].1
    } else {
        Seq::empty()
    }
}

/// The position after consuming the token at `pos`.
pub open spec fn next_pos(t: Seq<TokenModel>, pos: int) -> int {
    if pos < t.len() {
        pos + 1
    } else {
        t.len() as int
    }
}

/// The atom kind a token becomes; every other token becomes a symbol.
pub open spec fn atom_type_of(k: TokenType) -> AtomType {
    match k {
        TokenType::String => AtomType::String,
        TokenType::Number => AtomType::Number,
        TokenType::Boolean => AtomType::Boolean,
        TokenType::Keyword => AtomType::Keyword,
        _ => AtomType::Symbol,
    }
}

/// The expression that starts at token `pos`, and the position after it.
/// A `(` opens a list that runs to the matching `)` or the end of input; any
/// other token (a stray `)` included) is an atom.
pub open spec fn parse_expr_spec(t: Seq<TokenModel>, pos: int) -> (SExpModel, int)
    decreases t.len() - pos, 1int,
{
    if 0 <= pos < t.len() && t[pos].0 == TokenType::LParen {
        let items = list_items_spec(t, pos + 1);
        (SExpModel::List(items.0), next_pos(t, items.1))
    } else {
        (SExpModel::Atom(peek_text(t, pos), atom_type_of(peek_kind(t, pos))), next_pos(t, pos))
    }
}

/// The elements of a list from token `pos` up to its `)` or the end of input,
/// and the position of that closing token.
pub open spec fn list_items_spec(t: Seq<TokenModel>, pos: int) -> (Seq<SExpModel>, int)
    decreases t.len() - pos, 2int,
{
    if pos < 0 || pos >= t.len() || t[pos].0 == TokenType::RParen || t[pos].0 == TokenType::Eof {
        (Seq::empty(), pos)
    } else {
        let e = parse_expr_spec(t, pos);
        if e.1 <= pos || e.1 > t.len() {
            (seq![e.0], e.1)
        } else {
            let rest = list_items_spec(t, e.1);
            (seq![e.0] + rest.0, rest.1)
        }
    }
}

/// The top-level expressions from token `pos` up to the end marker.
pub open spec fn parse_all_spec(t: Seq<TokenModel>, pos: int) -> Seq<SExpModel>
    decreases t.len() - pos,
{
    if pos < 0 || pos >= t.len() || t[pos].0 == TokenType::Eof {
        Seq::empty()
    } else {
        let e = parse_expr_spec(t, pos);
        if e.1 <= pos || e.1 > t.len() {
            seq![e.0]
        } else {
            seq![e.0] + parse_all_spec(t, e.1)
        }
    }
}

/// The top-level expressions of a configuration text.
pub open spec fn parse_text_spec(s: Seq<char>) -> Seq<SExpModel> {
    parse_all_spec(tokenize_spec(s), 0)
}

/// A reusable S-expression parser.
pub struct SExpParser {
    pos: usize,
    tokens: Vec<Token>,
}

impl SExpParser {
    spec fn token_models(&self) -> Seq<TokenModel> {
        tokens_model(self.tokens@)
    }

    /// True when the parser holds no tokens.
    pub closed spec fn is_idle(&self) -> bool {
        self.pos == 0 && self.tokens@.len() == 0
    }

    /// A parser that holds no tokens yet.
    pub fn new() -> (r: SExpParser)
        ensures
            r.is_idle(),
    {
        SExpParser { pos: 0, tokens: Vec::new() }
    }

    /// The tokens of `input`, closed by the end marker.
    fn tokenize(&self, input: &str) -> (r: Vec<Token>)
        ensures
            tokens_model(r@) == tokenize_spec(input@),
    {
        let mut tokens: Vec<Token> = Vec::new();
        let chars = to_chars(input);
        let len = chars.len();
        let ghost s = chars@;
        let mut i: usize = 0;
        assert(tokens_model(tokens@) + tokens_from(s, 0) =~= tokens_from(s, 0));
        while i < len
            invariant
                i <= len == chars.len(),
                s == chars@,
                tokens_model(tokens@) + tokens_from(s, i as int) == tokens_from(s, 0),
            decreases len - i,
        {
            let ghost before = tokens@;
            let c = chars[i];
            if java_is_whitespace(c) {
                i += 1;
                continue;
            }
            if c == ';' {
                proof {
                    lemma_char_pos_bounds(s, '\n', i as int);
                }
                i = scan_to(&chars, '\n', i);
                continue;
            }
            if c == '(' || c == ')' {
                let kind = if c == '(' {
                    TokenType::LParen
                } else {
                    TokenType::RParen
                };
                let tok = Token::single(kind, c);
                tokens.push(tok);
                assert(tokens_model(tokens@) =~= tokens_model(before).push(tok.model()));
                assert(tokens_model(tokens@) + tokens_from(s, i + 1) =~= tokens_model(before)
                    + tokens_from(s, i as int));
                i += 1;
                continue;
            }
            if c == '"' {
                let mut sb = String::new();
                i += 1;
                let ghost start = i as int;
                proof {
                    lemma_string_body_bounds(s, start);
                }
                while i < len
                    invariant_except_break
                        start <= i <= len == chars.len(),
                        s == chars@,
                        sb@ + string_body(s, i as int).0 == string_body(s, start).0,
                        string_body(s, i as int).1 == string_body(s, start).1,
                    ensures
                        sb@ == string_body(s, start).0,
                        i == string_body(s, start).1,
                        i <= len,
                    decreases len - i,
                {
                    let sc = chars[i];
                    if sc == '"' {
                        assert(sb@ =~= sb@ + string_body(s, i as int).0);
                        i += 1;
                        break;
                    }
                    let ghost prev = sb@;
                    if sc == '\\' && i + 1 < len {
                        i += 1;
                        push_char(&mut sb, chars[i]);
                        assert(prev + string_body(s, i - 1).0 =~= sb@ + string_body(s, i + 1).0);
                    } else {
                        push_char(&mut sb, sc);
                        assert(prev + string_body(s, i as int).0 =~= sb@ + string_body(s, i + 1).0);
                    }
                    i += 1;
                }
                let tok = Token::new(TokenType::String, sb);
                tokens.push(tok);
                assert(tokens_model(tokens@) =~= tokens_model(before).push(tok.model()));
                assert(tokens_model(tokens@) + tokens_from(s, i as int) =~= tokens_model(before)
                    + tokens_from(s, start - 1));
                continue;
            }
            // an atom: a keyword, a boolean, a number or a symbol
            let start = i;
            proof {
                lemma_atom_end_bounds(s, start + 1);
            }
            while i < len && !(java_is_whitespace(chars[i]) || chars[i] == ')' || chars[i] == '('
                || chars[i] == ';')
                invariant
                    start <= i <= len == chars.len(),
                    s == chars@,
                    !is_atom_delimiter(s[start as int]),
                    atom_end(s, start + 1) == atom_end(s, i as int) || i == start,
                decreases len - i,
            {
                i += 1;
            }
            if i == start {
                // the first character is never a delimiter, so an atom is never empty
                continue;
            }
            let atom = slice_chars(&chars, start, i);
            let text = string_from_chars(&chars, start, i);
            let kind = classify_atom_exec(&atom);
            let tok = Token::new(kind, text);
            tokens.push(tok);
            assert(tokens_model(tokens@) =~= tokens_model(before).push(tok.model()));
            assert(tokens_model(tokens@) + tokens_from(s, i as int) =~= tokens_model(before)
                + tokens_from(s, start as int));
        }
        let ghost before = tokens@;
        let tok = Token::new(TokenType::Eof, String::new());
        tokens.push(tok);
        assert(tokens_model(before) =~= tokens_from(s, 0));
        assert(tokens_model(tokens@) =~= tokens_model(before).push(tok.model()));
        tokens
    }

    /// The kind of the current token.
    fn peek_kind(&self) -> (r: TokenType)
        ensures
            r == peek_kind(self.token_models(), self.pos as int),
    {
        if self.pos >= self.tokens.len() {
            TokenType::Eof
        } else {
            self.tokens[self.pos].kind
        }
    }

    /// The current token (the end marker past the last token).
    fn peek(&self) -> (r: Token)
        ensures
            r.model() == (peek_kind(self.token_models(), self.pos as int), peek_text(
                self.token_models(),
                self.pos as int,
            )),
    {
        if self.pos >= self.tokens.len() {
            return Token::new(TokenType::Eof, String::new());
        }
        let t = &self.tokens[self.pos];
        Token::new(t.kind, t.value.clone())
    }

    /// Takes the current token and moves past it.
    fn consume(&mut self) -> (r: Token)
        ensures
            final(self).tokens == old(self).tokens,
            final(self).pos == next_pos(old(self).token_models(), old(self).pos as int),
            r.model() == (peek_kind(old(self).token_models(), old(self).pos as int), peek_text(
                old(self).token_models(),
                old(self).pos as int,
            )),
    {
        let t = self.peek();
        if self.pos < self.tokens.len() {
            self.pos += 1;
        } else {
            self.pos = self.tokens.len();
        }
        t
    }

    /// Parses all top-level expressions of `input`.
    pub fn parse(&mut self, input: &str) -> (r: Vec<Rc<SExp>>)
        ensures
            children_model(r@) == parse_text_spec(input@),
    {
        self.tokens = self.tokenize(input);
        self.pos = 0;
        let mut expressions: Vec<Rc<SExp>> = Vec::new();
        let ghost t = self.token_models();
        while self.peek_kind() != TokenType::Eof
            invariant
                t == self.token_models(),
                self.pos <= self.tokens.len(),
                children_model(expressions@) + parse_all_spec(t, self.pos as int) == parse_all_spec(
                    t,
                    0,
                ),
            decreases self.tokens.len() - self.pos,
        {
            let ghost before = expressions@;
            let ghost p0 = self.pos as int;
            let e = self.parse_expression();
            expressions.push(e);
            proof {
                lemma_children_model_push(before, e);
            }
            assert(children_model(expressions@) + parse_all_spec(t, self.pos as int)
                =~= children_model(before) + parse_all_spec(t, p0));
        }
        assert(children_model(expressions@) =~= children_model(expressions@) + parse_all_spec(
            t,
            self.pos as int,
        ));
        expressions
    }

    /// Parses the expression at the current token.
    fn parse_expression(&mut self) -> (r: Rc<SExp>)
        requires
            old(self).pos <= old(self).tokens.len(),
        ensures
            final(self).tokens == old(self).tokens,
            (*r).model() == parse_expr_spec(old(self).token_models(), old(self).pos as int).0,
            final(self).pos == parse_expr_spec(old(self).token_models(), old(self).pos as int).1,
            final(self).pos <= final(self).tokens.len(),
            old(self).pos < old(self).tokens.len() ==> final(self).pos > old(self).pos,
        decreases old(self).tokens.len() - old(self).pos, 1int,
    {
        if self.peek_kind() == TokenType::LParen {
            self.parse_list()
        } else {
            Rc::new(SExp::Atom(self.parse_atom()))
        }
    }

    /// Parses the list that starts at the current `(`.
    fn parse_list(&mut self) -> (r: Rc<SExp>)
        requires
            old(self).pos < old(self).tokens.len(),
            old(self).token_models()[old(self).pos as int].0 == TokenType::LParen,
        ensures
            final(self).tokens == old(self).tokens,
            (*r).model() == parse_expr_spec(old(self).token_models(), old(self).pos as int).0,
            final(self).pos == parse_expr_spec(old(self).token_models(), old(self).pos as int).1,
            final(self).pos <= final(self).tokens.len(),
            final(self).pos > old(self).pos,
        decreases old(self).tokens.len() - old(self).pos, 0int,
    {
        let ghost t = self.token_models();
        self.consume();
        let ghost start = self.pos as int;
        let mut list = SList::new();
        while self.peek_kind() != TokenType::RParen && self.peek_kind() != TokenType::Eof
            invariant
                t == self.token_models(),
                self.tokens == old(self).tokens,
                start == old(self).pos + 1,
                start <= self.pos <= self.tokens.len(),
                children_model(list.children@) + list_items_spec(t, self.pos as int).0
                    == list_items_spec(t, start).0,
                list_items_spec(t, self.pos as int).1 == list_items_spec(t, start).1,
            decreases self.tokens.len() - self.pos,
        {
            let ghost before = list.children@;
            let ghost p0 = self.pos as int;
            let e = self.parse_expression();
            list.add(e);
            proof {
                lemma_children_model_push(before, e);
            }
            assert(children_model(list.children@) + list_items_spec(t, self.pos as int).0
                =~= children_model(before) + list_items_spec(t, p0).0);
        }
        assert(children_model(list.children@) =~= children_model(list.children@)
            + list_items_spec(t, self.pos as int).0);
        self.consume();
        Rc::new(SExp::List(list))
    }

    /// Turns the current token into an atom.
    fn parse_atom(&mut self) -> (r: SAtom)
        ensures
            final(self).tokens == old(self).tokens,
            r.model() == SExpModel::Atom(
                peek_text(old(self).token_models(), old(self).pos as int),
                atom_type_of(peek_kind(old(self).token_models(), old(self).pos as int)),
            ),
            final(self).pos == next_pos(old(self).token_models(), old(self).pos as int),
    {
        let t = self.consume();
        let atom_type = match t.kind {
            TokenType::String => AtomType::String,
            TokenType::Number => AtomType::Number,
            TokenType::Boolean => AtomType::Boolean,
            TokenType::Keyword => AtomType::Keyword,
            _ => AtomType::Symbol,
        };
        SAtom::new(t.value, atom_type)
    }
}

// --- Laws of the parser ---

/// True when `s` from position `i` on holds nothing but whitespace and
/// comments, a comment running from `;` up to the next line break.
pub open spec fn blank_from(s: Seq<char>, i: int) -> bool
    decreases s.len() - i,
{
    if i < 0 || i >= s.len() {
        true
    } else if java_whitespace(s[i]) {
        blank_from(s, i + 1)
    } else if s[i] == ';' {
        proof {
            lemma_char_pos_bounds(s, '\n', i);
        }
        blank_from(s, char_pos_from(s, '\n', i))
    } else {
        false
    }
}

proof fn lemma_tokens_empty_iff_blank(s: Seq<char>, i: int)
    requires
        0 <= i,
    ensures
        (tokens_from(s, i).len() == 0) == blank_from(s, i),
        tokens_from(s, i).len() > 0 ==> tokens_from(s, i)[0].0 != TokenType::Eof,
    decreases s.len() - i,
{
    if i < s.len() {
        if java_whitespace(s[i]) {
            lemma_tokens_empty_iff_blank(s, i + 1);
        } else if s[i] == ';' {
            lemma_char_pos_bounds(s, '\n', i);
            lemma_char_pos_bounds(s, '\n', i + 1);
            lemma_tokens_empty_iff_blank(s, char_pos_from(s, '\n', i));
        } else if s[i] == '(' || s[i] == ')' {
        } else if s[i] == '"' {
            lemma_string_body_bounds(s, i + 1);
        } else {
            lemma_atom_end_bounds(s, i + 1);
        }
    }
}

proof fn lemma_expr_advances(t: Seq<TokenModel>, pos: int)
    requires
        0 <= pos < t.len(),
    ensures
        pos < parse_expr_spec(t, pos).1 <= t.len(),
    decreases t.len() - pos, 1int,
{
    if t[pos].0 == TokenType::LParen {
        lemma_items_advance(t, pos + 1);
    }
}

proof fn lemma_items_advance(t: Seq<TokenModel>, pos: int)
    requires
        0 <= pos <= t.len(),
    ensures
        pos <= list_items_spec(t, pos).1 <= t.len(),
    decreases t.len() - pos, 2int,
{
    if !(pos >= t.len() || t[pos].0 == TokenType::RParen || t[pos].0 == TokenType::Eof) {
        lemma_expr_advances(t, pos);
        lemma_items_advance(t, parse_expr_spec(t, pos).1);
    }
}

proof fn lemma_parse_all_count(t: Seq<TokenModel>, pos: int)
    requires
        0 <= pos < t.len(),
        t[t.len() - 1].0 == TokenType::Eof,
    ensures
        parse_all_spec(t, pos).len() <= t.len() - 1 - pos,
    decreases t.len() - pos,
{
    if t[pos].0 != TokenType::Eof {
        lemma_expr_advances(t, pos);
        let e = parse_expr_spec(t, pos);
        if e.1 < t.len() {
            lemma_parse_all_count(t, e.1);
        } else {
            assert(parse_all_spec(t, e.1).len() == 0);
        }
        assert(parse_all_spec(t, pos) == seq![e.0] + parse_all_spec(t, e.1));
    }
}

/// A text parses to no expression exactly when it holds nothing but
/// whitespace and comments.
pub proof fn law_parse_empty_iff_blank(s: Seq<char>)
    ensures
        (parse_text_spec(s).len() == 0) == blank_from(s, 0),
{
    lemma_tokens_empty_iff_blank(s, 0);
    let t = tokenize_spec(s);
    assert(t[0].0 == TokenType::Eof <==> tokens_from(s, 0).len() == 0);
}

/// A text never parses to more top-level expressions than it has tokens.
pub proof fn law_parse_count_bound(s: Seq<char>)
    ensures
        parse_text_spec(s).len() <= tokens_from(s, 0).len(),
{
    let t = tokenize_spec(s);
    lemma_parse_all_count(t, 0);
}

/// True when the printed form of `m` reads back as `m`: string atoms hold no
/// `"` and no backslash; other atoms are nonempty, do not start with `"`,
/// hold no whitespace, parenthesis or `;`, and carry the kind their text is
/// read as; lists hold such expressions only.
pub open spec fn reads_back(m: SExpModel) -> bool
    decreases m,
{
    match m {
        SExpModel::List(items) => items_read_back(items),
        SExpModel::Atom(v, t) => atom_reads_back(v, t),
    }
}

/// Every one of `items` reads back (see [`reads_back`]).
pub open spec fn items_read_back(items: Seq<SExpModel>) -> bool
    decreases items,
{
    if items.len() == 0 {
        true
    } else {
        items_read_back(items.drop_last()) && reads_back(items.last())
    }
}

/// The condition of [`reads_back`] on an atom.
pub open spec fn atom_reads_back(v: Seq<char>, t: AtomType) -> bool {
    if t == AtomType::String {
        forall|k: int| 0 <= k < v.len() ==> #[trigger] v[k] != '"' && v[k] != '\\'
    } else {
        &&& v.len() > 0
        &&& v[0] != '"'
        &&& forall|k: int| 0 <= k < v.len() ==> !is_atom_delimiter(#[trigger] v[k])
        &&& atom_type_of(classify_atom(v)) == t
    }
}

/// The tokens of the printed form of `m`.
pub open spec fn expr_tokens(m: SExpModel) -> Seq<TokenModel>
    decreases m,
{
    match m {
        SExpModel::List(items) => seq![(TokenType::LParen, seq!['('])] + items_tokens(items)
            + seq![(TokenType::RParen, seq![')'])],
        SExpModel::Atom(v, t) => if t == AtomType::String {
            seq![(TokenType::String, v)]
        } else {
            seq![(classify_atom(v), v)]
        },
    }
}

/// The tokens of the printed forms of `items`, one after the other.
pub open spec fn items_tokens(items: Seq<SExpModel>) -> Seq<TokenModel>
    decreases items,
{
    if items.len() == 0 {
        Seq::empty()
    } else {
        items_tokens(items.drop_last()) + expr_tokens(items.last())
    }
}

proof fn lemma_items_read_back_each(items: Seq<SExpModel>)
    requires
        items_read_back(items),
    ensures
        forall|k: int| 0 <= k < items.len() ==> reads_back(#[trigger] items[k]),
    decreases items.len(),
{
    if items.len() > 0 {
        lemma_items_read_back_each(items.drop_last());
        assert forall|k: int| 0 <= k < items.len() implies reads_back(#[trigger] items[k]) by {
            if k < items.len() - 1 {
                assert(items[k] == items.drop_last()[k]);
            }
        }
    }
}

proof fn lemma_expr_tokens_first(m: SExpModel)
    ensures
        expr_tokens(m).len() >= 1,
        expr_tokens(m)[0].0 != TokenType::RParen,
        expr_tokens(m)[0].0 != TokenType::Eof,
{
}

proof fn lemma_items_tokens_append(a: Seq<SExpModel>, b: Seq<SExpModel>)
    ensures
        items_tokens(a + b) == items_tokens(a) + items_tokens(b),
    decreases b.len(),
{
    if b.len() == 0 {
        assert(a + b =~= a);
        assert(items_tokens(a) + items_tokens(b) =~= items_tokens(a));
    } else {
        lemma_items_tokens_append(a, b.drop_last());
        assert((a + b).drop_last() =~= a + b.drop_last());
        assert((a + b).last() == b.last());
        assert(items_tokens(a + b) == items_tokens(a + b.drop_last()) + expr_tokens(b.last()));
        assert(items_tokens(a) + items_tokens(b) =~= items_tokens(a) + items_tokens(b.drop_last())
            + expr_tokens(b.last()));
    }
}

proof fn lemma_atom_end_run(s: Seq<char>, k: int, e: int)
    requires
        0 <= k <= e <= s.len(),
        forall|j: int| k <= j < e ==> !is_atom_delimiter(#[trigger] s[j]),
        e == s.len() || is_atom_delimiter(s[e]),
    ensures
        atom_end(s, k) == e,
    decreases e - k,
{
    if k < e {
        lemma_atom_end_run(s, k + 1, e);
    }
}

proof fn lemma_string_run(s: Seq<char>, j: int, e: int)
    requires
        0 <= j <= e < s.len(),
        forall|q: int| j <= q < e ==> #[trigger] s[q] != '"' && s[q] != '\\',
        s[e] == '"',
    ensures
        string_body(s, j) == (s.subrange(j, e), e + 1),
    decreases e - j,
{
    if j < e {
        lemma_string_run(s, j + 1, e);
        assert(seq![s[j]] + s.subrange(j + 1, e) =~= s.subrange(j, e));
    } else {
        assert(s.subrange(j, e) =~= Seq::<char>::empty());
    }
}

proof fn lemma_tokens_of_text(s: Seq<char>, i: int, m: SExpModel)
    requires
        reads_back(m),
        0 <= i,
        i + model_text(m).len() <= s.len(),
        s.subrange(i, i + model_text(m).len()) == model_text(m),
        i + model_text(m).len() == s.len() || is_atom_delimiter(s[i + model_text(m).len()]),
    ensures
        tokens_from(s, i) == expr_tokens(m) + tokens_from(s, i + model_text(m).len()),
    decreases m,
{
    let text = model_text(m);
    let n = text.len();
    assert forall|q: int| 0 <= q < n implies #[trigger] s[i + q] == text[q] by {
        assert(s.subrange(i, i + n)[q] == s[i + q]);
    }
    match m {
        SExpModel::List(items) => {
            let it = items_text(items);
            assert(text == seq!['('] + it + seq![')']);
            assert(s[i + 0] == text[0]);
            assert(s[i] == '(');
            assert forall|q: int| 0 <= q < it.len() implies #[trigger] s.subrange(
                i + 1,
                i + 1 + it.len(),
            )[q] == it[q] by {
                assert(s[i + (1 + q)] == text[1 + q]);
            }
            assert(s.subrange(i + 1, i + 1 + it.len()) =~= it);
            assert(s[i + (1 + it.len())] == text[1 + it.len() as int]);
            lemma_tokens_of_items(s, i + 1, items);
            assert(tokens_from(s, i + 1 + it.len()) == seq![(TokenType::RParen, seq![')'])]
                + tokens_from(s, i + n));
            assert(tokens_from(s, i) == seq![(TokenType::LParen, seq!['('])] + tokens_from(
                s,
                i + 1,
            ));
            assert(expr_tokens(m) + tokens_from(s, i + n) =~= seq![(TokenType::LParen, seq!['('])]
                + (items_tokens(items) + (seq![(TokenType::RParen, seq![')'])] + tokens_from(
                s,
                i + n,
            ))));
        },
        SExpModel::Atom(v, t) => {
            if t == AtomType::String {
                assert(text == seq!['"'] + v + seq!['"']);
                assert(s[i + 0] == text[0]);
                assert(s[i + (v.len() + 1)] == text[v.len() + 1 as int]);
                assert forall|q: int| i + 1 <= q < i + 1 + v.len() implies #[trigger] s[q] != '"'
                    && s[q] != '\\' by {
                    assert(s[i + (q - i)] == text[q - i]);
                    assert(text[q - i] == v[q - i - 1]);
                }
                lemma_string_run(s, i + 1, i + 1 + v.len());
                assert forall|q: int| 0 <= q < v.len() implies #[trigger] s.subrange(
                    i + 1,
                    i + 1 + v.len(),
                )[q] == v[q] by {
                    assert(s[i + (q + 1)] == text[q + 1]);
                }
                assert(s.subrange(i + 1, i + 1 + v.len()) =~= v);
            } else {
                assert(s[i + 0] == v[0]);
                assert(!is_atom_delimiter(v[0]));
                assert forall|j: int| i + 1 <= j < i + n implies !is_atom_delimiter(#[trigger] s[j]) by {
                    assert(s[i + (j - i)] == text[j - i]);
                }
                lemma_atom_end_run(s, i + 1, i + n);
                assert(s.subrange(i, i + n) == v);
            }
        },
    }
}

proof fn lemma_tokens_of_items(s: Seq<char>, j: int, items: Seq<SExpModel>)
    requires
        items_read_back(items),
        0 <= j,
        j + items_text(items).len() < s.len(),
        s.subrange(j, j + items_text(items).len()) == items_text(items),
        is_atom_delimiter(s[j + items_text(items).len()]),
    ensures
        tokens_from(s, j) == items_tokens(items) + tokens_from(s, j + items_text(items).len()),
    decreases items,
{
    if items.len() == 0 {
        assert(items_tokens(items) + tokens_from(s, j) =~= tokens_from(s, j));
    } else if items.len() == 1 {
        assert(items.drop_last() =~= Seq::<SExpModel>::empty());
        assert(items.last() == items[0]);
        assert(items_tokens(items.drop_last()) =~= Seq::<TokenModel>::empty());
        lemma_tokens_of_text(s, j, items[0]);
        assert(items_tokens(items) =~= expr_tokens(items[0]));
    } else {
        let init = items.drop_last();
        let last = items.last();
        let ti = items_text(init);
        let tl = model_text(last);
        let whole = items_text(items);
        assert(whole == ti + seq![' '] + tl);
        let n1 = ti.len();
        assert forall|q: int| 0 <= q < whole.len() implies #[trigger] s[j + q] == whole[q] by {
            assert(s.subrange(j, j + whole.len())[q] == s[j + q]);
        }
        assert forall|q: int| 0 <= q < n1 implies #[trigger] s.subrange(j, j + n1)[q] == ti[q] by {
            assert(s[j + q] == whole[q]);
        }
        assert(s.subrange(j, j + n1) =~= ti);
        assert(s[j + n1] == whole[n1 as int]);
        assert(s[j + n1] == ' ');
        lemma_tokens_of_items(s, j, init);
        assert forall|q: int| 0 <= q < tl.len() implies #[trigger] s.subrange(
            j + n1 + 1,
            j + n1 + 1 + tl.len(),
        )[q] == tl[q] by {
            assert(s[j + (n1 + 1 + q)] == whole[n1 + 1 + q]);
        }
        assert(s.subrange(j + n1 + 1, j + n1 + 1 + tl.len()) =~= tl);
        lemma_tokens_of_text(s, j + n1 + 1, last);
        assert(tokens_from(s, j + n1) == tokens_from(s, j + n1 + 1));
        assert(items_tokens(items) == items_tokens(init) + expr_tokens(last));
        assert(items_tokens(items) + tokens_from(s, j + whole.len()) =~= items_tokens(init) + (
        expr_tokens(last) + tokens_from(s, j + whole.len())));
    }
}

proof fn lemma_parse_of_tokens(t: Seq<TokenModel>, pos: int, m: SExpModel)
    requires
        reads_back(m),
        0 <= pos,
        pos + expr_tokens(m).len() <= t.len(),
        t.subrange(pos, pos + expr_tokens(m).len()) == expr_tokens(m),
    ensures
        parse_expr_spec(t, pos) == (m, pos + expr_tokens(m).len()),
    decreases m, 0int,
{
    let et = expr_tokens(m);
    assert(t[pos] == et[0]) by {
        assert(t.subrange(pos, pos + et.len())[0] == t[pos]);
    }
    match m {
        SExpModel::List(items) => {
            let it = items_tokens(items);
            let nn = it.len();
            assert(et == seq![(TokenType::LParen, seq!['('])] + it + seq![(TokenType::RParen, seq![')'])]);
            assert forall|q: int| 0 <= q < nn implies #[trigger] t.subrange(pos + 1, pos + 1 + nn)[q]
                == it[q] by {
                assert(t.subrange(pos, pos + et.len())[q + 1] == t[pos + 1 + q]);
            }
            assert(t.subrange(pos + 1, pos + 1 + nn) =~= it);
            assert(t[pos + 1 + nn] == et[nn as int + 1]) by {
                assert(t.subrange(pos, pos + et.len())[nn as int + 1] == t[pos + 1 + nn]);
            }
            lemma_parse_of_items(t, pos + 1, items, 0);
            assert(items.take(0) =~= Seq::<SExpModel>::empty());
            assert(items.skip(0) =~= items);
        },
        SExpModel::Atom(v, ty) => {
        },
    }
}

proof fn lemma_parse_of_items(t: Seq<TokenModel>, p: int, items: Seq<SExpModel>, k: int)
    requires
        items_read_back(items),
        0 <= k <= items.len(),
        0 <= p,
        p + items_tokens(items).len() < t.len(),
        t.subrange(p, p + items_tokens(items).len()) == items_tokens(items),
        t[p + items_tokens(items).len()].0 == TokenType::RParen,
    ensures
        list_items_spec(t, p + items_tokens(items.take(k)).len()) == (
            items.skip(k),
            p + items_tokens(items).len(),
        ),
    decreases items, items.len() - k,
{
    let n = items.len();
    let all = items_tokens(items);
    if k == n {
        assert(items.take(k) =~= items);
        assert(items.skip(k) =~= Seq::<SExpModel>::empty());
    } else {
        let q = p + items_tokens(items.take(k)).len();
        let ek = expr_tokens(items[k]);
        assert(items.take(k + 1).drop_last() =~= items.take(k));
        assert(items.take(k + 1).last() == items[k]);
        assert(items_tokens(items.take(k + 1)) == items_tokens(items.take(k)) + ek);
        assert(items =~= items.take(k + 1) + items.skip(k + 1));
        lemma_items_tokens_append(items.take(k + 1), items.skip(k + 1));
        assert(all == items_tokens(items.take(k)) + ek + items_tokens(items.skip(k + 1)));
        let off = items_tokens(items.take(k)).len();
        assert forall|x: int| 0 <= x < ek.len() implies #[trigger] t.subrange(q, q + ek.len())[x]
            == ek[x] by {
            assert(t.subrange(p, p + all.len())[off + x] == t[p + off + x]);
            assert(all[off + x] == ek[x]);
        }
        assert(t.subrange(q, q + ek.len()) =~= ek);
        lemma_items_read_back_each(items);
        lemma_expr_tokens_first(items[k]);
        assert(t[q] == ek[0]);
        lemma_parse_of_tokens(t, q, items[k]);
        lemma_parse_of_items(t, p, items, k + 1);
        assert(seq![items[k]] + items.skip(k + 1) =~= items.skip(k));
    }
}

/// An expression that reads back (see [`reads_back`]) is printed to a text
/// that parses to exactly that expression.
pub proof fn law_print_then_parse(m: SExpModel)
    requires
        reads_back(m),
    ensures
        parse_text_spec(model_text(m)) == seq![m],
{
    let s = model_text(m);
    assert(s.subrange(0, s.len() as int) =~= s);
    lemma_tokens_of_text(s, 0, m);
    assert(tokens_from(s, 0) =~= expr_tokens(m));
    let et = expr_tokens(m);
    let t = tokenize_spec(s);
    assert(t == et.push((TokenType::Eof, Seq::empty())));
    assert(t.subrange(0, et.len() as int) =~= et);
    lemma_parse_of_tokens(t, 0, m);
    lemma_expr_tokens_first(m);
    assert(t[0] == et[0]);
    assert(parse_all_spec(t, et.len() as int) =~= Seq::<SExpModel>::empty());
    assert(parse_all_spec(t, 0) =~= seq![m]);
}

/// An unquoted word (nonempty, not starting with `"`, with no whitespace,
/// parenthesis or `;`) parses to one atom holding the word: a keyword when it
/// starts with `:`, a boolean when it is `true` or `false`, a number when it
/// is a number literal, a symbol otherwise.
pub proof fn law_word_reads_as_classified(w: Seq<char>)
    requires
        w.len() > 0,
        w[0] != '"',
        forall|k: int| 0 <= k < w.len() ==> !is_atom_delimiter(#[trigger] w[k]),
    ensures
        parse_text_spec(w) == seq![SExpModel::Atom(w, atom_type_of(classify_atom(w)))],
        atom_type_of(classify_atom(w)) == (if w[0] == ':' {
            AtomType::Keyword
        } else if w == true_chars() || w == false_chars() {
            AtomType::Boolean
        } else if java_number_syntax(w) {
            AtomType::Number
        } else {
            AtomType::Symbol
        }),
{
    let m = SExpModel::Atom(w, atom_type_of(classify_atom(w)));
    assert(model_text(m) == w);
    law_print_then_parse(m);
}

/// True when the token `t` is a parenthesis, a string literal, or a word:
/// nonempty, not starting with `"`, free of whitespace, parentheses and `;`,
/// and of the kind its text is classified as (see [`classify_atom`]).
pub open spec fn token_well_kinded(t: TokenModel) -> bool {
    ||| t.0 == TokenType::LParen && t.1 == seq!['(']
    ||| t.0 == TokenType::RParen && t.1 == seq![')']
    ||| t.0 == TokenType::String
    ||| {
        &&& t.1.len() > 0
        &&& t.1[0] != '"'
        &&& forall|q: int| 0 <= q < t.1.len() ==> !is_atom_delimiter(#[trigger] t.1[q])
        &&& t.0 == classify_atom(t.1)
    }
}

/// Every word of any text, wherever it stands, is read with the kind its
/// text is classified as: a keyword when it starts with `:`, a boolean for
/// `true` and `false`, a number for a number literal, a symbol otherwise.
pub proof fn law_every_word_classified(s: Seq<char>, i: int)
    requires
        0 <= i,
    ensures
        forall|k: int| 0 <= k < tokens_from(s, i).len() ==> token_well_kinded(
            #[trigger] tokens_from(s, i)[k],
        ),
    decreases s.len() - i,
{
    if i < s.len() {
        if java_whitespace(s[i]) {
            law_every_word_classified(s, i + 1);
            assert(tokens_from(s, i) == tokens_from(s, i + 1));
        } else if s[i] == ';' {
            lemma_char_pos_bounds(s, '\n', i);
            lemma_char_pos_bounds(s, '\n', i + 1);
            law_every_word_classified(s, char_pos_from(s, '\n', i));
            assert(tokens_from(s, i) == tokens_from(s, char_pos_from(s, '\n', i)));
        } else {
            let (head, next): (TokenModel, int) = if s[i] == '(' {
                ((TokenType::LParen, seq!['(']), i + 1)
            } else if s[i] == ')' {
                ((TokenType::RParen, seq![')']), i + 1)
            } else if s[i] == '"' {
                (
                    (TokenType::String, string_body(s, i + 1).0),
                    string_body(s, i + 1).1,
                )
            } else {
                let j = atom_end(s, i + 1);
                ((classify_atom(s.subrange(i, j)), s.subrange(i, j)), j)
            };
            if s[i] == '"' {
                lemma_string_body_bounds(s, i + 1);
            } else if s[i] != '(' && s[i] != ')' {
                lemma_atom_end_bounds(s, i + 1);
                let j = atom_end(s, i + 1);
                let a = s.subrange(i, j);
                assert forall|q: int| 0 <= q < a.len() implies !is_atom_delimiter(#[trigger] a[q]) by {
                    assert(a[q] == s[i + q]);
                }
            }
            law_every_word_classified(s, next);
            assert(token_well_kinded(head));
            assert(tokens_from(s, i) == seq![head] + tokens_from(s, next));
            assert forall|k: int| 0 <= k < tokens_from(s, i).len() implies token_well_kinded(
                #[trigger] tokens_from(s, i)[k],
            ) by {
                if k > 0 {
                    assert(tokens_from(s, i)[k] == tokens_from(s, next)[k - 1]);
                }
            }
        }
    }
}

} // verus!
