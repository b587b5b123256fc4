//! The telemetry HTTP client's texts and rules: the requests it sends to the
//! game's local server, and how it reads URLs, response heads, chunked
//! bodies and redirects.  The sockets themselves are opened by the caller.
use std::sync::{Arc, Mutex};
use vstd::prelude::*;
use vstd::utf8::{decode_utf8, valid_utf8};
use crate::indicators::{unicode_uppercase, Indicators};
use crate::telemetry_indicators::{json_bool, json_members, json_str, lookup, Indicators as JsonIndicators, JsonModel};
use crate::number::{decimal_string, decimal_text, parse_hex, parse_hex_spec, parse_unsigned, parse_unsigned_spec};
use crate::text::{
    ascii_lower, char_pos_from, lower_char, first_occurrence_from, lemma_first_occurrence_from, lemma_char_pos_bounds, lines, occurs_at,
    occurs_at_exec, owned, push_text, scan_to, find_from, string_from_chars, text_lines, to_chars,
    trim, trim_spec, substring, sub_chars, find_last, non_ws_from, unicode_whitespace,
    is_unicode_whitespace, ascii_lower_text, to_ascii_lower, first_occurrence, find_from as find_chars_from,
    lines_from, opt_view, str_eq, replace_all, replaced,
};

verus! {

#[verifier::external_type_specification]
#[verifier::external_body]
#[verifier::reject_recursive_types(T)]
pub struct ExMutex<T: ?Sized>(Mutex<T>);

/// A new lock holding `v` (std `Mutex::new`); what it holds is not visible
/// to the verifier.
#[verifier::external_body]
fn new_mutex<T>(v: T) -> Mutex<T> {
    Mutex::new(v)
}

/// The text that stands for "no data".
pub const NSTRING: &'static str = "";

/// The request for `target` on the local server: the `GET` line, the
/// `Host` and `Cache-Control` lines, the extra header text and a final line break.
pub open spec fn request_text(target: Seq<char>, header: Seq<char>) -> Seq<char> {
    "GET "@ + target + " HTTP/1.1\nHost: 127.0.0.1\nCache-Control:no-cache\n"@ + header + "\n"@
}

/// Builds [`request_text`].
pub fn request(target: &str, header: &str) -> (r: String)
    ensures
        r@ == request_text(target@, header@),
{
    let mut r = owned("GET ");
    push_text(&mut r, target);
    push_text(&mut r, " HTTP/1.1\nHost: 127.0.0.1\nCache-Control:no-cache\n");
    push_text(&mut r, header);
    push_text(&mut r, "\n");
    r
}

/// The client's requests and the last texts it received.
pub struct HttpHelper {
    pub state_request: String,
    pub indic_request: String,
    pub mapobj_request: String,
    pub mapinfo_request: String,
    /// Altitude command; `%d` stands for the altitude.
    pub set_alt_req: String,
    /// Speed command; `%.0f` stands for the speed.
    pub set_vel_req: String,
    /// The last `/state` text, shared with its readers.
    pub str_state: Arc<Mutex<String>>,
    pub str_indic: String,
    pub str_map_obj: String,
    pub str_map_info: String,
    /// Extra header text sent with every request.
    pub http_header: String,
}

impl HttpHelper {
    /// The client for the given extra header text, with empty received texts.
    pub fn new(http_header: &str) -> (r: HttpHelper)
        ensures
            r.state_request@ == request_text("/state"@, http_header@),
            r.indic_request@ == request_text("/indicators"@, http_header@),
            r.mapobj_request@ == request_text("/map_obj.json"@, http_header@),
            r.mapinfo_request@ == request_text("/map_info.json"@, http_header@),
            r.set_alt_req@ == request_text("/editor/fm_commands?cmd=setAlt&value=%d"@, http_header@),
            r.set_vel_req@ == request_text(
                "/editor/fm_commands?cmd=setVelocity&value=%.0f"@,
                http_header@,
            ),
            r.str_indic@ == Seq::<char>::empty(),
            r.str_map_obj@ == Seq::<char>::empty(),
            r.str_map_info@ == Seq::<char>::empty(),
            r.http_header@ == http_header@,
    {
        HttpHelper {
            state_request: request("/state", http_header),
            indic_request: request("/indicators", http_header),
            mapobj_request: request("/map_obj.json", http_header),
            mapinfo_request: request("/map_info.json", http_header),
            set_alt_req: request("/editor/fm_commands?cmd=setAlt&value=%d", http_header),
            set_vel_req: request("/editor/fm_commands?cmd=setVelocity&value=%.0f", http_header),
            str_state: Arc::new(new_mutex(String::new())),
            str_indic: String::new(),
            str_map_obj: String::new(),
            str_map_info: String::new(),
            http_header: owned(http_header),
        }
    }
}

/// The decimal text of an integer, with a leading `-` when it is negative.
pub open spec fn int_text(n: int) -> Seq<char> {
    if n < 0 {
        seq!['-'] + decimal_text((-n) as nat)
    } else {
        decimal_text(n as nat)
    }
}

/// Builds [`int_text`].
fn int_string(n: i32) -> (r: String)
    ensures
        r@ == int_text(n as int),
{
    if n < 0 {
        let m: u64 = (0i64 - n as i64) as u64;
        let d = decimal_string(m);
        let mut r = owned("-");
        push_text(&mut r, d.as_str());
        proof {
            reveal_strlit("-");
        }
        r
    } else {
        decimal_string(n as u64)
    }
}

impl HttpHelper {
    /// The altitude command for `alt`: the altitude request with `%d`
    /// replaced by the decimal text of `alt`.
    pub fn alt_request(&self, alt: i32) -> (r: String)
        ensures
            r@ == replaced(self.set_alt_req@, "%d"@, int_text(alt as int)),
    {
        proof {
            reveal_strlit("%d");
        }
        let a = int_string(alt);
        replace_all(self.set_alt_req.as_str(), "%d", a.as_str())
    }

    /// The speed command: the speed request with `%.0f` replaced by
    /// `speed_text`, the speed printed without decimals.
    pub fn speed_request(&self, speed_text: &str) -> (r: String)
        ensures
            r@ == replaced(self.set_vel_req@, "%.0f"@, speed_text@),
    {
        proof {
            reveal_strlit("%.0f");
        }
        replace_all(self.set_vel_req.as_str(), "%.0f", speed_text)
    }
}

/// True when `line` starts with `pat` once its ASCII letters are lowered
/// (`pat` being in lower case).
pub open spec fn lower_prefix(line: Seq<char>, pat: Seq<char>) -> bool {
    &&& line.len() >= pat.len()
    &&& forall|i: int| 0 <= i < pat.len() ==> #[trigger] ascii_lower(line[i]) == pat[i]
}

/// The value of the first header line (the lines after the first) named
/// `name`: the line's text after `name:`, trimmed.
pub open spec fn header_in(ls: Seq<Seq<char>>, name: Seq<char>, i: int) -> Option<Seq<char>>
    decreases ls.len() - i,
{
    if i < 1 || i >= ls.len() {
        None
    } else if lower_prefix(ls[i], name.push(':')) {
        Some(trim_spec(ls[i].subrange(name.len() + 1 as int, ls[i].len() as int)))
    } else {
        header_in(ls, name, i + 1)
    }
}

/// The value of the header `name` (in lower case) in a response head.
pub open spec fn header_value_spec(head: Seq<char>, name: Seq<char>) -> Option<Seq<char>> {
    header_in(text_lines(head), name, 1)
}

fn lower_prefix_exec(line: &Vec<char>, pat: &Vec<char>) -> (r: bool)
    ensures
        r == lower_prefix(line@, pat@),
{
    if line.len() < pat.len() {
        return false;
    }
    let mut i: usize = 0;
    while i < pat.len()
        invariant
            i <= pat@.len() <= line@.len(),
            forall|j: int| 0 <= j < i ==> #[trigger] ascii_lower(line@[j]) == pat@[j],
        decreases pat.len() - i,
    {
        if lower_char(line[i]) != pat[i] {
            return false;
        }
        i += 1;
    }
    true
}

/// The value of the header `name` (given in lower case) in a response head:
/// the first line after the status line that starts with `name:` in any
/// ASCII case, with the rest of the line trimmed.
pub fn header_value(head: &str, name: &str) -> (r: Option<String>)
    ensures
        match r {
            Some(v) => header_value_spec(head@, name@) == Some(v@),
            None => header_value_spec(head@, name@) is None,
        },
{
    let ls = lines(head);
    let ghost lv = ls@.map_values(|l: String| l@);
    let mut pat = owned(name);
    crate::text::push_char(&mut pat, ':');
    let pv = to_chars(pat.as_str());
    let mut i: usize = 1;
    while i < ls.len()
        invariant
            1 <= i,
            lv == ls@.map_values(|l: String| l@),
            lv == text_lines(head@),
            pv@ == name@.push(':'),
            header_in(lv, name@, 1) == header_in(lv, name@, i as int),
        decreases ls.len() - i,
    {
        let line = to_chars(ls[i].as_str());
        assert(line@ == lv[i as int]);
        if lower_prefix_exec(&line, &pv) {
            let rest = substring(ls[i].as_str(), pv.len(), line.len());
            return Some(owned(trim(rest)));
        }
        i += 1;
    }
    None
}

/// The pieces of `s` from `from` on, cut at every `\r\n`.
pub open spec fn crlf_pieces(s: Seq<char>, from: int) -> Seq<Seq<char>>
    decreases s.len() - from,
{
    if from < 0 || from > s.len() {
        Seq::empty()
    } else {
        match first_occurrence_from(s, seq!['\r', '\n'], from) {
            Some(i) => {
                proof {
                    lemma_first_occurrence_from(s, seq!['\r', '\n'], from);
                }
                seq![s.subrange(from, i)] + crlf_pieces(s, i + 2)
            },
            None => seq![s.subrange(from, s.len() as int)],
        }
    }
}

/// Cuts `s` at every `\r\n` (Rust `str::split("\r\n")`).
pub fn crlf_split(s: &str) -> (r: Vec<String>)
    ensures
        r@.map_values(|l: String| l@) == crlf_pieces(s@, 0),
{
    let v = to_chars(s);
    let sep = to_chars("\r\n");
    proof {
        reveal_strlit("\r\n");
    }
    assert(sep@ =~= seq!['\r', '\n']);
    let mut out: Vec<String> = Vec::new();
    let mut from: usize = 0;
    loop
        invariant
            from <= v@.len(),
            v@ == s@,
            sep@ == seq!['\r', '\n'],
            out@.map_values(|l: String| l@) + crlf_pieces(v@, from as int) == crlf_pieces(v@, 0),
        decreases v@.len() - from,
    {
        let ghost before = out@.map_values(|l: String| l@);
        proof {
            lemma_first_occurrence_from(v@, sep@, from as int);
        }
        match find_from(&v, &sep, from) {
            Some(i) => {
                let piece = string_from_chars(&v, from, i);
                out.push(piece);
                assert(out@.map_values(|l: String| l@) =~= before.push(piece@));
                from = i + 2;
            },
            None => {
                let piece = string_from_chars(&v, from, v.len());
                out.push(piece);
                assert(out@.map_values(|l: String| l@) =~= before.push(piece@));
                assert(out@.map_values(|l: String| l@) =~= crlf_pieces(v@, 0));
                return out;
            },
        }
    }
}

/// The declared body length: the value of the first `\r\n`-separated piece
/// of the (lower-case) head that starts with `content-length:`, trimmed; `None`
/// when there is no such piece or its value is not a number.
pub open spec fn content_length_in(ps: Seq<Seq<char>>, i: int) -> Option<int>
    decreases ps.len() - i,
{
    if i < 0 || i >= ps.len() {
        None
    } else if occurs_at(ps[i], "content-length:"@, 0) {
        parse_unsigned_spec(
            trim_spec(ps[i].subrange("content-length:"@.len() as int, ps[i].len() as int)),
            usize::MAX as int,
        )
    } else {
        content_length_in(ps, i + 1)
    }
}

/// The declared body length among the pieces `ps` (see [`content_length_in`]).
fn declared_length(ps: &Vec<String>) -> (r: Option<usize>)
    ensures
        match r {
            Some(n) => content_length_in(ps@.map_values(|l: String| l@), 0) == Some(n as int),
            None => content_length_in(ps@.map_values(|l: String| l@), 0) is None,
        },
{
    let ghost pv = ps@.map_values(|l: String| l@);
    let prefix = to_chars("content-length:");
    let mut i: usize = 0;
    while i < ps.len()
        invariant
            i <= ps@.len(),
            pv == ps@.map_values(|l: String| l@),
            prefix@ == "content-length:"@,
            content_length_in(pv, 0) == content_length_in(pv, i as int),
        decreases ps.len() - i,
    {
        let line = to_chars(ps[i].as_str());
        assert(line@ == pv[i as int]);
        if occurs_at_exec(&line, &prefix, 0) {
            let rest = substring(ps[i].as_str(), prefix.len(), line.len());
            let value = to_chars(trim(rest));
            return match parse_unsigned(value.as_slice(), usize::MAX as u64) {
                Some(n) => Some(n as usize),
                None => None,
            };
        }
        i += 1;
    }
    None
}

/// The declared body length in a lower-case response head, split at `\r\n`
/// (see [`content_length_in`]).
pub fn content_length(head_lower: &str) -> (r: Option<usize>)
    ensures
        match r {
            Some(n) => content_length_in(crlf_pieces(head_lower@, 0), 0) == Some(n as int),
            None => content_length_in(crlf_pieces(head_lower@, 0), 0) is None,
        },
{
    let ps = crlf_split(head_lower);
    declared_length(&ps)
}

/// The declared body length in a response head in any case, split into lines
/// (see [`content_length_in`]).
pub fn head_content_length(head: &str) -> (r: Option<usize>)
    ensures
        match r {
            Some(n) => content_length_in(text_lines(ascii_lower_text(head@)), 0) == Some(n as int),
            None => content_length_in(text_lines(ascii_lower_text(head@)), 0) is None,
        },
{
    let lower = to_ascii_lower(head);
    let ls = lines(lower.as_str());
    declared_length(&ls)
}

/// The scheme and the rest of a URL that starts with `http://` or
/// `https://` in any ASCII case.
pub open spec fn url_scheme(url: Seq<char>) -> Option<(Seq<char>, Seq<char>)> {
    if lower_prefix(url, "http://"@) {
        Some(("http"@, url.subrange("http://"@.len() as int, url.len() as int)))
    } else if lower_prefix(url, "https://"@) {
        Some(("https"@, url.subrange("https://"@.len() as int, url.len() as int)))
    } else {
        None
    }
}

/// The parts of an absolute URL `scheme://host[:port][/path]`: the scheme
/// (`http` or `https`), the host, the port (80 or 443 when not given) and the
/// path (`/` when not given); or the error text.
pub open spec fn parse_url_spec(url: Seq<char>) -> Result<(Seq<char>, Seq<char>, u16, Seq<char>), Seq<char>> {
    match url_scheme(url) {
        None => Err("URL 缺少协议: "@ + url),
        Some((scheme, rest)) => {
            let slash = char_pos_from(rest, '/', 0);
            let authority = if slash < rest.len() {
                rest.subrange(0, slash)
            } else {
                rest
            };
            let path = if slash < rest.len() {
                rest.subrange(slash, rest.len() as int)
            } else {
                "/"@
            };
            let host_port: Result<(Seq<char>, int), Seq<char>> = match crate::text::last_occurrence(authority, ":"@) {
                Some(i) => match parse_unsigned_spec(
                    authority.subrange(i + 1, authority.len() as int),
                    65535,
                ) {
                    Some(p) => Ok((authority.subrange(0, i), p)),
                    None => Err("端口非法: "@ + authority),
                },
                None => Ok(
                    (
                        authority,
                        if scheme == "https"@ {
                            443
                        } else {
                            80
                        },
                    ),
                ),
            };
            match host_port {
                Err(e) => Err(e),
                Ok((host, port)) => if host.len() == 0 {
                    Err("URL 缺少主机: "@ + url)
                } else {
                    Ok((scheme, host, port as u16, path))
                },
            }
        },
    }
}

fn text_of(prefix: &str, v: &Vec<char>) -> (r: String)
    ensures
        r@ == prefix@ + v@,
{
    let mut e = owned(prefix);
    let t = string_from_chars(v, 0, v.len());
    assert(v@.subrange(0, v@.len() as int) =~= v@);
    push_text(&mut e, t.as_str());
    e
}

/// Splits an absolute URL into scheme, host, port and path (see [`parse_url_spec`]).
pub fn parse_url(url: &str) -> (r: Result<(String, String, u16, String), String>)
    ensures
        match r {
            Ok((scheme, host, port, path)) => parse_url_spec(url@) == Ok::<(Seq<char>, Seq<char>, u16, Seq<char>), Seq<char>>((scheme@, host@, port, path@)),
            Err(e) => parse_url_spec(url@) == Err::<(Seq<char>, Seq<char>, u16, Seq<char>), Seq<char>>(e@),
        },
{
    let u = to_chars(url);
    let http = to_chars("http://");
    let https = to_chars("https://");
    let is_http = lower_prefix_exec(&u, &http);
    let is_https = lower_prefix_exec(&u, &https);
    if !is_http && !is_https {
        return Err(text_of("URL 缺少协议: ", &u));
    }
    let start = if is_http {
        http.len()
    } else {
        https.len()
    };
    let scheme = if is_http {
        owned("http")
    } else {
        owned("https")
    };
    let rest = sub_chars(&u, start, u.len());
    let slash = scan_to(&rest, '/', 0);
    let authority = if slash < rest.len() {
        sub_chars(&rest, 0, slash)
    } else {
        sub_chars(&rest, 0, rest.len())
    };
    let path = if slash < rest.len() {
        string_from_chars(&rest, slash, rest.len())
    } else {
        owned("/")
    };
    let colon = to_chars(":");
    proof {
        reveal_strlit(":");
        reveal_strlit("http");
        reveal_strlit("https");
        crate::text::lemma_last_occurrence(authority@, colon@);
    }
    assert(authority@.subrange(0, authority@.len() as int) =~= authority@);
    assert(rest@.subrange(0, rest@.len() as int) =~= rest@);
    assert(url_scheme(url@) == Some((scheme@, rest@)));
    let (host, port): (Vec<char>, u16) = match find_last(&authority, &colon) {
        Some(i) => {
            let port_text = sub_chars(&authority, i + 1, authority.len());
            match parse_unsigned(port_text.as_slice(), 65535) {
                Some(p) => (sub_chars(&authority, 0, i), p as u16),
                None => {
                    return Err(text_of("端口非法: ", &authority));
                },
            }
        },
        None => (
            sub_chars(&authority, 0, authority.len()),
            if is_http {
                80
            } else {
                443
            },
        ),
    };
    assert(path@ == (if char_pos_from(rest@, '/', 0) < rest@.len() {
        rest@.subrange(char_pos_from(rest@, '/', 0), rest@.len() as int)
    } else {
        "/"@
    }));
    assert(authority@ == (if char_pos_from(rest@, '/', 0) < rest@.len() {
        rest@.subrange(0, char_pos_from(rest@, '/', 0))
    } else {
        rest@
    }));
    assert("http"@.len() == 4);
    assert("https"@.len() == 5);
    assert(scheme@ == "https"@ <==> !is_http);
    assert(crate::text::last_occurrence(authority@, ":"@) is None ==> host@ == authority@ && port as int == (if scheme@ == "https"@ { 443int } else { 80int }));
    if host.len() == 0 {
        Err(text_of("URL 缺少主机: ", &u))
    } else {
        let h = string_from_chars(&host, 0, host.len());
        assert(host@.subrange(0, host@.len() as int) =~= host@);
        Ok((scheme, h, port, path))
    }
}

/// The absolute URL a `Location` value points to from the page
/// The target of a plain-HTTP fetch of `url`: its parts (see
/// [`parse_url_spec`]), or the reason it cannot be fetched: the URL's own
/// error, or that `https` is not supported.
pub open spec fn plain_target_spec(url: Seq<char>) -> Result<(Seq<char>, Seq<char>, u16, Seq<char>), Seq<char>> {
    match parse_url_spec(url) {
        Err(e) => Err(e),
        Ok((scheme, host, port, path)) => if scheme == "https"@ {
            Err("https 协议暂不受支持 (无 TLS 依赖): "@ + url)
        } else {
            Ok((scheme, host, port, path))
        },
    }
}

/// Computes [`plain_target_spec`].
pub fn plain_target(url: &str) -> (r: Result<(String, String, u16, String), String>)
    ensures
        match r {
            Ok((scheme, host, port, path)) => plain_target_spec(url@) == Ok::<(Seq<char>, Seq<char>, u16, Seq<char>), Seq<char>>((scheme@, host@, port, path@)),
            Err(e) => plain_target_spec(url@) == Err::<(Seq<char>, Seq<char>, u16, Seq<char>), Seq<char>>(e@),
        },
{
    match parse_url(url) {
        Err(e) => Err(e),
        Ok((scheme, host, port, path)) => {
            if str_eq(scheme.as_str(), "https") {
                let mut e = owned("https 协议暂不受支持 (无 TLS 依赖): ");
                push_text(&mut e, url);
                Err(e)
            } else {
                Ok((scheme, host, port, path))
            }
        },
    }
}

/// `scheme://host:port` + `path`: an absolute URL as it is; a path starting
/// with `/` on the same host; anything else relative to the page's directory.
pub open spec fn resolve_location_spec(
    scheme: Seq<char>,
    host: Seq<char>,
    port: u16,
    path: Seq<char>,
    loc: Seq<char>,
) -> Seq<char> {
    let origin = scheme + "://"@ + host + ":"@ + decimal_text(port as nat);
    if occurs_at(loc, "http://"@, 0) || occurs_at(loc, "https://"@, 0) {
        loc
    } else if loc.len() > 0 && loc[0] == '/' {
        origin + loc
    } else {
        let dir = match crate::text::last_occurrence(path, "/"@) {
            Some(i) => path.subrange(0, i + 1),
            None => "/"@,
        };
        origin + dir + loc
    }
}

/// The absolute URL of a redirect (see [`resolve_location_spec`]).
pub fn resolve_location(scheme: &str, host: &str, port: u16, path: &str, loc: &str) -> (r: String)
    ensures
        r@ == resolve_location_spec(scheme@, host@, port, path@, loc@),
{
    let l = to_chars(loc);
    let http = to_chars("http://");
    let https = to_chars("https://");
    if occurs_at_exec(&l, &http, 0) || occurs_at_exec(&l, &https, 0) {
        return owned(loc);
    }
    let mut r = owned(scheme);
    push_text(&mut r, "://");
    push_text(&mut r, host);
    push_text(&mut r, ":");
    let p = decimal_string(port as u64);
    push_text(&mut r, p.as_str());
    if l.len() > 0 && l[0] == '/' {
        push_text(&mut r, loc);
        return r;
    }
    let pv = to_chars(path);
    let slash = to_chars("/");
    match find_last(&pv, &slash) {
        Some(i) => {
            proof {
                reveal_strlit("/");
                crate::text::lemma_last_occurrence(pv@, slash@);
            }
            assert(slash@.len() == 1);
            assert(crate::text::last_occurrence(pv@, slash@) == Some(i as int));
            assert(occurs_at(pv@, slash@, i as int));
            assert(i + 1 <= pv@.len());
            assert(i < pv.len());
            let dir = string_from_chars(&pv, 0, i + 1);
            push_text(&mut r, dir.as_str());
        },
        None => {
            push_text(&mut r, "/");
        },
    }
    push_text(&mut r, loc);
    r
}

/// The request sent for `path` on `host:port`; the `Host` line names the
/// port unless it is 80.
pub open spec fn get_request_text(path: Seq<char>, host: Seq<char>, port: u16) -> Seq<char> {
    let host_line = if port != 80 {
        host + ":"@ + decimal_text(port as nat)
    } else {
        host
    };
    "GET "@ + path + " HTTP/1.1\r\nHost: "@ + host_line + "\r\nConnection: close\r\n\r\n"@
}

/// Builds [`get_request_text`].
pub fn get_request(path: &str, host: &str, port: u16) -> (r: String)
    ensures
        r@ == get_request_text(path@, host@, port),
{
    let mut r = owned("GET ");
    push_text(&mut r, path);
    push_text(&mut r, " HTTP/1.1\r\nHost: ");
    push_text(&mut r, host);
    if port != 80 {
        push_text(&mut r, ":");
        let p = decimal_string(port as u64);
        push_text(&mut r, p.as_str());
    }
    push_text(&mut r, "\r\nConnection: close\r\n\r\n");
    r
}

/// True when `needle` occurs in `hay` at index `i`.
pub open spec fn bytes_at(hay: Seq<u8>, needle: Seq<u8>, i: int) -> bool {
    &&& 0 <= i
    &&& i + needle.len() <= hay.len()
    &&& hay.subrange(i, i + needle.len()) == needle
}

/// The first index `>= from` at which `needle` occurs in `hay`.
pub open spec fn first_bytes_from(hay: Seq<u8>, needle: Seq<u8>, from: int) -> Option<int>
    decreases hay.len() - from,
{
    if from < 0 || from + needle.len() > hay.len() {
        None
    } else if bytes_at(hay, needle, from) {
        Some(from)
    } else if from >= hay.len() {
        None
    } else {
        first_bytes_from(hay, needle, from + 1)
    }
}

pub proof fn lemma_first_bytes_from(hay: Seq<u8>, needle: Seq<u8>, from: int)
    ensures
        first_bytes_from(hay, needle, from) matches Some(i) ==> from <= i && bytes_at(hay, needle, i),
    decreases hay.len() - from,
{
    if from >= 0 && from + needle.len() <= hay.len() && !bytes_at(hay, needle, from) && from
        < hay.len() {
        lemma_first_bytes_from(hay, needle, from + 1);
    }
}

fn bytes_at_exec(hay: &[u8], needle: &[u8], i: usize) -> (r: bool)
    ensures
        r == bytes_at(hay@, needle@, i as int),
{
    if needle.len() > hay.len() || i > hay.len() - needle.len() {
        return false;
    }
    let mut k: usize = 0;
    while k < needle.len()
        invariant
            i + needle@.len() <= hay@.len(),
            hay@.len() == hay.len(),
            needle@.len() == needle.len(),
            k <= needle@.len(),
            forall|j: int| 0 <= j < k ==> hay@[i + j] == needle@[j],
        decreases needle.len() - k,
    {
        if hay[i + k] != needle[k] {
            assert(hay@.subrange(i as int, i + needle@.len())[k as int] != needle@[k as int]);
            return false;
        }
        k += 1;
    }
    assert(hay@.subrange(i as int, i + needle@.len()) =~= needle@);
    true
}

/// The first index `>= from` at which `needle` occurs in `hay`.
pub fn find_bytes_from(hay: &[u8], needle: &[u8], from: usize) -> (r: Option<usize>)
    ensures
        opt_usize(r) == first_bytes_from(hay@, needle@, from as int),
{
    let mut i = from;
    loop
        invariant
            from <= i,
            first_bytes_from(hay@, needle@, from as int) == first_bytes_from(hay@, needle@, i as int),
        decreases hay@.len() + 1 - i,
    {
        if needle.len() > hay.len() || i > hay.len() - needle.len() {
            return None;
        }
        if bytes_at_exec(hay, needle, i) {
            return Some(i);
        }
        if i >= hay.len() {
            return None;
        }
        i += 1;
    }
}

/// The optional index as an integer.
pub open spec fn opt_usize(o: Option<usize>) -> Option<int> {
    match o {
        Some(i) => Some(i as int),
        None => None,
    }
}

/// The bytes `v[from..to]`.
fn sub_bytes(v: &[u8], from: usize, to: usize) -> (r: Vec<u8>)
    requires
        from <= to <= v.len(),
    ensures
        r@ == v@.subrange(from as int, to as int),
{
    let mut r: Vec<u8> = Vec::new();
    let mut i = from;
    while i < to
        invariant
            from <= i <= to <= v.len(),
            r@ == v@.subrange(from as int, i as int),
        decreases to - i,
    {
        r.push(v[i]);
        assert(v@.subrange(from as int, i + 1) =~= v@.subrange(from as int, i as int).push(v@[i as int]));
        i += 1;
    }
    r
}

/// The text encoded by `bytes` when they are valid UTF-8.
///
/// Calls `std::str::from_utf8`, which std documents as succeeding exactly on
/// valid UTF-8 and then viewing the same bytes as text.
#[verifier::external_body]
fn utf8_text(bytes: &[u8]) -> (r: Option<String>)
    ensures
        r is Some <==> valid_utf8(bytes@),
        r matches Some(s) ==> s@ == decode_utf8(bytes@),
{
    match std::str::from_utf8(bytes) {
        Ok(s) => Some(s.to_string()),
        Err(_) => None,
    }
}

/// What `String::from_utf8_lossy` makes of `bytes`.
pub uninterp spec fn lossy_utf8(bytes: Seq<u8>) -> Seq<char>;

/// The text of `bytes`, each invalid UTF-8 sequence replaced by U+FFFD.
///
/// Calls `String::from_utf8_lossy`; its result is named [`lossy_utf8`], and
/// std documents that valid UTF-8 comes back as its text unchanged.
#[verifier::external_body]
fn utf8_lossy(bytes: &[u8]) -> (r: String)
    ensures
        r@ == lossy_utf8(bytes@),
        valid_utf8(bytes@) ==> r@ == decode_utf8(bytes@),
{
    String::from_utf8_lossy(bytes).into_owned()
}

/// `s` up to its first `;` (the whole of `s` when it has none).
pub open spec fn before_semicolon(s: Seq<char>) -> Seq<char> {
    s.subrange(0, char_pos_from(s, ';', 0))
}

/// The line break of the chunked encoding.
pub open spec fn crlf_bytes() -> Seq<u8> {
    seq![13u8, 10u8]
}

/// The chunk header at `pos`: the chunk's size and the index of its data;
/// or the error text.  The size is the hexadecimal number that starts the
/// trimmed header line, up to an optional `;`.
pub open spec fn chunk_header(body: Seq<u8>, pos: int) -> Result<(int, int), Seq<char>> {
    match first_bytes_from(body, crlf_bytes(), pos) {
        None => Err("chunked: 缺行尾"@),
        Some(nl) => {
            let line = body.subrange(pos, nl);
            if !valid_utf8(line) {
                Err("chunked: size 非法"@)
            } else {
                match parse_hex_spec(before_semicolon(trim_spec(decode_utf8(line))), usize::MAX as int) {
                    None => Err("chunked: size 非十六进制"@),
                    Some(size) => Ok((size, nl + 2)),
                }
            }
        },
    }
}

pub proof fn lemma_chunk_header(body: Seq<u8>, pos: int)
    requires
        0 <= pos,
    ensures
        chunk_header(body, pos) matches Ok((size, start)) ==> pos + 2 <= start <= body.len() && size
            >= 0,
{
    lemma_first_bytes_from(body, crlf_bytes(), pos);
    if let Some(nl) = first_bytes_from(body, crlf_bytes(), pos) {
        let line = body.subrange(pos, nl);
        if valid_utf8(line) {
            crate::number::lemma_parse_hex_nonneg(
                before_semicolon(trim_spec(decode_utf8(line))),
                usize::MAX as int,
            );
        }
    }
}

/// The data of a chunked body from the chunk header at `pos` on, up to the
/// chunk of size zero; or the error text.
pub open spec fn chunks_from(body: Seq<u8>, pos: nat) -> Result<Seq<u8>, Seq<char>>
    decreases body.len() + 2 - pos,
{
    match chunk_header(body, pos as int) {
        Err(e) => Err(e),
        Ok((size, start)) => {
            if size == 0 {
                Ok(Seq::empty())
            } else if start + size > usize::MAX {
                Err("chunked: size 非法"@)
            } else if start + size > body.len() {
                Err("chunked: body 截断"@)
            } else {
                proof {
                    lemma_chunk_header(body, pos as int);
                }
                match chunks_from(body, (start + size + 2) as nat) {
                    Ok(rest) => Ok(body.subrange(start, start + size) + rest),
                    Err(e) => Err(e),
                }
            }
        },
    }
}

/// Every chunk of the body, but the last, is followed by at least two bytes
/// (the reader steps over the line break after each chunk's data).
pub open spec fn chunks_safe(body: Seq<u8>, pos: nat) -> bool
    decreases body.len() + 2 - pos,
{
    match chunk_header(body, pos as int) {
        Err(e) => true,
        Ok((size, start)) => {
            if size == 0 || start + size > usize::MAX || start + size > body.len() {
                true
            } else {
                proof {
                    lemma_chunk_header(body, pos as int);
                }
                start + size + 2 <= body.len() && chunks_safe(body, (start + size + 2) as nat)
            }
        },
    }
}

/// Reads the chunk header at `pos` (see [`chunk_header`]).
fn chunk_header_exec(body: &[u8], pos: usize) -> (r: Result<(usize, usize), String>)
    requires
        pos <= body@.len(),
    ensures
        match r {
            Ok((size, start)) => chunk_header(body@, pos as int) == Ok::<(int, int), Seq<char>>(
                (size as int, start as int),
            ),
            Err(e) => chunk_header(body@, pos as int) == Err::<(int, int), Seq<char>>(e@),
        },
{
    let crlf: Vec<u8> = vec![13u8, 10u8];
    assert(crlf@ =~= crlf_bytes());
    proof {
        lemma_first_bytes_from(body@, crlf@, pos as int);
    }
    let nl = match find_bytes_from(body, crlf.as_slice(), pos) {
        Some(n) => n,
        None => {
            return Err(owned("chunked: 缺行尾"));
        },
    };
    assert(bytes_at(body@, crlf@, nl as int));
    assert(nl + 2 <= body@.len());
    assert(nl + 2 <= body.len());
    let line = sub_bytes(body, pos, nl);
    let text = match utf8_text(line.as_slice()) {
        Some(t) => t,
        None => {
            return Err(owned("chunked: size 非法"));
        },
    };
    let tv = to_chars(trim(text.as_str()));
    let semi = scan_to(&tv, ';', 0);
    let piece = sub_chars(&tv, 0, semi);
    match parse_hex(piece.as_slice(), usize::MAX as u64) {
        Some(v) => Ok((v as usize, nl + 2)),
        None => Err(owned("chunked: size 非十六进制")),
    }
}

/// True when [`decode_chunked`] can read `body` through (see [`chunks_safe`]).
pub fn chunked_body_safe(body: &[u8]) -> (r: bool)
    ensures
        r == chunks_safe(body@, 0),
{
    let mut pos: usize = 0;
    loop
        invariant
            pos <= body@.len(),
            body@.len() == body.len(),
            chunks_safe(body@, 0) == chunks_safe(body@, pos as nat),
        decreases body@.len() + 2 - pos,
    {
        proof {
            lemma_chunk_header(body@, pos as int);
        }
        let (size, start) = match chunk_header_exec(body, pos) {
            Ok(h) => h,
            Err(_) => {
                return true;
            },
        };
        if size == 0 {
            return true;
        }
        let end = match start.checked_add(size) {
            Some(e) => e,
            None => {
                return true;
            },
        };
        if end > body.len() {
            return true;
        }
        if body.len() - end < 2 {
            return false;
        }
        pos = end + 2;
    }
}

/// `o` followed by the data of a decoding result.
pub open spec fn prepend_data(o: Seq<u8>, r: Result<Seq<u8>, Seq<char>>) -> Result<Seq<u8>, Seq<char>> {
    match r {
        Ok(d) => Ok(o + d),
        Err(e) => Err(e),
    }
}

/// Decodes a chunked body (see [`chunks_from`]).
pub fn decode_chunked(body: &[u8]) -> (r: Result<Vec<u8>, String>)
    requires
        chunks_safe(body@, 0),
    ensures
        match r {
            Ok(v) => chunks_from(body@, 0) == Ok::<Seq<u8>, Seq<char>>(v@),
            Err(e) => chunks_from(body@, 0) == Err::<Seq<u8>, Seq<char>>(e@),
        },
{
    let mut out: Vec<u8> = Vec::new();
    let mut pos: usize = 0;
    assert(forall|d: Seq<u8>| Seq::<u8>::empty() + d =~= d);
    loop
        invariant
            pos <= body@.len(),
            body@.len() == body.len(),
            chunks_safe(body@, pos as nat),
            chunks_from(body@, 0) == prepend_data(out@, chunks_from(body@, pos as nat)),
        decreases body@.len() + 2 - pos,
    {
        proof {
            lemma_chunk_header(body@, pos as int);
        }
        let (size, start) = match chunk_header_exec(body, pos) {
            Ok(h) => h,
            Err(e) => {
                return Err(e);
            },
        };
        if size == 0 {
            assert(out@ + Seq::<u8>::empty() =~= out@);
            return Ok(out);
        }
        let end = match start.checked_add(size) {
            Some(e) => e,
            None => {
                return Err(owned("chunked: size 非法"));
            },
        };
        if end > body.len() {
            return Err(owned("chunked: body 截断"));
        }
        let ghost before = out@;
        let mut i = start;
        while i < end
            invariant
                start <= i <= end <= body@.len(),
                out@ == before + body@.subrange(start as int, i as int),
            decreases end - i,
        {
            out.push(body[i]);
            assert(body@.subrange(start as int, i + 1) =~= body@.subrange(start as int, i as int).push(
                body@[i as int],
            ));
            i += 1;
        }
        proof {
            let next = chunks_from(body@, (end + 2) as nat);
            match next {
                Ok(d) => {
                    assert(before + (body@.subrange(start as int, end as int) + d) =~= out@ + d);
                },
                Err(e) => {},
            }
        }
        pos = end + 2;
    }
}

/// The first index `>= i` holding whitespace (the length when there is none).
pub open spec fn ws_from(s: Seq<char>, i: int) -> int
    decreases s.len() - i,
{
    if i >= s.len() {
        s.len() as int
    } else if i >= 0 && unicode_whitespace(s[i]) {
        i
    } else {
        ws_from(s, i + 1)
    }
}

pub proof fn lemma_ws_bounds(s: Seq<char>, i: int)
    requires
        0 <= i <= s.len(),
    ensures
        i <= non_ws_from(s, i) <= s.len(),
        i <= ws_from(s, i) <= s.len(),
        non_ws_from(s, i) < s.len() ==> !unicode_whitespace(s[non_ws_from(s, i)]),
        i < s.len() && !unicode_whitespace(s[i]) ==> ws_from(s, i) > i,
    decreases s.len() - i,
{
    if i < s.len() {
        lemma_ws_bounds(s, i + 1);
    }
}

/// The whitespace-separated words of `s` from `i` on (Rust `str::split_whitespace`).
pub open spec fn words_from(s: Seq<char>, i: int) -> Seq<Seq<char>>
    decreases s.len() - i,
{
    if i < 0 || i > s.len() {
        Seq::empty()
    } else {
        let j = non_ws_from(s, i);
        if j >= s.len() {
            Seq::empty()
        } else {
            let k = ws_from(s, j);
            proof {
                lemma_ws_bounds(s, i);
                lemma_ws_bounds(s, j);
            }
            seq![s.subrange(j, k)] + words_from(s, k)
        }
    }
}

/// The status code of a status line `HTTP/1.x NNN ...`: its second word read
/// as a number up to 65535.
pub open spec fn status_code(status_line: Seq<char>) -> Option<int> {
    let ws = words_from(status_line, 0);
    if ws.len() >= 2 {
        parse_unsigned_spec(ws[1], 65535)
    } else {
        None
    }
}

/// The status code of a status line (see [`status_code`]).
fn status_code_exec(line: &str) -> (r: Option<u16>)
    ensures
        match r {
            Some(c) => status_code(line@) == Some(c as int),
            None => status_code(line@) is None,
        },
{
    let v = to_chars(line);
    let mut i: usize = 0;
    let mut count: usize = 0;
    loop
        invariant
            i <= v@.len(),
            v@ == line@,
            count <= 1,
            words_from(v@, 0).len() >= 2 <==> words_from(v@, i as int).len() >= 2 - count,
            words_from(v@, 0).len() >= 2 ==> words_from(v@, 0)[1] == words_from(v@, i as int)[1 - count],
        decreases v@.len() - i,
    {
        proof {
            lemma_ws_bounds(v@, i as int);
        }
        let mut j = i;
        while j < v.len() && is_unicode_whitespace(v[j])
            invariant
                i <= j <= v@.len(),
                non_ws_from(v@, i as int) == non_ws_from(v@, j as int),
            decreases v@.len() - j,
        {
            j += 1;
        }
        if j >= v.len() {
            return None;
        }
        let mut k = j;
        while k < v.len() && !is_unicode_whitespace(v[k])
            invariant
                j <= k <= v@.len(),
                ws_from(v@, j as int) == ws_from(v@, k as int),
            decreases v@.len() - k,
        {
            k += 1;
        }
        if count == 1 {
            let word = sub_chars(&v, j, k);
            return match parse_unsigned(word.as_slice(), 65535) {
                Some(c) => Some(c as u16),
                None => None,
            };
        }
        count = 1;
        i = k;
    }
}

/// The lines of a text joined without their line breaks.
pub open spec fn joined(ls: Seq<Seq<char>>) -> Seq<char>
    decreases ls.len(),
{
    if ls.len() == 0 {
        Seq::empty()
    } else {
        joined(ls.drop_last()) + ls.last()
    }
}

/// The bytes that make up the body: the declared length of it when the head
/// declares one (the whole body when it is shorter), the decoded chunks when
/// the head says `transfer-encoding: chunked`, else all of it.
pub open spec fn body_bytes(head_lower: Seq<char>, body: Seq<u8>) -> Result<Seq<u8>, Seq<char>> {
    match content_length_in(crlf_pieces(head_lower, 0), 0) {
        Some(cl) => Ok(
            if body.len() >= cl {
                body.subrange(0, cl)
            } else {
                body
            },
        ),
        None => if first_occurrence(head_lower, "transfer-encoding: chunked"@) is Some {
            chunks_from(body, 0)
        } else {
            Ok(body)
        },
    }
}

/// What a response leads to.
pub enum FetchStep {
    /// Fetch this URL next.
    Redirect(String),
    /// The response text.
    Done(String),
    /// The fetch failed, for the reason given.
    Failed(String),
}

/// The mathematical value of a [`FetchStep`].
pub enum FetchStepModel {
    Redirect(Seq<char>),
    Done(Seq<char>),
    Failed(Seq<char>),
}

impl FetchStep {
    pub open spec fn model(&self) -> FetchStepModel {
        match self {
            FetchStep::Redirect(u) => FetchStepModel::Redirect(u@),
            FetchStep::Done(t) => FetchStepModel::Done(t@),
            FetchStep::Failed(e) => FetchStepModel::Failed(e@),
        }
    }
}

/// The index of the blank line that ends a response head.
pub open spec fn head_end(buf: Seq<u8>) -> Option<int> {
    first_bytes_from(buf, seq![13u8, 10u8, 13u8, 10u8], 0)
}

/// The text of a response head.
pub open spec fn head_text(buf: Seq<u8>, sep: int) -> Seq<char> {
    lossy_utf8(buf.subrange(0, sep))
}

/// The first line of a head (empty when it has none).
pub open spec fn status_line_of(head: Seq<char>) -> Seq<char> {
    if text_lines(head).len() > 0 {
        text_lines(head)[0]
    } else {
        Seq::empty()
    }
}

/// How far a response is read before its body: a final step, or the
/// lower-case head and the body bytes.
pub open spec fn classify_spec(
    buf: Seq<u8>,
    scheme: Seq<char>,
    host: Seq<char>,
    port: u16,
    path: Seq<char>,
    redirects: int,
) -> Result<FetchStepModel, (Seq<char>, Seq<u8>)> {
    match head_end(buf) {
        None => Ok(FetchStepModel::Failed("响应缺少 header 分隔"@)),
        Some(sep) => {
            let head = head_text(buf, sep);
            let line = status_line_of(head);
            match status_code(line) {
                None => Ok(FetchStepModel::Failed("状态行无法解析: "@ + line)),
                Some(code) => {
                    let location = header_value_spec(head, "location"@);
                    if 300 <= code < 400 && location is Some {
                        if redirects >= 20 {
                            Ok(FetchStepModel::Failed("重定向次数过多"@))
                        } else {
                            Ok(
                                FetchStepModel::Redirect(
                                    resolve_location_spec(scheme, host, port, path, location->0),
                                ),
                            )
                        }
                    } else if code >= 400 {
                        Ok(FetchStepModel::Failed("HTTP "@ + decimal_text(code as nat)))
                    } else {
                        Err((ascii_lower_text(head), buf.subrange(sep + 4, buf.len() as int)))
                    }
                },
            }
        },
    }
}

/// What the response `buf` to the request for `path` on `scheme://host:port`
/// leads to, after `redirects` redirects: a redirect to the `Location` of a
/// 3xx response (at most 20 in a row), a failure for a missing head, an
/// unreadable status line, a 4xx/5xx status or a broken chunked body, or the
/// body text with its line breaks removed.
pub open spec fn fetch_step(
    buf: Seq<u8>,
    scheme: Seq<char>,
    host: Seq<char>,
    port: u16,
    path: Seq<char>,
    redirects: int,
) -> FetchStepModel {
    match classify_spec(buf, scheme, host, port, path, redirects) {
        Ok(step) => step,
        Err((head_lower, body)) => match body_bytes(head_lower, body) {
            Ok(b) => FetchStepModel::Done(joined(text_lines(lossy_utf8(b)))),
            Err(e) => FetchStepModel::Failed(e),
        },
    }
}

/// True when reading the response does not run past the end of a chunked body.
pub open spec fn fetch_safe(
    buf: Seq<u8>,
    scheme: Seq<char>,
    host: Seq<char>,
    port: u16,
    path: Seq<char>,
    redirects: int,
) -> bool {
    match classify_spec(buf, scheme, host, port, path, redirects) {
        Ok(step) => true,
        Err((head_lower, body)) => {
            content_length_in(crlf_pieces(head_lower, 0), 0) is None && first_occurrence(
                head_lower,
                "transfer-encoding: chunked"@,
            ) is Some ==> chunks_safe(body, 0)
        },
    }
}

/// A response read up to its body.
enum Classified {
    Step(FetchStep),
    Body(String, Vec<u8>),
}

fn classify(buf: &[u8], scheme: &str, host: &str, port: u16, path: &str, redirects: usize) -> (r:
    Classified)
    ensures
        match r {
            Classified::Step(st) => classify_spec(buf@, scheme@, host@, port, path@, redirects as int)
                == Ok::<FetchStepModel, (Seq<char>, Seq<u8>)>(st.model()),
            Classified::Body(hl, b) => classify_spec(
                buf@,
                scheme@,
                host@,
                port,
                path@,
                redirects as int,
            ) == Err::<FetchStepModel, (Seq<char>, Seq<u8>)>((hl@, b@)),
        },
{
    let blank: Vec<u8> = vec![13u8, 10u8, 13u8, 10u8];
    assert(blank@ =~= seq![13u8, 10u8, 13u8, 10u8]);
    proof {
        lemma_first_bytes_from(buf@, blank@, 0);
    }
    let sep = match find_bytes_from(buf, blank.as_slice(), 0) {
        Some(i) => i,
        None => {
            return Classified::Step(FetchStep::Failed(owned("响应缺少 header 分隔")));
        },
    };
    assert(bytes_at(buf@, blank@, sep as int));
    assert(sep + 4 <= buf.len());
    let head_bytes = sub_bytes(buf, 0, sep);
    let head = utf8_lossy(head_bytes.as_slice());
    let ls = lines(head.as_str());
    let line: String = if ls.len() > 0 {
        ls[0].clone()
    } else {
        String::new()
    };
    assert(line@ == status_line_of(head@));
    let code = match status_code_exec(line.as_str()) {
        Some(c) => c,
        None => {
            let mut e = owned("状态行无法解析: ");
            push_text(&mut e, line.as_str());
            return Classified::Step(FetchStep::Failed(e));
        },
    };
    let location = header_value(head.as_str(), "location");
    if 300 <= code && code < 400 && location.is_some() {
        if redirects >= 20 {
            return Classified::Step(FetchStep::Failed(owned("重定向次数过多")));
        }
        let loc = match location {
            Some(l) => l,
            None => String::new(),
        };
        return Classified::Step(
            FetchStep::Redirect(resolve_location(scheme, host, port, path, loc.as_str())),
        );
    }
    if code >= 400 {
        let mut e = owned("HTTP ");
        let digits = decimal_string(code as u64);
        push_text(&mut e, digits.as_str());
        return Classified::Step(FetchStep::Failed(e));
    }
    let hl = to_ascii_lower(head.as_str());
    let body = sub_bytes(buf, sep + 4, buf.len());
    Classified::Body(hl, body)
}

fn says_chunked(head_lower: &str) -> (r: bool)
    ensures
        r == first_occurrence(head_lower@, "transfer-encoding: chunked"@) is Some,
{
    let h = to_chars(head_lower);
    let pat = to_chars("transfer-encoding: chunked");
    find_chars_from(&h, &pat, 0).is_some()
}

/// What the response `buf` leads to (see [`fetch_step`]).
pub fn next_step(buf: &[u8], scheme: &str, host: &str, port: u16, path: &str, redirects: usize) -> (r:
    FetchStep)
    requires
        fetch_safe(buf@, scheme@, host@, port, path@, redirects as int),
    ensures
        r.model() == fetch_step(buf@, scheme@, host@, port, path@, redirects as int),
{
    match classify(buf, scheme, host, port, path, redirects) {
        Classified::Step(st) => st,
        Classified::Body(hl, body) => {
            let bytes: Vec<u8> = match content_length(hl.as_str()) {
                Some(cl) => if body.len() >= cl {
                    sub_bytes(body.as_slice(), 0, cl)
                } else {
                    body
                },
                None => if says_chunked(hl.as_str()) {
                    match decode_chunked(body.as_slice()) {
                        Ok(b) => b,
                        Err(e) => {
                            return FetchStep::Failed(e);
                        },
                    }
                } else {
                    body
                },
            };
            let text = utf8_lossy(bytes.as_slice());
            let ls = lines(text.as_str());
            let ghost lv = ls@.map_values(|l: String| l@);
            let mut out = String::new();
            let mut i: usize = 0;
            while i < ls.len()
                invariant
                    i <= ls@.len(),
                    lv == ls@.map_values(|l: String| l@),
                    out@ == joined(lv.take(i as int)),
                decreases ls.len() - i,
            {
                push_text(&mut out, ls[i].as_str());
                assert(lv.take(i + 1).drop_last() =~= lv.take(i as int));
                i += 1;
            }
            assert(lv.take(lv.len() as int) =~= lv);
            FetchStep::Done(out)
        },
    }
}

/// True when [`next_step`] can read the response `buf` (see [`fetch_safe`]).
pub fn fetch_readable(buf: &[u8], scheme: &str, host: &str, port: u16, path: &str, redirects: usize) -> (r:
    bool)
    ensures
        r == fetch_safe(buf@, scheme@, host@, port, path@, redirects as int),
{
    match classify(buf, scheme, host, port, path, redirects) {
        Classified::Step(_) => true,
        Classified::Body(hl, body) => {
            if content_length(hl.as_str()).is_none() && says_chunked(hl.as_str()) {
                chunked_body_safe(body.as_slice())
            } else {
                true
            }
        },
    }
}

/// What the response `buf` leads to, or `None` when reading it would run past
/// the end of its chunked body.
pub fn response_step(buf: &[u8], scheme: &str, host: &str, port: u16, path: &str, redirects: usize) -> (r:
    Option<FetchStep>)
    ensures
        r is None <==> !fetch_safe(buf@, scheme@, host@, port, path@, redirects as int),
        r matches Some(st) ==> st.model() == fetch_step(
            buf@,
            scheme@,
            host@,
            port,
            path@,
            redirects as int,
        ),
{
    if fetch_readable(buf, scheme, host, port, path, redirects) {
        Some(next_step(buf, scheme, host, port, path, redirects))
    } else {
        None
    }
}

/// The name and value of a header line `Name: value`, both trimmed; `None`
/// for a blank line or a line without `:`.
pub open spec fn header_pair(line: Seq<char>) -> Option<(Seq<char>, Seq<char>)> {
    let l = trim_spec(line);
    let c = char_pos_from(l, ':', 0);
    if l.len() == 0 || c >= l.len() {
        None
    } else {
        Some((trim_spec(l.subrange(0, c)), trim_spec(l.subrange(c + 1, l.len() as int))))
    }
}

/// The header pairs of a list of lines, in order.
pub open spec fn header_pairs(ls: Seq<Seq<char>>) -> Seq<(Seq<char>, Seq<char>)>
    decreases ls.len(),
{
    if ls.len() == 0 {
        Seq::empty()
    } else {
        let rest = header_pairs(ls.drop_last());
        match header_pair(ls.last()) {
            Some(p) => rest.push(p),
            None => rest,
        }
    }
}

/// The extra headers given as lines `Name: value` (see [`header_pair`]).
pub fn parse_header_lines(raw: &str) -> (r: Vec<(String, String)>)
    ensures
        r@.map_values(|p: (String, String)| (p.0@, p.1@)) == header_pairs(text_lines(raw@)),
{
    let ls = lines(raw);
    let ghost lv = ls@.map_values(|l: String| l@);
    let mut out: Vec<(String, String)> = Vec::new();
    let mut i: usize = 0;
    while i < ls.len()
        invariant
            i <= ls@.len(),
            lv == ls@.map_values(|l: String| l@),
            lv == text_lines(raw@),
            out@.map_values(|p: (String, String)| (p.0@, p.1@)) == header_pairs(lv.take(i as int)),
        decreases ls.len() - i,
    {
        let ghost before = out@.map_values(|p: (String, String)| (p.0@, p.1@));
        assert(lv.take(i + 1).drop_last() =~= lv.take(i as int));
        assert(lv.take(i + 1).last() == lv[i as int]);
        let l = trim(ls[i].as_str());
        let lc = to_chars(l);
        let c = scan_to(&lc, ':', 0);
        if lc.len() > 0 && c < lc.len() {
            let name = trim(substring(l, 0, c));
            let value = trim(substring(l, c + 1, lc.len()));
            out.push((owned(name), owned(value)));
            assert(out@.map_values(|p: (String, String)| (p.0@, p.1@)) =~= before.push(
                (name@, value@),
            ));
        }
        i += 1;
    }
    assert(lv.take(lv.len() as int) =~= lv);
    out
}

/// What `str::to_lowercase` makes of a text.
pub uninterp spec fn unicode_lowercase(s: Seq<char>) -> Seq<char>;

/// The lower-case form of `s`.
///
/// Calls `str::to_lowercase`; its result is named [`unicode_lowercase`].
#[verifier::external_body]
fn to_lowercase(s: &str) -> (r: String)
    ensures
        r@ == unicode_lowercase(s@),
{
    s.to_lowercase()
}

/// The aircraft name reported by a valid indicator text: its type in lower
/// case, trimmed; `None` when the text is not valid or names no type.
pub fn live_aircraft_type(valid: bool, aircraft_type: Option<&str>) -> (r: Option<String>)
    ensures
        match r {
            Some(n) => valid && (aircraft_type matches Some(t) && t@.len() > 0 && n@ == trim_spec(
                unicode_lowercase(t@),
            )),
            None => !valid || aircraft_type is None || aircraft_type->0@.len() == 0,
        },
{
    if !valid {
        return None;
    }
    match aircraft_type {
        Some(t) => {
            if t.is_empty() {
                None
            } else {
                let lower = to_lowercase(t);
                Some(owned(trim(lower.as_str())))
            }
        },
        None => None,
    }
}

/// The aircraft type an indicator snapshot names: its type when `valid` reads
/// `true` and the type is neither empty nor `No Cockpit`.
pub open spec fn named_aircraft(ind: &Indicators) -> Option<Seq<char>> {
    if opt_view(ind.valid) == Some("true"@) {
        match opt_view(ind.plane_type) {
            Some(t) => if t.len() > 0 && t != "No Cockpit"@ {
                Some(t)
            } else {
                None
            },
            None => None,
        }
    } else {
        None
    }
}

/// The aircraft named by the indicator snapshot `ind`, in lower case and
/// trimmed (see [`named_aircraft`]).
pub fn indicator_aircraft_type(ind: &Indicators) -> (r: Option<String>)
    ensures
        match r {
            Some(n) => named_aircraft(ind) matches Some(t) && n@ == trim_spec(unicode_lowercase(t)),
            None => named_aircraft(ind) is None,
        },
{
    let valid = match &ind.valid {
        Some(v) => str_eq(v.as_str(), "true"),
        None => false,
    };
    let t: Option<&str> = match &ind.plane_type {
        Some(t) => if str_eq(t.as_str(), "No Cockpit") {
            None
        } else {
            Some(t.as_str())
        },
        None => None,
    };
    live_aircraft_type(valid, t)
}

/// The aircraft type a JSON indicator snapshot names: its type when `valid`
/// is `true` and the type is neither empty nor `No Cockpit`.
pub open spec fn json_named_aircraft(ind: &JsonIndicators) -> Option<Seq<char>> {
    if ind.valid == Some(true) {
        match opt_view(ind.plane_type) {
            Some(t) => if t.len() > 0 && t != "No Cockpit"@ {
                Some(t)
            } else {
                None
            },
            None => None,
        }
    } else {
        None
    }
}

/// The aircraft named by the JSON indicator snapshot `ind`, in lower case and
/// trimmed (see [`json_named_aircraft`]).
pub fn json_indicator_aircraft_type(ind: &JsonIndicators) -> (r: Option<String>)
    ensures
        match r {
            Some(n) => json_named_aircraft(ind) matches Some(t) && n@ == trim_spec(unicode_lowercase(t)),
            None => json_named_aircraft(ind) is None,
        },
{
    let valid = match ind.valid {
        Some(b) => b,
        None => false,
    };
    let t: Option<&str> = match &ind.plane_type {
        Some(t) => if str_eq(t.as_str(), "No Cockpit") {
            None
        } else {
            Some(t.as_str())
        },
        None => None,
    };
    live_aircraft_type(valid, t)
}

/// The aircraft a parsed indicator object names: the upper-case `type`
/// string when `valid` is `true` and that type is neither empty nor
/// `No Cockpit`.
pub open spec fn snapshot_aircraft(ms: Option<Seq<(Seq<char>, JsonModel)>>) -> Option<Seq<char>> {
    if json_bool(lookup(ms, "valid"@)) == Some(true) {
        match json_str(lookup(ms, "type"@)) {
            Some(t) => if unicode_uppercase(t).len() > 0 && unicode_uppercase(t) != "No Cockpit"@ {
                Some(unicode_uppercase(t))
            } else {
                None
            },
            None => None,
        }
    } else {
        None
    }
}

/// The aircraft named by the indicator snapshot text `indicators_json`, in
/// lower case and trimmed (see [`snapshot_aircraft`] and [`json_members`]).
pub fn aircraft_in_snapshot(indicators_json: &str) -> (r: Option<String>)
    ensures
        match r {
            Some(n) => snapshot_aircraft(json_members(indicators_json@)) matches Some(t) && n@
                == trim_spec(unicode_lowercase(t)),
            None => snapshot_aircraft(json_members(indicators_json@)) is None,
        },
{
    let mut ind = JsonIndicators::new();
    ind.init();
    ind.update_json(indicators_json);
    proof {
        reveal_strlit("");
    }
    json_indicator_aircraft_type(&ind)
}

proof fn lemma_lines_without_lf(s: Seq<char>, from: int)
    requires
        0 <= from,
    ensures
        forall|i: int, j: int|
            0 <= i < lines_from(s, from).len() && 0 <= j < lines_from(s, from)[i].len()
                ==> #[trigger] lines_from(s, from)[i][j] != '\n',
    decreases s.len() - from,
{
    if from < s.len() {
        lemma_char_pos_bounds(s, '\n', from);
        let e = char_pos_from(s, '\n', from);
        if e < s.len() {
            lemma_lines_without_lf(s, e + 1);
            let l = s.subrange(from, e);
            let line = if l.len() > 0 && l.last() == '\r' {
                l.drop_last()
            } else {
                l
            };
            let all = lines_from(s, from);
            let rest = lines_from(s, e + 1);
            assert(all == seq![line] + rest);
            assert forall|i: int, j: int| 0 <= i < all.len() && 0 <= j < all[i].len() implies #[trigger] all[i][j]
                != '\n' by {
                if i == 0 {
                    assert(all[0][j] == s[from + j]);
                } else {
                    assert(all[i] == rest[i - 1]);
                }
            }
        } else {
            let all = lines_from(s, from);
            assert forall|i: int, j: int| 0 <= i < all.len() && 0 <= j < all[i].len() implies #[trigger] all[i][j]
                != '\n' by {
                assert(all[0][j] == s[from + j]);
            }
        }
    }
}

proof fn lemma_joined_without_lf(ls: Seq<Seq<char>>)
    requires
        forall|i: int, j: int| 0 <= i < ls.len() && 0 <= j < ls[i].len() ==> #[trigger] ls[i][j] != '\n',
    ensures
        forall|k: int| 0 <= k < joined(ls).len() ==> #[trigger] joined(ls)[k] != '\n',
    decreases ls.len(),
{
    if ls.len() > 0 {
        let init = ls.drop_last();
        assert forall|i: int, j: int| 0 <= i < init.len() && 0 <= j < init[i].len() implies #[trigger] init[i][j]
            != '\n' by {
            assert(init[i] == ls[i]);
        }
        lemma_joined_without_lf(init);
        let a = joined(init);
        let b = ls.last();
        assert forall|k: int| 0 <= k < joined(ls).len() implies #[trigger] joined(ls)[k] != '\n' by {
            if k >= a.len() {
                assert(joined(ls)[k] == b[k - a.len()]);
                assert(b == ls[ls.len() - 1]);
            } else {
                assert(joined(ls)[k] == a[k]);
            }
        }
    }
}

/// A fetched text is one line: whatever the response, the text it is read
/// as contains no line feed.
pub proof fn law_fetched_text_is_one_line(
    buf: Seq<u8>,
    scheme: Seq<char>,
    host: Seq<char>,
    port: u16,
    path: Seq<char>,
    redirects: int,
    k: int,
)
    requires
        fetch_step(buf, scheme, host, port, path, redirects) is Done,
        0 <= k < fetch_step(buf, scheme, host, port, path, redirects)->Done_0.len(),
    ensures
        fetch_step(buf, scheme, host, port, path, redirects)->Done_0[k] != '\n',
{
    match classify_spec(buf, scheme, host, port, path, redirects) {
        Ok(step) => {},
        Err((head_lower, body)) => match body_bytes(head_lower, body) {
            Ok(b) => {
                lemma_lines_without_lf(lossy_utf8(b), 0);
                lemma_joined_without_lf(text_lines(lossy_utf8(b)));
            },
            Err(e) => {},
        },
    }
}

/// A fetch follows at most 20 redirects in a row: from the twentieth on, a
/// response never leads to another redirect.
pub proof fn law_redirects_are_bounded(
    buf: Seq<u8>,
    scheme: Seq<char>,
    host: Seq<char>,
    port: u16,
    path: Seq<char>,
    redirects: int,
)
    requires
        redirects >= 20,
    ensures
        !(fetch_step(buf, scheme, host, port, path, redirects) is Redirect),
{
}

/// A response whose status line reads a code of 400 or more fails with
/// `HTTP ` and the code, whatever its headers and body hold.
pub proof fn law_error_status_fails(
    buf: Seq<u8>,
    scheme: Seq<char>,
    host: Seq<char>,
    port: u16,
    path: Seq<char>,
    redirects: int,
    sep: int,
    code: int,
)
    requires
        head_end(buf) == Some(sep),
        status_code(status_line_of(head_text(buf, sep))) == Some(code),
        code >= 400,
    ensures
        fetch_step(buf, scheme, host, port, path, redirects) == FetchStepModel::Failed(
            "HTTP "@ + decimal_text(code as nat),
        ),
{
}

} // verus!
