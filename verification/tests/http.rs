use vm_core::indicators::Indicators;
use vm_core::text::replace_all;
use vm_core::http::{
    content_length, head_content_length, indicator_aircraft_type, plain_target, decode_chunked, get_request, header_value, parse_url, resolve_location,
    response_step, FetchStep, HttpHelper, NSTRING,
};

#[test]
fn request_strings_exact_format() {
    let h = HttpHelper::new("\n");
    assert_eq!(h.state_request, "GET /state HTTP/1.1\nHost: 127.0.0.1\nCache-Control:no-cache\n\n\n");
    assert_eq!(
        h.indic_request,
        "GET /indicators HTTP/1.1\nHost: 127.0.0.1\nCache-Control:no-cache\n\n\n"
    );
    assert_eq!(
        h.mapobj_request,
        "GET /map_obj.json HTTP/1.1\nHost: 127.0.0.1\nCache-Control:no-cache\n\n\n"
    );
    assert_eq!(
        h.mapinfo_request,
        "GET /map_info.json HTTP/1.1\nHost: 127.0.0.1\nCache-Control:no-cache\n\n\n"
    );
    assert_eq!(
        h.set_alt_req,
        "GET /editor/fm_commands?cmd=setAlt&value=%d HTTP/1.1\nHost: 127.0.0.1\nCache-Control:no-cache\n\n\n"
    );
    assert_eq!(
        h.set_vel_req,
        "GET /editor/fm_commands?cmd=setVelocity&value=%.0f HTTP/1.1\nHost: 127.0.0.1\nCache-Control:no-cache\n\n\n"
    );
    let h2 = HttpHelper::new("User-Agent:AppleWebKit/537.88\r\n");
    assert_eq!(
        h2.state_request,
        "GET /state HTTP/1.1\nHost: 127.0.0.1\nCache-Control:no-cache\nUser-Agent:AppleWebKit/537.88\r\n\n"
    );
}

#[test]
fn new_helper_starts_with_empty_texts() {
    let h = HttpHelper::new("\n");
    assert_eq!(*h.str_state.lock().unwrap(), NSTRING);
    assert_eq!(h.str_indic, NSTRING);
    assert_eq!(h.str_map_obj, NSTRING);
    assert_eq!(h.str_map_info, NSTRING);
    assert_eq!(h.http_header, "\n");
}

fn step(resp: &[u8], path: &str) -> Option<FetchStep> {
    response_step(resp, "http", "127.0.0.1", 8000, path, 0)
}

fn done(s: &str) -> Option<FetchStep> {
    Some(FetchStep::Done(s.to_string()))
}

fn same(a: Option<FetchStep>, b: Option<FetchStep>) -> bool {
    match (a, b) {
        (Some(FetchStep::Done(x)), Some(FetchStep::Done(y))) => x == y,
        (Some(FetchStep::Redirect(x)), Some(FetchStep::Redirect(y))) => x == y,
        (Some(FetchStep::Failed(x)), Some(FetchStep::Failed(y))) => x == y,
        (None, None) => true,
        _ => false,
    }
}

#[test]
fn send_get_url_joins_lines_stripping_newlines() {
    let body = "{\n\"tag_name\": \"1.590\",\n\"x\": 1\n}";
    let resp = format!("HTTP/1.1 200 OK\r\nContent-Length: {}\r\n\r\n{}", body.len(), body);
    assert!(same(step(resp.as_bytes(), "/x"), done("{\"tag_name\": \"1.590\",\"x\": 1}")));
}

#[test]
fn send_get_url_error_status_is_err() {
    let r = step(b"HTTP/1.1 404 Not Found\r\nContent-Length: 0\r\n\r\n", "/miss");
    match r {
        Some(FetchStep::Failed(e)) => assert!(e.contains("404")),
        _ => panic!("expected a failure"),
    }
}

#[test]
fn send_get_url_follows_redirect() {
    let r = step(b"HTTP/1.1 302 Found\r\nLocation: /final\r\nContent-Length: 0\r\n\r\n", "/first");
    assert!(same(r, Some(FetchStep::Redirect("http://127.0.0.1:8000/final".to_string()))));
    assert_eq!(get_request("/final", "127.0.0.1", 8000), "GET /final HTTP/1.1\r\nHost: 127.0.0.1:8000\r\nConnection: close\r\n\r\n");
    assert!(same(step(b"HTTP/1.1 200 OK\r\nContent-Length: 2\r\n\r\nOK", "/final"), done("OK")));
}

#[test]
fn send_get_url_https_unsupported() {
    let (scheme, host, port, path) = parse_url("https://api.github.com/repos/x/y/releases/latest").unwrap();
    assert_eq!(scheme, "https");
    assert_eq!(host, "api.github.com");
    assert_eq!(port, 443);
    assert_eq!(path, "/repos/x/y/releases/latest");
}

#[test]
fn send_get_url_eof_body_without_content_length() {
    assert!(same(step(b"HTTP/1.1 200 OK\r\n\r\nPLAIN", "/x"), done("PLAIN")));
}

#[test]
fn send_get_url_chunked_body() {
    let resp = b"HTTP/1.1 200 OK\r\nTransfer-Encoding: chunked\r\n\r\n5\r\nhello\r\n6\r\n world\r\n0\r\n\r\n";
    assert!(same(step(resp, "/x"), done("hello world")));
}

#[test]
fn send_get_url_no_protocol_is_err() {
    assert_eq!(parse_url("127.0.0.1:8111/state"), Err("URL 缺少协议: 127.0.0.1:8111/state".to_string()));
}

#[test]
fn parse_url_defaults_and_errors() {
    assert_eq!(
        parse_url("HTTP://example.com"),
        Ok(("http".to_string(), "example.com".to_string(), 80, "/".to_string()))
    );
    assert_eq!(
        parse_url("http://h:8111/state?x=1"),
        Ok(("http".to_string(), "h".to_string(), 8111, "/state?x=1".to_string()))
    );
    assert_eq!(parse_url("http://h:99999/"), Err("端口非法: h:99999".to_string()));
    assert_eq!(parse_url("http://h:/"), Err("端口非法: h:".to_string()));
    assert_eq!(parse_url("http://:80/"), Err("URL 缺少主机: http://:80/".to_string()));
    assert_eq!(
        parse_url("http://h:+81"),
        Ok(("http".to_string(), "h".to_string(), 81, "/".to_string()))
    );
}

#[test]
fn resolve_location_forms() {
    assert_eq!(resolve_location("http", "h", 80, "/a/b", "https://x/y"), "https://x/y");
    assert_eq!(resolve_location("http", "h", 80, "/a/b", "/c"), "http://h:80/c");
    assert_eq!(resolve_location("http", "h", 8080, "/a/b", "c"), "http://h:8080/a/c");
    assert_eq!(resolve_location("http", "h", 80, "", "c"), "http://h:80/c");
}

#[test]
fn header_value_is_case_insensitive_and_skips_status_line() {
    let head = "location: /status-line\r\nContent-Type: x\r\nLOCATION:   /there  \r\n";
    assert_eq!(header_value(head, "location"), Some("/there".to_string()));
    assert_eq!(header_value(head, "content-type"), Some("x".to_string()));
    assert_eq!(header_value(head, "server"), None);
}

#[test]
fn content_length_reads_first_declaration() {
    assert_eq!(content_length("http/1.1 200 ok\r\ncontent-length: 12\r\ncontent-length: 3"), Some(12));
    assert_eq!(content_length("http/1.1 200 ok\r\ncontent-length: x\r\ncontent-length: 3"), None);
    assert_eq!(content_length("http/1.1 200 ok"), None);
}

#[test]
fn content_length_cuts_the_body() {
    assert!(same(step(b"HTTP/1.1 200 OK\r\nContent-Length: 3\r\n\r\nabcdef", "/x"), done("abc")));
    assert!(same(step(b"HTTP/1.1 200 OK\r\nContent-Length: 30\r\n\r\nab\r\ncd", "/x"), done("abcd")));
}

#[test]
fn decode_chunked_errors() {
    assert_eq!(decode_chunked(b"5\r\nhello\r\n0\r\n\r\n"), Ok(b"hello".to_vec()));
    assert_eq!(decode_chunked(b"5;ext=1\r\nhello\r\n0\r\n"), Ok(b"hello".to_vec()));
    assert_eq!(decode_chunked(b"5"), Err("chunked: 缺行尾".to_string()));
    assert_eq!(decode_chunked(b"zz\r\n"), Err("chunked: size 非十六进制".to_string()));
    assert_eq!(decode_chunked(b"\xff\r\n"), Err("chunked: size 非法".to_string()));
    assert_eq!(decode_chunked(b"9\r\nhello"), Err("chunked: body 截断".to_string()));
}

#[test]
fn chunk_ending_at_the_body_end_is_refused() {
    let resp = b"HTTP/1.1 200 OK\r\nTransfer-Encoding: chunked\r\n\r\n1\r\na";
    assert!(step(resp, "/x").is_none());
}

#[test]
fn malformed_responses_fail() {
    assert!(same(step(b"HTTP/1.1 200 OK", "/x"), Some(FetchStep::Failed("响应缺少 header 分隔".to_string()))));
    assert!(same(
        step(b"HTTP/1.1 OK\r\n\r\n", "/x"),
        Some(FetchStep::Failed("状态行无法解析: HTTP/1.1 OK".to_string()))
    ));
    let r = response_step(b"HTTP/1.1 301 Moved\r\nLocation: /a\r\n\r\n", "http", "h", 80, "/", 20);
    assert!(same(r, Some(FetchStep::Failed("重定向次数过多".to_string()))));
    assert!(same(
        step(b"HTTP/1.1 301 Moved\r\n\r\nbody", "/x"),
        done("body")
    ));
}

#[test]
fn head_length_is_read_from_any_case_and_line_ending() {
    assert_eq!(head_content_length("HTTP/1.1 200 OK\r\nContent-Length: 12\r\n"), Some(12));
    assert_eq!(head_content_length("HTTP/1.1 200 OK\nCONTENT-LENGTH:  7 \n"), Some(7));
    assert_eq!(head_content_length("HTTP/1.1 200 OK\r\nContent-Type: text\r\n"), None);
    // the first matching line decides, even when it does not hold a number
    assert_eq!(head_content_length("HTTP/1.1 200 OK\r\ncontent-length: x\r\ncontent-length: 3\r\n"), None);
}

#[test]
fn indicator_snapshot_names_its_aircraft() {
    let mut ind = Indicators::new();
    ind.init();
    ind.update("{\"valid\": true, \"type\": \"bf-109f-4\"}");
    assert_eq!(indicator_aircraft_type(&ind), Some("bf-109f-4".to_string()));
    ind.update("{\"valid\": false}");
    assert_eq!(indicator_aircraft_type(&ind), None);
    // an army that reads `tank` gives no cockpit even with a valid snapshot
    ind.update("{\"valid\": true, \"army\": tank, \"type\": \"t-34\"}");
    assert_eq!(ind.plane_type.as_deref(), Some("No Cockpit"));
    assert_eq!(indicator_aircraft_type(&ind), None);
}

#[test]
fn commands_fill_in_their_values() {
    let h = HttpHelper::new("X-Token: 1");
    assert_eq!(
        h.alt_request(-1200),
        "GET /editor/fm_commands?cmd=setAlt&value=-1200 HTTP/1.1\nHost: 127.0.0.1\nCache-Control:no-cache\nX-Token: 1\n"
    );
    assert_eq!(
        h.alt_request(i32::MIN),
        "GET /editor/fm_commands?cmd=setAlt&value=-2147483648 HTTP/1.1\nHost: 127.0.0.1\nCache-Control:no-cache\nX-Token: 1\n"
    );
    assert_eq!(
        h.speed_request("350"),
        "GET /editor/fm_commands?cmd=setVelocity&value=350 HTTP/1.1\nHost: 127.0.0.1\nCache-Control:no-cache\nX-Token: 1\n"
    );
}

#[test]
fn every_occurrence_is_replaced() {
    assert_eq!(replace_all("a%db%d", "%d", "7"), "a7b7");
    assert_eq!(replace_all("%%dd", "%d", "x"), "%xd");
    assert_eq!(replace_all("aaa", "aa", "b"), "ba");
    assert_eq!(replace_all("none", "%d", "7"), "none");
}

#[test]
fn fm_cmd_set_alt_percent_d_format() {
    let hh = HttpHelper::new("\n");
    let got = hh.alt_request(3000);
    assert!(got.starts_with("GET /editor/fm_commands?cmd=setAlt&value=3000 HTTP/1.1\n"));
}

#[test]
fn plain_targets_refuse_https() {
    assert_eq!(
        plain_target("http://127.0.0.1:8111/state"),
        Ok(("http".to_string(), "127.0.0.1".to_string(), 8111, "/state".to_string()))
    );
    assert_eq!(
        plain_target("https://api.github.com/x"),
        Err("https 协议暂不受支持 (无 TLS 依赖): https://api.github.com/x".to_string())
    );
    assert_eq!(plain_target("ftp://x"), Err("URL 缺少协议: ftp://x".to_string()));
}
