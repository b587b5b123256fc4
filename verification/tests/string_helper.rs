//! Tests of the telemetry substring scanners.
use vm_core::string_helper::{get_data_int, get_string, get_string_builder, I_INVALID};

#[test]
fn get_string_numeric_and_bool_values() {
    let r = "{\"valid\": true, \"speed\": 123.45, \"H, m\": 5000}";
    assert_eq!(get_string(r, "valid"), Some("true"));
    assert_eq!(get_string(r, "speed"), Some("123.45"));
    assert_eq!(get_string(r, "H, m"), Some("5000"));
}

#[test]
fn get_string_string_value_keeps_quotes() {
    // 跳过的是前导空格 → 返回值含首尾引号 (调用方 Indicators 自行去壳)
    let r = "{\"type\": \"tu-4\", \"army\": \"1\"}";
    assert_eq!(get_string(r, "type"), Some("\"tu-4\""));
    assert_eq!(get_string(r, "army"), Some("\"1\""));
}

#[test]
fn get_string_cjk_value() {
    let r = "{\"valid\": true, \"type\": \"歼-20\"}";
    let v = get_string(r, "type").unwrap();
    assert_eq!(v, "\"歼-20\"");
    assert_eq!(&v[1..v.len() - 1], "歼-20");
}

#[test]
fn get_string_cjk_compact_json() {
    let r = "{\"type\":\"歼-20\"}";
    assert_eq!(get_string(r, "type"), Some("歼-20\""));
}

#[test]
fn get_string_comma_key() {
    let r = "{\"foo\": 1, \"IAS, km/h\": 505, \"M\": 0.62}";
    assert_eq!(get_string(r, "IAS, km/h"), Some("505"));
    assert_eq!(get_string(r, "\"M\""), Some("0.62"));
}

#[test]
fn get_string_missing_key_returns_none() {
    assert_eq!(get_string("{\"speed\": 1}", "altitude"), None);
}

#[test]
fn get_string_truncated_tail() {
    // 截断 JSON (e2e s6 畸形场景): 扫不到 ','/'}' 时取到串尾, 不抛
    assert_eq!(get_string("{\"speed\": 12", "speed"), Some("12"));
}

#[test]
fn get_string_first_occurrence() {
    // indexOf 取第一次出现 (与 getStringBuilder 的 lastIndexOf 相对)
    assert_eq!(get_string("{\"speed\": 1, \"speed\": 2}", "speed"), Some("1"));
}

#[test]
fn get_string_empty_needle() {
    assert_eq!(get_string("ab:cd,", ""), Some("d"));
}

#[test]
fn get_string_builder_writes_at_offset() {
    let r = "{\"a\": 1, \"speed\": 7.5}";
    let mut buf = [0u8; 8];
    get_string_builder(r, "speed", &mut buf, 2);
    assert_eq!(&buf[..2], &[0, 0]); // 偏移前不动
    assert_eq!(&buf[2..5], b"7.5"); // 写入子串
    assert_eq!(&buf[5..], &[0, 0, 0]); // 尾部不动
}

#[test]
fn get_string_builder_last_occurrence() {
    // lastIndexOf 定位最后一次出现
    let r = "{\"speed\": 1, \"speed\": 2}";
    let mut buf = [0u8; 4];
    get_string_builder(r, "speed", &mut buf, 0);
    assert_eq!(&buf[..1], b"2");
    assert_eq!(&buf[1..], &[0, 0, 0]);
}

#[test]
fn get_string_builder_not_found_untouched() {
    let mut buf = [7u8; 4];
    get_string_builder("{\"a\": 1}", "speed", &mut buf, 0);
    assert_eq!(buf, [7, 7, 7, 7]);
}

#[test]
fn get_string_builder_cjk_bytes() {
    let r = "{\"type\": \"歼\"}";
    let mut buf = [0u8; 8];
    get_string_builder(r, "type", &mut buf, 0);
    assert_eq!(&buf[..5], "\"歼\"".as_bytes());
    assert_eq!(&buf[5..], &[0, 0, 0]);
}

#[test]
fn get_data_int_parses() {
    assert_eq!(get_data_int(Some("505")), 505);
    assert_eq!(get_data_int(Some("-42")), -42);
    assert_eq!(get_data_int(Some("+7")), 7);
    assert_eq!(get_data_int(None), I_INVALID);
    assert_eq!(get_data_int(None), -65535);
}

#[test]
fn get_string_prefix_key_matches_first_occurrence() {
    let r = "{\"fuel1\": 100, \"fuel\": 200}";
    assert_eq!(get_string(r, "fuel"), Some("100"));
    assert_eq!(get_string(r, "fuel1"), Some("100"));
}
