use vm_core::http::{live_aircraft_type, parse_header_lines};
use vm_core::ui_model::data_field::{disable_key, right_align5, visibility_after, DataField};

#[test]
fn initial_state() {
    let df = DataField::new("getIAS", "表  速", "Km/h", "disableFlightInfoIAS", true, false);
    assert_eq!(df.key, "getIAS");
    assert_eq!(df.label, "表  速");
    assert_eq!(df.unit, "Km/h");
    assert_eq!(df.config_key, "disableFlightInfoIAS");
    assert!(df.hide_when_na);
    assert!(!df.hide_when_zero);
    assert!(df.visible);
    assert_eq!(df.current_value, "---");
    assert_eq!(df.buffer, "");
    assert_eq!(df.length, 0);
    assert_eq!(df.precision, 0);
    assert!(df.format.is_none());
    assert!(df.na_when_evaluator.is_none());
}

#[test]
fn set_value_right_aligns_width_5() {
    let mut df = DataField::new("k", "l", "u", "c", false, false);
    df.set_value("123");
    assert_eq!(df.current_value, "  123");
    df.set_value("N/A");
    assert_eq!(df.current_value, "  N/A");
    df.set_value("-");
    assert_eq!(df.current_value, "    -");
    df.set_value("12345");
    assert_eq!(df.current_value, "12345");
    df.set_value("123456");
    assert_eq!(df.current_value, "123456");
}

#[test]
fn set_unit_replaces() {
    let mut df = DataField::new("k", "l", "Ata", "c", false, false);
    df.set_unit("P/XX.X''");
    assert_eq!(df.unit, "P/XX.X''");
}

#[test]
fn set_value_with_visibility_na_match() {
    let mut df = DataField::new("k", "l", "u", "c", true, false);
    df.set_value_with_visibility("-", "-");
    assert!(!df.visible, "an N/A value hides the field");
    assert_eq!(df.current_value, "    -");
    df.set_value_with_visibility("800", "-");
    assert!(df.visible, "any other value shows it");
    assert_eq!(df.current_value, "  800");
}

#[test]
fn set_value_with_visibility_no_na_flag_leaves_visible() {
    let mut df = DataField::new("k", "l", "u", "c", false, false);
    df.set_value_with_visibility("-", "-");
    assert!(df.visible);
    df.visible = false;
    df.set_value_with_visibility("800", "-");
    assert!(!df.visible, "visibility is kept when N/A does not hide");
}

#[test]
fn right_alignment_counts_characters() {
    assert_eq!(right_align5("123"), "  123");
    assert_eq!(right_align5("表速"), "   表速");
    assert_eq!(right_align5(""), "     ");
}

#[test]
fn visibility_rule() {
    assert!(!visibility_after(true, true, "-", "-"));
    assert!(visibility_after(true, false, "800", "-"));
    assert!(visibility_after(false, true, "-", "-"));
    assert!(!visibility_after(false, false, "800", "-"));
}

#[test]
fn gauge_config_key_is_prefixed() {
    assert_eq!(disable_key("RPM"), "disableRPM");
}

#[test]
fn header_lines_become_pairs() {
    assert_eq!(parse_header_lines("\n"), Vec::<(String, String)>::new());
    assert_eq!(
        parse_header_lines("User-Agent: AppleWebKit/537.88\r\n  X-A :b:c  \nnocolon\n"),
        vec![
            ("User-Agent".to_string(), "AppleWebKit/537.88".to_string()),
            ("X-A".to_string(), "b:c".to_string()),
        ]
    );
}

#[test]
fn live_type_needs_valid_non_empty_type() {
    assert_eq!(live_aircraft_type(true, Some("BF-109F-4")), Some("bf-109f-4".to_string()));
    assert_eq!(live_aircraft_type(false, Some("BF-109F-4")), None);
    assert_eq!(live_aircraft_type(true, Some("")), None);
    assert_eq!(live_aircraft_type(true, None), None);
}
