use vm_core::http::aircraft_in_snapshot;
use vm_core::state::Reading;
use vm_core::telemetry_indicators::{Indicators, JsonValue};

const IND_MOCK: &str = "{\"valid\": true,\"army\": \"air\",\"type\": \"bf-109f-4\",\"speed\": 131.007797,\"pedals1\": -0.465775,\"pedals2\": -0.465775,\"stick_elevator\": 0.187344,\"bank\": 8.0,\"rpm\": 3001,\"fuel1\": 196.846497,\"fuel2\": 0.0,\"fuel_pressure\": 11.0,\"throttle\": 1.1,\"weapon1\": 0.0}";

fn text(t: &str) -> Reading {
    Reading::Text(t.to_string())
}

fn read(buf: &str) -> Indicators {
    let mut id = Indicators::new();
    id.init();
    id.update_json(buf);
    id
}

#[test]
fn json_snapshot_is_read_by_exact_keys() {
    let id = read(IND_MOCK);
    assert_eq!(id.valid, Some(true));
    assert!(id.flag);
    assert_eq!(id.plane_type.as_deref(), Some("BF-109F-4"));
    assert_eq!(id.stype.as_deref(), Some("BF-109F-4"));
    assert_eq!(id.speed, text("131.007797"));
    assert_eq!(id.pedals, text("-0.465775"));
    assert_eq!(id.bank, text("8.0"));
    assert_eq!(id.rpm, text("3001"));
    assert_eq!(id.fuel[0], Reading::Missing);
    assert_eq!(id.fuel[1], text("196.846497"));
    assert_eq!(id.fuel[2], text("0.0"));
    assert_eq!(id.fuel[3], Reading::Missing);
    // the plain `fuel` key, fuel1 and fuel2
    assert_eq!(id.fuelnum, 3);
    assert_eq!(id.oxygen, Reading::Missing);
    assert_eq!(id.water_temperature, Reading::Unset);
}

#[test]
fn init_marks_the_snapshot_invalid() {
    let mut id = Indicators::new();
    id.init();
    assert_eq!(id.valid, Some(false));
    assert_eq!(id.fuelnum, 0);
    assert!(!id.flag);
}

#[test]
fn invalid_or_unreadable_snapshots_give_no_cockpit() {
    for buf in ["{\"valid\": false, \"speed\": 3}", "not json", "[1, 2]", "{\"valid\": \"true\"}"] {
        let id = read(buf);
        assert!(!id.flag, "{buf}");
        assert_eq!(id.plane_type.as_deref(), Some("No Cockpit"));
        assert_eq!(id.stype.as_deref(), Some("NoCockpit"));
        assert_eq!(id.speed, Reading::Unset);
    }
    assert_eq!(read("{\"valid\": false}").valid, Some(false));
    assert_eq!(read("not json").valid, None);
}

#[test]
fn type_names_from_the_type_string() {
    let id = read("{\"valid\":true,\"type\":\"aaaaaaaaaaaaaaaaaaaa\"}");
    assert_eq!(id.plane_type.as_deref(), Some("AAAAAAAAAAAAAAAAAAAA"));
    assert_eq!(id.stype.as_deref(), Some("AAAAAAAA"));
    let id = read("{\"valid\":true,\"type\":\"abcdefghi\"}");
    assert_eq!(id.stype.as_deref(), Some("ABCDEFGHI"));
    let mut id = read("{\"valid\":true,\"type\":\"ab\"}");
    id.update_json("{\"valid\":true,\"type\":7}");
    assert_eq!(id.plane_type.as_deref(), Some(""));
    assert_eq!(id.stype.as_deref(), Some("AB"));
}

#[test]
fn missing_value_tanks_are_not_counted() {
    let id = read("{\"valid\":true,\"fuel1\":-65535,\"fuel2\":-65535.0,\"fuel3\":12.5,\"fuel4\":\"x\"}");
    assert_eq!(id.fuelnum, 2);
    assert_eq!(id.fuel[4], Reading::Missing);
}

#[test]
fn members_can_be_given_directly() {
    let mut id = Indicators::new();
    id.update_from_members(Some(vec![
        ("valid".to_string(), JsonValue::Bool(true)),
        ("type".to_string(), JsonValue::Str("yak-3".to_string())),
        ("mach".to_string(), JsonValue::Number("0.5".to_string())),
    ]));
    assert_eq!(id.plane_type.as_deref(), Some("YAK-3"));
    assert_eq!(id.mach, text("0.5"));
    assert_eq!(id.fuelnum, 1);
    id.update_from_members(None);
    assert_eq!(id.valid, None);
    assert_eq!(id.mach, text("0.5"));
}

#[test]
fn compact_snapshots_name_their_aircraft() {
    assert_eq!(aircraft_in_snapshot("{\"valid\":true,\"type\":\"a\"}"), Some("a".to_string()));
    assert_eq!(aircraft_in_snapshot("{\"valid\": true, \"type\": \" Bf-109 \"}"), Some("bf-109".to_string()));
    assert_eq!(aircraft_in_snapshot("{\"valid\":false,\"type\":\"a\"}"), None);
    assert_eq!(aircraft_in_snapshot("{\"valid\":true}"), None);
    assert_eq!(aircraft_in_snapshot("garbage"), None);
}
