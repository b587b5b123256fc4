use vm_core::indicators::Indicators;
use vm_core::state::Reading;

/// An `/indicators` snapshot as the game serves it.
const IND_MOCK: &str = "{\"valid\": true,\"army\": \"air\",\"type\": \"bf-109f-4\",\"speed\": 131.007797,\"pedals1\": -0.465775,\"pedals2\": -0.465775,\"pedals3\": -0.465775,\"pedals4\": -0.465775,\"stick_elevator\": 0.187344,\"stick_elevator1\": 0.187344,\"stick_ailerons\": -0.477257,\"vario\": -7.342558,\"altitude_hour\": 151.084213,\"altitude_min\": 151.084213,\"altitude_10k\": 151.084213,\"aviahorizon_roll\": -40.553505,\"aviahorizon_pitch\": 0.632352,\"bank\": 8.0,\"turn\": 0.131359,\"compass\": 164.09729,\"compass1\": 164.09729,\"clock_hour\": 2.7,\"clock_min\": 42.0,\"clock_sec\": 6.0,\"manifold_pressure\": 2.243279,\"rpm\": 3001.457031,\"oil_pressure\": 1.0,\"oil_temperature\": 90.373169,\"water_temperature\": 121.324493,\"mixture\": 0.833333,\"carb_temperature\": 0.0,\"fuel1\": 196.846497,\"fuel2\": 0.0,\"fuel_pressure\": 11.0,\"gears\": 0.0,\"gear_lamp_down\": 0.0,\"gear_lamp_up\": 0.0,\"gear_lamp_off\": 0.0,\"flaps\": 0.0,\"throttle\": 1.1,\"weapon1\": 0.0,\"prop_pitch\": 1.0}";

fn text(t: &str) -> Reading {
    Reading::Text(t.to_string())
}

fn read(buf: &str) -> Indicators {
    let mut id = Indicators::new();
    id.init();
    assert!(Indicators::can_update(buf));
    id.update(buf);
    id
}

#[test]
fn update_full_snapshot_matches_java_oracle() {
    let id = read(IND_MOCK);
    assert_eq!(id.valid.as_deref(), Some("true"));
    // quotes dropped and upper case; 9 characters are not more than 9
    assert_eq!(id.plane_type.as_deref(), Some("BF-109F-4"));
    assert_eq!(id.stype.as_deref(), Some("BF-109F-4"));
    assert!(id.flag);
    assert_eq!(id.speed, text("131.007797"));
    // the key `pedals` is first found as the start of `pedals1`
    assert_eq!(id.pedals, text("-0.465775"));
    assert_eq!(id.stick_elevator, text("0.187344"));
    assert_eq!(id.stick_ailerons, text("-0.477257"));
    assert_eq!(id.altitude_hour, text("151.084213"));
    assert_eq!(id.bank, text("8.0"));
    assert_eq!(id.turn, text("0.131359"));
    assert_eq!(id.compass, text("164.09729"));
    assert_eq!(id.clock_hour, text("2.7"));
    assert_eq!(id.clock_min, text("42.0"));
    assert_eq!(id.clock_sec, text("6.0"));
    assert_eq!(id.manifold_pressure, text("2.243279"));
    assert_eq!(id.rpm, text("3001.457031"));
    assert_eq!(id.oil_pressure, text("1.0"));
    // never read; `head_temperature` is missing
    assert_eq!(id.water_temperature, Reading::Unset);
    assert_eq!(id.engine_temperature, Reading::Missing);
    assert_eq!(id.mixture, text("0.833333"));
    // the quoted key `"fuel"` is not in the snapshot
    assert_eq!(id.fuel[0], Reading::Missing);
    assert_eq!(id.fuel[1], text("196.846497"));
    assert_eq!(id.fuel[2], text("0.0"));
    assert_eq!(id.fuel[3], Reading::Missing);
    assert_eq!(id.fuel_pressure, text("11.0"));
    assert_eq!(id.oxygen, Reading::Missing);
    assert_eq!(id.gears_lamp, Reading::Missing);
    assert_eq!(id.flaps, text("0.0"));
    assert_eq!(id.trimmer, Reading::Missing);
    assert_eq!(id.throttle, text("1.1"));
    assert_eq!(id.weapon1, text("0.0"));
    assert_eq!(id.weapon2, Reading::Missing);
    assert_eq!(id.weapon3, Reading::Missing);
    assert_eq!(id.vario, text("-7.342558"));
    assert_eq!(id.aviahorizon_pitch, text("0.632352"));
    assert_eq!(id.aviahorizon_roll, text("-40.553505"));
    assert_eq!(id.wsweep_indicator, Reading::Missing);
    assert_eq!(id.radio_altitude, Reading::Missing);
    assert_eq!(id.mach, Reading::Missing);
    assert_eq!(id.oil_temp, text("90.373169"));
    assert_eq!(id.water_temp, text("121.324493"));
}

#[test]
fn init_sets_nastring_and_defaults() {
    let mut id = Indicators::new();
    id.init();
    assert_eq!(id.valid.as_deref(), Some("-"));
    assert!(id.fuel.iter().all(|f| *f == Reading::Unset));
    assert!(!id.flag);
    assert_eq!(id.mach, Reading::Unset);
}

#[test]
fn update_tank_army_still_parsed_as_aircraft() {
    // the army text keeps its quotes, so it is never `tank`
    let id = read("{\"valid\": true, \"army\": \"tank\", \"type\": \"tu-4\"}");
    assert!(id.flag);
    assert_eq!(id.plane_type.as_deref(), Some("TU-4"));
}

#[test]
fn update_missing_type_gives_empty_type_null_stype() {
    let id = read("{\"valid\": true, \"speed\": 55.5}");
    assert!(id.flag);
    assert_eq!(id.plane_type.as_deref(), Some(""));
    assert!(id.stype.is_none());
    assert_eq!(id.speed, text("55.5"));
}

#[test]
fn update_long_type_truncates_stype_to_8() {
    let id = read("{\"valid\": true, \"type\": \"aaaaaaaaaaaaaaaaaaaa\"}");
    assert_eq!(id.plane_type.as_deref(), Some("AAAAAAAAAAAAAAAAAAAA"));
    assert_eq!(id.stype.as_deref(), Some("AAAAAAAA"));
}

#[test]
fn update_short_type_keeps_stype_equal() {
    let id = read("{\"valid\": true, \"type\": \"a\"}");
    assert_eq!(id.plane_type.as_deref(), Some("A"));
    assert_eq!(id.stype.as_deref(), Some("A"));
}

#[test]
fn update_invalid_gives_no_cockpit() {
    let id = read("{\"valid\": false}");
    assert_eq!(id.plane_type.as_deref(), Some("No Cockpit"));
    assert_eq!(id.stype.as_deref(), Some("NoCockpit"));
    assert!(!id.flag);
    assert_eq!(id.speed, Reading::Unset);
}

#[test]
fn update_cjk_type_bmp_equivalent() {
    let id = read("{\"valid\": true, \"type\": \"歼-20\"}");
    assert_eq!(id.plane_type.as_deref(), Some("歼-20"));
    assert_eq!(id.stype.as_deref(), Some("歼-20"));
}

#[test]
fn update_fuel_sentinel_zeroing() {
    let id = read("{\"valid\": true, \"fuel1\": 12.5, \"fuel2\": 0.0, \"fuel3\": 7.5}");
    assert_eq!(id.fuel[1], text("12.5"));
    assert_eq!(id.fuel[2], text("0.0"));
    assert_eq!(id.fuel[3], text("7.5"));
    assert_eq!(id.fuel[4], Reading::Missing);
}

#[test]
fn type_of_one_character_is_kept_whole() {
    // an unquoted one-character type keeps the earlier short type
    let mut id = read("{\"valid\": true, \"type\": \"ab\"}");
    assert_eq!(id.stype.as_deref(), Some("AB"));
    id.update("{\"valid\": true, \"type\": x}");
    assert_eq!(id.plane_type.as_deref(), Some("X"));
    assert_eq!(id.stype.as_deref(), Some("AB"));
}

#[test]
fn type_of_ten_characters_is_cut() {
    let id = read("{\"valid\": true, \"type\": \"abcdefghij\"}");
    assert_eq!(id.plane_type.as_deref(), Some("ABCDEFGHIJ"));
    assert_eq!(id.stype.as_deref(), Some("ABCDEFGH"));
}

#[test]
fn unreadable_key_is_refused() {
    assert!(!Indicators::can_update("{\"valid\": true, \"speed\":,"));
    assert!(Indicators::can_update("{\"valid\": false, \"speed\":,"));
    assert!(!Indicators::can_update("{\"valid\":}"));
}

#[test]
fn invalid_snapshot_keeps_readings() {
    let mut id = read("{\"valid\": true, \"speed\": 1.5}");
    id.update("{\"valid\": false}");
    assert_eq!(id.speed, text("1.5"));
    assert!(!id.flag);
}
