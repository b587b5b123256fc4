use vm_core::state::{Reading, State, MAX_ENG_NUM};

/// A `/state` snapshot as the game serves it: one space after each colon, none
/// after the commas.
const STATE_MOCK: &str = "{\"valid\": true,\"aileron, %\": -48,\"elevator, %\": 20,\"rudder, %\": -47,\"flaps, %\": 0,\"gear, %\": 0,\"H, m\": 46,\"TAS, km/h\": 454,\"IAS, km/h\": 474,\"M\": 0.39,\"AoA, deg\": -1.6,\"AoS, deg\": -5.9,\"Ny\": 0.35,\"Vy, m/s\": -7.3,\"Wx, deg/s\": -34,\"Mfuel, kg\": 197,\"Mfuel0, kg\": 734,\"throttle 1, %\": 110,\"RPM throttle 1, %\": 100,\"mixture 1, %\": 100,\"radiator 1, %\": 42,\"magneto 1\": 3,\"power 1, hp\": 1597.8,\"RPM 1\": 3001,\"manifold pressure 1, atm\": 2.24,\"water temp 1, C\": 121,\"oil temp 1, C\": 90,\"pitch 1, deg\": 35.5,\"thrust 1, kgs\": 840,\"efficiency 1, %\": 87}";

fn text(t: &str) -> Reading {
    Reading::Text(t.to_string())
}

fn ready_state() -> State {
    let mut st = State::new();
    st.init();
    st
}

fn update(st: &mut State, buf: &str) -> i32 {
    assert!(st.can_update(buf));
    st.update(buf)
}

#[test]
fn tests_update_full_snapshot_matches_java_oracle() {
    let mut st = ready_state();
    assert_eq!(update(&mut st, STATE_MOCK), 0);
    assert_eq!(st.valid.as_deref(), Some("true"));
    assert!(st.flag);
    assert_eq!(st.engine_num, 1);
    assert_eq!(st.aileron, -48);
    assert_eq!(st.elevator, 20);
    assert_eq!(st.rudder, -47);
    assert_eq!(st.flaps, 0);
    assert_eq!(st.gear, 0);
    assert_eq!(st.airbrake, -65535);
    assert_eq!(st.tas, 454);
    assert_eq!(st.ias, 474);
    // decimal readings are handed on as their text
    assert_eq!(st.m, text("0.39"));
    assert_eq!(st.aoa, text("-1.6"));
    assert_eq!(st.aos, text("-5.9"));
    assert_eq!(st.ny, text("0.35"));
    assert_eq!(st.vy, text("-7.3"));
    assert_eq!(st.wx, text("-34"));
    assert_eq!(st.heightm, text("46"));
    assert_eq!(st.throttle, 110);
    assert_eq!(st.rpm_throttle, 100);
    assert_eq!(st.radiator, 42);
    assert_eq!(st.mixture, 100);
    assert_eq!(st.compressorstage, 0);
    assert_eq!(st.magenato, 3);
    assert_eq!(st.rpm, 3001);
    assert_eq!(st.manifoldpressure, text("2.24"));
    assert_eq!(st.watertemp, text("121"));
    assert_eq!(st.oiltemp, text("90"));
    assert_eq!(st.mfuel, text("197"));
    assert_eq!(st.mfuel_1, Reading::Missing);
    assert_eq!(st.mfuel0, text("734"));
    assert_eq!(st.mfuel0_1, Reading::Missing);
    assert_eq!(st.total_thr, 840);
    // engine 0 holds its readings; engine 1 holds the missing values it was
    // read as before the loop stopped; the later rows keep their zeros
    assert_eq!(st.throttles[0], 110);
    assert_eq!(st.power[0], text("1597.8"));
    assert_eq!(st.thrust[0], 840);
    assert_eq!(st.pitch[0], text("35.5"));
    assert_eq!(st.efficiency[0], 87);
    assert_eq!(st.throttles[1], -65535);
    assert_eq!(st.power[1], Reading::Missing);
    assert_eq!(st.thrust[1], -65535);
    assert_eq!(st.pitch[1], Reading::Missing);
    assert_eq!(st.efficiency[1], -65535);
    assert_eq!(st.throttles[2], 0);
    assert_eq!(st.thrust[15], 0);
    assert_eq!(st.power[2], Reading::Unset);
}

#[test]
fn update_missing_valid_returns_minus_1() {
    let mut st = ready_state();
    assert_eq!(update(&mut st, "{\"IAS, km/h\": 100}"), -1);
    assert!(st.valid.is_none());
    assert!(!st.flag);
    assert_eq!(st.ias, 0);
}

#[test]
fn update_valid_false_keeps_fields() {
    let mut st = ready_state();
    assert_eq!(update(&mut st, "{\"valid\": false}"), 0);
    assert_eq!(st.valid.as_deref(), Some("false"));
    assert!(!st.flag);
    assert_eq!(st.engine_num, 0);
}

#[test]
fn update_sentinel_normalizations() {
    let mut st = ready_state();
    update(
        &mut st,
        "{\"valid\": true, \"RPM throttle\": -65535, \"mixture\": -65535, \"compressor stage\": -65535, \"magneto\": 1}",
    );
    assert_eq!(st.rpm_throttle, -1);
    assert_eq!(st.mixture, -1);
    assert_eq!(st.compressorstage, 0);
    assert_eq!(st.magenato, 1);
    // no `thrust N` key: the engine loop stops at once
    assert_eq!(st.engine_num, 0);
}

#[test]
fn update_multi_engine() {
    let mut st = ready_state();
    update(
        &mut st,
        "{\"valid\": true, \"throttle 1\": 90, \"throttle 2\": 95, \"power 1\": 1000.5, \"power 2\": 1100.25, \"thrust 1\": 500, \"thrust 2\": 600, \"pitch 1\": 30.5, \"pitch 2\": 31.5, \"efficiency 1\": 80, \"efficiency 2\": 81}",
    );
    assert_eq!(st.engine_num, 2);
    assert_eq!(st.total_thr, 1100);
    assert_eq!(st.throttles[1], 95);
    assert_eq!(st.power[1], text("1100.25"));
    assert_eq!(st.thrust[1], 600);
    assert_eq!(st.pitch[1], text("31.5"));
    assert_eq!(st.efficiency[1], 81);
    assert_eq!(st.throttles[2], -65535);
    assert_eq!(st.thrust[2], -65535);
    assert_eq!(st.throttles[3], 0);
}

#[test]
fn get_eng_num_counts_zero_based_thrust_keys() {
    let mut st = ready_state();
    st.get_eng_num("{\"thrust 0\": 100,\"thrust 1\": 200,\"thrust 2\": 300}");
    assert_eq!(st.engine_num, 3);
    assert_eq!(st.thrust[0], 100);
    assert_eq!(st.thrust[1], 200);
    assert_eq!(st.thrust[3], -65535);
}

#[test]
fn init_resets_arrays_and_sentinels() {
    let st = ready_state();
    assert_eq!(st.valid.as_deref(), Some("false"));
    assert_eq!(st.throttles.len(), MAX_ENG_NUM);
    assert_eq!(st.power.len(), MAX_ENG_NUM);
    assert_eq!(st.thrust.len(), MAX_ENG_NUM);
    assert!(st.throttles.iter().all(|&v| v == 0));
    assert_eq!(st.engine_num, 0);
    assert_eq!(st.airbrake, 0);
}

#[test]
fn update_is_refused_before_init_when_valid() {
    let st = State::new();
    assert!(!st.can_update(STATE_MOCK));
    assert!(st.can_update("{\"valid\": false}"));
    assert!(st.can_update("{\"IAS\": 3}"));
}

#[test]
fn update_is_refused_on_a_bad_integer() {
    let st = ready_state();
    assert!(!st.can_update("{\"valid\": true, \"gear\": 1.5}"));
    assert!(!st.can_update("{\"valid\": true, \"thrust 1\": x}"));
    // a key with nothing after its colon cannot be cut out
    assert!(!st.can_update("{\"valid\": true, \"Ny\":,"));
}

#[test]
fn engine_loop_stops_at_sixteen() {
    let mut buf = String::from("{\"valid\": true");
    for i in 1..=17 {
        buf.push_str(&format!(", \"thrust {}\": {}", i, i * 10));
    }
    buf.push('}');
    let mut st = ready_state();
    update(&mut st, &buf);
    assert_eq!(st.engine_num, 16);
    assert_eq!(st.thrust[15], 160);
    // 10 + 20 + … + 160
    assert_eq!(st.total_thr, 1360);
}

#[test]
fn eng_num_adds_to_the_count() {
    let mut st = ready_state();
    st.engine_num = 2;
    st.get_eng_num("{\"thrust 5\": 1}");
    assert_eq!(st.engine_num, 3);
    assert_eq!(st.thrust[5], 1);
    assert_eq!(st.thrust[0], -65535);
}

#[test]
fn eng_num_needs_init_and_integer_thrusts() {
    assert!(!State::new().can_get_eng_num("{}"));
    let st = ready_state();
    assert!(st.can_get_eng_num("{\"thrust 0\": 1}"));
    assert!(!st.can_get_eng_num("{\"thrust 3\": 1.5}"));
}
