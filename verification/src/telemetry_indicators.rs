//! The `/indicators` snapshot read as a JSON object: the cockpit instruments
//! by their exact keys, and the aircraft type names shown for it.
//!
//! The text is parsed by `serde_json` ([`parse_json_object`]); everything
//! read from the parsed members is this module's.  Instrument readings are
//! JSON numbers and are kept as [`Reading`]s holding the number's text.
use serde_json::Value;
use vstd::prelude::*;
use crate::indicators::{to_uppercase, unicode_uppercase};
use crate::state::Reading;
use crate::text::{opt_view, owned, str_eq, string_from_chars, to_chars};

verus! {

/// A JSON value, as far as the snapshot reader tells values apart.
#[derive(Debug, Clone, PartialEq, Eq)]
pub enum JsonValue {
    Null,
    Bool(bool),
    /// A number, held as its printed text.
    Number(String),
    Str(String),
    /// An array or an object.
    Other,
}

/// The mathematical value of a [`JsonValue`].
pub enum JsonModel {
    Null,
    Bool(bool),
    Number(Seq<char>),
    Str(Seq<char>),
    Other,
}

impl JsonValue {
    pub open spec fn model(&self) -> JsonModel {
        match self {
            JsonValue::Null => JsonModel::Null,
            JsonValue::Bool(b) => JsonModel::Bool(*b),
            JsonValue::Number(t) => JsonModel::Number(t@),
            JsonValue::Str(t) => JsonModel::Str(t@),
            JsonValue::Other => JsonModel::Other,
        }
    }
}

/// The members of a parsed JSON object.
pub open spec fn members_model(ms: Seq<(String, JsonValue)>) -> Seq<(Seq<char>, JsonModel)> {
    ms.map_values(|m: (String, JsonValue)| (m.0@, m.1.model()))
}

/// The members of an optional parsed JSON object.
pub open spec fn opt_members(ms: Option<Vec<(String, JsonValue)>>) -> Option<Seq<(Seq<char>, JsonModel)>> {
    match ms {
        Some(v) => Some(members_model(v@)),
        None => None,
    }
}

/// The members `serde_json` reads from `text` when it is a JSON object (in
/// the order of its map, numbers printed by `serde_json`); `None` when the
/// text is not a JSON object.
pub uninterp spec fn json_members(text: Seq<char>) -> Option<Seq<(Seq<char>, JsonModel)>>;

/// Parses `buf` as a JSON object.
///
/// Calls `serde_json::from_str` into a `serde_json::Value`; an object's
/// members are converted one by one (a number to its printed text, arrays
/// and objects to `Other`); anything else, or a parse error, gives `None`.
/// The result is named [`json_members`].
#[verifier::external_body]
fn parse_json_object(buf: &str) -> (r: Option<Vec<(String, JsonValue)>>)
    ensures
        opt_members(r) == json_members(buf@),
{
    match serde_json::from_str::<Value>(buf) {
        Ok(Value::Object(m)) => Some(m.into_iter().map(|(k, v)| (k, match v {
            Value::Null => JsonValue::Null,
            Value::Bool(b) => JsonValue::Bool(b),
            Value::Number(n) => JsonValue::Number(n.to_string()),
            Value::String(s) => JsonValue::Str(s),
            _ => JsonValue::Other,
        })).collect()),
        _ => None,
    }
}

/// The value of the first member named `key`.
pub open spec fn member(ms: Seq<(Seq<char>, JsonModel)>, key: Seq<char>) -> Option<JsonModel>
    decreases ms.len(),
{
    if ms.len() == 0 {
        None
    } else if ms[0].0 == key {
        Some(ms[0].1)
    } else {
        member(ms.drop_first(), key)
    }
}

/// The value of `key` in an optional object; `None` without an object.
pub open spec fn lookup(ms: Option<Seq<(Seq<char>, JsonModel)>>, key: Seq<char>) -> Option<JsonModel> {
    match ms {
        Some(s) => member(s, key),
        None => None,
    }
}

/// The boolean a value holds.
pub open spec fn json_bool(m: Option<JsonModel>) -> Option<bool> {
    match m {
        Some(JsonModel::Bool(b)) => Some(b),
        _ => None,
    }
}

/// The string a value holds.
pub open spec fn json_str(m: Option<JsonModel>) -> Option<Seq<char>> {
    match m {
        Some(JsonModel::Str(s)) => Some(s),
        _ => None,
    }
}

/// True when `r` is the instrument reading of the value `m`: the number's
/// text, or missing for anything that is not a number.
pub open spec fn reads_value(r: Reading, m: Option<JsonModel>) -> bool {
    match m {
        Some(JsonModel::Number(t)) => r matches Reading::Text(s) && s@ == t,
        _ => r is Missing,
    }
}

/// True when the fuel value `m` counts as a tank: a number other than the
/// missing value -65535 (printed `-65535` or `-65535.0`).
pub open spec fn tank_read(m: Option<JsonModel>) -> bool {
    m matches Some(JsonModel::Number(t)) && t != "-65535"@ && t != "-65535.0"@
}

/// The number of fuel tanks of a snapshot: the plain `fuel` key always
/// counts as one, and each of `fuel1`..`fuel4` that [`tank_read`]s adds one.
pub open spec fn tank_count(ms: Option<Seq<(Seq<char>, JsonModel)>>) -> int {
    1 + (if tank_read(lookup(ms, "fuel1"@)) { 1int } else { 0int })
      + (if tank_read(lookup(ms, "fuel2"@)) { 1int } else { 0int })
      + (if tank_read(lookup(ms, "fuel3"@)) { 1int } else { 0int })
      + (if tank_read(lookup(ms, "fuel4"@)) { 1int } else { 0int })
}

/// The type shown for the type string `t`: upper case.
pub open spec fn json_shown_type(t: Seq<char>) -> Seq<char> {
    unicode_uppercase(t)
}

/// The short type for the type string `t`: the upper-case type, cut to its
/// first 8 characters when it is longer than 9.
pub open spec fn json_short_type(t: Seq<char>) -> Seq<char> {
    let up = unicode_uppercase(t);
    if up.len() > 9 {
        up.take(8)
    } else {
        up
    }
}

/// The value of the first member named `key`.
fn find_member<'a>(ms: &'a Option<Vec<(String, JsonValue)>>, key: &str) -> (r: Option<&'a JsonValue>)
    ensures
        match r {
            Some(v) => lookup(opt_members(*ms), key@) == Some(v.model()),
            None => lookup(opt_members(*ms), key@) is None,
        },
{
    match ms {
        None => None,
        Some(v) => {
            let ghost s = members_model(v@);
            assert(opt_members(*ms) == Some(s));
            assert(s.subrange(0, s.len() as int) =~= s);
            let mut i: usize = 0;
            while i < v.len()
                invariant
                    i <= v@.len(),
                    s == members_model(v@),
                    s.len() == v@.len(),
                    opt_members(*ms) == Some(s),
                    member(s, key@) == member(s.subrange(i as int, s.len() as int), key@),
                decreases v.len() - i,
            {
                let ghost rest = s.subrange(i as int, s.len() as int);
                assert(s[i as int] == (v@[i as int].0@, v@[i as int].1.model()));
                assert(rest[0] == s[i as int]);
                if str_eq(v[i].0.as_str(), key) {
                    assert(member(rest, key@) == Some(v@[i as int].1.model()));
                    return Some(&v[i].1);
                }
                assert(rest.drop_first() =~= s.subrange(i + 1, s.len() as int));
                i += 1;
            }
            assert(s.subrange(i as int, s.len() as int).len() == 0);
            None
        },
    }
}

/// The instrument reading of the member named `key`.
fn member_reading(ms: &Option<Vec<(String, JsonValue)>>, key: &str) -> (r: Reading)
    ensures
        reads_value(r, lookup(opt_members(*ms), key@)),
{
    match find_member(ms, key) {
        Some(JsonValue::Number(t)) => Reading::Text(owned(t.as_str())),
        _ => Reading::Missing,
    }
}

/// True when the fuel member named `key` counts as a tank.
fn tank_present(ms: &Option<Vec<(String, JsonValue)>>, key: &str) -> (r: bool)
    ensures
        r == tank_read(lookup(opt_members(*ms), key@)),
{
    match find_member(ms, key) {
        Some(JsonValue::Number(t)) => !str_eq(t.as_str(), "-65535") && !str_eq(t.as_str(), "-65535.0"),
        _ => false,
    }
}

/// The `/indicators` snapshot read as a JSON object.
pub struct Indicators {
    /// The boolean `valid`; `None` when it is absent or not a boolean.
    pub valid: Option<bool>,
    /// The aircraft type.
    pub plane_type: Option<String>,
    /// The aircraft type, cut short.
    pub stype: Option<String>,
    /// True when the last snapshot was valid.
    pub flag: bool,
    pub speed: Reading,
    pub pedals: Reading,
    pub stick_elevator: Reading,
    pub stick_ailerons: Reading,
    pub altitude_hour: Reading,
    pub altitude_min: Reading,
    pub altitude_10k: Reading,
    pub bank: Reading,
    pub turn: Reading,
    pub compass: Reading,
    pub clock_hour: Reading,
    pub clock_min: Reading,
    pub clock_sec: Reading,
    pub manifold_pressure: Reading,
    pub rpm: Reading,
    pub wsweep_indicator: Reading,
    pub oil_pressure: Reading,
    pub engine_temperature: Reading,
    pub mixture: Reading,
    /// Never read: stands at zero.
    pub water_temperature: Reading,
    /// The fuel readings: the plain `fuel` key, then `fuel1` to `fuel4`.
    pub fuel: [Reading; 5],
    /// The number of fuel tanks (see [`tank_count`]).
    pub fuelnum: i32,
    pub aviahorizon_pitch: Reading,
    pub aviahorizon_roll: Reading,
    pub radio_altitude: Reading,
    pub oil_temp: Reading,
    pub water_temp: Reading,
    pub fuel_pressure: Reading,
    pub oxygen: Reading,
    pub gears_lamp: Reading,
    pub flaps: Reading,
    pub vario: Reading,
    pub trimmer: Reading,
    pub throttle: Reading,
    pub weapon1: Reading,
    pub weapon2: Reading,
    pub weapon3: Reading,
    pub prop_pitch_hour: Reading,
    pub prop_pitch_min: Reading,
    pub ammo_counter1: Reading,
    pub ammo_counter2: Reading,
    pub ammo_counter3: Reading,
    pub mach: Reading,
}

impl Indicators {
    /// True when the instrument fields of `self` hold the values of `ms`.
    pub open spec fn holds_values(&self, ms: Option<Seq<(Seq<char>, JsonModel)>>) -> bool {
        &&& reads_value(self.speed, lookup(ms, "speed"@))
        &&& reads_value(self.pedals, lookup(ms, "pedals1"@))
        &&& reads_value(self.stick_elevator, lookup(ms, "stick_elevator"@))
        &&& reads_value(self.stick_ailerons, lookup(ms, "stick_ailerons"@))
        &&& reads_value(self.altitude_hour, lookup(ms, "altitude_hour"@))
        &&& reads_value(self.altitude_min, lookup(ms, "altitude_min"@))
        &&& reads_value(self.altitude_10k, lookup(ms, "altitude_10k"@))
        &&& reads_value(self.bank, lookup(ms, "bank"@))
        &&& reads_value(self.turn, lookup(ms, "turn"@))
        &&& reads_value(self.compass, lookup(ms, "compass"@))
        &&& reads_value(self.clock_hour, lookup(ms, "clock_hour"@))
        &&& reads_value(self.clock_min, lookup(ms, "clock_min"@))
        &&& reads_value(self.clock_sec, lookup(ms, "clock_sec"@))
        &&& reads_value(self.manifold_pressure, lookup(ms, "manifold_pressure"@))
        &&& reads_value(self.rpm, lookup(ms, "rpm"@))
        &&& reads_value(self.wsweep_indicator, lookup(ms, "wing_sweep_indicator"@))
        &&& reads_value(self.oil_pressure, lookup(ms, "oil_pressure"@))
        &&& reads_value(self.engine_temperature, lookup(ms, "head_temperature"@))
        &&& reads_value(self.mixture, lookup(ms, "mixture"@))
        &&& reads_value(self.aviahorizon_pitch, lookup(ms, "aviahorizon_pitch"@))
        &&& reads_value(self.aviahorizon_roll, lookup(ms, "aviahorizon_roll"@))
        &&& reads_value(self.radio_altitude, lookup(ms, "radio_altitude"@))
        &&& reads_value(self.oil_temp, lookup(ms, "oil_temperature"@))
        &&& reads_value(self.water_temp, lookup(ms, "water_temperature"@))
        &&& reads_value(self.fuel_pressure, lookup(ms, "fuel_pressure"@))
        &&& reads_value(self.oxygen, lookup(ms, "oxygen"@))
        &&& reads_value(self.gears_lamp, lookup(ms, "gears_lamp"@))
        &&& reads_value(self.flaps, lookup(ms, "flaps"@))
        &&& reads_value(self.vario, lookup(ms, "vario"@))
        &&& reads_value(self.trimmer, lookup(ms, "trimmer"@))
        &&& reads_value(self.throttle, lookup(ms, "throttle"@))
        &&& reads_value(self.weapon1, lookup(ms, "weapon1"@))
        &&& reads_value(self.weapon2, lookup(ms, "weapon2"@))
        &&& reads_value(self.weapon3, lookup(ms, "weapon3"@))
        &&& reads_value(self.prop_pitch_hour, lookup(ms, "prop_pitch_hour"@))
        &&& reads_value(self.prop_pitch_min, lookup(ms, "prop_pitch_min"@))
        &&& reads_value(self.ammo_counter1, lookup(ms, "ammo_counter1"@))
        &&& reads_value(self.ammo_counter2, lookup(ms, "ammo_counter2"@))
        &&& reads_value(self.ammo_counter3, lookup(ms, "ammo_counter3"@))
        &&& reads_value(self.mach, lookup(ms, "mach"@))
        &&& reads_value(self.fuel@[0], lookup(ms, "fuel"@))
        &&& reads_value(self.fuel@[1], lookup(ms, "fuel1"@))
        &&& reads_value(self.fuel@[2], lookup(ms, "fuel2"@))
        &&& reads_value(self.fuel@[3], lookup(ms, "fuel3"@))
        &&& reads_value(self.fuel@[4], lookup(ms, "fuel4"@))
    }

    /// True when `self` and `other` agree on every instrument reading and on
    /// the tank count.
    pub open spec fn same_values(&self, other: &Indicators) -> bool {
        &&& self.speed == other.speed
        &&& self.pedals == other.pedals
        &&& self.stick_elevator == other.stick_elevator
        &&& self.stick_ailerons == other.stick_ailerons
        &&& self.altitude_hour == other.altitude_hour
        &&& self.altitude_min == other.altitude_min
        &&& self.altitude_10k == other.altitude_10k
        &&& self.bank == other.bank
        &&& self.turn == other.turn
        &&& self.compass == other.compass
        &&& self.clock_hour == other.clock_hour
        &&& self.clock_min == other.clock_min
        &&& self.clock_sec == other.clock_sec
        &&& self.manifold_pressure == other.manifold_pressure
        &&& self.rpm == other.rpm
        &&& self.wsweep_indicator == other.wsweep_indicator
        &&& self.oil_pressure == other.oil_pressure
        &&& self.engine_temperature == other.engine_temperature
        &&& self.mixture == other.mixture
        &&& self.aviahorizon_pitch == other.aviahorizon_pitch
        &&& self.aviahorizon_roll == other.aviahorizon_roll
        &&& self.radio_altitude == other.radio_altitude
        &&& self.oil_temp == other.oil_temp
        &&& self.water_temp == other.water_temp
        &&& self.fuel_pressure == other.fuel_pressure
        &&& self.oxygen == other.oxygen
        &&& self.gears_lamp == other.gears_lamp
        &&& self.flaps == other.flaps
        &&& self.vario == other.vario
        &&& self.trimmer == other.trimmer
        &&& self.throttle == other.throttle
        &&& self.weapon1 == other.weapon1
        &&& self.weapon2 == other.weapon2
        &&& self.weapon3 == other.weapon3
        &&& self.prop_pitch_hour == other.prop_pitch_hour
        &&& self.prop_pitch_min == other.prop_pitch_min
        &&& self.ammo_counter1 == other.ammo_counter1
        &&& self.ammo_counter2 == other.ammo_counter2
        &&& self.ammo_counter3 == other.ammo_counter3
        &&& self.mach == other.mach
        &&& self.water_temperature == other.water_temperature
        &&& self.fuel@ == other.fuel@
        &&& self.fuelnum == other.fuelnum
    }

    /// A snapshot with every reading unset, no tank and no text.
    pub fn new() -> (r: Indicators)
        ensures
            r.valid is None,
            r.plane_type is None,
            r.stype is None,
            !r.flag,
            r.fuelnum == 0,
            r.water_temperature is Unset,
            forall|i: int| 0 <= i < 5 ==> #[trigger] r.fuel@[i] is Unset,
            r.speed is Unset,
            r.pedals is Unset,
            r.stick_elevator is Unset,
            r.stick_ailerons is Unset,
            r.altitude_hour is Unset,
            r.altitude_min is Unset,
            r.altitude_10k is Unset,
            r.bank is Unset,
            r.turn is Unset,
            r.compass is Unset,
            r.clock_hour is Unset,
            r.clock_min is Unset,
            r.clock_sec is Unset,
            r.manifold_pressure is Unset,
            r.rpm is Unset,
            r.wsweep_indicator is Unset,
            r.oil_pressure is Unset,
            r.engine_temperature is Unset,
            r.mixture is Unset,
            r.aviahorizon_pitch is Unset,
            r.aviahorizon_roll is Unset,
            r.radio_altitude is Unset,
            r.oil_temp is Unset,
            r.water_temp is Unset,
            r.fuel_pressure is Unset,
            r.oxygen is Unset,
            r.gears_lamp is Unset,
            r.flaps is Unset,
            r.vario is Unset,
            r.trimmer is Unset,
            r.throttle is Unset,
            r.weapon1 is Unset,
            r.weapon2 is Unset,
            r.weapon3 is Unset,
            r.prop_pitch_hour is Unset,
            r.prop_pitch_min is Unset,
            r.ammo_counter1 is Unset,
            r.ammo_counter2 is Unset,
            r.ammo_counter3 is Unset,
            r.mach is Unset,
    {
        Indicators {
            valid: None,
            plane_type: None,
            stype: None,
            flag: false,
            speed: Reading::Unset,
            pedals: Reading::Unset,
            stick_elevator: Reading::Unset,
            stick_ailerons: Reading::Unset,
            altitude_hour: Reading::Unset,
            altitude_min: Reading::Unset,
            altitude_10k: Reading::Unset,
            bank: Reading::Unset,
            turn: Reading::Unset,
            compass: Reading::Unset,
            clock_hour: Reading::Unset,
            clock_min: Reading::Unset,
            clock_sec: Reading::Unset,
            manifold_pressure: Reading::Unset,
            rpm: Reading::Unset,
            wsweep_indicator: Reading::Unset,
            oil_pressure: Reading::Unset,
            engine_temperature: Reading::Unset,
            mixture: Reading::Unset,
            aviahorizon_pitch: Reading::Unset,
            aviahorizon_roll: Reading::Unset,
            radio_altitude: Reading::Unset,
            oil_temp: Reading::Unset,
            water_temp: Reading::Unset,
            fuel_pressure: Reading::Unset,
            oxygen: Reading::Unset,
            gears_lamp: Reading::Unset,
            flaps: Reading::Unset,
            vario: Reading::Unset,
            trimmer: Reading::Unset,
            throttle: Reading::Unset,
            weapon1: Reading::Unset,
            weapon2: Reading::Unset,
            weapon3: Reading::Unset,
            prop_pitch_hour: Reading::Unset,
            prop_pitch_min: Reading::Unset,
            ammo_counter1: Reading::Unset,
            ammo_counter2: Reading::Unset,
            ammo_counter3: Reading::Unset,
            mach: Reading::Unset,
            water_temperature: Reading::Unset,
            fuel: [Reading::Unset, Reading::Unset, Reading::Unset, Reading::Unset, Reading::Unset],
            fuelnum: 0,
        }
    }

    /// Marks the snapshot invalid, unsets the fuel and Mach readings and
    /// clears the tank count.
    pub fn init(&mut self)
        ensures
            final(self).valid == Some(false),
            final(self).fuelnum == 0,
            forall|i: int| 0 <= i < 5 ==> #[trigger] final(self).fuel@[i] is Unset,
            !final(self).flag,
            final(self).mach is Unset,
            final(self).plane_type == old(self).plane_type,
            final(self).stype == old(self).stype,
            final(self).speed == old(self).speed,
            final(self).pedals == old(self).pedals,
            final(self).stick_elevator == old(self).stick_elevator,
            final(self).stick_ailerons == old(self).stick_ailerons,
            final(self).altitude_hour == old(self).altitude_hour,
            final(self).altitude_min == old(self).altitude_min,
            final(self).altitude_10k == old(self).altitude_10k,
            final(self).bank == old(self).bank,
            final(self).turn == old(self).turn,
            final(self).compass == old(self).compass,
            final(self).clock_hour == old(self).clock_hour,
            final(self).clock_min == old(self).clock_min,
            final(self).clock_sec == old(self).clock_sec,
            final(self).manifold_pressure == old(self).manifold_pressure,
            final(self).rpm == old(self).rpm,
            final(self).wsweep_indicator == old(self).wsweep_indicator,
            final(self).oil_pressure == old(self).oil_pressure,
            final(self).engine_temperature == old(self).engine_temperature,
            final(self).mixture == old(self).mixture,
            final(self).aviahorizon_pitch == old(self).aviahorizon_pitch,
            final(self).aviahorizon_roll == old(self).aviahorizon_roll,
            final(self).radio_altitude == old(self).radio_altitude,
            final(self).oil_temp == old(self).oil_temp,
            final(self).water_temp == old(self).water_temp,
            final(self).fuel_pressure == old(self).fuel_pressure,
            final(self).oxygen == old(self).oxygen,
            final(self).gears_lamp == old(self).gears_lamp,
            final(self).flaps == old(self).flaps,
            final(self).vario == old(self).vario,
            final(self).trimmer == old(self).trimmer,
            final(self).throttle == old(self).throttle,
            final(self).weapon1 == old(self).weapon1,
            final(self).weapon2 == old(self).weapon2,
            final(self).weapon3 == old(self).weapon3,
            final(self).prop_pitch_hour == old(self).prop_pitch_hour,
            final(self).prop_pitch_min == old(self).prop_pitch_min,
            final(self).ammo_counter1 == old(self).ammo_counter1,
            final(self).ammo_counter2 == old(self).ammo_counter2,
            final(self).ammo_counter3 == old(self).ammo_counter3,
            final(self).water_temperature == old(self).water_temperature,
    {
        self.valid = Some(false);
        self.fuelnum = 0;
        self.fuel = [Reading::Unset, Reading::Unset, Reading::Unset, Reading::Unset, Reading::Unset];
        self.flag = false;
        self.mach = Reading::Unset;
    }

    /// Reads the snapshot text `buf` (see [`Indicators::update_from_members`]
    /// and [`json_members`]).
    pub fn update_json(&mut self, buf: &str)
        ensures
            final(self).updated_from(&*old(self), json_members(buf@)),
    {
        let members = parse_json_object(buf);
        self.update_from_members(members);
    }

    /// True when `self` is `before` after reading the object `ms`: `valid` is
    /// its boolean; a valid snapshot takes its type names from the `type`
    /// string (an absent type gives the empty type and keeps the short type),
    /// every instrument value and the tank count; any other snapshot shows
    /// `No Cockpit` and keeps its readings.
    pub open spec fn updated_from(&self, before: &Indicators, ms: Option<Seq<(Seq<char>, JsonModel)>>) -> bool {
        &&& self.valid == json_bool(lookup(ms, "valid"@))
        &&& self.flag == (self.valid == Some(true))
        &&& self.valid == Some(true) ==> {
            &&& match json_str(lookup(ms, "type"@)) {
                None => opt_view(self.plane_type) == Some(Seq::<char>::empty()) && self.stype == before.stype,
                Some(t) => opt_view(self.plane_type) == Some(json_shown_type(t)) && opt_view(self.stype)
                    == Some(json_short_type(t)),
            }
            &&& self.holds_values(ms)
            &&& self.fuelnum == tank_count(ms)
            &&& self.water_temperature == before.water_temperature
        }
        &&& self.valid != Some(true) ==> {
            &&& opt_view(self.plane_type) == Some("No Cockpit"@)
            &&& opt_view(self.stype) == Some("NoCockpit"@)
            &&& self.same_values(before)
        }
    }

    /// Reads the members of a parsed snapshot (see [`Indicators::updated_from`]).
    pub fn update_from_members(&mut self, members: Option<Vec<(String, JsonValue)>>)
        ensures
            final(self).updated_from(&*old(self), opt_members(members)),
    {
        self.valid = match find_member(&members, "valid") {
            Some(JsonValue::Bool(b)) => Some(*b),
            _ => None,
        };
        let is_valid = match self.valid {
            Some(b) => b,
            None => false,
        };
        if is_valid {
            self.flag = true;
            match find_member(&members, "type") {
                Some(JsonValue::Str(t)) => {
                    let up = to_uppercase(t.as_str());
                    let cs = to_chars(up.as_str());
                    if cs.len() > 9 {
                        self.stype = Some(string_from_chars(&cs, 0, 8));
                        proof {
                            assert(cs@.subrange(0, 8) =~= cs@.take(8));
                        }
                    } else {
                        self.stype = Some(string_from_chars(&cs, 0, cs.len()));
                        proof {
                            assert(cs@.subrange(0, cs@.len() as int) =~= cs@);
                        }
                    }
                    self.plane_type = Some(up);
                },
                _ => {
                    self.plane_type = Some(String::new());
                },
            }
            self.speed = member_reading(&members, "speed");
            self.pedals = member_reading(&members, "pedals1");
            self.stick_elevator = member_reading(&members, "stick_elevator");
            self.stick_ailerons = member_reading(&members, "stick_ailerons");
            self.altitude_hour = member_reading(&members, "altitude_hour");
            self.altitude_min = member_reading(&members, "altitude_min");
            self.altitude_10k = member_reading(&members, "altitude_10k");
            self.bank = member_reading(&members, "bank");
            self.turn = member_reading(&members, "turn");
            self.compass = member_reading(&members, "compass");
            self.clock_hour = member_reading(&members, "clock_hour");
            self.clock_min = member_reading(&members, "clock_min");
            self.clock_sec = member_reading(&members, "clock_sec");
            self.manifold_pressure = member_reading(&members, "manifold_pressure");
            self.rpm = member_reading(&members, "rpm");
            self.wsweep_indicator = member_reading(&members, "wing_sweep_indicator");
            self.oil_pressure = member_reading(&members, "oil_pressure");
            self.engine_temperature = member_reading(&members, "head_temperature");
            self.mixture = member_reading(&members, "mixture");
            self.fuel[0] = member_reading(&members, "fuel");
            self.fuel[1] = member_reading(&members, "fuel1");
            self.fuel[2] = member_reading(&members, "fuel2");
            self.fuel[3] = member_reading(&members, "fuel3");
            self.fuel[4] = member_reading(&members, "fuel4");
            let mut count: i32 = 1;
            if tank_present(&members, "fuel1") {
                count = count + 1;
            }
            if tank_present(&members, "fuel2") {
                count = count + 1;
            }
            if tank_present(&members, "fuel3") {
                count = count + 1;
            }
            if tank_present(&members, "fuel4") {
                count = count + 1;
            }
            self.fuelnum = count;
            self.aviahorizon_pitch = member_reading(&members, "aviahorizon_pitch");
            self.aviahorizon_roll = member_reading(&members, "aviahorizon_roll");
            self.radio_altitude = member_reading(&members, "radio_altitude");
            self.oil_temp = member_reading(&members, "oil_temperature");
            self.water_temp = member_reading(&members, "water_temperature");
            self.fuel_pressure = member_reading(&members, "fuel_pressure");
            self.oxygen = member_reading(&members, "oxygen");
            self.gears_lamp = member_reading(&members, "gears_lamp");
            self.flaps = member_reading(&members, "flaps");
            self.vario = member_reading(&members, "vario");
            self.trimmer = member_reading(&members, "trimmer");
            self.throttle = member_reading(&members, "throttle");
            self.weapon1 = member_reading(&members, "weapon1");
            self.weapon2 = member_reading(&members, "weapon2");
            self.weapon3 = member_reading(&members, "weapon3");
            self.prop_pitch_hour = member_reading(&members, "prop_pitch_hour");
            self.prop_pitch_min = member_reading(&members, "prop_pitch_min");
            self.ammo_counter1 = member_reading(&members, "ammo_counter1");
            self.ammo_counter2 = member_reading(&members, "ammo_counter2");
            self.ammo_counter3 = member_reading(&members, "ammo_counter3");
            self.mach = member_reading(&members, "mach");
        } else {
            self.plane_type = Some(owned("No Cockpit"));
            self.stype = Some(owned("NoCockpit"));
            self.flag = false;
        }
    }
}

impl Default for Indicators {
    fn default() -> (r: Indicators)
        ensures
            r.valid is None && r.plane_type is None && r.stype is None && !r.flag && r.fuelnum == 0,
    {
        Indicators::new()
    }
}

/// In a valid JSON snapshot each instrument reading is the number under its
/// own key: `speed` under `speed`, the pedals under `pedals1`, the oil and
/// water temperatures under `oil_temperature` and `water_temperature`, the
/// engine head temperature under `head_temperature`, the tanks under `fuel`
/// and `fuel1`..`fuel4`, and so on; a key that is absent or holds no number
/// reads as missing.
pub proof fn law_json_readings_follow_their_keys(
    before: Indicators,
    after: Indicators,
    ms: Option<Seq<(Seq<char>, JsonModel)>>,
)
    requires
        after.updated_from(&before, ms),
        json_bool(lookup(ms, "valid"@)) == Some(true),
    ensures
        reads_value(after.speed, lookup(ms, "speed"@)),
        reads_value(after.pedals, lookup(ms, "pedals1"@)),
        reads_value(after.stick_elevator, lookup(ms, "stick_elevator"@)),
        reads_value(after.stick_ailerons, lookup(ms, "stick_ailerons"@)),
        reads_value(after.altitude_hour, lookup(ms, "altitude_hour"@)),
        reads_value(after.altitude_min, lookup(ms, "altitude_min"@)),
        reads_value(after.altitude_10k, lookup(ms, "altitude_10k"@)),
        reads_value(after.bank, lookup(ms, "bank"@)),
        reads_value(after.turn, lookup(ms, "turn"@)),
        reads_value(after.compass, lookup(ms, "compass"@)),
        reads_value(after.clock_hour, lookup(ms, "clock_hour"@)),
        reads_value(after.clock_min, lookup(ms, "clock_min"@)),
        reads_value(after.clock_sec, lookup(ms, "clock_sec"@)),
        reads_value(after.manifold_pressure, lookup(ms, "manifold_pressure"@)),
        reads_value(after.rpm, lookup(ms, "rpm"@)),
        reads_value(after.wsweep_indicator, lookup(ms, "wing_sweep_indicator"@)),
        reads_value(after.oil_pressure, lookup(ms, "oil_pressure"@)),
        reads_value(after.engine_temperature, lookup(ms, "head_temperature"@)),
        reads_value(after.mixture, lookup(ms, "mixture"@)),
        reads_value(after.aviahorizon_pitch, lookup(ms, "aviahorizon_pitch"@)),
        reads_value(after.aviahorizon_roll, lookup(ms, "aviahorizon_roll"@)),
        reads_value(after.radio_altitude, lookup(ms, "radio_altitude"@)),
        reads_value(after.oil_temp, lookup(ms, "oil_temperature"@)),
        reads_value(after.water_temp, lookup(ms, "water_temperature"@)),
        reads_value(after.fuel_pressure, lookup(ms, "fuel_pressure"@)),
        reads_value(after.oxygen, lookup(ms, "oxygen"@)),
        reads_value(after.gears_lamp, lookup(ms, "gears_lamp"@)),
        reads_value(after.flaps, lookup(ms, "flaps"@)),
        reads_value(after.vario, lookup(ms, "vario"@)),
        reads_value(after.trimmer, lookup(ms, "trimmer"@)),
        reads_value(after.throttle, lookup(ms, "throttle"@)),
        reads_value(after.weapon1, lookup(ms, "weapon1"@)),
        reads_value(after.weapon2, lookup(ms, "weapon2"@)),
        reads_value(after.weapon3, lookup(ms, "weapon3"@)),
        reads_value(after.prop_pitch_hour, lookup(ms, "prop_pitch_hour"@)),
        reads_value(after.prop_pitch_min, lookup(ms, "prop_pitch_min"@)),
        reads_value(after.ammo_counter1, lookup(ms, "ammo_counter1"@)),
        reads_value(after.ammo_counter2, lookup(ms, "ammo_counter2"@)),
        reads_value(after.ammo_counter3, lookup(ms, "ammo_counter3"@)),
        reads_value(after.mach, lookup(ms, "mach"@)),
        reads_value(after.fuel@[0], lookup(ms, "fuel"@)),
        reads_value(after.fuel@[1], lookup(ms, "fuel1"@)),
        reads_value(after.fuel@[2], lookup(ms, "fuel2"@)),
        reads_value(after.fuel@[3], lookup(ms, "fuel3"@)),
        reads_value(after.fuel@[4], lookup(ms, "fuel4"@)),
{
}

} // verus!
