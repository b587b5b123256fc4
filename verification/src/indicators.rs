//! The `/indicators` telemetry snapshot: the cockpit instruments, read key by
//! key from the snapshot text, and the aircraft type names shown for it.
//!
//! Instrument readings are decimal numbers and are kept as [`Reading`]s, the
//! text that followed their key.
use vstd::prelude::*;
use crate::state::{key_text, reads, text_reading, Reading};
use crate::string_helper::{can_get_string, get_string, get_string_ok};
use crate::text::{opt_view, owned, str_eq, string_from_chars, to_chars};

verus! {

/// The text that stands for "not available".
pub const NA_STRING: &'static str = "-";

/// What `str::to_uppercase` makes of a text.
pub uninterp spec fn unicode_uppercase(s: Seq<char>) -> Seq<char>;

/// The upper-case form of `s`.
///
/// Calls `str::to_uppercase`; its result is named [`unicode_uppercase`].
#[verifier::external_body]
pub(crate) fn to_uppercase(s: &str) -> (r: String)
    ensures
        r@ == unicode_uppercase(s@),
{
    s.to_uppercase()
}

/// True when `buf` describes a cockpit: `valid` reads `true` and the army is
/// not `tank`.
pub open spec fn cockpit(buf: Seq<char>) -> bool {
    &&& key_text(buf, "valid"@) == Some("true"@)
    &&& key_text(buf, "army"@) != Some("tank"@)
}

/// The type text in upper case: empty when there is none.
pub open spec fn upper_type(raw: Option<Seq<char>>) -> Seq<char> {
    match raw {
        Some(t) => unicode_uppercase(t),
        None => Seq::empty(),
    }
}

/// The type shown for the type text `raw`: upper case, and without its first
/// and last characters (the quotes) when it has more than one.
pub open spec fn shown_type(raw: Option<Seq<char>>) -> Seq<char> {
    let up = upper_type(raw);
    if up.len() > 1 {
        up.subrange(1, up.len() - 1)
    } else {
        up
    }
}

/// The short type for the type text `raw`: the shown type, cut to its first 8
/// characters when it is longer than 9; `before` when the upper-case text has
/// at most one character.
pub open spec fn short_type(raw: Option<Seq<char>>, before: Option<Seq<char>>) -> Option<
    Seq<char>,
> {
    let up = upper_type(raw);
    if up.len() > 1 {
        let inner = up.subrange(1, up.len() - 1);
        Some(
            if inner.len() > 9 {
                inner.take(8)
            } else {
                inner
            },
        )
    } else {
        before
    }
}

/// True when every instrument key can be cut out of `buf`.
pub open spec fn readings_ok(buf: Seq<char>) -> bool {
    &&& get_string_ok(buf, "speed"@)
    &&& get_string_ok(buf, "pedals"@)
    &&& get_string_ok(buf, "stick_elevator"@)
    &&& get_string_ok(buf, "stick_ailerons"@)
    &&& get_string_ok(buf, "altitude_hour"@)
    &&& get_string_ok(buf, "altitude_min"@)
    &&& get_string_ok(buf, "altitude_10k"@)
    &&& get_string_ok(buf, "bank"@)
    &&& get_string_ok(buf, "turn"@)
    &&& get_string_ok(buf, "compass"@)
    &&& get_string_ok(buf, "clock_hour"@)
    &&& get_string_ok(buf, "clock_min"@)
    &&& get_string_ok(buf, "clock_sec"@)
    &&& get_string_ok(buf, "manifold_pressure"@)
    &&& get_string_ok(buf, "rpm"@)
    &&& get_string_ok(buf, "wing_sweep_indicator"@)
    &&& get_string_ok(buf, "oil_pressure"@)
    &&& get_string_ok(buf, "head_temperature"@)
    &&& get_string_ok(buf, "mixture"@)
    &&& get_string_ok(buf, "\"fuel\""@)
    &&& get_string_ok(buf, "fuel1"@)
    &&& get_string_ok(buf, "fuel2"@)
    &&& get_string_ok(buf, "fuel3"@)
    &&& get_string_ok(buf, "fuel4"@)
    &&& get_string_ok(buf, "aviahorizon_pitch"@)
    &&& get_string_ok(buf, "aviahorizon_roll"@)
    &&& get_string_ok(buf, "radio_altitude"@)
    &&& get_string_ok(buf, "oil_temperature"@)
    &&& get_string_ok(buf, "water_temperature"@)
    &&& get_string_ok(buf, "fuel_pressure"@)
    &&& get_string_ok(buf, "oxygen"@)
    &&& get_string_ok(buf, "gears_lamp"@)
    &&& get_string_ok(buf, "flaps"@)
    &&& get_string_ok(buf, "vario"@)
    &&& get_string_ok(buf, "trimmer"@)
    &&& get_string_ok(buf, "throttle"@)
    &&& get_string_ok(buf, "weapon1"@)
    &&& get_string_ok(buf, "weapon2"@)
    &&& get_string_ok(buf, "weapon3"@)
    &&& get_string_ok(buf, "prop_pitch_hour"@)
    &&& get_string_ok(buf, "prop_pitch_min"@)
    &&& get_string_ok(buf, "ammo_counter1"@)
    &&& get_string_ok(buf, "ammo_counter2"@)
    &&& get_string_ok(buf, "ammo_counter3"@)
    &&& get_string_ok(buf, "mach"@)
}

/// The `/indicators` snapshot.
pub struct Indicators {
    /// The text after `valid`; `None` when the key was absent.
    pub valid: Option<String>,
    /// The aircraft type.
    pub plane_type: Option<String>,
    /// The aircraft type, cut short.
    pub stype: Option<String>,
    /// True when the last snapshot described a cockpit.
    pub flag: bool,
    pub speed: Reading,
    pub pedals: Reading,
    pub stick_elevator: Reading,
    pub stick_ailerons: Reading,
    pub altitude_hour: Reading,
    pub altitude_min: Reading,
    pub altitude_10k: Reading,
    pub bank: Reading,
    pub turn: Reading,
    pub compass: Reading,
    pub clock_hour: Reading,
    pub clock_min: Reading,
    pub clock_sec: Reading,
    pub manifold_pressure: Reading,
    pub rpm: Reading,
    pub oil_pressure: Reading,
    /// Never read: stands at zero.
    pub water_temperature: Reading,
    pub engine_temperature: Reading,
    pub mixture: Reading,
    /// The fuel readings: the plain `fuel` key, then `fuel1` to `fuel4`.
    pub fuel: [Reading; 5],
    pub fuel_pressure: Reading,
    pub oxygen: Reading,
    pub gears_lamp: Reading,
    pub flaps: Reading,
    pub trimmer: Reading,
    pub throttle: Reading,
    pub weapon1: Reading,
    pub weapon2: Reading,
    pub weapon3: Reading,
    pub prop_pitch_hour: Reading,
    pub prop_pitch_min: Reading,
    pub ammo_counter1: Reading,
    pub ammo_counter2: Reading,
    pub ammo_counter3: Reading,
    pub oil_temp: Reading,
    pub water_temp: Reading,
    pub vario: Reading,
    pub aviahorizon_pitch: Reading,
    pub aviahorizon_roll: Reading,
    pub wsweep_indicator: Reading,
    pub radio_altitude: Reading,
    pub mach: Reading,
    /// The text after `army`; `None` when the key was absent.
    pub army: Option<String>,
}

impl Indicators {
    /// True when the instrument fields of `self` hold the readings of `buf`.
    pub open spec fn holds_readings(&self, buf: Seq<char>) -> bool {
        &&& reads(self.speed, buf, "speed"@)
        &&& reads(self.pedals, buf, "pedals"@)
        &&& reads(self.stick_elevator, buf, "stick_elevator"@)
        &&& reads(self.stick_ailerons, buf, "stick_ailerons"@)
        &&& reads(self.altitude_hour, buf, "altitude_hour"@)
        &&& reads(self.altitude_min, buf, "altitude_min"@)
        &&& reads(self.altitude_10k, buf, "altitude_10k"@)
        &&& reads(self.bank, buf, "bank"@)
        &&& reads(self.turn, buf, "turn"@)
        &&& reads(self.compass, buf, "compass"@)
        &&& reads(self.clock_hour, buf, "clock_hour"@)
        &&& reads(self.clock_min, buf, "clock_min"@)
        &&& reads(self.clock_sec, buf, "clock_sec"@)
        &&& reads(self.manifold_pressure, buf, "manifold_pressure"@)
        &&& reads(self.rpm, buf, "rpm"@)
        &&& reads(self.wsweep_indicator, buf, "wing_sweep_indicator"@)
        &&& reads(self.oil_pressure, buf, "oil_pressure"@)
        &&& reads(self.engine_temperature, buf, "head_temperature"@)
        &&& reads(self.mixture, buf, "mixture"@)
        &&& reads(self.aviahorizon_pitch, buf, "aviahorizon_pitch"@)
        &&& reads(self.aviahorizon_roll, buf, "aviahorizon_roll"@)
        &&& reads(self.radio_altitude, buf, "radio_altitude"@)
        &&& reads(self.oil_temp, buf, "oil_temperature"@)
        &&& reads(self.water_temp, buf, "water_temperature"@)
        &&& reads(self.fuel_pressure, buf, "fuel_pressure"@)
        &&& reads(self.oxygen, buf, "oxygen"@)
        &&& reads(self.gears_lamp, buf, "gears_lamp"@)
        &&& reads(self.flaps, buf, "flaps"@)
        &&& reads(self.vario, buf, "vario"@)
        &&& reads(self.trimmer, buf, "trimmer"@)
        &&& reads(self.throttle, buf, "throttle"@)
        &&& reads(self.weapon1, buf, "weapon1"@)
        &&& reads(self.weapon2, buf, "weapon2"@)
        &&& reads(self.weapon3, buf, "weapon3"@)
        &&& reads(self.prop_pitch_hour, buf, "prop_pitch_hour"@)
        &&& reads(self.prop_pitch_min, buf, "prop_pitch_min"@)
        &&& reads(self.ammo_counter1, buf, "ammo_counter1"@)
        &&& reads(self.ammo_counter2, buf, "ammo_counter2"@)
        &&& reads(self.ammo_counter3, buf, "ammo_counter3"@)
        &&& reads(self.mach, buf, "mach"@)
        &&& reads(self.fuel@[0], buf, "\"fuel\""@)
        &&& reads(self.fuel@[1], buf, "fuel1"@)
        &&& reads(self.fuel@[2], buf, "fuel2"@)
        &&& reads(self.fuel@[3], buf, "fuel3"@)
        &&& reads(self.fuel@[4], buf, "fuel4"@)
    }

    /// True when `self` and `other` agree on every instrument reading.
    pub open spec fn same_readings(&self, other: &Indicators) -> bool {
        &&& self.speed == other.speed
        &&& self.pedals == other.pedals
        &&& self.stick_elevator == other.stick_elevator
        &&& self.stick_ailerons == other.stick_ailerons
        &&& self.altitude_hour == other.altitude_hour
        &&& self.altitude_min == other.altitude_min
        &&& self.altitude_10k == other.altitude_10k
        &&& self.bank == other.bank
        &&& self.turn == other.turn
        &&& self.compass == other.compass
        &&& self.clock_hour == other.clock_hour
        &&& self.clock_min == other.clock_min
        &&& self.clock_sec == other.clock_sec
        &&& self.manifold_pressure == other.manifold_pressure
        &&& self.rpm == other.rpm
        &&& self.oil_pressure == other.oil_pressure
        &&& self.water_temperature == other.water_temperature
        &&& self.engine_temperature == other.engine_temperature
        &&& self.mixture == other.mixture
        &&& self.fuel@ == other.fuel@
        &&& self.fuel_pressure == other.fuel_pressure
        &&& self.oxygen == other.oxygen
        &&& self.gears_lamp == other.gears_lamp
        &&& self.flaps == other.flaps
        &&& self.trimmer == other.trimmer
        &&& self.throttle == other.throttle
        &&& self.weapon1 == other.weapon1
        &&& self.weapon2 == other.weapon2
        &&& self.weapon3 == other.weapon3
        &&& self.prop_pitch_hour == other.prop_pitch_hour
        &&& self.prop_pitch_min == other.prop_pitch_min
        &&& self.ammo_counter1 == other.ammo_counter1
        &&& self.ammo_counter2 == other.ammo_counter2
        &&& self.ammo_counter3 == other.ammo_counter3
        &&& self.oil_temp == other.oil_temp
        &&& self.water_temp == other.water_temp
        &&& self.vario == other.vario
        &&& self.aviahorizon_pitch == other.aviahorizon_pitch
        &&& self.aviahorizon_roll == other.aviahorizon_roll
        &&& self.wsweep_indicator == other.wsweep_indicator
        &&& self.radio_altitude == other.radio_altitude
        &&& self.mach == other.mach
    }

    /// True when every reading is unset.
    pub open spec fn readings_unset(&self) -> bool {
        &&& self.speed is Unset
        &&& self.pedals is Unset
        &&& self.stick_elevator is Unset
        &&& self.stick_ailerons is Unset
        &&& self.altitude_hour is Unset
        &&& self.altitude_min is Unset
        &&& self.altitude_10k is Unset
        &&& self.bank is Unset
        &&& self.turn is Unset
        &&& self.compass is Unset
        &&& self.clock_hour is Unset
        &&& self.clock_min is Unset
        &&& self.clock_sec is Unset
        &&& self.manifold_pressure is Unset
        &&& self.rpm is Unset
        &&& self.oil_pressure is Unset
        &&& self.water_temperature is Unset
        &&& self.engine_temperature is Unset
        &&& self.mixture is Unset
        &&& forall|i: int| 0 <= i < 5 ==> #[trigger] self.fuel@[i] is Unset
        &&& self.fuel_pressure is Unset
        &&& self.oxygen is Unset
        &&& self.gears_lamp is Unset
        &&& self.flaps is Unset
        &&& self.trimmer is Unset
        &&& self.throttle is Unset
        &&& self.weapon1 is Unset
        &&& self.weapon2 is Unset
        &&& self.weapon3 is Unset
        &&& self.prop_pitch_hour is Unset
        &&& self.prop_pitch_min is Unset
        &&& self.ammo_counter1 is Unset
        &&& self.ammo_counter2 is Unset
        &&& self.ammo_counter3 is Unset
        &&& self.oil_temp is Unset
        &&& self.water_temp is Unset
        &&& self.vario is Unset
        &&& self.aviahorizon_pitch is Unset
        &&& self.aviahorizon_roll is Unset
        &&& self.wsweep_indicator is Unset
        &&& self.radio_altitude is Unset
        &&& self.mach is Unset
    }

    /// A snapshot with every reading unset and no text.
    pub fn new() -> (r: Indicators)
        ensures
            r.valid is None,
            r.plane_type is None,
            r.stype is None,
            r.army is None,
            !r.flag,
            r.readings_unset(),
    {
        Indicators {
            valid: None,
            plane_type: None,
            stype: None,
            flag: false,
            speed: Reading::Unset,
            pedals: Reading::Unset,
            stick_elevator: Reading::Unset,
            stick_ailerons: Reading::Unset,
            altitude_hour: Reading::Unset,
            altitude_min: Reading::Unset,
            altitude_10k: Reading::Unset,
            bank: Reading::Unset,
            turn: Reading::Unset,
            compass: Reading::Unset,
            clock_hour: Reading::Unset,
            clock_min: Reading::Unset,
            clock_sec: Reading::Unset,
            manifold_pressure: Reading::Unset,
            rpm: Reading::Unset,
            oil_pressure: Reading::Unset,
            water_temperature: Reading::Unset,
            engine_temperature: Reading::Unset,
            mixture: Reading::Unset,
            fuel: [Reading::Unset, Reading::Unset, Reading::Unset, Reading::Unset, Reading::Unset],
            fuel_pressure: Reading::Unset,
            oxygen: Reading::Unset,
            gears_lamp: Reading::Unset,
            flaps: Reading::Unset,
            trimmer: Reading::Unset,
            throttle: Reading::Unset,
            weapon1: Reading::Unset,
            weapon2: Reading::Unset,
            weapon3: Reading::Unset,
            prop_pitch_hour: Reading::Unset,
            prop_pitch_min: Reading::Unset,
            ammo_counter1: Reading::Unset,
            ammo_counter2: Reading::Unset,
            ammo_counter3: Reading::Unset,
            oil_temp: Reading::Unset,
            water_temp: Reading::Unset,
            vario: Reading::Unset,
            aviahorizon_pitch: Reading::Unset,
            aviahorizon_roll: Reading::Unset,
            wsweep_indicator: Reading::Unset,
            radio_altitude: Reading::Unset,
            mach: Reading::Unset,
            army: None,
        }
    }

    /// Marks the snapshot not available and unsets the fuel and Mach readings.
    pub fn init(&mut self)
        ensures
            opt_view(final(self).valid) == Some(NA_STRING@),
            forall|i: int| 0 <= i < 5 ==> #[trigger] final(self).fuel@[i] is Unset,
            final(self).mach is Unset,
            !final(self).flag,
            final(self).plane_type == old(self).plane_type,
            final(self).stype == old(self).stype,
            final(self).army == old(self).army,
            final(self).speed == old(self).speed,
            final(self).pedals == old(self).pedals,
            final(self).stick_elevator == old(self).stick_elevator,
            final(self).stick_ailerons == old(self).stick_ailerons,
            final(self).altitude_hour == old(self).altitude_hour,
            final(self).altitude_min == old(self).altitude_min,
            final(self).altitude_10k == old(self).altitude_10k,
            final(self).bank == old(self).bank,
            final(self).turn == old(self).turn,
            final(self).compass == old(self).compass,
            final(self).clock_hour == old(self).clock_hour,
            final(self).clock_min == old(self).clock_min,
            final(self).clock_sec == old(self).clock_sec,
            final(self).manifold_pressure == old(self).manifold_pressure,
            final(self).rpm == old(self).rpm,
            final(self).oil_pressure == old(self).oil_pressure,
            final(self).water_temperature == old(self).water_temperature,
            final(self).engine_temperature == old(self).engine_temperature,
            final(self).mixture == old(self).mixture,
            final(self).fuel_pressure == old(self).fuel_pressure,
            final(self).oxygen == old(self).oxygen,
            final(self).gears_lamp == old(self).gears_lamp,
            final(self).flaps == old(self).flaps,
            final(self).trimmer == old(self).trimmer,
            final(self).throttle == old(self).throttle,
            final(self).weapon1 == old(self).weapon1,
            final(self).weapon2 == old(self).weapon2,
            final(self).weapon3 == old(self).weapon3,
            final(self).prop_pitch_hour == old(self).prop_pitch_hour,
            final(self).prop_pitch_min == old(self).prop_pitch_min,
            final(self).ammo_counter1 == old(self).ammo_counter1,
            final(self).ammo_counter2 == old(self).ammo_counter2,
            final(self).ammo_counter3 == old(self).ammo_counter3,
            final(self).oil_temp == old(self).oil_temp,
            final(self).water_temp == old(self).water_temp,
            final(self).vario == old(self).vario,
            final(self).aviahorizon_pitch == old(self).aviahorizon_pitch,
            final(self).aviahorizon_roll == old(self).aviahorizon_roll,
            final(self).wsweep_indicator == old(self).wsweep_indicator,
            final(self).radio_altitude == old(self).radio_altitude,
    {
        self.valid = Some(owned(NA_STRING));
        self.fuel = [Reading::Unset, Reading::Unset, Reading::Unset, Reading::Unset, Reading::Unset];
        self.flag = false;
        self.mach = Reading::Unset;
    }

    /// True when [`Indicators::update`] can read `buf`.
    pub open spec fn update_ok(buf: Seq<char>) -> bool {
        &&& get_string_ok(buf, "valid"@)
        &&& get_string_ok(buf, "army"@)
        &&& (cockpit(buf) ==> get_string_ok(buf, "type"@) && readings_ok(buf))
    }

    /// Reads the snapshot `buf`.
    ///
    /// `valid` and `army` are always read.  When `buf` describes a cockpit the
    /// type names are derived from the `type` text and every instrument is
    /// read; otherwise the type names become `No Cockpit` and `NoCockpit` and
    /// the instruments keep their readings.
    pub fn update(&mut self, buf: &str)
        requires
            Self::update_ok(buf@),
        ensures
            opt_view(final(self).valid) == key_text(buf@, "valid"@),
            opt_view(final(self).army) == key_text(buf@, "army"@),
            final(self).flag == cockpit(buf@),
            cockpit(buf@) ==> {
                &&& opt_view(final(self).plane_type) == Some(shown_type(key_text(buf@, "type"@)))
                &&& opt_view(final(self).stype) == short_type(
                    key_text(buf@, "type"@),
                    opt_view(old(self).stype),
                )
                &&& final(self).holds_readings(buf@)
                &&& final(self).water_temperature == old(self).water_temperature
            },
            !cockpit(buf@) ==> {
                &&& opt_view(final(self).plane_type) == Some("No Cockpit"@)
                &&& opt_view(final(self).stype) == Some("NoCockpit"@)
                &&& final(self).same_readings(&*old(self))
            },
    {
        let valid = get_string(buf, "valid");
        let army = get_string(buf, "army");
        self.valid = match valid {
            Some(v) => Some(owned(v)),
            None => None,
        };
        self.army = match army {
            Some(a) => Some(owned(a)),
            None => None,
        };
        let is_valid = match valid {
            Some(v) => str_eq(v, "true"),
            None => false,
        };
        let is_tank = match army {
            Some(a) => str_eq(a, "tank"),
            None => false,
        };
        if is_valid && !is_tank {
            self.flag = true;
            self.read_type(get_string(buf, "type"));
            self.speed = text_reading(buf, "speed");
            self.pedals = text_reading(buf, "pedals");
            self.stick_elevator = text_reading(buf, "stick_elevator");
            self.stick_ailerons = text_reading(buf, "stick_ailerons");
            self.altitude_hour = text_reading(buf, "altitude_hour");
            self.altitude_min = text_reading(buf, "altitude_min");
            self.altitude_10k = text_reading(buf, "altitude_10k");
            self.bank = text_reading(buf, "bank");
            self.turn = text_reading(buf, "turn");
            self.compass = text_reading(buf, "compass");
            self.clock_hour = text_reading(buf, "clock_hour");
            self.clock_min = text_reading(buf, "clock_min");
            self.clock_sec = text_reading(buf, "clock_sec");
            self.manifold_pressure = text_reading(buf, "manifold_pressure");
            self.rpm = text_reading(buf, "rpm");
            self.wsweep_indicator = text_reading(buf, "wing_sweep_indicator");
            self.oil_pressure = text_reading(buf, "oil_pressure");
            self.engine_temperature = text_reading(buf, "head_temperature");
            self.mixture = text_reading(buf, "mixture");
            self.fuel[0] = text_reading(buf, "\"fuel\"");
            self.fuel[1] = text_reading(buf, "fuel1");
            self.fuel[2] = text_reading(buf, "fuel2");
            self.fuel[3] = text_reading(buf, "fuel3");
            self.fuel[4] = text_reading(buf, "fuel4");
            self.aviahorizon_pitch = text_reading(buf, "aviahorizon_pitch");
            self.aviahorizon_roll = text_reading(buf, "aviahorizon_roll");
            self.radio_altitude = text_reading(buf, "radio_altitude");
            self.oil_temp = text_reading(buf, "oil_temperature");
            self.water_temp = text_reading(buf, "water_temperature");
            self.fuel_pressure = text_reading(buf, "fuel_pressure");
            self.oxygen = text_reading(buf, "oxygen");
            self.gears_lamp = text_reading(buf, "gears_lamp");
            self.flaps = text_reading(buf, "flaps");
            self.vario = text_reading(buf, "vario");
            self.trimmer = text_reading(buf, "trimmer");
            self.throttle = text_reading(buf, "throttle");
            self.weapon1 = text_reading(buf, "weapon1");
            self.weapon2 = text_reading(buf, "weapon2");
            self.weapon3 = text_reading(buf, "weapon3");
            self.prop_pitch_hour = text_reading(buf, "prop_pitch_hour");
            self.prop_pitch_min = text_reading(buf, "prop_pitch_min");
            self.ammo_counter1 = text_reading(buf, "ammo_counter1");
            self.ammo_counter2 = text_reading(buf, "ammo_counter2");
            self.ammo_counter3 = text_reading(buf, "ammo_counter3");
            self.mach = text_reading(buf, "mach");
        } else {
            self.plane_type = Some(owned("No Cockpit"));
            self.stype = Some(owned("NoCockpit"));
            self.flag = false;
        }
    }

    /// Derives the type names from the type text `raw`.
    fn read_type(&mut self, raw: Option<&str>)
        ensures
            opt_view(final(self).plane_type) == Some(shown_type(opt_str_view(raw))),
            opt_view(final(self).stype) == short_type(opt_str_view(raw), opt_view(old(self).stype)),
            final(self).same_readings(&*old(self)),
            final(self).valid == old(self).valid,
            final(self).army == old(self).army,
            final(self).flag == old(self).flag,
    {
        let up = match raw {
            Some(t) => to_uppercase(t),
            None => String::new(),
        };
        let cs = to_chars(up.as_str());
        if cs.len() > 1 {
            let end = cs.len() - 1;
            let inner = string_from_chars(&cs, 1, end);
            if end - 1 > 9 {
                self.stype = Some(string_from_chars(&cs, 1, 9));
                proof {
                    assert(cs@.subrange(1, 9) =~= cs@.subrange(1, end as int).take(8));
                }
            } else {
                self.stype = Some(string_from_chars(&cs, 1, end));
            }
            self.plane_type = Some(inner);
        } else {
            self.plane_type = Some(up);
        }
    }

    /// True when [`Indicators::update`] can read `buf`.
    pub fn can_update(buf: &str) -> (ok: bool)
        ensures
            ok == Self::update_ok(buf@),
    {
        if !can_get_string(buf, "valid") || !can_get_string(buf, "army") {
            return false;
        }
        let is_valid = match get_string(buf, "valid") {
            Some(v) => str_eq(v, "true"),
            None => false,
        };
        let is_tank = match get_string(buf, "army") {
            Some(a) => str_eq(a, "tank"),
            None => false,
        };
        if !is_valid || is_tank {
            return true;
        }
        can_get_string(buf, "type")
            && can_get_string(buf, "speed")
            && can_get_string(buf, "pedals")
            && can_get_string(buf, "stick_elevator")
            && can_get_string(buf, "stick_ailerons")
            && can_get_string(buf, "altitude_hour")
            && can_get_string(buf, "altitude_min")
            && can_get_string(buf, "altitude_10k")
            && can_get_string(buf, "bank")
            && can_get_string(buf, "turn")
            && can_get_string(buf, "compass")
            && can_get_string(buf, "clock_hour")
            && can_get_string(buf, "clock_min")
            && can_get_string(buf, "clock_sec")
            && can_get_string(buf, "manifold_pressure")
            && can_get_string(buf, "rpm")
            && can_get_string(buf, "wing_sweep_indicator")
            && can_get_string(buf, "oil_pressure")
            && can_get_string(buf, "head_temperature")
            && can_get_string(buf, "mixture")
            && can_get_string(buf, "\"fuel\"")
            && can_get_string(buf, "fuel1")
            && can_get_string(buf, "fuel2")
            && can_get_string(buf, "fuel3")
            && can_get_string(buf, "fuel4")
            && can_get_string(buf, "aviahorizon_pitch")
            && can_get_string(buf, "aviahorizon_roll")
            && can_get_string(buf, "radio_altitude")
            && can_get_string(buf, "oil_temperature")
            && can_get_string(buf, "water_temperature")
            && can_get_string(buf, "fuel_pressure")
            && can_get_string(buf, "oxygen")
            && can_get_string(buf, "gears_lamp")
            && can_get_string(buf, "flaps")
            && can_get_string(buf, "vario")
            && can_get_string(buf, "trimmer")
            && can_get_string(buf, "throttle")
            && can_get_string(buf, "weapon1")
            && can_get_string(buf, "weapon2")
            && can_get_string(buf, "weapon3")
            && can_get_string(buf, "prop_pitch_hour")
            && can_get_string(buf, "prop_pitch_min")
            && can_get_string(buf, "ammo_counter1")
            && can_get_string(buf, "ammo_counter2")
            && can_get_string(buf, "ammo_counter3")
            && can_get_string(buf, "mach")
    }
}

/// The view of an optional string slice.
pub open spec fn opt_str_view(v: Option<&str>) -> Option<Seq<char>> {
    match v {
        Some(s) => Some(s@),
        None => None,
    }
}

impl Default for Indicators {
    fn default() -> (r: Indicators)
        ensures
            r.valid is None,
            r.plane_type is None,
            r.stype is None,
            r.army is None,
            !r.flag,
            r.readings_unset(),
    {
        Indicators::new()
    }
}

/// Once a cockpit snapshot has been read, each instrument reading is the text
/// after its own key: `speed` after `speed`, the pedals after `pedals`, the
/// oil and water temperatures after `oil_temperature` and
/// `water_temperature`, the engine head temperature after `head_temperature`,
/// the tanks after `"fuel"` and `fuel1`..`fuel4`, and so on.
pub proof fn law_text_readings_follow_their_keys(after: Indicators, buf: Seq<char>)
    requires
        after.holds_readings(buf),
    ensures
        reads(after.speed, buf, "speed"@),
        reads(after.pedals, buf, "pedals"@),
        reads(after.stick_elevator, buf, "stick_elevator"@),
        reads(after.stick_ailerons, buf, "stick_ailerons"@),
        reads(after.altitude_hour, buf, "altitude_hour"@),
        reads(after.altitude_min, buf, "altitude_min"@),
        reads(after.altitude_10k, buf, "altitude_10k"@),
        reads(after.bank, buf, "bank"@),
        reads(after.turn, buf, "turn"@),
        reads(after.compass, buf, "compass"@),
        reads(after.clock_hour, buf, "clock_hour"@),
        reads(after.clock_min, buf, "clock_min"@),
        reads(after.clock_sec, buf, "clock_sec"@),
        reads(after.manifold_pressure, buf, "manifold_pressure"@),
        reads(after.rpm, buf, "rpm"@),
        reads(after.wsweep_indicator, buf, "wing_sweep_indicator"@),
        reads(after.oil_pressure, buf, "oil_pressure"@),
        reads(after.engine_temperature, buf, "head_temperature"@),
        reads(after.mixture, buf, "mixture"@),
        reads(after.aviahorizon_pitch, buf, "aviahorizon_pitch"@),
        reads(after.aviahorizon_roll, buf, "aviahorizon_roll"@),
        reads(after.radio_altitude, buf, "radio_altitude"@),
        reads(after.oil_temp, buf, "oil_temperature"@),
        reads(after.water_temp, buf, "water_temperature"@),
        reads(after.fuel_pressure, buf, "fuel_pressure"@),
        reads(after.oxygen, buf, "oxygen"@),
        reads(after.gears_lamp, buf, "gears_lamp"@),
        reads(after.flaps, buf, "flaps"@),
        reads(after.vario, buf, "vario"@),
        reads(after.trimmer, buf, "trimmer"@),
        reads(after.throttle, buf, "throttle"@),
        reads(after.weapon1, buf, "weapon1"@),
        reads(after.weapon2, buf, "weapon2"@),
        reads(after.weapon3, buf, "weapon3"@),
        reads(after.prop_pitch_hour, buf, "prop_pitch_hour"@),
        reads(after.prop_pitch_min, buf, "prop_pitch_min"@),
        reads(after.ammo_counter1, buf, "ammo_counter1"@),
        reads(after.ammo_counter2, buf, "ammo_counter2"@),
        reads(after.ammo_counter3, buf, "ammo_counter3"@),
        reads(after.mach, buf, "mach"@),
        reads(after.fuel@[1], buf, "fuel1"@),
        reads(after.fuel@[2], buf, "fuel2"@),
        reads(after.fuel@[3], buf, "fuel3"@),
        reads(after.fuel@[4], buf, "fuel4"@),
{
}

} // verus!
