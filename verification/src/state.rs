//! The `/state` telemetry snapshot: control surfaces, speeds, fuel and the
//! per-engine arrays, each read by its key from the snapshot text.
//!
//! Integer readings are parsed here.  Decimal readings are kept as the text
//! that followed their key ([`Reading`]); turning that text into a number is
//! left to the caller.
use vstd::prelude::*;
use crate::number::{decimal_string, decimal_text, parse_i32_spec, parse_i32_str};
use crate::string_helper::{
    can_get_string, get_data_int, get_string, get_string_ok, value_after, I_INVALID,
};
use crate::text::{first_occurrence, opt_view, owned, push_char, push_text, str_eq};

verus! {

/// Capacity of the per-engine arrays.
pub const MAX_ENG_NUM: usize = 16;

/// The text that follows `key` in `buf`, as [`get_string`] cuts it; `None`
/// when the key does not occur.
pub open spec fn key_text(buf: Seq<char>, key: Seq<char>) -> Option<Seq<char>> {
    match first_occurrence(buf, key) {
        Some(b) => Some(value_after(buf, b)),
        None => None,
    }
}

/// True when the integer reading of `key` can be taken from `buf`: the value
/// can be cut out and, when the key occurs, it is a decimal `i32`.
pub open spec fn int_key_ok(buf: Seq<char>, key: Seq<char>) -> bool {
    &&& get_string_ok(buf, key)
    &&& (key_text(buf, key) matches Some(t) ==> parse_i32_spec(t) is Some)
}

/// The integer reading of `key`: its value, or [`I_INVALID`] when the key is absent.
pub open spec fn int_at(buf: Seq<char>, key: Seq<char>) -> i32 {
    match key_text(buf, key) {
        Some(t) => match parse_i32_spec(t) {
            Some(v) => v,
            None => I_INVALID,
        },
        None => I_INVALID,
    }
}

/// The key of engine `n`'s reading `name`: the name, a space and the number.
pub open spec fn engine_key(name: Seq<char>, n: int) -> Seq<char> {
    name + seq![' '] + decimal_text(n as nat)
}

/// A decimal reading, kept as the text it came in.
#[derive(Debug, Clone, PartialEq, Eq)]
pub enum Reading {
    /// Nothing has been read yet: the reading stands at zero.
    Unset,
    /// The key was absent from the snapshot.
    Missing,
    /// The text that followed the key.
    Text(String),
}

/// True when `r` is the reading of `key` in `buf`.
pub open spec fn reads(r: Reading, buf: Seq<char>, key: Seq<char>) -> bool {
    match key_text(buf, key) {
        None => r is Missing,
        Some(t) => r matches Reading::Text(s) && s@ == t,
    }
}

/// The thrust of engine `i` (counted from zero) as [`State::update`] reads it.
pub open spec fn thrust_at(buf: Seq<char>, i: int) -> i32 {
    int_at(buf, engine_key("thrust"@, i + 1))
}

/// True when every reading of engine `i` (counted from zero) can be taken.
pub open spec fn engine_fields_ok(buf: Seq<char>, i: int) -> bool {
    &&& int_key_ok(buf, engine_key("throttle"@, i + 1))
    &&& get_string_ok(buf, engine_key("power"@, i + 1))
    &&& int_key_ok(buf, engine_key("thrust"@, i + 1))
    &&& get_string_ok(buf, engine_key("pitch"@, i + 1))
    &&& int_key_ok(buf, engine_key("efficiency"@, i + 1))
}

/// True when the readings of every engine that [`State::update`] visits can
/// be taken: those up to and including the first engine without thrust.
pub open spec fn engines_ok(buf: Seq<char>) -> bool {
    forall|i: int|
        0 <= i < MAX_ENG_NUM && (forall|j: int| 0 <= j < i ==> #[trigger] thrust_at(buf, j)
            != I_INVALID) ==> #[trigger] engine_fields_ok(buf, i)
}

/// The sum of the thrusts of the first `n` engines.
pub open spec fn thrust_sum(buf: Seq<char>, n: int) -> int
    decreases n,
{
    if n <= 0 {
        0
    } else {
        thrust_sum(buf, n - 1) + thrust_at(buf, n - 1)
    }
}

/// True when the scalar readings of [`State::update`] can be taken.
pub open spec fn scalars_ok(buf: Seq<char>) -> bool {
    &&& int_key_ok(buf, "aileron"@)
    &&& int_key_ok(buf, "elevator"@)
    &&& int_key_ok(buf, "rudder"@)
    &&& int_key_ok(buf, "flaps"@)
    &&& int_key_ok(buf, "airbrake"@)
    &&& int_key_ok(buf, "gear"@)
    &&& int_key_ok(buf, "TAS"@)
    &&& int_key_ok(buf, "IAS"@)
    &&& get_string_ok(buf, "\"M\""@)
    &&& get_string_ok(buf, "H, m"@)
    &&& get_string_ok(buf, "AoA"@)
    &&& get_string_ok(buf, "AoS"@)
    &&& get_string_ok(buf, "Ny"@)
    &&& get_string_ok(buf, "Vy"@)
    &&& get_string_ok(buf, "Wx"@)
    &&& int_key_ok(buf, "throttle"@)
    &&& int_key_ok(buf, "RPM throttle"@)
    &&& int_key_ok(buf, "radiator"@)
    &&& int_key_ok(buf, "RPM 1"@)
    &&& get_string_ok(buf, "manifold pressure 1"@)
    &&& get_string_ok(buf, "Mfuel"@)
    &&& get_string_ok(buf, "Mfuel 1"@)
    &&& get_string_ok(buf, "Mfuel0"@)
    &&& get_string_ok(buf, "Mfuel0 1"@)
    &&& get_string_ok(buf, "oil temp"@)
    &&& int_key_ok(buf, "mixture"@)
    &&& int_key_ok(buf, "compressor stage"@)
    &&& int_key_ok(buf, "magneto"@)
    &&& get_string_ok(buf, "water temp"@)
}

/// `v`, with the missing value [`I_INVALID`] replaced by `instead`.
pub open spec fn or_else(v: i32, instead: i32) -> i32 {
    if v == I_INVALID {
        instead
    } else {
        v
    }
}

/// How many of the engines `0..n` (keys `thrust 0`, `thrust 1`, …) have a thrust.
pub open spec fn present_count(buf: Seq<char>, n: int) -> int
    decreases n,
{
    if n <= 0 {
        0
    } else {
        present_count(buf, n - 1) + if int_at(buf, engine_key("thrust"@, n - 1))
            != I_INVALID {
            1int
        } else {
            0int
        }
    }
}

proof fn lemma_present_count_bounds(buf: Seq<char>, i: int, n: int)
    requires
        0 <= i <= n,
    ensures
        0 <= present_count(buf, i) <= present_count(buf, n),
        present_count(buf, n) <= n,
    decreases n,
{
    if n > 0 {
        if i < n {
            lemma_present_count_bounds(buf, i, n - 1);
        } else {
            lemma_present_count_bounds(buf, i - 1, n - 1);
        }
    }
}

proof fn lemma_thrust_sum_bounds(buf: Seq<char>, n: int)
    requires
        0 <= n,
    ensures
        n * i32::MIN <= thrust_sum(buf, n) <= n * i32::MAX,
    decreases n,
{
    if n > 0 {
        lemma_thrust_sum_bounds(buf, n - 1);
    }
}

/// True when row `i` of the engine arrays holds the readings of engine `i` in `buf`.
pub open spec fn engine_row_holds(
    throttles: Seq<i32>,
    power: Seq<Reading>,
    thrust: Seq<i32>,
    pitch: Seq<Reading>,
    efficiency: Seq<i32>,
    buf: Seq<char>,
    i: int,
) -> bool {
    &&& throttles[i] == int_at(buf, engine_key("throttle"@, i + 1))
    &&& reads(power[i], buf, engine_key("power"@, i + 1))
    &&& thrust[i] == thrust_at(buf, i)
    &&& reads(pitch[i], buf, engine_key("pitch"@, i + 1))
    &&& efficiency[i] == int_at(buf, engine_key("efficiency"@, i + 1))
}

/// True when row `i` of the engine arrays is the same as in the earlier arrays.
pub open spec fn engine_row_kept(
    throttles: Seq<i32>,
    power: Seq<Reading>,
    thrust: Seq<i32>,
    pitch: Seq<Reading>,
    efficiency: Seq<i32>,
    throttles0: Seq<i32>,
    power0: Seq<Reading>,
    thrust0: Seq<i32>,
    pitch0: Seq<Reading>,
    efficiency0: Seq<i32>,
    i: int,
) -> bool {
    &&& throttles[i] == throttles0[i]
    &&& power[i] == power0[i]
    &&& thrust[i] == thrust0[i]
    &&& pitch[i] == pitch0[i]
    &&& efficiency[i] == efficiency0[i]
}

/// True when `k` is the number of engines [`State::update`] finds in `buf`:
/// engines `0..k` have a thrust and engine `k`, if there is one, has none.
pub open spec fn engine_count_is(buf: Seq<char>, k: int) -> bool {
    &&& 0 <= k <= MAX_ENG_NUM
    &&& forall|j: int| 0 <= j < k ==> #[trigger] thrust_at(buf, j) != I_INVALID
    &&& k < MAX_ENG_NUM ==> thrust_at(buf, k) == I_INVALID
}

/// Reads the engines of `buf` into the arrays, from engine 0 on, up to and
/// including the first engine without thrust; returns how many engines had a
/// thrust and the sum of their thrusts.
fn read_engines(
    buf: &str,
    throttles: &mut Vec<i32>,
    power: &mut Vec<Reading>,
    thrust: &mut Vec<i32>,
    pitch: &mut Vec<Reading>,
    efficiency: &mut Vec<i32>,
) -> (r: (usize, i64))
    requires
        old(throttles).len() == MAX_ENG_NUM,
        old(power).len() == MAX_ENG_NUM,
        old(thrust).len() == MAX_ENG_NUM,
        old(pitch).len() == MAX_ENG_NUM,
        old(efficiency).len() == MAX_ENG_NUM,
        engines_ok(buf@),
    ensures
        engine_count_is(buf@, r.0 as int),
        r.1 == thrust_sum(buf@, r.0 as int),
        final(throttles).len() == MAX_ENG_NUM,
        final(power).len() == MAX_ENG_NUM,
        final(thrust).len() == MAX_ENG_NUM,
        final(pitch).len() == MAX_ENG_NUM,
        final(efficiency).len() == MAX_ENG_NUM,
        forall|j: int|
            0 <= j <= r.0 && j < MAX_ENG_NUM ==> #[trigger] engine_row_holds(
                final(throttles)@,
                final(power)@,
                final(thrust)@,
                final(pitch)@,
                final(efficiency)@,
                buf@,
                j,
            ),
        forall|j: int|
            r.0 < j < MAX_ENG_NUM ==> #[trigger] engine_row_kept(
                final(throttles)@,
                final(power)@,
                final(thrust)@,
                final(pitch)@,
                final(efficiency)@,
                old(throttles)@,
                old(power)@,
                old(thrust)@,
                old(pitch)@,
                old(efficiency)@,
                j,
            ),
{
    let mut n: usize = 0;
    let mut sum: i64 = 0;
    let mut stop = false;
    while n < MAX_ENG_NUM && !stop
        invariant
            n <= MAX_ENG_NUM,
            engines_ok(buf@),
            throttles.len() == MAX_ENG_NUM,
            power.len() == MAX_ENG_NUM,
            thrust.len() == MAX_ENG_NUM,
            pitch.len() == MAX_ENG_NUM,
            efficiency.len() == MAX_ENG_NUM,
            forall|j: int| 0 <= j < n ==> #[trigger] thrust_at(buf@, j) != I_INVALID,
            stop ==> n < MAX_ENG_NUM && thrust_at(buf@, n as int) == I_INVALID,
            sum == thrust_sum(buf@, n as int),
            forall|j: int|
                0 <= j < n || (stop && j == n) ==> #[trigger] engine_row_holds(
                    throttles@,
                    power@,
                    thrust@,
                    pitch@,
                    efficiency@,
                    buf@,
                    j,
                ),
            forall|j: int|
                n < j < MAX_ENG_NUM || (!stop && j == n && n < MAX_ENG_NUM) ==> {
                    &&& throttles@[j] == old(throttles)@[j]
                    &&& power@[j] == old(power)@[j]
                    &&& thrust@[j] == old(thrust)@[j]
                    &&& pitch@[j] == old(pitch)@[j]
                    &&& efficiency@[j] == old(efficiency)@[j]
                },
        decreases MAX_ENG_NUM - n + if stop {
            0int
        } else {
            1int
        },
    {
        assert(engine_fields_ok(buf@, n as int));
        let num = (n + 1) as u64;
        let k = engine_key_string("throttle", num);
        let v_throttle = int_reading(buf, k.as_str());
        let k = engine_key_string("power", num);
        let v_power = text_reading(buf, k.as_str());
        let k = engine_key_string("thrust", num);
        let v_thrust = int_reading(buf, k.as_str());
        let k = engine_key_string("pitch", num);
        let v_pitch = text_reading(buf, k.as_str());
        let k = engine_key_string("efficiency", num);
        let v_efficiency = int_reading(buf, k.as_str());
        let ghost t0 = throttles@;
        let ghost p0 = power@;
        let ghost h0 = thrust@;
        let ghost c0 = pitch@;
        let ghost e0 = efficiency@;
        throttles.set(n, v_throttle);
        power.set(n, v_power);
        thrust.set(n, v_thrust);
        pitch.set(n, v_pitch);
        efficiency.set(n, v_efficiency);
        assert(engine_row_holds(throttles@, power@, thrust@, pitch@, efficiency@, buf@, n as int));
        assert forall|j: int| 0 <= j < n implies #[trigger] engine_row_holds(
            throttles@,
            power@,
            thrust@,
            pitch@,
            efficiency@,
            buf@,
            j,
        ) by {
            assert(engine_row_holds(t0, p0, h0, c0, e0, buf@, j));
        }
        assert forall|j: int| n < j < MAX_ENG_NUM implies {
            &&& throttles@[j] == old(throttles)@[j]
            &&& power@[j] == old(power)@[j]
            &&& thrust@[j] == old(thrust)@[j]
            &&& pitch@[j] == old(pitch)@[j]
            &&& efficiency@[j] == old(efficiency)@[j]
        } by {
            assert(t0[j] == old(throttles)@[j]);
        }
        if v_thrust == I_INVALID {
            stop = true;
        } else {
            proof {
                lemma_thrust_sum_bounds(buf@, n as int);
            }
            sum = sum + v_thrust as i64;
            n = n + 1;
        }
    }
    (n, sum)
}

/// True when the readings of every engine that [`State::update`] visits in
/// `buf` can be taken.
fn can_read_engines(buf: &str) -> (ok: bool)
    ensures
        ok == engines_ok(buf@),
{
    let mut n: usize = 0;
    while n < MAX_ENG_NUM
        invariant
            n <= MAX_ENG_NUM,
            forall|j: int| 0 <= j < n ==> #[trigger] thrust_at(buf@, j) != I_INVALID,
            forall|j: int| 0 <= j < n ==> #[trigger] engine_fields_ok(buf@, j),
        decreases MAX_ENG_NUM - n,
    {
        let num = (n + 1) as u64;
        let k1 = engine_key_string("throttle", num);
        let k2 = engine_key_string("power", num);
        let k3 = engine_key_string("thrust", num);
        let k4 = engine_key_string("pitch", num);
        let k5 = engine_key_string("efficiency", num);
        let fields = can_read_int(buf, k1.as_str()) && can_get_string(buf, k2.as_str())
            && can_read_int(buf, k3.as_str()) && can_get_string(buf, k4.as_str())
            && can_read_int(buf, k5.as_str());
        if !fields {
            assert(!engine_fields_ok(buf@, n as int));
            return false;
        }
        let t = int_reading(buf, k3.as_str());
        if t == I_INVALID {
            assert forall|i: int|
                0 <= i < MAX_ENG_NUM && (forall|j: int|
                    0 <= j < i ==> #[trigger] thrust_at(buf@, j) != I_INVALID) implies #[trigger] engine_fields_ok(
                buf@,
                i,
            ) by {
                if i > n {
                    assert(thrust_at(buf@, n as int) == I_INVALID);
                }
            }
            return true;
        }
        n = n + 1;
    }
    true
}

/// The `/state` snapshot.
pub struct State {
    /// The text after `valid`; `None` when the key was absent.
    pub valid: Option<String>,
    /// True when the last snapshot was valid.
    pub flag: bool,
    pub engine_num: i32,
    pub aileron: i32,
    pub elevator: i32,
    pub rudder: i32,
    pub flaps: i32,
    pub gear: i32,
    pub tas: i32,
    pub ias: i32,
    pub m: Reading,
    pub aoa: Reading,
    pub heightm: Reading,
    pub aos: Reading,
    pub ny: Reading,
    pub vy: Reading,
    pub wx: Reading,
    pub throttle: i32,
    pub rpm_throttle: i32,
    pub radiator: i32,
    pub oilradiator: i32,
    pub mixture: i32,
    pub compressorstage: i32,
    pub magenato: i32,
    pub power: Vec<Reading>,
    pub rpm: i32,
    pub manifoldpressure: Reading,
    pub watertemp: Reading,
    pub oiltemp: Reading,
    pub mfuel: Reading,
    pub mfuel_1: Reading,
    pub mfuel0: Reading,
    /// Fuel of the booster tanks.
    pub mfuel0_1: Reading,
    pub pitch: Vec<Reading>,
    pub thrust: Vec<i32>,
    /// Integer efficiencies of the engines.
    pub efficiency: Vec<i32>,
    pub airbrake: i32,
    /// Sum of the thrusts of the engines found.
    pub total_thr: i64,
    pub throttles: Vec<i32>,
}

/// The integer reading of `key` in `buf`.
fn int_reading(buf: &str, key: &str) -> (r: i32)
    requires
        int_key_ok(buf@, key@),
    ensures
        r == int_at(buf@, key@),
{
    get_data_int(get_string(buf, key))
}

/// The decimal reading of `key` in `buf`.
pub(crate) fn text_reading(buf: &str, key: &str) -> (r: Reading)
    requires
        get_string_ok(buf@, key@),
    ensures
        reads(r, buf@, key@),
{
    match get_string(buf, key) {
        Some(t) => Reading::Text(owned(t)),
        None => Reading::Missing,
    }
}

/// True when the integer reading of `key` can be taken from `buf`.
fn can_read_int(buf: &str, key: &str) -> (ok: bool)
    ensures
        ok == int_key_ok(buf@, key@),
{
    if !can_get_string(buf, key) {
        return false;
    }
    match get_string(buf, key) {
        Some(t) => parse_i32_str(t).is_some(),
        None => true,
    }
}

/// The key of engine `n`'s reading `name`.
fn engine_key_string(name: &str, n: u64) -> (r: String)
    ensures
        r@ == engine_key(name@, n as int),
{
    let mut k = owned(name);
    push_char(&mut k, ' ');
    let d = decimal_string(n);
    push_text(&mut k, d.as_str());
    k
}

/// A vector of `n` copies of `v`.
fn filled(n: usize, v: i32) -> (r: Vec<i32>)
    ensures
        r@ == Seq::new(n as nat, |i: int| v),
{
    let mut r: Vec<i32> = Vec::new();
    while r.len() < n
        invariant
            r.len() <= n,
            forall|i: int| 0 <= i < r.len() ==> r@[i] == v,
        decreases n - r.len(),
    {
        r.push(v);
    }
    assert(r@ =~= Seq::new(n as nat, |i: int| v));
    r
}

/// A vector of `n` unset readings.
fn unset_readings(n: usize) -> (r: Vec<Reading>)
    ensures
        r.len() == n,
        forall|i: int| 0 <= i < n ==> r@[i] is Unset,
{
    let mut r: Vec<Reading> = Vec::new();
    while r.len() < n
        invariant
            r.len() <= n,
            forall|i: int| 0 <= i < r.len() ==> r@[i] is Unset,
        decreases n - r.len(),
    {
        r.push(Reading::Unset);
    }
    r
}

impl State {
    /// True when the engine arrays have been allocated by [`State::init`].
    pub open spec fn ready(&self) -> bool {
        &&& self.throttles.len() == MAX_ENG_NUM
        &&& self.power.len() == MAX_ENG_NUM
        &&& self.thrust.len() == MAX_ENG_NUM
        &&& self.pitch.len() == MAX_ENG_NUM
        &&& self.efficiency.len() == MAX_ENG_NUM
    }

    /// True when [`State::update`] can read `buf` into `self`.
    pub open spec fn update_ok(&self, buf: Seq<char>) -> bool {
        &&& get_string_ok(buf, "valid"@)
        &&& (key_text(buf, "valid"@) == Some("true"@) ==> {
            &&& self.ready()
            &&& scalars_ok(buf)
            &&& engines_ok(buf)
        })
    }

    /// True when the scalar fields of `self` hold the readings of `buf`.
    pub open spec fn holds_scalars(&self, buf: Seq<char>) -> bool {
        &&& self.aileron == int_at(buf, "aileron"@)
        &&& self.elevator == int_at(buf, "elevator"@)
        &&& self.rudder == int_at(buf, "rudder"@)
        &&& self.flaps == int_at(buf, "flaps"@)
        &&& self.airbrake == int_at(buf, "airbrake"@)
        &&& self.gear == int_at(buf, "gear"@)
        &&& self.tas == int_at(buf, "TAS"@)
        &&& self.ias == int_at(buf, "IAS"@)
        &&& reads(self.m, buf, "\"M\""@)
        &&& reads(self.heightm, buf, "H, m"@)
        &&& reads(self.aoa, buf, "AoA"@)
        &&& reads(self.aos, buf, "AoS"@)
        &&& reads(self.ny, buf, "Ny"@)
        &&& reads(self.vy, buf, "Vy"@)
        &&& reads(self.wx, buf, "Wx"@)
        &&& self.throttle == int_at(buf, "throttle"@)
        &&& self.rpm_throttle == or_else(int_at(buf, "RPM throttle"@), -1i32)
        &&& self.radiator == int_at(buf, "radiator"@)
        &&& self.rpm == int_at(buf, "RPM 1"@)
        &&& reads(self.manifoldpressure, buf, "manifold pressure 1"@)
        &&& reads(self.mfuel, buf, "Mfuel"@)
        &&& reads(self.mfuel_1, buf, "Mfuel 1"@)
        &&& reads(self.mfuel0, buf, "Mfuel0"@)
        &&& reads(self.mfuel0_1, buf, "Mfuel0 1"@)
        &&& reads(self.oiltemp, buf, "oil temp"@)
        &&& self.mixture == or_else(int_at(buf, "mixture"@), -1i32)
        &&& self.compressorstage == or_else(int_at(buf, "compressor stage"@), 0)
        &&& self.magenato == int_at(buf, "magneto"@)
        &&& reads(self.watertemp, buf, "water temp"@)
    }

    /// True when engine `i` of `self` holds its readings from `buf`.
    pub open spec fn holds_engine(&self, buf: Seq<char>, i: int) -> bool {
        engine_row_holds(
            self.throttles@,
            self.power@,
            self.thrust@,
            self.pitch@,
            self.efficiency@,
            buf,
            i,
        )
    }

    /// True when engine `i` of `self` is as in `before`.
    pub open spec fn keeps_engine(&self, before: &State, i: int) -> bool {
        engine_row_kept(
            self.throttles@,
            self.power@,
            self.thrust@,
            self.pitch@,
            self.efficiency@,
            before.throttles@,
            before.power@,
            before.thrust@,
            before.pitch@,
            before.efficiency@,
            i,
        )
    }

    /// True when `self` and `other` agree on every scalar reading but the air
    /// brake (the fields that [`State::update`] reads, and `oilradiator`).
    pub open spec fn same_scalars(&self, other: &State) -> bool {
        &&& self.aileron == other.aileron
        &&& self.elevator == other.elevator
        &&& self.rudder == other.rudder
        &&& self.flaps == other.flaps
        &&& self.gear == other.gear
        &&& self.tas == other.tas
        &&& self.ias == other.ias
        &&& self.m == other.m
        &&& self.heightm == other.heightm
        &&& self.aoa == other.aoa
        &&& self.aos == other.aos
        &&& self.ny == other.ny
        &&& self.vy == other.vy
        &&& self.wx == other.wx
        &&& self.throttle == other.throttle
        &&& self.rpm_throttle == other.rpm_throttle
        &&& self.radiator == other.radiator
        &&& self.oilradiator == other.oilradiator
        &&& self.rpm == other.rpm
        &&& self.manifoldpressure == other.manifoldpressure
        &&& self.mfuel == other.mfuel
        &&& self.mfuel_1 == other.mfuel_1
        &&& self.mfuel0 == other.mfuel0
        &&& self.mfuel0_1 == other.mfuel0_1
        &&& self.oiltemp == other.oiltemp
        &&& self.mixture == other.mixture
        &&& self.compressorstage == other.compressorstage
        &&& self.magenato == other.magenato
        &&& self.watertemp == other.watertemp
    }

    /// True when `self` and `other` agree on the engine arrays, the engine
    /// count and the total thrust.
    pub open spec fn same_engines(&self, other: &State) -> bool {
        &&& self.throttles@ == other.throttles@
        &&& self.power@ == other.power@
        &&& self.thrust@ == other.thrust@
        &&& self.pitch@ == other.pitch@
        &&& self.efficiency@ == other.efficiency@
        &&& self.engine_num == other.engine_num
        &&& self.total_thr == other.total_thr
    }

    /// True when every field is at zero, `valid` is absent and there are no
    /// engine arrays.
    pub open spec fn is_fresh(&self) -> bool {
        &&& self.valid is None
        &&& !self.flag
        &&& self.engine_num == 0
        &&& self.aileron == 0 && self.elevator == 0 && self.rudder == 0 && self.flaps == 0
        &&& self.gear == 0 && self.tas == 0 && self.ias == 0 && self.airbrake == 0
        &&& self.throttle == 0 && self.rpm_throttle == 0 && self.radiator == 0
        &&& self.oilradiator == 0 && self.mixture == 0 && self.compressorstage == 0
        &&& self.magenato == 0 && self.rpm == 0
        &&& self.m is Unset && self.aoa is Unset && self.heightm is Unset && self.aos is Unset
        &&& self.ny is Unset && self.vy is Unset && self.wx is Unset
        &&& self.manifoldpressure is Unset && self.watertemp is Unset && self.oiltemp is Unset
        &&& self.mfuel is Unset && self.mfuel_1 is Unset && self.mfuel0 is Unset
        &&& self.mfuel0_1 is Unset
        &&& self.total_thr == 0
        &&& self.power@.len() == 0 && self.pitch@.len() == 0 && self.thrust@.len() == 0
        &&& self.efficiency@.len() == 0 && self.throttles@.len() == 0
    }

    /// A snapshot with every field at zero, `valid` absent and no engine arrays.
    pub fn new() -> (r: State)
        ensures
            r.is_fresh(),
    {
        State {
            valid: None,
            flag: false,
            engine_num: 0,
            aileron: 0,
            elevator: 0,
            rudder: 0,
            flaps: 0,
            gear: 0,
            tas: 0,
            ias: 0,
            m: Reading::Unset,
            aoa: Reading::Unset,
            heightm: Reading::Unset,
            aos: Reading::Unset,
            ny: Reading::Unset,
            vy: Reading::Unset,
            wx: Reading::Unset,
            throttle: 0,
            rpm_throttle: 0,
            radiator: 0,
            oilradiator: 0,
            mixture: 0,
            compressorstage: 0,
            magenato: 0,
            power: Vec::new(),
            rpm: 0,
            manifoldpressure: Reading::Unset,
            watertemp: Reading::Unset,
            oiltemp: Reading::Unset,
            mfuel: Reading::Unset,
            mfuel_1: Reading::Unset,
            mfuel0: Reading::Unset,
            mfuel0_1: Reading::Unset,
            pitch: Vec::new(),
            thrust: Vec::new(),
            efficiency: Vec::new(),
            airbrake: 0,
            total_thr: 0,
            throttles: Vec::new(),
        }
    }

    /// Marks the snapshot invalid, allocates the engine arrays at zero and
    /// clears the engine count and the air brake.
    pub fn init(&mut self)
        ensures
            opt_view(final(self).valid) == Some("false"@),
            final(self).ready(),
            forall|i: int|
                0 <= i < MAX_ENG_NUM ==> {
                    &&& final(self).throttles@[i] == 0
                    &&& final(self).power@[i] is Unset
                    &&& final(self).thrust@[i] == 0
                    &&& final(self).pitch@[i] is Unset
                    &&& final(self).efficiency@[i] == 0
                },
            final(self).engine_num == 0,
            final(self).airbrake == 0,
            final(self).flag == old(self).flag,
            final(self).total_thr == old(self).total_thr,
            final(self).same_scalars(&*old(self)),
    {
        self.valid = Some(owned("false"));
        self.throttles = filled(MAX_ENG_NUM, 0);
        self.power = unset_readings(MAX_ENG_NUM);
        self.pitch = unset_readings(MAX_ENG_NUM);
        self.thrust = filled(MAX_ENG_NUM, 0);
        self.efficiency = filled(MAX_ENG_NUM, 0);
        self.engine_num = 0;
        self.airbrake = 0;
    }

    /// Reads the thrust of engines `0..MAX_ENG_NUM` under the keys `thrust 0`,
    /// `thrust 1`, … and adds the number of those present to the engine count.
    pub fn get_eng_num(&mut self, buf: &str)
        requires
            old(self).eng_num_ok(buf@),
        ensures
            final(self).thrust.len() == MAX_ENG_NUM,
            forall|i: int|
                0 <= i < MAX_ENG_NUM ==> #[trigger] final(self).thrust@[i] == int_at(
                    buf@,
                    engine_key("thrust"@, i),
                ),
            final(self).engine_num == old(self).engine_num + present_count(buf@, MAX_ENG_NUM as int),
            final(self).same_scalars(&*old(self)),
            final(self).airbrake == old(self).airbrake,
            final(self).valid == old(self).valid,
            final(self).flag == old(self).flag,
            final(self).total_thr == old(self).total_thr,
            final(self).throttles@ == old(self).throttles@,
            final(self).power@ == old(self).power@,
            final(self).pitch@ == old(self).pitch@,
            final(self).efficiency@ == old(self).efficiency@,
    {
        let mut thrust: Vec<i32> = Vec::new();
        std::mem::swap(&mut thrust, &mut self.thrust);
        let mut count: i32 = self.engine_num;
        let ghost start = self.engine_num;
        let mut i: usize = 0;
        while i < MAX_ENG_NUM
            invariant
                i <= MAX_ENG_NUM,
                thrust.len() == MAX_ENG_NUM,
                forall|j: int|
                    0 <= j < MAX_ENG_NUM ==> #[trigger] int_key_ok(
                        buf@,
                        engine_key("thrust"@, j),
                    ),
                start + present_count(buf@, MAX_ENG_NUM as int) <= i32::MAX,
                count == start + present_count(buf@, i as int),
                forall|j: int|
                    0 <= j < i ==> #[trigger] thrust@[j] == int_at(
                        buf@,
                        engine_key("thrust"@, j),
                    ),
            decreases MAX_ENG_NUM - i,
        {
            let key = engine_key_string("thrust", i as u64);
            assert(int_key_ok(buf@, engine_key("thrust"@, i as int)));
            let v = int_reading(buf, key.as_str());
            thrust.set(i, v);
            proof {
                lemma_present_count_bounds(buf@, (i + 1) as int, MAX_ENG_NUM as int);
            }
            if v != I_INVALID {
                count = count + 1;
            }
            i = i + 1;
        }
        std::mem::swap(&mut thrust, &mut self.thrust);
        self.engine_num = count;
    }

    /// True when [`State::get_eng_num`] can read `buf` into `self`.
    pub open spec fn eng_num_ok(&self, buf: Seq<char>) -> bool {
        &&& self.thrust.len() == MAX_ENG_NUM
        &&& forall|i: int|
            0 <= i < MAX_ENG_NUM ==> #[trigger] int_key_ok(buf, engine_key("thrust"@, i))
        &&& self.engine_num + present_count(buf, MAX_ENG_NUM as int) <= i32::MAX
    }

    /// True when [`State::get_eng_num`] can read `buf` into `self`.
    pub fn can_get_eng_num(&self, buf: &str) -> (ok: bool)
        ensures
            ok == self.eng_num_ok(buf@),
    {
        if self.thrust.len() != MAX_ENG_NUM {
            return false;
        }
        let mut count: i64 = 0;
        let mut i: usize = 0;
        while i < MAX_ENG_NUM
            invariant
                i <= MAX_ENG_NUM,
                forall|j: int|
                    0 <= j < i ==> #[trigger] int_key_ok(buf@, engine_key("thrust"@, j)),
                count == present_count(buf@, i as int),
                0 <= count <= i,
            decreases MAX_ENG_NUM - i,
        {
            let key = engine_key_string("thrust", i as u64);
            if !can_read_int(buf, key.as_str()) {
                assert(!int_key_ok(buf@, engine_key("thrust"@, i as int)));
                return false;
            }
            proof {
                lemma_present_count_bounds(buf@, (i + 1) as int, (i + 1) as int);
            }
            if int_reading(buf, key.as_str()) != I_INVALID {
                count = count + 1;
            }
            i = i + 1;
        }
        self.engine_num as i64 + count <= i32::MAX as i64
    }

    /// Reads the snapshot `buf`.
    ///
    /// Without a `valid` key only `valid` changes (to absent) and the result is
    /// -1; otherwise the result is 0.  When `valid` is not `true` the snapshot
    /// is marked invalid and nothing else changes.  When it is `true` every
    /// reading is taken: the scalars, then the engines from the first on, up to
    /// and including the first one without thrust (later rows keep their
    /// values); the engine count and the total thrust cover the engines before
    /// it.  A missing `RPM throttle` or `mixture` reads as -1, a missing
    /// `compressor stage` as 0.
    pub fn update(&mut self, buf: &str) -> (r: i32)
        requires
            old(self).update_ok(buf@),
        ensures
            opt_view(final(self).valid) == key_text(buf@, "valid"@),
            r == (if key_text(buf@, "valid"@) is None {
                -1i32
            } else {
                0i32
            }),
            key_text(buf@, "valid"@) is None ==> final(self).flag == old(self).flag,
            key_text(buf@, "valid"@) is Some ==> final(self).flag == (key_text(buf@, "valid"@)
                == Some("true"@)),
            key_text(buf@, "valid"@) != Some("true"@) ==> {
                &&& final(self).same_scalars(&*old(self))
                &&& final(self).airbrake == old(self).airbrake
                &&& final(self).same_engines(&*old(self))
            },
            key_text(buf@, "valid"@) == Some("true"@) ==> {
                &&& final(self).holds_scalars(buf@)
                &&& final(self).oilradiator == old(self).oilradiator
                &&& final(self).ready()
                &&& engine_count_is(buf@, final(self).engine_num as int)
                &&& final(self).total_thr == thrust_sum(buf@, final(self).engine_num as int)
                &&& forall|j: int|
                    0 <= j <= final(self).engine_num && j < MAX_ENG_NUM
                        ==> #[trigger] final(self).holds_engine(buf@, j)
                &&& forall|j: int|
                    final(self).engine_num < j < MAX_ENG_NUM
                        ==> #[trigger] final(self).keeps_engine(&*old(self), j)
            },
    {
        let valid = get_string(buf, "valid");
        let is_true = match valid {
            Some(v) => {
                self.valid = Some(owned(v));
                str_eq(v, "true")
            },
            None => {
                self.valid = None;
                return -1;
            },
        };
        if !is_true {
            self.flag = false;
            return 0;
        }
        self.flag = true;
        self.aileron = int_reading(buf, "aileron");
        self.elevator = int_reading(buf, "elevator");
        self.rudder = int_reading(buf, "rudder");
        self.flaps = int_reading(buf, "flaps");
        self.airbrake = int_reading(buf, "airbrake");
        self.gear = int_reading(buf, "gear");
        self.tas = int_reading(buf, "TAS");
        self.ias = int_reading(buf, "IAS");
        self.m = text_reading(buf, "\"M\"");
        self.heightm = text_reading(buf, "H, m");
        self.aoa = text_reading(buf, "AoA");
        self.aos = text_reading(buf, "AoS");
        self.ny = text_reading(buf, "Ny");
        self.vy = text_reading(buf, "Vy");
        self.wx = text_reading(buf, "Wx");
        self.throttle = int_reading(buf, "throttle");
        let rpm_throttle = int_reading(buf, "RPM throttle");
        self.rpm_throttle = if rpm_throttle == I_INVALID {
            -1
        } else {
            rpm_throttle
        };
        self.radiator = int_reading(buf, "radiator");
        self.rpm = int_reading(buf, "RPM 1");
        self.manifoldpressure = text_reading(buf, "manifold pressure 1");
        self.mfuel = text_reading(buf, "Mfuel");
        self.mfuel_1 = text_reading(buf, "Mfuel 1");
        self.mfuel0 = text_reading(buf, "Mfuel0");
        self.mfuel0_1 = text_reading(buf, "Mfuel0 1");
        self.oiltemp = text_reading(buf, "oil temp");
        let mixture = int_reading(buf, "mixture");
        self.mixture = if mixture == I_INVALID {
            -1
        } else {
            mixture
        };
        let stage = int_reading(buf, "compressor stage");
        self.compressorstage = if stage == I_INVALID {
            0
        } else {
            stage
        };
        self.magenato = int_reading(buf, "magneto");
        self.watertemp = text_reading(buf, "water temp");

        let mut throttles: Vec<i32> = Vec::new();
        let mut power: Vec<Reading> = Vec::new();
        let mut thrust: Vec<i32> = Vec::new();
        let mut pitch: Vec<Reading> = Vec::new();
        let mut efficiency: Vec<i32> = Vec::new();
        std::mem::swap(&mut throttles, &mut self.throttles);
        std::mem::swap(&mut power, &mut self.power);
        std::mem::swap(&mut thrust, &mut self.thrust);
        std::mem::swap(&mut pitch, &mut self.pitch);
        std::mem::swap(&mut efficiency, &mut self.efficiency);
        let (n, sum) = read_engines(
            buf,
            &mut throttles,
            &mut power,
            &mut thrust,
            &mut pitch,
            &mut efficiency,
        );
        self.throttles = throttles;
        self.power = power;
        self.thrust = thrust;
        self.pitch = pitch;
        self.efficiency = efficiency;
        self.engine_num = n as i32;
        self.total_thr = sum;
        0
    }

    /// True when [`State::update`] can read `buf` into `self`.
    pub fn can_update(&self, buf: &str) -> (ok: bool)
        ensures
            ok == self.update_ok(buf@),
    {
        if !can_get_string(buf, "valid") {
            return false;
        }
        let is_true = match get_string(buf, "valid") {
            Some(v) => str_eq(v, "true"),
            None => false,
        };
        if !is_true {
            return true;
        }
        let ready = self.throttles.len() == MAX_ENG_NUM && self.power.len() == MAX_ENG_NUM
            && self.thrust.len() == MAX_ENG_NUM && self.pitch.len() == MAX_ENG_NUM
            && self.efficiency.len() == MAX_ENG_NUM;
        let scalars = can_read_int(buf, "aileron") && can_read_int(buf, "elevator")
            && can_read_int(buf, "rudder") && can_read_int(buf, "flaps") && can_read_int(
            buf,
            "airbrake",
        ) && can_read_int(buf, "gear") && can_read_int(buf, "TAS") && can_read_int(buf, "IAS")
            && can_get_string(buf, "\"M\"") && can_get_string(buf, "H, m") && can_get_string(
            buf,
            "AoA",
        ) && can_get_string(buf, "AoS") && can_get_string(buf, "Ny") && can_get_string(buf, "Vy")
            && can_get_string(buf, "Wx") && can_read_int(buf, "throttle") && can_read_int(
            buf,
            "RPM throttle",
        ) && can_read_int(buf, "radiator") && can_read_int(buf, "RPM 1") && can_get_string(
            buf,
            "manifold pressure 1",
        ) && can_get_string(buf, "Mfuel") && can_get_string(buf, "Mfuel 1") && can_get_string(
            buf,
            "Mfuel0",
        ) && can_get_string(buf, "Mfuel0 1") && can_get_string(buf, "oil temp") && can_read_int(
            buf,
            "mixture",
        ) && can_read_int(buf, "compressor stage") && can_read_int(buf, "magneto")
            && can_get_string(buf, "water temp");
        ready && scalars && can_read_engines(buf)
    }
}

impl Default for State {
    fn default() -> (r: State)
        ensures
            r.is_fresh(),
    {
        State::new()
    }
}

} // verus!
