//! Resolution of configuration targets (`getRPM`, `getWingSweep * 100`, ...)
//! to typed telemetry accessors.
//!
//! A target names a getter of [`TelemetrySource`]; the registry maps each
//! getter name, matched exactly and case-sensitively, to an accessor.  Names
//! that are not registered resolve to nothing, and a binding without an
//! accessor yields the neutral value (empty string, zero).
use vstd::prelude::*;
use crate::text::{
    char_pos_from, drop_trailing_empty, java_split, java_split_spec, lemma_char_pos_bounds, split_from, str_eq, trim,
    trim_spec,
};

verus! {

/// The numeric getters of the telemetry interface (declaration order).
#[derive(Debug, Clone, Copy, PartialEq, Eq, Structural)]
pub enum DoubleAccessor {
    Ias,
    Tas,
    Mach,
    AoA,
    AoS,
    Ny,
    Vario,
    Altitude,
    RadioAltitude,
    Compass,
    Sep,
    Acceleration,
    TurnRate,
    TurnRadius,
    RollRate,
    EnergyJkg,
    MassFuel,
    TotalWeight,
    FuelTimeMili,
    Throttle,
    Rpm,
    ManifoldPressure,
    WaterTemp,
    OilTemp,
    Pitch,
    EffHp,
    Thrust,
    HorsePower,
    EngineResponse,
    PropEfficiency,
    WepKg,
    WepTime,
    HeatTolerance,
    PowerPercent,
    ManifoldPressurePounds,
    ManifoldPressureInchHg,
    ManifoldPressureDisplay,
    UnknownMixture,
    Radiator,
    CompressorStage,
    FuelPercent,
    RpmThrottle,
    Gear,
    Flaps,
    Airbrake,
    Aileron,
    Elevator,
    Rudder,
    WingSweep,
    SpeedLimitRatio,
    AileronLockRatio,
    RudderLockRatio,
    UnitMachLimitRatio,
    StallSpeed,
    AviahorizonPitch,
    AviahorizonRoll,
    BoosterFuelKg,
    BoosterFuelPercent,
}

/// The numeric getter registered under `name`.
pub open spec fn double_accessor_for(name: Seq<char>) -> Option<DoubleAccessor> {
    if name == "getIAS"@ {
        Some(DoubleAccessor::Ias)
    } else if name == "getTAS"@ {
        Some(DoubleAccessor::Tas)
    } else if name == "getMach"@ {
        Some(DoubleAccessor::Mach)
    } else if name == "getAoA"@ {
        Some(DoubleAccessor::AoA)
    } else if name == "getAoS"@ {
        Some(DoubleAccessor::AoS)
    } else if name == "getNy"@ {
        Some(DoubleAccessor::Ny)
    } else if name == "getVario"@ {
        Some(DoubleAccessor::Vario)
    } else if name == "getAltitude"@ {
        Some(DoubleAccessor::Altitude)
    } else if name == "getRadioAltitude"@ {
        Some(DoubleAccessor::RadioAltitude)
    } else if name == "getCompass"@ {
        Some(DoubleAccessor::Compass)
    } else if name == "getSEP"@ {
        Some(DoubleAccessor::Sep)
    } else if name == "getAcceleration"@ {
        Some(DoubleAccessor::Acceleration)
    } else if name == "getTurnRate"@ {
        Some(DoubleAccessor::TurnRate)
    } else if name == "getTurnRadius"@ {
        Some(DoubleAccessor::TurnRadius)
    } else if name == "getRollRate"@ {
        Some(DoubleAccessor::RollRate)
    } else if name == "getEnergyJKg"@ {
        Some(DoubleAccessor::EnergyJkg)
    } else if name == "getMassFuel"@ {
        Some(DoubleAccessor::MassFuel)
    } else if name == "getTotalWeight"@ {
        Some(DoubleAccessor::TotalWeight)
    } else if name == "getFuelTimeMili"@ {
        Some(DoubleAccessor::FuelTimeMili)
    } else if name == "getThrottle"@ {
        Some(DoubleAccessor::Throttle)
    } else if name == "getRPM"@ {
        Some(DoubleAccessor::Rpm)
    } else if name == "getManifoldPressure"@ {
        Some(DoubleAccessor::ManifoldPressure)
    } else if name == "getWaterTemp"@ {
        Some(DoubleAccessor::WaterTemp)
    } else if name == "getOilTemp"@ {
        Some(DoubleAccessor::OilTemp)
    } else if name == "getPitch"@ {
        Some(DoubleAccessor::Pitch)
    } else if name == "getEffHp"@ {
        Some(DoubleAccessor::EffHp)
    } else if name == "getThrust"@ {
        Some(DoubleAccessor::Thrust)
    } else if name == "getHorsePower"@ {
        Some(DoubleAccessor::HorsePower)
    } else if name == "getEngineResponse"@ {
        Some(DoubleAccessor::EngineResponse)
    } else if name == "getPropEfficiency"@ {
        Some(DoubleAccessor::PropEfficiency)
    } else if name == "getWepKg"@ {
        Some(DoubleAccessor::WepKg)
    } else if name == "getWepTime"@ {
        Some(DoubleAccessor::WepTime)
    } else if name == "getHeatTolerance"@ {
        Some(DoubleAccessor::HeatTolerance)
    } else if name == "getPowerPercent"@ {
        Some(DoubleAccessor::PowerPercent)
    } else if name == "getManifoldPressurePounds"@ {
        Some(DoubleAccessor::ManifoldPressurePounds)
    } else if name == "getManifoldPressureInchHg"@ {
        Some(DoubleAccessor::ManifoldPressureInchHg)
    } else if name == "getManifoldPressureDisplay"@ {
        Some(DoubleAccessor::ManifoldPressureDisplay)
    } else if name == "getUnknownMixture"@ {
        Some(DoubleAccessor::UnknownMixture)
    } else if name == "getRadiator"@ {
        Some(DoubleAccessor::Radiator)
    } else if name == "getCompressorStage"@ {
        Some(DoubleAccessor::CompressorStage)
    } else if name == "getFuelPercent"@ {
        Some(DoubleAccessor::FuelPercent)
    } else if name == "getRPMThrottle"@ {
        Some(DoubleAccessor::RpmThrottle)
    } else if name == "getGear"@ {
        Some(DoubleAccessor::Gear)
    } else if name == "getFlaps"@ {
        Some(DoubleAccessor::Flaps)
    } else if name == "getAirbrake"@ {
        Some(DoubleAccessor::Airbrake)
    } else if name == "getAileron"@ {
        Some(DoubleAccessor::Aileron)
    } else if name == "getElevator"@ {
        Some(DoubleAccessor::Elevator)
    } else if name == "getRudder"@ {
        Some(DoubleAccessor::Rudder)
    } else if name == "getWingSweep"@ {
        Some(DoubleAccessor::WingSweep)
    } else if name == "getSpeedLimitRatio"@ {
        Some(DoubleAccessor::SpeedLimitRatio)
    } else if name == "getAileronLockRatio"@ {
        Some(DoubleAccessor::AileronLockRatio)
    } else if name == "getRudderLockRatio"@ {
        Some(DoubleAccessor::RudderLockRatio)
    } else if name == "getUnitMachLimitRatio"@ {
        Some(DoubleAccessor::UnitMachLimitRatio)
    } else if name == "getStallSpeed"@ {
        Some(DoubleAccessor::StallSpeed)
    } else if name == "getAviahorizonPitch"@ {
        Some(DoubleAccessor::AviahorizonPitch)
    } else if name == "getAviahorizonRoll"@ {
        Some(DoubleAccessor::AviahorizonRoll)
    } else if name == "getBoosterFuelKg"@ {
        Some(DoubleAccessor::BoosterFuelKg)
    } else if name == "getBoosterFuelPercent"@ {
        Some(DoubleAccessor::BoosterFuelPercent)
    } else {
        None
    }
}

impl DoubleAccessor {
    /// The accessor registered under `method_name` (exact, case-sensitive match).
    #[verifier::rlimit(100)]
    pub fn resolve(method_name: &str) -> (r: Option<DoubleAccessor>)
        ensures
            r == double_accessor_for(method_name@),
    {
        if str_eq(method_name, "getIAS") {
            return Some(DoubleAccessor::Ias);
        }
        if str_eq(method_name, "getTAS") {
            return Some(DoubleAccessor::Tas);
        }
        if str_eq(method_name, "getMach") {
            return Some(DoubleAccessor::Mach);
        }
        if str_eq(method_name, "getAoA") {
            return Some(DoubleAccessor::AoA);
        }
        if str_eq(method_name, "getAoS") {
            return Some(DoubleAccessor::AoS);
        }
        if str_eq(method_name, "getNy") {
            return Some(DoubleAccessor::Ny);
        }
        if str_eq(method_name, "getVario") {
            return Some(DoubleAccessor::Vario);
        }
        if str_eq(method_name, "getAltitude") {
            return Some(DoubleAccessor::Altitude);
        }
        if str_eq(method_name, "getRadioAltitude") {
            return Some(DoubleAccessor::RadioAltitude);
        }
        if str_eq(method_name, "getCompass") {
            return Some(DoubleAccessor::Compass);
        }
        if str_eq(method_name, "getSEP") {
            return Some(DoubleAccessor::Sep);
        }
        if str_eq(method_name, "getAcceleration") {
            return Some(DoubleAccessor::Acceleration);
        }
        if str_eq(method_name, "getTurnRate") {
            return Some(DoubleAccessor::TurnRate);
        }
        if str_eq(method_name, "getTurnRadius") {
            return Some(DoubleAccessor::TurnRadius);
        }
        if str_eq(method_name, "getRollRate") {
            return Some(DoubleAccessor::RollRate);
        }
        if str_eq(method_name, "getEnergyJKg") {
            return Some(DoubleAccessor::EnergyJkg);
        }
        if str_eq(method_name, "getMassFuel") {
            return Some(DoubleAccessor::MassFuel);
        }
        if str_eq(method_name, "getTotalWeight") {
            return Some(DoubleAccessor::TotalWeight);
        }
        if str_eq(method_name, "getFuelTimeMili") {
            return Some(DoubleAccessor::FuelTimeMili);
        }
        if str_eq(method_name, "getThrottle") {
            return Some(DoubleAccessor::Throttle);
        }
        if str_eq(method_name, "getRPM") {
            return Some(DoubleAccessor::Rpm);
        }
        if str_eq(method_name, "getManifoldPressure") {
            return Some(DoubleAccessor::ManifoldPressure);
        }
        if str_eq(method_name, "getWaterTemp") {
            return Some(DoubleAccessor::WaterTemp);
        }
        if str_eq(method_name, "getOilTemp") {
            return Some(DoubleAccessor::OilTemp);
        }
        if str_eq(method_name, "getPitch") {
            return Some(DoubleAccessor::Pitch);
        }
        if str_eq(method_name, "getEffHp") {
            return Some(DoubleAccessor::EffHp);
        }
        if str_eq(method_name, "getThrust") {
            return Some(DoubleAccessor::Thrust);
        }
        if str_eq(method_name, "getHorsePower") {
            return Some(DoubleAccessor::HorsePower);
        }
        if str_eq(method_name, "getEngineResponse") {
            return Some(DoubleAccessor::EngineResponse);
        }
        if str_eq(method_name, "getPropEfficiency") {
            return Some(DoubleAccessor::PropEfficiency);
        }
        if str_eq(method_name, "getWepKg") {
            return Some(DoubleAccessor::WepKg);
        }
        if str_eq(method_name, "getWepTime") {
            return Some(DoubleAccessor::WepTime);
        }
        if str_eq(method_name, "getHeatTolerance") {
            return Some(DoubleAccessor::HeatTolerance);
        }
        if str_eq(method_name, "getPowerPercent") {
            return Some(DoubleAccessor::PowerPercent);
        }
        if str_eq(method_name, "getManifoldPressurePounds") {
            return Some(DoubleAccessor::ManifoldPressurePounds);
        }
        if str_eq(method_name, "getManifoldPressureInchHg") {
            return Some(DoubleAccessor::ManifoldPressureInchHg);
        }
        if str_eq(method_name, "getManifoldPressureDisplay") {
            return Some(DoubleAccessor::ManifoldPressureDisplay);
        }
        if str_eq(method_name, "getUnknownMixture") {
            return Some(DoubleAccessor::UnknownMixture);
        }
        if str_eq(method_name, "getRadiator") {
            return Some(DoubleAccessor::Radiator);
        }
        if str_eq(method_name, "getCompressorStage") {
            return Some(DoubleAccessor::CompressorStage);
        }
        if str_eq(method_name, "getFuelPercent") {
            return Some(DoubleAccessor::FuelPercent);
        }
        if str_eq(method_name, "getRPMThrottle") {
            return Some(DoubleAccessor::RpmThrottle);
        }
        if str_eq(method_name, "getGear") {
            return Some(DoubleAccessor::Gear);
        }
        if str_eq(method_name, "getFlaps") {
            return Some(DoubleAccessor::Flaps);
        }
        if str_eq(method_name, "getAirbrake") {
            return Some(DoubleAccessor::Airbrake);
        }
        if str_eq(method_name, "getAileron") {
            return Some(DoubleAccessor::Aileron);
        }
        if str_eq(method_name, "getElevator") {
            return Some(DoubleAccessor::Elevator);
        }
        if str_eq(method_name, "getRudder") {
            return Some(DoubleAccessor::Rudder);
        }
        if str_eq(method_name, "getWingSweep") {
            return Some(DoubleAccessor::WingSweep);
        }
        if str_eq(method_name, "getSpeedLimitRatio") {
            return Some(DoubleAccessor::SpeedLimitRatio);
        }
        if str_eq(method_name, "getAileronLockRatio") {
            return Some(DoubleAccessor::AileronLockRatio);
        }
        if str_eq(method_name, "getRudderLockRatio") {
            return Some(DoubleAccessor::RudderLockRatio);
        }
        if str_eq(method_name, "getUnitMachLimitRatio") {
            return Some(DoubleAccessor::UnitMachLimitRatio);
        }
        if str_eq(method_name, "getStallSpeed") {
            return Some(DoubleAccessor::StallSpeed);
        }
        if str_eq(method_name, "getAviahorizonPitch") {
            return Some(DoubleAccessor::AviahorizonPitch);
        }
        if str_eq(method_name, "getAviahorizonRoll") {
            return Some(DoubleAccessor::AviahorizonRoll);
        }
        if str_eq(method_name, "getBoosterFuelKg") {
            return Some(DoubleAccessor::BoosterFuelKg);
        }
        if str_eq(method_name, "getBoosterFuelPercent") {
            return Some(DoubleAccessor::BoosterFuelPercent);
        }
        None
    }
}

/// The text-valued getters of the telemetry interface.
#[derive(Debug, Clone, Copy, PartialEq, Eq, Structural)]
pub enum StringAccessor {
    /// `getManifoldPressureDisplayUnit`
    ManifoldPressureDisplayUnit,
}

/// The integer-valued getters of the telemetry interface.
#[derive(Debug, Clone, Copy, PartialEq, Eq, Structural)]
pub enum IntAccessor {
    /// `getManifoldPressureDisplayPrecision`
    ManifoldPressureDisplayPrecision,
}

pub open spec fn string_accessor_for(name: Seq<char>) -> Option<StringAccessor> {
    if name == "getManifoldPressureDisplayUnit"@ {
        Some(StringAccessor::ManifoldPressureDisplayUnit)
    } else {
        None
    }
}

pub open spec fn int_accessor_for(name: Seq<char>) -> Option<IntAccessor> {
    if name == "getManifoldPressureDisplayPrecision"@ {
        Some(IntAccessor::ManifoldPressureDisplayPrecision)
    } else {
        None
    }
}

/// The non-numeric part of the telemetry interface that accessors read.
/// Implementations supply live values; the defaults are those of a metric
/// display with no data.
pub trait TelemetrySource {
    /// Elapsed fuel time in milliseconds.
    fn get_fuel_time_mili(&self) -> (r: i64)
        default_ensures
            r == 0,
    {
        0
    }

    /// The unit of the manifold pressure display (`Ata` in metric).
    fn get_manifold_pressure_display_unit(&self) -> (r: String)
        default_ensures
            r@ == seq!['A', 't', 'a'],
    {
        let mut u = String::new();
        crate::text::push_char(&mut u, 'A');
        crate::text::push_char(&mut u, 't');
        crate::text::push_char(&mut u, 'a');
        u
    }

    /// The number of decimals of the manifold pressure display (2 in metric).
    fn get_manifold_pressure_display_precision(&self) -> (r: i32)
        default_ensures
            r == 2,
    {
        2
    }
}

impl StringAccessor {
    pub fn resolve(method_name: &str) -> (r: Option<StringAccessor>)
        ensures
            r == string_accessor_for(method_name@),
    {
        if str_eq(method_name, "getManifoldPressureDisplayUnit") {
            Some(StringAccessor::ManifoldPressureDisplayUnit)
        } else {
            None
        }
    }

    /// Reads the getter this accessor stands for: the result is what that
    /// getter of `s` returns.
    pub fn get<T: TelemetrySource + ?Sized>(self, s: &T) -> (r: String)
        ensures
            call_ensures(T::get_manifold_pressure_display_unit, (s,), r),
    {
        match self {
            StringAccessor::ManifoldPressureDisplayUnit => s.get_manifold_pressure_display_unit(),
        }
    }
}

impl IntAccessor {
    pub fn resolve(method_name: &str) -> (r: Option<IntAccessor>)
        ensures
            r == int_accessor_for(method_name@),
    {
        if str_eq(method_name, "getManifoldPressureDisplayPrecision") {
            Some(IntAccessor::ManifoldPressureDisplayPrecision)
        } else {
            None
        }
    }

    /// Reads the getter this accessor stands for: the result is what that
    /// getter of `s` returns.
    pub fn get<T: TelemetrySource + ?Sized>(self, s: &T) -> (r: i32)
        ensures
            call_ensures(T::get_manifold_pressure_display_precision, (s,), r),
    {
        match self {
            IntAccessor::ManifoldPressureDisplayPrecision => {
                s.get_manifold_pressure_display_precision()
            },
        }
    }
}

/// A resolved text target; without an accessor it yields the empty string.
#[derive(Debug, Clone, Copy, PartialEq, Eq, Structural)]
pub struct StringBinding {
    pub accessor: Option<StringAccessor>,
}

impl StringBinding {
    /// The value of the bound getter of `s`; empty without one.
    pub fn get<T: TelemetrySource + ?Sized>(self, s: &T) -> (r: String)
        ensures
            self.accessor is None ==> r@ == Seq::<char>::empty(),
            self.accessor is Some ==> call_ensures(T::get_manifold_pressure_display_unit, (s,), r),
    {
        match self.accessor {
            Some(a) => a.get(s),
            None => String::new(),
        }
    }
}

/// A resolved integer target; without an accessor it yields 0.
#[derive(Debug, Clone, Copy, PartialEq, Eq, Structural)]
pub struct IntBinding {
    pub accessor: Option<IntAccessor>,
}

impl IntBinding {
    /// The value of the bound getter of `s`; 0 without one.
    pub fn get<T: TelemetrySource + ?Sized>(self, s: &T) -> (r: i32)
        ensures
            self.accessor is None ==> r == 0,
            self.accessor is Some ==> call_ensures(T::get_manifold_pressure_display_precision, (s,), r),
    {
        match self.accessor {
            Some(a) => a.get(s),
            None => 0,
        }
    }
}

/// The pieces of `s` between its `*`s, without the trailing empty ones.
pub fn java_split_star(s: &str) -> (r: Vec<&str>)
    ensures
        crate::text::str_views(r@) == java_split_spec(s@, '*'),
{
    java_split(s, '*')
}

/// The getter name of a numeric target: the text before a single `*`
/// (trimmed) when the target splits into exactly two pieces, the whole
/// trimmed target otherwise.
pub open spec fn double_method_name(t: Seq<char>) -> Seq<char> {
    let parts = java_split_spec(t, '*');
    if char_pos_from(t, '*', 0) < t.len() && parts.len() == 2 {
        trim_spec(parts[0])
    } else {
        trim_spec(t)
    }
}

/// The multiplier text of a numeric target `getter * N` (trimmed), when there is one.
pub open spec fn double_multiplier_text(t: Seq<char>) -> Option<Seq<char>> {
    let parts = java_split_spec(t, '*');
    if char_pos_from(t, '*', 0) < t.len() && parts.len() == 2 {
        Some(trim_spec(parts[1]))
    } else {
        None
    }
}

/// A numeric target resolved up to its multiplier: the accessor and the text
/// of the multiplier, which the caller reads as a number.
pub struct DoubleTarget {
    pub accessor: Option<DoubleAccessor>,
    pub multiplier_text: Option<String>,
}

/// Resolves a numeric target `getter` or `getter * N`.  An empty target
/// resolves to nothing; otherwise the getter name is looked up in the registry.
pub fn resolve_double_target(target: &str) -> (r: DoubleTarget)
    ensures
        target@.len() == 0 ==> r.accessor is None && r.multiplier_text is None,
        target@.len() > 0 ==> r.accessor == double_accessor_for(double_method_name(target@)),
        target@.len() > 0 ==> match double_multiplier_text(target@) {
            Some(m) => r.multiplier_text matches Some(x) && x@ == m,
            None => r.multiplier_text is None,
        },
{
    if target.is_empty() {
        return DoubleTarget { accessor: None, multiplier_text: None };
    }
    let mut method_name = trim(target);
    let mut multiplier_text: Option<String> = None;
    if crate::text::contains_char(target, '*') {
        let parts = java_split_star(target);
        if parts.len() == 2 {
            method_name = trim(parts[0]);
            multiplier_text = Some(crate::text::owned(trim(parts[1])));
        }
    }
    let accessor = DoubleAccessor::resolve(method_name);
    DoubleTarget { accessor, multiplier_text }
}

/// Resolves a text target (the trimmed target names the getter; there is no
/// multiplier syntax).  An empty target resolves to nothing.
pub fn resolve_string(target: &str) -> (r: StringBinding)
    ensures
        target@.len() == 0 ==> r.accessor is None,
        target@.len() > 0 ==> r.accessor == string_accessor_for(trim_spec(target@)),
{
    if target.is_empty() {
        return StringBinding { accessor: None };
    }
    let accessor = StringAccessor::resolve(trim(target));
    StringBinding { accessor }
}

/// Resolves an integer target (the trimmed target names the getter; there is
/// no multiplier syntax).  An empty target resolves to nothing.
pub fn resolve_int(target: &str) -> (r: IntBinding)
    ensures
        target@.len() == 0 ==> r.accessor is None,
        target@.len() > 0 ==> r.accessor == int_accessor_for(trim_spec(target@)),
{
    if target.is_empty() {
        return IntBinding { accessor: None };
    }
    let accessor = IntAccessor::resolve(trim(target));
    IntBinding { accessor }
}

/// The getter name a numeric accessor is registered under.
pub open spec fn double_getter_name(a: DoubleAccessor) -> Seq<char> {
    match a {
        DoubleAccessor::Ias => "getIAS"@,
        DoubleAccessor::Tas => "getTAS"@,
        DoubleAccessor::Mach => "getMach"@,
        DoubleAccessor::AoA => "getAoA"@,
        DoubleAccessor::AoS => "getAoS"@,
        DoubleAccessor::Ny => "getNy"@,
        DoubleAccessor::Vario => "getVario"@,
        DoubleAccessor::Altitude => "getAltitude"@,
        DoubleAccessor::RadioAltitude => "getRadioAltitude"@,
        DoubleAccessor::Compass => "getCompass"@,
        DoubleAccessor::Sep => "getSEP"@,
        DoubleAccessor::Acceleration => "getAcceleration"@,
        DoubleAccessor::TurnRate => "getTurnRate"@,
        DoubleAccessor::TurnRadius => "getTurnRadius"@,
        DoubleAccessor::RollRate => "getRollRate"@,
        DoubleAccessor::EnergyJkg => "getEnergyJKg"@,
        DoubleAccessor::MassFuel => "getMassFuel"@,
        DoubleAccessor::TotalWeight => "getTotalWeight"@,
        DoubleAccessor::FuelTimeMili => "getFuelTimeMili"@,
        DoubleAccessor::Throttle => "getThrottle"@,
        DoubleAccessor::Rpm => "getRPM"@,
        DoubleAccessor::ManifoldPressure => "getManifoldPressure"@,
        DoubleAccessor::WaterTemp => "getWaterTemp"@,
        DoubleAccessor::OilTemp => "getOilTemp"@,
        DoubleAccessor::Pitch => "getPitch"@,
        DoubleAccessor::EffHp => "getEffHp"@,
        DoubleAccessor::Thrust => "getThrust"@,
        DoubleAccessor::HorsePower => "getHorsePower"@,
        DoubleAccessor::EngineResponse => "getEngineResponse"@,
        DoubleAccessor::PropEfficiency => "getPropEfficiency"@,
        DoubleAccessor::WepKg => "getWepKg"@,
        DoubleAccessor::WepTime => "getWepTime"@,
        DoubleAccessor::HeatTolerance => "getHeatTolerance"@,
        DoubleAccessor::PowerPercent => "getPowerPercent"@,
        DoubleAccessor::ManifoldPressurePounds => "getManifoldPressurePounds"@,
        DoubleAccessor::ManifoldPressureInchHg => "getManifoldPressureInchHg"@,
        DoubleAccessor::ManifoldPressureDisplay => "getManifoldPressureDisplay"@,
        DoubleAccessor::UnknownMixture => "getUnknownMixture"@,
        DoubleAccessor::Radiator => "getRadiator"@,
        DoubleAccessor::CompressorStage => "getCompressorStage"@,
        DoubleAccessor::FuelPercent => "getFuelPercent"@,
        DoubleAccessor::RpmThrottle => "getRPMThrottle"@,
        DoubleAccessor::Gear => "getGear"@,
        DoubleAccessor::Flaps => "getFlaps"@,
        DoubleAccessor::Airbrake => "getAirbrake"@,
        DoubleAccessor::Aileron => "getAileron"@,
        DoubleAccessor::Elevator => "getElevator"@,
        DoubleAccessor::Rudder => "getRudder"@,
        DoubleAccessor::WingSweep => "getWingSweep"@,
        DoubleAccessor::SpeedLimitRatio => "getSpeedLimitRatio"@,
        DoubleAccessor::AileronLockRatio => "getAileronLockRatio"@,
        DoubleAccessor::RudderLockRatio => "getRudderLockRatio"@,
        DoubleAccessor::UnitMachLimitRatio => "getUnitMachLimitRatio"@,
        DoubleAccessor::StallSpeed => "getStallSpeed"@,
        DoubleAccessor::AviahorizonPitch => "getAviahorizonPitch"@,
        DoubleAccessor::AviahorizonRoll => "getAviahorizonRoll"@,
        DoubleAccessor::BoosterFuelKg => "getBoosterFuelKg"@,
        DoubleAccessor::BoosterFuelPercent => "getBoosterFuelPercent"@,
    }
}

/// A numeric getter name resolves only to the accessor registered under
/// exactly that name, so no two names share an accessor.
pub proof fn law_double_resolve_only_its_name(name: Seq<char>)
    ensures
        double_accessor_for(name) matches Some(a) ==> name == double_getter_name(a),
{
}

/// Every numeric accessor is reached from its own getter name.
#[verifier::rlimit(100)]
pub proof fn law_double_every_accessor_named(a: DoubleAccessor)
    ensures
        double_accessor_for(double_getter_name(a)) == Some(a),
{
    // each name differs from every name tried before it, by length or by one character
    match a {
        DoubleAccessor::Ias => {
            reveal_strlit("getIAS");
        },
        DoubleAccessor::Tas => {
            reveal_strlit("getTAS");
            reveal_strlit("getIAS"); assert("getTAS"@[3] != "getIAS"@[3]);
        },
        DoubleAccessor::Mach => {
            reveal_strlit("getMach");
            reveal_strlit("getIAS"); assert("getMach"@.len() != "getIAS"@.len());
            reveal_strlit("getTAS"); assert("getMach"@.len() != "getTAS"@.len());
        },
        DoubleAccessor::AoA => {
            reveal_strlit("getAoA");
            reveal_strlit("getIAS"); assert("getAoA"@[3] != "getIAS"@[3]);
            reveal_strlit("getTAS"); assert("getAoA"@[3] != "getTAS"@[3]);
            reveal_strlit("getMach"); assert("getAoA"@.len() != "getMach"@.len());
        },
        DoubleAccessor::AoS => {
            reveal_strlit("getAoS");
            reveal_strlit("getIAS"); assert("getAoS"@[3] != "getIAS"@[3]);
            reveal_strlit("getTAS"); assert("getAoS"@[3] != "getTAS"@[3]);
            reveal_strlit("getMach"); assert("getAoS"@.len() != "getMach"@.len());
            reveal_strlit("getAoA"); assert("getAoS"@[5] != "getAoA"@[5]);
        },
        DoubleAccessor::Ny => {
            reveal_strlit("getNy");
            reveal_strlit("getIAS"); assert("getNy"@.len() != "getIAS"@.len());
            reveal_strlit("getTAS"); assert("getNy"@.len() != "getTAS"@.len());
            reveal_strlit("getMach"); assert("getNy"@.len() != "getMach"@.len());
            reveal_strlit("getAoA"); assert("getNy"@.len() != "getAoA"@.len());
            reveal_strlit("getAoS"); assert("getNy"@.len() != "getAoS"@.len());
        },
        DoubleAccessor::Vario => {
            reveal_strlit("getVario");
            reveal_strlit("getIAS"); assert("getVario"@.len() != "getIAS"@.len());
            reveal_strlit("getTAS"); assert("getVario"@.len() != "getTAS"@.len());
            reveal_strlit("getMach"); assert("getVario"@.len() != "getMach"@.len());
            reveal_strlit("getAoA"); assert("getVario"@.len() != "getAoA"@.len());
            reveal_strlit("getAoS"); assert("getVario"@.len() != "getAoS"@.len());
            reveal_strlit("getNy"); assert("getVario"@.len() != "getNy"@.len());
        },
        DoubleAccessor::Altitude => {
            reveal_strlit("getAltitude");
            reveal_strlit("getIAS"); assert("getAltitude"@.len() != "getIAS"@.len());
            reveal_strlit("getTAS"); assert("getAltitude"@.len() != "getTAS"@.len());
            reveal_strlit("getMach"); assert("getAltitude"@.len() != "getMach"@.len());
            reveal_strlit("getAoA"); assert("getAltitude"@.len() != "getAoA"@.len());
            reveal_strlit("getAoS"); assert("getAltitude"@.len() != "getAoS"@.len());
            reveal_strlit("getNy"); assert("getAltitude"@.len() != "getNy"@.len());
            reveal_strlit("getVario"); assert("getAltitude"@.len() != "getVario"@.len());
        },
        DoubleAccessor::RadioAltitude => {
            reveal_strlit("getRadioAltitude");
            reveal_strlit("getIAS"); assert("getRadioAltitude"@.len() != "getIAS"@.len());
            reveal_strlit("getTAS"); assert("getRadioAltitude"@.len() != "getTAS"@.len());
            reveal_strlit("getMach"); assert("getRadioAltitude"@.len() != "getMach"@.len());
            reveal_strlit("getAoA"); assert("getRadioAltitude"@.len() != "getAoA"@.len());
            reveal_strlit("getAoS"); assert("getRadioAltitude"@.len() != "getAoS"@.len());
            reveal_strlit("getNy"); assert("getRadioAltitude"@.len() != "getNy"@.len());
            reveal_strlit("getVario"); assert("getRadioAltitude"@.len() != "getVario"@.len());
            reveal_strlit("getAltitude"); assert("getRadioAltitude"@.len() != "getAltitude"@.len());
        },
        DoubleAccessor::Compass => {
            reveal_strlit("getCompass");
            reveal_strlit("getIAS"); assert("getCompass"@.len() != "getIAS"@.len());
            reveal_strlit("getTAS"); assert("getCompass"@.len() != "getTAS"@.len());
            reveal_strlit("getMach"); assert("getCompass"@.len() != "getMach"@.len());
            reveal_strlit("getAoA"); assert("getCompass"@.len() != "getAoA"@.len());
            reveal_strlit("getAoS"); assert("getCompass"@.len() != "getAoS"@.len());
            reveal_strlit("getNy"); assert("getCompass"@.len() != "getNy"@.len());
            reveal_strlit("getVario"); assert("getCompass"@.len() != "getVario"@.len());
            reveal_strlit("getAltitude"); assert("getCompass"@.len() != "getAltitude"@.len());
            reveal_strlit("getRadioAltitude"); assert("getCompass"@.len() != "getRadioAltitude"@.len());
        },
        DoubleAccessor::Sep => {
            reveal_strlit("getSEP");
            reveal_strlit("getIAS"); assert("getSEP"@[3] != "getIAS"@[3]);
            reveal_strlit("getTAS"); assert("getSEP"@[3] != "getTAS"@[3]);
            reveal_strlit("getMach"); assert("getSEP"@.len() != "getMach"@.len());
            reveal_strlit("getAoA"); assert("getSEP"@[3] != "getAoA"@[3]);
            reveal_strlit("getAoS"); assert("getSEP"@[3] != "getAoS"@[3]);
            reveal_strlit("getNy"); assert("getSEP"@.len() != "getNy"@.len());
            reveal_strlit("getVario"); assert("getSEP"@.len() != "getVario"@.len());
            reveal_strlit("getAltitude"); assert("getSEP"@.len() != "getAltitude"@.len());
            reveal_strlit("getRadioAltitude"); assert("getSEP"@.len() != "getRadioAltitude"@.len());
            reveal_strlit("getCompass"); assert("getSEP"@.len() != "getCompass"@.len());
        },
        DoubleAccessor::Acceleration => {
            reveal_strlit("getAcceleration");
            reveal_strlit("getIAS"); assert("getAcceleration"@.len() != "getIAS"@.len());
            reveal_strlit("getTAS"); assert("getAcceleration"@.len() != "getTAS"@.len());
            reveal_strlit("getMach"); assert("getAcceleration"@.len() != "getMach"@.len());
            reveal_strlit("getAoA"); assert("getAcceleration"@.len() != "getAoA"@.len());
            reveal_strlit("getAoS"); assert("getAcceleration"@.len() != "getAoS"@.len());
            reveal_strlit("getNy"); assert("getAcceleration"@.len() != "getNy"@.len());
            reveal_strlit("getVario"); assert("getAcceleration"@.len() != "getVario"@.len());
            reveal_strlit("getAltitude"); assert("getAcceleration"@.len() != "getAltitude"@.len());
            reveal_strlit("getRadioAltitude"); assert("getAcceleration"@.len() != "getRadioAltitude"@.len());
            reveal_strlit("getCompass"); assert("getAcceleration"@.len() != "getCompass"@.len());
            reveal_strlit("getSEP"); assert("getAcceleration"@.len() != "getSEP"@.len());
        },
        DoubleAccessor::TurnRate => {
            reveal_strlit("getTurnRate");
            reveal_strlit("getIAS"); assert("getTurnRate"@.len() != "getIAS"@.len());
            reveal_strlit("getTAS"); assert("getTurnRate"@.len() != "getTAS"@.len());
            reveal_strlit("getMach"); assert("getTurnRate"@.len() != "getMach"@.len());
            reveal_strlit("getAoA"); assert("getTurnRate"@.len() != "getAoA"@.len());
            reveal_strlit("getAoS"); assert("getTurnRate"@.len() != "getAoS"@.len());
            reveal_strlit("getNy"); assert("getTurnRate"@.len() != "getNy"@.len());
            reveal_strlit("getVario"); assert("getTurnRate"@.len() != "getVario"@.len());
            reveal_strlit("getAltitude"); assert("getTurnRate"@[3] != "getAltitude"@[3]);
            reveal_strlit("getRadioAltitude"); assert("getTurnRate"@.len() != "getRadioAltitude"@.len());
            reveal_strlit("getCompass"); assert("getTurnRate"@.len() != "getCompass"@.len());
            reveal_strlit("getSEP"); assert("getTurnRate"@.len() != "getSEP"@.len());
            reveal_strlit("getAcceleration"); assert("getTurnRate"@.len() != "getAcceleration"@.len());
        },
        DoubleAccessor::TurnRadius => {
            reveal_strlit("getTurnRadius");
            reveal_strlit("getIAS"); assert("getTurnRadius"@.len() != "getIAS"@.len());
            reveal_strlit("getTAS"); assert("getTurnRadius"@.len() != "getTAS"@.len());
            reveal_strlit("getMach"); assert("getTurnRadius"@.len() != "getMach"@.len());
            reveal_strlit("getAoA"); assert("getTurnRadius"@.len() != "getAoA"@.len());
            reveal_strlit("getAoS"); assert("getTurnRadius"@.len() != "getAoS"@.len());
            reveal_strlit("getNy"); assert("getTurnRadius"@.len() != "getNy"@.len());
            reveal_strlit("getVario"); assert("getTurnRadius"@.len() != "getVario"@.len());
            reveal_strlit("getAltitude"); assert("getTurnRadius"@.len() != "getAltitude"@.len());
            reveal_strlit("getRadioAltitude"); assert("getTurnRadius"@.len() != "getRadioAltitude"@.len());
            reveal_strlit("getCompass"); assert("getTurnRadius"@.len() != "getCompass"@.len());
            reveal_strlit("getSEP"); assert("getTurnRadius"@.len() != "getSEP"@.len());
            reveal_strlit("getAcceleration"); assert("getTurnRadius"@.len() != "getAcceleration"@.len());
            reveal_strlit("getTurnRate"); assert("getTurnRadius"@.len() != "getTurnRate"@.len());
        },
        DoubleAccessor::RollRate => {
            reveal_strlit("getRollRate");
            reveal_strlit("getIAS"); assert("getRollRate"@.len() != "getIAS"@.len());
            reveal_strlit("getTAS"); assert("getRollRate"@.len() != "getTAS"@.len());
            reveal_strlit("getMach"); assert("getRollRate"@.len() != "getMach"@.len());
            reveal_strlit("getAoA"); assert("getRollRate"@.len() != "getAoA"@.len());
            reveal_strlit("getAoS"); assert("getRollRate"@.len() != "getAoS"@.len());
            reveal_strlit("getNy"); assert("getRollRate"@.len() != "getNy"@.len());
            reveal_strlit("getVario"); assert("getRollRate"@.len() != "getVario"@.len());
            reveal_strlit("getAltitude"); assert("getRollRate"@[3] != "getAltitude"@[3]);
            reveal_strlit("getRadioAltitude"); assert("getRollRate"@.len() != "getRadioAltitude"@.len());
            reveal_strlit("getCompass"); assert("getRollRate"@.len() != "getCompass"@.len());
            reveal_strlit("getSEP"); assert("getRollRate"@.len() != "getSEP"@.len());
            reveal_strlit("getAcceleration"); assert("getRollRate"@.len() != "getAcceleration"@.len());
            reveal_strlit("getTurnRate"); assert("getRollRate"@[3] != "getTurnRate"@[3]);
            reveal_strlit("getTurnRadius"); assert("getRollRate"@.len() != "getTurnRadius"@.len());
        },
        DoubleAccessor::EnergyJkg => {
            reveal_strlit("getEnergyJKg");
            reveal_strlit("getIAS"); assert("getEnergyJKg"@.len() != "getIAS"@.len());
            reveal_strlit("getTAS"); assert("getEnergyJKg"@.len() != "getTAS"@.len());
            reveal_strlit("getMach"); assert("getEnergyJKg"@.len() != "getMach"@.len());
            reveal_strlit("getAoA"); assert("getEnergyJKg"@.len() != "getAoA"@.len());
            reveal_strlit("getAoS"); assert("getEnergyJKg"@.len() != "getAoS"@.len());
            reveal_strlit("getNy"); assert("getEnergyJKg"@.len() != "getNy"@.len());
            reveal_strlit("getVario"); assert("getEnergyJKg"@.len() != "getVario"@.len());
            reveal_strlit("getAltitude"); assert("getEnergyJKg"@.len() != "getAltitude"@.len());
            reveal_strlit("getRadioAltitude"); assert("getEnergyJKg"@.len() != "getRadioAltitude"@.len());
            reveal_strlit("getCompass"); assert("getEnergyJKg"@.len() != "getCompass"@.len());
            reveal_strlit("getSEP"); assert("getEnergyJKg"@.len() != "getSEP"@.len());
            reveal_strlit("getAcceleration"); assert("getEnergyJKg"@.len() != "getAcceleration"@.len());
            reveal_strlit("getTurnRate"); assert("getEnergyJKg"@.len() != "getTurnRate"@.len());
            reveal_strlit("getTurnRadius"); assert("getEnergyJKg"@.len() != "getTurnRadius"@.len());
            reveal_strlit("getRollRate"); assert("getEnergyJKg"@.len() != "getRollRate"@.len());
        },
        DoubleAccessor::MassFuel => {
            reveal_strlit("getMassFuel");
            reveal_strlit("getIAS"); assert("getMassFuel"@.len() != "getIAS"@.len());
            reveal_strlit("getTAS"); assert("getMassFuel"@.len() != "getTAS"@.len());
            reveal_strlit("getMach"); assert("getMassFuel"@.len() != "getMach"@.len());
            reveal_strlit("getAoA"); assert("getMassFuel"@.len() != "getAoA"@.len());
            reveal_strlit("getAoS"); assert("getMassFuel"@.len() != "getAoS"@.len());
            reveal_strlit("getNy"); assert("getMassFuel"@.len() != "getNy"@.len());
            reveal_strlit("getVario"); assert("getMassFuel"@.len() != "getVario"@.len());
            reveal_strlit("getAltitude"); assert("getMassFuel"@[3] != "getAltitude"@[3]);
            reveal_strlit("getRadioAltitude"); assert("getMassFuel"@.len() != "getRadioAltitude"@.len());
            reveal_strlit("getCompass"); assert("getMassFuel"@.len() != "getCompass"@.len());
            reveal_strlit("getSEP"); assert("getMassFuel"@.len() != "getSEP"@.len());
            reveal_strlit("getAcceleration"); assert("getMassFuel"@.len() != "getAcceleration"@.len());
            reveal_strlit("getTurnRate"); assert("getMassFuel"@[3] != "getTurnRate"@[3]);
            reveal_strlit("getTurnRadius"); assert("getMassFuel"@.len() != "getTurnRadius"@.len());
            reveal_strlit("getRollRate"); assert("getMassFuel"@[3] != "getRollRate"@[3]);
            reveal_strlit("getEnergyJKg"); assert("getMassFuel"@.len() != "getEnergyJKg"@.len());
        },
        DoubleAccessor::TotalWeight => {
            reveal_strlit("getTotalWeight");
            reveal_strlit("getIAS"); assert("getTotalWeight"@.len() != "getIAS"@.len());
            reveal_strlit("getTAS"); assert("getTotalWeight"@.len() != "getTAS"@.len());
            reveal_strlit("getMach"); assert("getTotalWeight"@.len() != "getMach"@.len());
            reveal_strlit("getAoA"); assert("getTotalWeight"@.len() != "getAoA"@.len());
            reveal_strlit("getAoS"); assert("getTotalWeight"@.len() != "getAoS"@.len());
            reveal_strlit("getNy"); assert("getTotalWeight"@.len() != "getNy"@.len());
            reveal_strlit("getVario"); assert("getTotalWeight"@.len() != "getVario"@.len());
            reveal_strlit("getAltitude"); assert("getTotalWeight"@.len() != "getAltitude"@.len());
            reveal_strlit("getRadioAltitude"); assert("getTotalWeight"@.len() != "getRadioAltitude"@.len());
            reveal_strlit("getCompass"); assert("getTotalWeight"@.len() != "getCompass"@.len());
            reveal_strlit("getSEP"); assert("getTotalWeight"@.len() != "getSEP"@.len());
            reveal_strlit("getAcceleration"); assert("getTotalWeight"@.len() != "getAcceleration"@.len());
            reveal_strlit("getTurnRate"); assert("getTotalWeight"@.len() != "getTurnRate"@.len());
            reveal_strlit("getTurnRadius"); assert("getTotalWeight"@.len() != "getTurnRadius"@.len());
            reveal_strlit("getRollRate"); assert("getTotalWeight"@.len() != "getRollRate"@.len());
            reveal_strlit("getEnergyJKg"); assert("getTotalWeight"@.len() != "getEnergyJKg"@.len());
            reveal_strlit("getMassFuel"); assert("getTotalWeight"@.len() != "getMassFuel"@.len());
        },
        DoubleAccessor::FuelTimeMili => {
            reveal_strlit("getFuelTimeMili");
            reveal_strlit("getIAS"); assert("getFuelTimeMili"@.len() != "getIAS"@.len());
            reveal_strlit("getTAS"); assert("getFuelTimeMili"@.len() != "getTAS"@.len());
            reveal_strlit("getMach"); assert("getFuelTimeMili"@.len() != "getMach"@.len());
            reveal_strlit("getAoA"); assert("getFuelTimeMili"@.len() != "getAoA"@.len());
            reveal_strlit("getAoS"); assert("getFuelTimeMili"@.len() != "getAoS"@.len());
            reveal_strlit("getNy"); assert("getFuelTimeMili"@.len() != "getNy"@.len());
            reveal_strlit("getVario"); assert("getFuelTimeMili"@.len() != "getVario"@.len());
            reveal_strlit("getAltitude"); assert("getFuelTimeMili"@.len() != "getAltitude"@.len());
            reveal_strlit("getRadioAltitude"); assert("getFuelTimeMili"@.len() != "getRadioAltitude"@.len());
            reveal_strlit("getCompass"); assert("getFuelTimeMili"@.len() != "getCompass"@.len());
            reveal_strlit("getSEP"); assert("getFuelTimeMili"@.len() != "getSEP"@.len());
            reveal_strlit("getAcceleration"); assert("getFuelTimeMili"@[3] != "getAcceleration"@[3]);
            reveal_strlit("getTurnRate"); assert("getFuelTimeMili"@.len() != "getTurnRate"@.len());
            reveal_strlit("getTurnRadius"); assert("getFuelTimeMili"@.len() != "getTurnRadius"@.len());
            reveal_strlit("getRollRate"); assert("getFuelTimeMili"@.len() != "getRollRate"@.len());
            reveal_strlit("getEnergyJKg"); assert("getFuelTimeMili"@.len() != "getEnergyJKg"@.len());
            reveal_strlit("getMassFuel"); assert("getFuelTimeMili"@.len() != "getMassFuel"@.len());
            reveal_strlit("getTotalWeight"); assert("getFuelTimeMili"@.len() != "getTotalWeight"@.len());
        },
        DoubleAccessor::Throttle => {
            reveal_strlit("getThrottle");
            reveal_strlit("getIAS"); assert("getThrottle"@.len() != "getIAS"@.len());
            reveal_strlit("getTAS"); assert("getThrottle"@.len() != "getTAS"@.len());
            reveal_strlit("getMach"); assert("getThrottle"@.len() != "getMach"@.len());
            reveal_strlit("getAoA"); assert("getThrottle"@.len() != "getAoA"@.len());
            reveal_strlit("getAoS"); assert("getThrottle"@.len() != "getAoS"@.len());
            reveal_strlit("getNy"); assert("getThrottle"@.len() != "getNy"@.len());
            reveal_strlit("getVario"); assert("getThrottle"@.len() != "getVario"@.len());
            reveal_strlit("getAltitude"); assert("getThrottle"@[3] != "getAltitude"@[3]);
            reveal_strlit("getRadioAltitude"); assert("getThrottle"@.len() != "getRadioAltitude"@.len());
            reveal_strlit("getCompass"); assert("getThrottle"@.len() != "getCompass"@.len());
            reveal_strlit("getSEP"); assert("getThrottle"@.len() != "getSEP"@.len());
            reveal_strlit("getAcceleration"); assert("getThrottle"@.len() != "getAcceleration"@.len());
            reveal_strlit("getTurnRate"); assert("getThrottle"@[4] != "getTurnRate"@[4]);
            reveal_strlit("getTurnRadius"); assert("getThrottle"@.len() != "getTurnRadius"@.len());
            reveal_strlit("getRollRate"); assert("getThrottle"@[3] != "getRollRate"@[3]);
            reveal_strlit("getEnergyJKg"); assert("getThrottle"@.len() != "getEnergyJKg"@.len());
            reveal_strlit("getMassFuel"); assert("getThrottle"@[3] != "getMassFuel"@[3]);
            reveal_strlit("getTotalWeight"); assert("getThrottle"@.len() != "getTotalWeight"@.len());
            reveal_strlit("getFuelTimeMili"); assert("getThrottle"@.len() != "getFuelTimeMili"@.len());
        },
        DoubleAccessor::Rpm => {
            reveal_strlit("getRPM");
            reveal_strlit("getIAS"); assert("getRPM"@[3] != "getIAS"@[3]);
            reveal_strlit("getTAS"); assert("getRPM"@[3] != "getTAS"@[3]);
            reveal_strlit("getMach"); assert("getRPM"@.len() != "getMach"@.len());
            reveal_strlit("getAoA"); assert("getRPM"@[3] != "getAoA"@[3]);
            reveal_strlit("getAoS"); assert("getRPM"@[3] != "getAoS"@[3]);
            reveal_strlit("getNy"); assert("getRPM"@.len() != "getNy"@.len());
            reveal_strlit("getVario"); assert("getRPM"@.len() != "getVario"@.len());
            reveal_strlit("getAltitude"); assert("getRPM"@.len() != "getAltitude"@.len());
            reveal_strlit("getRadioAltitude"); assert("getRPM"@.len() != "getRadioAltitude"@.len());
            reveal_strlit("getCompass"); assert("getRPM"@.len() != "getCompass"@.len());
            reveal_strlit("getSEP"); assert("getRPM"@[3] != "getSEP"@[3]);
            reveal_strlit("getAcceleration"); assert("getRPM"@.len() != "getAcceleration"@.len());
            reveal_strlit("getTurnRate"); assert("getRPM"@.len() != "getTurnRate"@.len());
            reveal_strlit("getTurnRadius"); assert("getRPM"@.len() != "getTurnRadius"@.len());
            reveal_strlit("getRollRate"); assert("getRPM"@.len() != "getRollRate"@.len());
            reveal_strlit("getEnergyJKg"); assert("getRPM"@.len() != "getEnergyJKg"@.len());
            reveal_strlit("getMassFuel"); assert("getRPM"@.len() != "getMassFuel"@.len());
            reveal_strlit("getTotalWeight"); assert("getRPM"@.len() != "getTotalWeight"@.len());
            reveal_strlit("getFuelTimeMili"); assert("getRPM"@.len() != "getFuelTimeMili"@.len());
            reveal_strlit("getThrottle"); assert("getRPM"@.len() != "getThrottle"@.len());
        },
        DoubleAccessor::ManifoldPressure => {
            reveal_strlit("getManifoldPressure");
            reveal_strlit("getIAS"); assert("getManifoldPressure"@.len() != "getIAS"@.len());
            reveal_strlit("getTAS"); assert("getManifoldPressure"@.len() != "getTAS"@.len());
            reveal_strlit("getMach"); assert("getManifoldPressure"@.len() != "getMach"@.len());
            reveal_strlit("getAoA"); assert("getManifoldPressure"@.len() != "getAoA"@.len());
            reveal_strlit("getAoS"); assert("getManifoldPressure"@.len() != "getAoS"@.len());
            reveal_strlit("getNy"); assert("getManifoldPressure"@.len() != "getNy"@.len());
            reveal_strlit("getVario"); assert("getManifoldPressure"@.len() != "getVario"@.len());
            reveal_strlit("getAltitude"); assert("getManifoldPressure"@.len() != "getAltitude"@.len());
            reveal_strlit("getRadioAltitude"); assert("getManifoldPressure"@.len() != "getRadioAltitude"@.len());
            reveal_strlit("getCompass"); assert("getManifoldPressure"@.len() != "getCompass"@.len());
            reveal_strlit("getSEP"); assert("getManifoldPressure"@.len() != "getSEP"@.len());
            reveal_strlit("getAcceleration"); assert("getManifoldPressure"@.len() != "getAcceleration"@.len());
            reveal_strlit("getTurnRate"); assert("getManifoldPressure"@.len() != "getTurnRate"@.len());
            reveal_strlit("getTurnRadius"); assert("getManifoldPressure"@.len() != "getTurnRadius"@.len());
            reveal_strlit("getRollRate"); assert("getManifoldPressure"@.len() != "getRollRate"@.len());
            reveal_strlit("getEnergyJKg"); assert("getManifoldPressure"@.len() != "getEnergyJKg"@.len());
            reveal_strlit("getMassFuel"); assert("getManifoldPressure"@.len() != "getMassFuel"@.len());
            reveal_strlit("getTotalWeight"); assert("getManifoldPressure"@.len() != "getTotalWeight"@.len());
            reveal_strlit("getFuelTimeMili"); assert("getManifoldPressure"@.len() != "getFuelTimeMili"@.len());
            reveal_strlit("getThrottle"); assert("getManifoldPressure"@.len() != "getThrottle"@.len());
            reveal_strlit("getRPM"); assert("getManifoldPressure"@.len() != "getRPM"@.len());
        },
        DoubleAccessor::WaterTemp => {
            reveal_strlit("getWaterTemp");
            reveal_strlit("getIAS"); assert("getWaterTemp"@.len() != "getIAS"@.len());
            reveal_strlit("getTAS"); assert("getWaterTemp"@.len() != "getTAS"@.len());
            reveal_strlit("getMach"); assert("getWaterTemp"@.len() != "getMach"@.len());
            reveal_strlit("getAoA"); assert("getWaterTemp"@.len() != "getAoA"@.len());
            reveal_strlit("getAoS"); assert("getWaterTemp"@.len() != "getAoS"@.len());
            reveal_strlit("getNy"); assert("getWaterTemp"@.len() != "getNy"@.len());
            reveal_strlit("getVario"); assert("getWaterTemp"@.len() != "getVario"@.len());
            reveal_strlit("getAltitude"); assert("getWaterTemp"@.len() != "getAltitude"@.len());
            reveal_strlit("getRadioAltitude"); assert("getWaterTemp"@.len() != "getRadioAltitude"@.len());
            reveal_strlit("getCompass"); assert("getWaterTemp"@.len() != "getCompass"@.len());
            reveal_strlit("getSEP"); assert("getWaterTemp"@.len() != "getSEP"@.len());
            reveal_strlit("getAcceleration"); assert("getWaterTemp"@.len() != "getAcceleration"@.len());
            reveal_strlit("getTurnRate"); assert("getWaterTemp"@.len() != "getTurnRate"@.len());
            reveal_strlit("getTurnRadius"); assert("getWaterTemp"@.len() != "getTurnRadius"@.len());
            reveal_strlit("getRollRate"); assert("getWaterTemp"@.len() != "getRollRate"@.len());
            reveal_strlit("getEnergyJKg"); assert("getWaterTemp"@[3] != "getEnergyJKg"@[3]);
            reveal_strlit("getMassFuel"); assert("getWaterTemp"@.len() != "getMassFuel"@.len());
            reveal_strlit("getTotalWeight"); assert("getWaterTemp"@.len() != "getTotalWeight"@.len());
            reveal_strlit("getFuelTimeMili"); assert("getWaterTemp"@.len() != "getFuelTimeMili"@.len());
            reveal_strlit("getThrottle"); assert("getWaterTemp"@.len() != "getThrottle"@.len());
            reveal_strlit("getRPM"); assert("getWaterTemp"@.len() != "getRPM"@.len());
            reveal_strlit("getManifoldPressure"); assert("getWaterTemp"@.len() != "getManifoldPressure"@.len());
        },
        DoubleAccessor::OilTemp => {
            reveal_strlit("getOilTemp");
            reveal_strlit("getIAS"); assert("getOilTemp"@.len() != "getIAS"@.len());
            reveal_strlit("getTAS"); assert("getOilTemp"@.len() != "getTAS"@.len());
            reveal_strlit("getMach"); assert("getOilTemp"@.len() != "getMach"@.len());
            reveal_strlit("getAoA"); assert("getOilTemp"@.len() != "getAoA"@.len());
            reveal_strlit("getAoS"); assert("getOilTemp"@.len() != "getAoS"@.len());
            reveal_strlit("getNy"); assert("getOilTemp"@.len() != "getNy"@.len());
            reveal_strlit("getVario"); assert("getOilTemp"@.len() != "getVario"@.len());
            reveal_strlit("getAltitude"); assert("getOilTemp"@.len() != "getAltitude"@.len());
            reveal_strlit("getRadioAltitude"); assert("getOilTemp"@.len() != "getRadioAltitude"@.len());
            reveal_strlit("getCompass"); assert("getOilTemp"@[3] != "getCompass"@[3]);
            reveal_strlit("getSEP"); assert("getOilTemp"@.len() != "getSEP"@.len());
            reveal_strlit("getAcceleration"); assert("getOilTemp"@.len() != "getAcceleration"@.len());
            reveal_strlit("getTurnRate"); assert("getOilTemp"@.len() != "getTurnRate"@.len());
            reveal_strlit("getTurnRadius"); assert("getOilTemp"@.len() != "getTurnRadius"@.len());
            reveal_strlit("getRollRate"); assert("getOilTemp"@.len() != "getRollRate"@.len());
            reveal_strlit("getEnergyJKg"); assert("getOilTemp"@.len() != "getEnergyJKg"@.len());
            reveal_strlit("getMassFuel"); assert("getOilTemp"@.len() != "getMassFuel"@.len());
            reveal_strlit("getTotalWeight"); assert("getOilTemp"@.len() != "getTotalWeight"@.len());
            reveal_strlit("getFuelTimeMili"); assert("getOilTemp"@.len() != "getFuelTimeMili"@.len());
            reveal_strlit("getThrottle"); assert("getOilTemp"@.len() != "getThrottle"@.len());
            reveal_strlit("getRPM"); assert("getOilTemp"@.len() != "getRPM"@.len());
            reveal_strlit("getManifoldPressure"); assert("getOilTemp"@.len() != "getManifoldPressure"@.len());
            reveal_strlit("getWaterTemp"); assert("getOilTemp"@.len() != "getWaterTemp"@.len());
        },
        DoubleAccessor::Pitch => {
            reveal_strlit("getPitch");
            reveal_strlit("getIAS"); assert("getPitch"@.len() != "getIAS"@.len());
            reveal_strlit("getTAS"); assert("getPitch"@.len() != "getTAS"@.len());
            reveal_strlit("getMach"); assert("getPitch"@.len() != "getMach"@.len());
            reveal_strlit("getAoA"); assert("getPitch"@.len() != "getAoA"@.len());
            reveal_strlit("getAoS"); assert("getPitch"@.len() != "getAoS"@.len());
            reveal_strlit("getNy"); assert("getPitch"@.len() != "getNy"@.len());
            reveal_strlit("getVario"); assert("getPitch"@[3] != "getVario"@[3]);
            reveal_strlit("getAltitude"); assert("getPitch"@.len() != "getAltitude"@.len());
            reveal_strlit("getRadioAltitude"); assert("getPitch"@.len() != "getRadioAltitude"@.len());
            reveal_strlit("getCompass"); assert("getPitch"@.len() != "getCompass"@.len());
            reveal_strlit("getSEP"); assert("getPitch"@.len() != "getSEP"@.len());
            reveal_strlit("getAcceleration"); assert("getPitch"@.len() != "getAcceleration"@.len());
            reveal_strlit("getTurnRate"); assert("getPitch"@.len() != "getTurnRate"@.len());
            reveal_strlit("getTurnRadius"); assert("getPitch"@.len() != "getTurnRadius"@.len());
            reveal_strlit("getRollRate"); assert("getPitch"@.len() != "getRollRate"@.len());
            reveal_strlit("getEnergyJKg"); assert("getPitch"@.len() != "getEnergyJKg"@.len());
            reveal_strlit("getMassFuel"); assert("getPitch"@.len() != "getMassFuel"@.len());
            reveal_strlit("getTotalWeight"); assert("getPitch"@.len() != "getTotalWeight"@.len());
            reveal_strlit("getFuelTimeMili"); assert("getPitch"@.len() != "getFuelTimeMili"@.len());
            reveal_strlit("getThrottle"); assert("getPitch"@.len() != "getThrottle"@.len());
            reveal_strlit("getRPM"); assert("getPitch"@.len() != "getRPM"@.len());
            reveal_strlit("getManifoldPressure"); assert("getPitch"@.len() != "getManifoldPressure"@.len());
            reveal_strlit("getWaterTemp"); assert("getPitch"@.len() != "getWaterTemp"@.len());
            reveal_strlit("getOilTemp"); assert("getPitch"@.len() != "getOilTemp"@.len());
        },
        DoubleAccessor::EffHp => {
            reveal_strlit("getEffHp");
            reveal_strlit("getIAS"); assert("getEffHp"@.len() != "getIAS"@.len());
            reveal_strlit("getTAS"); assert("getEffHp"@.len() != "getTAS"@.len());
            reveal_strlit("getMach"); assert("getEffHp"@.len() != "getMach"@.len());
            reveal_strlit("getAoA"); assert("getEffHp"@.len() != "getAoA"@.len());
            reveal_strlit("getAoS"); assert("getEffHp"@.len() != "getAoS"@.len());
            reveal_strlit("getNy"); assert("getEffHp"@.len() != "getNy"@.len());
            reveal_strlit("getVario"); assert("getEffHp"@[3] != "getVario"@[3]);
            reveal_strlit("getAltitude"); assert("getEffHp"@.len() != "getAltitude"@.len());
            reveal_strlit("getRadioAltitude"); assert("getEffHp"@.len() != "getRadioAltitude"@.len());
            reveal_strlit("getCompass"); assert("getEffHp"@.len() != "getCompass"@.len());
            reveal_strlit("getSEP"); assert("getEffHp"@.len() != "getSEP"@.len());
            reveal_strlit("getAcceleration"); assert("getEffHp"@.len() != "getAcceleration"@.len());
            reveal_strlit("getTurnRate"); assert("getEffHp"@.len() != "getTurnRate"@.len());
            reveal_strlit("getTurnRadius"); assert("getEffHp"@.len() != "getTurnRadius"@.len());
            reveal_strlit("getRollRate"); assert("getEffHp"@.len() != "getRollRate"@.len());
            reveal_strlit("getEnergyJKg"); assert("getEffHp"@.len() != "getEnergyJKg"@.len());
            reveal_strlit("getMassFuel"); assert("getEffHp"@.len() != "getMassFuel"@.len());
            reveal_strlit("getTotalWeight"); assert("getEffHp"@.len() != "getTotalWeight"@.len());
            reveal_strlit("getFuelTimeMili"); assert("getEffHp"@.len() != "getFuelTimeMili"@.len());
            reveal_strlit("getThrottle"); assert("getEffHp"@.len() != "getThrottle"@.len());
            reveal_strlit("getRPM"); assert("getEffHp"@.len() != "getRPM"@.len());
            reveal_strlit("getManifoldPressure"); assert("getEffHp"@.len() != "getManifoldPressure"@.len());
            reveal_strlit("getWaterTemp"); assert("getEffHp"@.len() != "getWaterTemp"@.len());
            reveal_strlit("getOilTemp"); assert("getEffHp"@.len() != "getOilTemp"@.len());
            reveal_strlit("getPitch"); assert("getEffHp"@[3] != "getPitch"@[3]);
        },
        DoubleAccessor::Thrust => {
            reveal_strlit("getThrust");
            reveal_strlit("getIAS"); assert("getThrust"@.len() != "getIAS"@.len());
            reveal_strlit("getTAS"); assert("getThrust"@.len() != "getTAS"@.len());
            reveal_strlit("getMach"); assert("getThrust"@.len() != "getMach"@.len());
            reveal_strlit("getAoA"); assert("getThrust"@.len() != "getAoA"@.len());
            reveal_strlit("getAoS"); assert("getThrust"@.len() != "getAoS"@.len());
            reveal_strlit("getNy"); assert("getThrust"@.len() != "getNy"@.len());
            reveal_strlit("getVario"); assert("getThrust"@.len() != "getVario"@.len());
            reveal_strlit("getAltitude"); assert("getThrust"@.len() != "getAltitude"@.len());
            reveal_strlit("getRadioAltitude"); assert("getThrust"@.len() != "getRadioAltitude"@.len());
            reveal_strlit("getCompass"); assert("getThrust"@.len() != "getCompass"@.len());
            reveal_strlit("getSEP"); assert("getThrust"@.len() != "getSEP"@.len());
            reveal_strlit("getAcceleration"); assert("getThrust"@.len() != "getAcceleration"@.len());
            reveal_strlit("getTurnRate"); assert("getThrust"@.len() != "getTurnRate"@.len());
            reveal_strlit("getTurnRadius"); assert("getThrust"@.len() != "getTurnRadius"@.len());
            reveal_strlit("getRollRate"); assert("getThrust"@.len() != "getRollRate"@.len());
            reveal_strlit("getEnergyJKg"); assert("getThrust"@.len() != "getEnergyJKg"@.len());
            reveal_strlit("getMassFuel"); assert("getThrust"@.len() != "getMassFuel"@.len());
            reveal_strlit("getTotalWeight"); assert("getThrust"@.len() != "getTotalWeight"@.len());
            reveal_strlit("getFuelTimeMili"); assert("getThrust"@.len() != "getFuelTimeMili"@.len());
            reveal_strlit("getThrottle"); assert("getThrust"@.len() != "getThrottle"@.len());
            reveal_strlit("getRPM"); assert("getThrust"@.len() != "getRPM"@.len());
            reveal_strlit("getManifoldPressure"); assert("getThrust"@.len() != "getManifoldPressure"@.len());
            reveal_strlit("getWaterTemp"); assert("getThrust"@.len() != "getWaterTemp"@.len());
            reveal_strlit("getOilTemp"); assert("getThrust"@.len() != "getOilTemp"@.len());
            reveal_strlit("getPitch"); assert("getThrust"@.len() != "getPitch"@.len());
            reveal_strlit("getEffHp"); assert("getThrust"@.len() != "getEffHp"@.len());
        },
        DoubleAccessor::HorsePower => {
            reveal_strlit("getHorsePower");
            reveal_strlit("getIAS"); assert("getHorsePower"@.len() != "getIAS"@.len());
            reveal_strlit("getTAS"); assert("getHorsePower"@.len() != "getTAS"@.len());
            reveal_strlit("getMach"); assert("getHorsePower"@.len() != "getMach"@.len());
            reveal_strlit("getAoA"); assert("getHorsePower"@.len() != "getAoA"@.len());
            reveal_strlit("getAoS"); assert("getHorsePower"@.len() != "getAoS"@.len());
            reveal_strlit("getNy"); assert("getHorsePower"@.len() != "getNy"@.len());
            reveal_strlit("getVario"); assert("getHorsePower"@.len() != "getVario"@.len());
            reveal_strlit("getAltitude"); assert("getHorsePower"@.len() != "getAltitude"@.len());
            reveal_strlit("getRadioAltitude"); assert("getHorsePower"@.len() != "getRadioAltitude"@.len());
            reveal_strlit("getCompass"); assert("getHorsePower"@.len() != "getCompass"@.len());
            reveal_strlit("getSEP"); assert("getHorsePower"@.len() != "getSEP"@.len());
            reveal_strlit("getAcceleration"); assert("getHorsePower"@.len() != "getAcceleration"@.len());
            reveal_strlit("getTurnRate"); assert("getHorsePower"@.len() != "getTurnRate"@.len());
            reveal_strlit("getTurnRadius"); assert("getHorsePower"@[3] != "getTurnRadius"@[3]);
            reveal_strlit("getRollRate"); assert("getHorsePower"@.len() != "getRollRate"@.len());
            reveal_strlit("getEnergyJKg"); assert("getHorsePower"@.len() != "getEnergyJKg"@.len());
            reveal_strlit("getMassFuel"); assert("getHorsePower"@.len() != "getMassFuel"@.len());
            reveal_strlit("getTotalWeight"); assert("getHorsePower"@.len() != "getTotalWeight"@.len());
            reveal_strlit("getFuelTimeMili"); assert("getHorsePower"@.len() != "getFuelTimeMili"@.len());
            reveal_strlit("getThrottle"); assert("getHorsePower"@.len() != "getThrottle"@.len());
            reveal_strlit("getRPM"); assert("getHorsePower"@.len() != "getRPM"@.len());
            reveal_strlit("getManifoldPressure"); assert("getHorsePower"@.len() != "getManifoldPressure"@.len());
            reveal_strlit("getWaterTemp"); assert("getHorsePower"@.len() != "getWaterTemp"@.len());
            reveal_strlit("getOilTemp"); assert("getHorsePower"@.len() != "getOilTemp"@.len());
            reveal_strlit("getPitch"); assert("getHorsePower"@.len() != "getPitch"@.len());
            reveal_strlit("getEffHp"); assert("getHorsePower"@.len() != "getEffHp"@.len());
            reveal_strlit("getThrust"); assert("getHorsePower"@.len() != "getThrust"@.len());
        },
        DoubleAccessor::EngineResponse => {
            reveal_strlit("getEngineResponse");
            reveal_strlit("getIAS"); assert("getEngineResponse"@.len() != "getIAS"@.len());
            reveal_strlit("getTAS"); assert("getEngineResponse"@.len() != "getTAS"@.len());
            reveal_strlit("getMach"); assert("getEngineResponse"@.len() != "getMach"@.len());
            reveal_strlit("getAoA"); assert("getEngineResponse"@.len() != "getAoA"@.len());
            reveal_strlit("getAoS"); assert("getEngineResponse"@.len() != "getAoS"@.len());
            reveal_strlit("getNy"); assert("getEngineResponse"@.len() != "getNy"@.len());
            reveal_strlit("getVario"); assert("getEngineResponse"@.len() != "getVario"@.len());
            reveal_strlit("getAltitude"); assert("getEngineResponse"@.len() != "getAltitude"@.len());
            reveal_strlit("getRadioAltitude"); assert("getEngineResponse"@.len() != "getRadioAltitude"@.len());
            reveal_strlit("getCompass"); assert("getEngineResponse"@.len() != "getCompass"@.len());
            reveal_strlit("getSEP"); assert("getEngineResponse"@.len() != "getSEP"@.len());
            reveal_strlit("getAcceleration"); assert("getEngineResponse"@.len() != "getAcceleration"@.len());
            reveal_strlit("getTurnRate"); assert("getEngineResponse"@.len() != "getTurnRate"@.len());
            reveal_strlit("getTurnRadius"); assert("getEngineResponse"@.len() != "getTurnRadius"@.len());
            reveal_strlit("getRollRate"); assert("getEngineResponse"@.len() != "getRollRate"@.len());
            reveal_strlit("getEnergyJKg"); assert("getEngineResponse"@.len() != "getEnergyJKg"@.len());
            reveal_strlit("getMassFuel"); assert("getEngineResponse"@.len() != "getMassFuel"@.len());
            reveal_strlit("getTotalWeight"); assert("getEngineResponse"@.len() != "getTotalWeight"@.len());
            reveal_strlit("getFuelTimeMili"); assert("getEngineResponse"@.len() != "getFuelTimeMili"@.len());
            reveal_strlit("getThrottle"); assert("getEngineResponse"@.len() != "getThrottle"@.len());
            reveal_strlit("getRPM"); assert("getEngineResponse"@.len() != "getRPM"@.len());
            reveal_strlit("getManifoldPressure"); assert("getEngineResponse"@.len() != "getManifoldPressure"@.len());
            reveal_strlit("getWaterTemp"); assert("getEngineResponse"@.len() != "getWaterTemp"@.len());
            reveal_strlit("getOilTemp"); assert("getEngineResponse"@.len() != "getOilTemp"@.len());
            reveal_strlit("getPitch"); assert("getEngineResponse"@.len() != "getPitch"@.len());
            reveal_strlit("getEffHp"); assert("getEngineResponse"@.len() != "getEffHp"@.len());
            reveal_strlit("getThrust"); assert("getEngineResponse"@.len() != "getThrust"@.len());
            reveal_strlit("getHorsePower"); assert("getEngineResponse"@.len() != "getHorsePower"@.len());
        },
        DoubleAccessor::PropEfficiency => {
            reveal_strlit("getPropEfficiency");
            reveal_strlit("getIAS"); assert("getPropEfficiency"@.len() != "getIAS"@.len());
            reveal_strlit("getTAS"); assert("getPropEfficiency"@.len() != "getTAS"@.len());
            reveal_strlit("getMach"); assert("getPropEfficiency"@.len() != "getMach"@.len());
            reveal_strlit("getAoA"); assert("getPropEfficiency"@.len() != "getAoA"@.len());
            reveal_strlit("getAoS"); assert("getPropEfficiency"@.len() != "getAoS"@.len());
            reveal_strlit("getNy"); assert("getPropEfficiency"@.len() != "getNy"@.len());
            reveal_strlit("getVario"); assert("getPropEfficiency"@.len() != "getVario"@.len());
            reveal_strlit("getAltitude"); assert("getPropEfficiency"@.len() != "getAltitude"@.len());
            reveal_strlit("getRadioAltitude"); assert("getPropEfficiency"@.len() != "getRadioAltitude"@.len());
            reveal_strlit("getCompass"); assert("getPropEfficiency"@.len() != "getCompass"@.len());
            reveal_strlit("getSEP"); assert("getPropEfficiency"@.len() != "getSEP"@.len());
            reveal_strlit("getAcceleration"); assert("getPropEfficiency"@.len() != "getAcceleration"@.len());
            reveal_strlit("getTurnRate"); assert("getPropEfficiency"@.len() != "getTurnRate"@.len());
            reveal_strlit("getTurnRadius"); assert("getPropEfficiency"@.len() != "getTurnRadius"@.len());
            reveal_strlit("getRollRate"); assert("getPropEfficiency"@.len() != "getRollRate"@.len());
            reveal_strlit("getEnergyJKg"); assert("getPropEfficiency"@.len() != "getEnergyJKg"@.len());
            reveal_strlit("getMassFuel"); assert("getPropEfficiency"@.len() != "getMassFuel"@.len());
            reveal_strlit("getTotalWeight"); assert("getPropEfficiency"@.len() != "getTotalWeight"@.len());
            reveal_strlit("getFuelTimeMili"); assert("getPropEfficiency"@.len() != "getFuelTimeMili"@.len());
            reveal_strlit("getThrottle"); assert("getPropEfficiency"@.len() != "getThrottle"@.len());
            reveal_strlit("getRPM"); assert("getPropEfficiency"@.len() != "getRPM"@.len());
            reveal_strlit("getManifoldPressure"); assert("getPropEfficiency"@.len() != "getManifoldPressure"@.len());
            reveal_strlit("getWaterTemp"); assert("getPropEfficiency"@.len() != "getWaterTemp"@.len());
            reveal_strlit("getOilTemp"); assert("getPropEfficiency"@.len() != "getOilTemp"@.len());
            reveal_strlit("getPitch"); assert("getPropEfficiency"@.len() != "getPitch"@.len());
            reveal_strlit("getEffHp"); assert("getPropEfficiency"@.len() != "getEffHp"@.len());
            reveal_strlit("getThrust"); assert("getPropEfficiency"@.len() != "getThrust"@.len());
            reveal_strlit("getHorsePower"); assert("getPropEfficiency"@.len() != "getHorsePower"@.len());
            reveal_strlit("getEngineResponse"); assert("getPropEfficiency"@[3] != "getEngineResponse"@[3]);
        },
        DoubleAccessor::WepKg => {
            reveal_strlit("getWepKg");
            reveal_strlit("getIAS"); assert("getWepKg"@.len() != "getIAS"@.len());
            reveal_strlit("getTAS"); assert("getWepKg"@.len() != "getTAS"@.len());
            reveal_strlit("getMach"); assert("getWepKg"@.len() != "getMach"@.len());
            reveal_strlit("getAoA"); assert("getWepKg"@.len() != "getAoA"@.len());
            reveal_strlit("getAoS"); assert("getWepKg"@.len() != "getAoS"@.len());
            reveal_strlit("getNy"); assert("getWepKg"@.len() != "getNy"@.len());
            reveal_strlit("getVario"); assert("getWepKg"@[3] != "getVario"@[3]);
            reveal_strlit("getAltitude"); assert("getWepKg"@.len() != "getAltitude"@.len());
            reveal_strlit("getRadioAltitude"); assert("getWepKg"@.len() != "getRadioAltitude"@.len());
            reveal_strlit("getCompass"); assert("getWepKg"@.len() != "getCompass"@.len());
            reveal_strlit("getSEP"); assert("getWepKg"@.len() != "getSEP"@.len());
            reveal_strlit("getAcceleration"); assert("getWepKg"@.len() != "getAcceleration"@.len());
            reveal_strlit("getTurnRate"); assert("getWepKg"@.len() != "getTurnRate"@.len());
            reveal_strlit("getTurnRadius"); assert("getWepKg"@.len() != "getTurnRadius"@.len());
            reveal_strlit("getRollRate"); assert("getWepKg"@.len() != "getRollRate"@.len());
            reveal_strlit("getEnergyJKg"); assert("getWepKg"@.len() != "getEnergyJKg"@.len());
            reveal_strlit("getMassFuel"); assert("getWepKg"@.len() != "getMassFuel"@.len());
            reveal_strlit("getTotalWeight"); assert("getWepKg"@.len() != "getTotalWeight"@.len());
            reveal_strlit("getFuelTimeMili"); assert("getWepKg"@.len() != "getFuelTimeMili"@.len());
            reveal_strlit("getThrottle"); assert("getWepKg"@.len() != "getThrottle"@.len());
            reveal_strlit("getRPM"); assert("getWepKg"@.len() != "getRPM"@.len());
            reveal_strlit("getManifoldPressure"); assert("getWepKg"@.len() != "getManifoldPressure"@.len());
            reveal_strlit("getWaterTemp"); assert("getWepKg"@.len() != "getWaterTemp"@.len());
            reveal_strlit("getOilTemp"); assert("getWepKg"@.len() != "getOilTemp"@.len());
            reveal_strlit("getPitch"); assert("getWepKg"@[3] != "getPitch"@[3]);
            reveal_strlit("getEffHp"); assert("getWepKg"@[3] != "getEffHp"@[3]);
            reveal_strlit("getThrust"); assert("getWepKg"@.len() != "getThrust"@.len());
            reveal_strlit("getHorsePower"); assert("getWepKg"@.len() != "getHorsePower"@.len());
            reveal_strlit("getEngineResponse"); assert("getWepKg"@.len() != "getEngineResponse"@.len());
            reveal_strlit("getPropEfficiency"); assert("getWepKg"@.len() != "getPropEfficiency"@.len());
        },
        DoubleAccessor::WepTime => {
            reveal_strlit("getWepTime");
            reveal_strlit("getIAS"); assert("getWepTime"@.len() != "getIAS"@.len());
            reveal_strlit("getTAS"); assert("getWepTime"@.len() != "getTAS"@.len());
            reveal_strlit("getMach"); assert("getWepTime"@.len() != "getMach"@.len());
            reveal_strlit("getAoA"); assert("getWepTime"@.len() != "getAoA"@.len());
            reveal_strlit("getAoS"); assert("getWepTime"@.len() != "getAoS"@.len());
            reveal_strlit("getNy"); assert("getWepTime"@.len() != "getNy"@.len());
            reveal_strlit("getVario"); assert("getWepTime"@.len() != "getVario"@.len());
            reveal_strlit("getAltitude"); assert("getWepTime"@.len() != "getAltitude"@.len());
            reveal_strlit("getRadioAltitude"); assert("getWepTime"@.len() != "getRadioAltitude"@.len());
            reveal_strlit("getCompass"); assert("getWepTime"@[3] != "getCompass"@[3]);
            reveal_strlit("getSEP"); assert("getWepTime"@.len() != "getSEP"@.len());
            reveal_strlit("getAcceleration"); assert("getWepTime"@.len() != "getAcceleration"@.len());
            reveal_strlit("getTurnRate"); assert("getWepTime"@.len() != "getTurnRate"@.len());
            reveal_strlit("getTurnRadius"); assert("getWepTime"@.len() != "getTurnRadius"@.len());
            reveal_strlit("getRollRate"); assert("getWepTime"@.len() != "getRollRate"@.len());
            reveal_strlit("getEnergyJKg"); assert("getWepTime"@.len() != "getEnergyJKg"@.len());
            reveal_strlit("getMassFuel"); assert("getWepTime"@.len() != "getMassFuel"@.len());
            reveal_strlit("getTotalWeight"); assert("getWepTime"@.len() != "getTotalWeight"@.len());
            reveal_strlit("getFuelTimeMili"); assert("getWepTime"@.len() != "getFuelTimeMili"@.len());
            reveal_strlit("getThrottle"); assert("getWepTime"@.len() != "getThrottle"@.len());
            reveal_strlit("getRPM"); assert("getWepTime"@.len() != "getRPM"@.len());
            reveal_strlit("getManifoldPressure"); assert("getWepTime"@.len() != "getManifoldPressure"@.len());
            reveal_strlit("getWaterTemp"); assert("getWepTime"@.len() != "getWaterTemp"@.len());
            reveal_strlit("getOilTemp"); assert("getWepTime"@[3] != "getOilTemp"@[3]);
            reveal_strlit("getPitch"); assert("getWepTime"@.len() != "getPitch"@.len());
            reveal_strlit("getEffHp"); assert("getWepTime"@.len() != "getEffHp"@.len());
            reveal_strlit("getThrust"); assert("getWepTime"@.len() != "getThrust"@.len());
            reveal_strlit("getHorsePower"); assert("getWepTime"@.len() != "getHorsePower"@.len());
            reveal_strlit("getEngineResponse"); assert("getWepTime"@.len() != "getEngineResponse"@.len());
            reveal_strlit("getPropEfficiency"); assert("getWepTime"@.len() != "getPropEfficiency"@.len());
            reveal_strlit("getWepKg"); assert("getWepTime"@.len() != "getWepKg"@.len());
        },
        DoubleAccessor::HeatTolerance => {
            reveal_strlit("getHeatTolerance");
            reveal_strlit("getIAS"); assert("getHeatTolerance"@.len() != "getIAS"@.len());
            reveal_strlit("getTAS"); assert("getHeatTolerance"@.len() != "getTAS"@.len());
            reveal_strlit("getMach"); assert("getHeatTolerance"@.len() != "getMach"@.len());
            reveal_strlit("getAoA"); assert("getHeatTolerance"@.len() != "getAoA"@.len());
            reveal_strlit("getAoS"); assert("getHeatTolerance"@.len() != "getAoS"@.len());
            reveal_strlit("getNy"); assert("getHeatTolerance"@.len() != "getNy"@.len());
            reveal_strlit("getVario"); assert("getHeatTolerance"@.len() != "getVario"@.len());
            reveal_strlit("getAltitude"); assert("getHeatTolerance"@.len() != "getAltitude"@.len());
            reveal_strlit("getRadioAltitude"); assert("getHeatTolerance"@[3] != "getRadioAltitude"@[3]);
            reveal_strlit("getCompass"); assert("getHeatTolerance"@.len() != "getCompass"@.len());
            reveal_strlit("getSEP"); assert("getHeatTolerance"@.len() != "getSEP"@.len());
            reveal_strlit("getAcceleration"); assert("getHeatTolerance"@.len() != "getAcceleration"@.len());
            reveal_strlit("getTurnRate"); assert("getHeatTolerance"@.len() != "getTurnRate"@.len());
            reveal_strlit("getTurnRadius"); assert("getHeatTolerance"@.len() != "getTurnRadius"@.len());
            reveal_strlit("getRollRate"); assert("getHeatTolerance"@.len() != "getRollRate"@.len());
            reveal_strlit("getEnergyJKg"); assert("getHeatTolerance"@.len() != "getEnergyJKg"@.len());
            reveal_strlit("getMassFuel"); assert("getHeatTolerance"@.len() != "getMassFuel"@.len());
            reveal_strlit("getTotalWeight"); assert("getHeatTolerance"@.len() != "getTotalWeight"@.len());
            reveal_strlit("getFuelTimeMili"); assert("getHeatTolerance"@.len() != "getFuelTimeMili"@.len());
            reveal_strlit("getThrottle"); assert("getHeatTolerance"@.len() != "getThrottle"@.len());
            reveal_strlit("getRPM"); assert("getHeatTolerance"@.len() != "getRPM"@.len());
            reveal_strlit("getManifoldPressure"); assert("getHeatTolerance"@.len() != "getManifoldPressure"@.len());
            reveal_strlit("getWaterTemp"); assert("getHeatTolerance"@.len() != "getWaterTemp"@.len());
            reveal_strlit("getOilTemp"); assert("getHeatTolerance"@.len() != "getOilTemp"@.len());
            reveal_strlit("getPitch"); assert("getHeatTolerance"@.len() != "getPitch"@.len());
            reveal_strlit("getEffHp"); assert("getHeatTolerance"@.len() != "getEffHp"@.len());
            reveal_strlit("getThrust"); assert("getHeatTolerance"@.len() != "getThrust"@.len());
            reveal_strlit("getHorsePower"); assert("getHeatTolerance"@.len() != "getHorsePower"@.len());
            reveal_strlit("getEngineResponse"); assert("getHeatTolerance"@.len() != "getEngineResponse"@.len());
            reveal_strlit("getPropEfficiency"); assert("getHeatTolerance"@.len() != "getPropEfficiency"@.len());
            reveal_strlit("getWepKg"); assert("getHeatTolerance"@.len() != "getWepKg"@.len());
            reveal_strlit("getWepTime"); assert("getHeatTolerance"@.len() != "getWepTime"@.len());
        },
        DoubleAccessor::PowerPercent => {
            reveal_strlit("getPowerPercent");
            reveal_strlit("getIAS"); assert("getPowerPercent"@.len() != "getIAS"@.len());
            reveal_strlit("getTAS"); assert("getPowerPercent"@.len() != "getTAS"@.len());
            reveal_strlit("getMach"); assert("getPowerPercent"@.len() != "getMach"@.len());
            reveal_strlit("getAoA"); assert("getPowerPercent"@.len() != "getAoA"@.len());
            reveal_strlit("getAoS"); assert("getPowerPercent"@.len() != "getAoS"@.len());
            reveal_strlit("getNy"); assert("getPowerPercent"@.len() != "getNy"@.len());
            reveal_strlit("getVario"); assert("getPowerPercent"@.len() != "getVario"@.len());
            reveal_strlit("getAltitude"); assert("getPowerPercent"@.len() != "getAltitude"@.len());
            reveal_strlit("getRadioAltitude"); assert("getPowerPercent"@.len() != "getRadioAltitude"@.len());
            reveal_strlit("getCompass"); assert("getPowerPercent"@.len() != "getCompass"@.len());
            reveal_strlit("getSEP"); assert("getPowerPercent"@.len() != "getSEP"@.len());
            reveal_strlit("getAcceleration"); assert("getPowerPercent"@[3] != "getAcceleration"@[3]);
            reveal_strlit("getTurnRate"); assert("getPowerPercent"@.len() != "getTurnRate"@.len());
            reveal_strlit("getTurnRadius"); assert("getPowerPercent"@.len() != "getTurnRadius"@.len());
            reveal_strlit("getRollRate"); assert("getPowerPercent"@.len() != "getRollRate"@.len());
            reveal_strlit("getEnergyJKg"); assert("getPowerPercent"@.len() != "getEnergyJKg"@.len());
            reveal_strlit("getMassFuel"); assert("getPowerPercent"@.len() != "getMassFuel"@.len());
            reveal_strlit("getTotalWeight"); assert("getPowerPercent"@.len() != "getTotalWeight"@.len());
            reveal_strlit("getFuelTimeMili"); assert("getPowerPercent"@[3] != "getFuelTimeMili"@[3]);
            reveal_strlit("getThrottle"); assert("getPowerPercent"@.len() != "getThrottle"@.len());
            reveal_strlit("getRPM"); assert("getPowerPercent"@.len() != "getRPM"@.len());
            reveal_strlit("getManifoldPressure"); assert("getPowerPercent"@.len() != "getManifoldPressure"@.len());
            reveal_strlit("getWaterTemp"); assert("getPowerPercent"@.len() != "getWaterTemp"@.len());
            reveal_strlit("getOilTemp"); assert("getPowerPercent"@.len() != "getOilTemp"@.len());
            reveal_strlit("getPitch"); assert("getPowerPercent"@.len() != "getPitch"@.len());
            reveal_strlit("getEffHp"); assert("getPowerPercent"@.len() != "getEffHp"@.len());
            reveal_strlit("getThrust"); assert("getPowerPercent"@.len() != "getThrust"@.len());
            reveal_strlit("getHorsePower"); assert("getPowerPercent"@.len() != "getHorsePower"@.len());
            reveal_strlit("getEngineResponse"); assert("getPowerPercent"@.len() != "getEngineResponse"@.len());
            reveal_strlit("getPropEfficiency"); assert("getPowerPercent"@.len() != "getPropEfficiency"@.len());
            reveal_strlit("getWepKg"); assert("getPowerPercent"@.len() != "getWepKg"@.len());
            reveal_strlit("getWepTime"); assert("getPowerPercent"@.len() != "getWepTime"@.len());
            reveal_strlit("getHeatTolerance"); assert("getPowerPercent"@.len() != "getHeatTolerance"@.len());
        },
        DoubleAccessor::ManifoldPressurePounds => {
            reveal_strlit("getManifoldPressurePounds");
            reveal_strlit("getIAS"); assert("getManifoldPressurePounds"@.len() != "getIAS"@.len());
            reveal_strlit("getTAS"); assert("getManifoldPressurePounds"@.len() != "getTAS"@.len());
            reveal_strlit("getMach"); assert("getManifoldPressurePounds"@.len() != "getMach"@.len());
            reveal_strlit("getAoA"); assert("getManifoldPressurePounds"@.len() != "getAoA"@.len());
            reveal_strlit("getAoS"); assert("getManifoldPressurePounds"@.len() != "getAoS"@.len());
            reveal_strlit("getNy"); assert("getManifoldPressurePounds"@.len() != "getNy"@.len());
            reveal_strlit("getVario"); assert("getManifoldPressurePounds"@.len() != "getVario"@.len());
            reveal_strlit("getAltitude"); assert("getManifoldPressurePounds"@.len() != "getAltitude"@.len());
            reveal_strlit("getRadioAltitude"); assert("getManifoldPressurePounds"@.len() != "getRadioAltitude"@.len());
            reveal_strlit("getCompass"); assert("getManifoldPressurePounds"@.len() != "getCompass"@.len());
            reveal_strlit("getSEP"); assert("getManifoldPressurePounds"@.len() != "getSEP"@.len());
            reveal_strlit("getAcceleration"); assert("getManifoldPressurePounds"@.len() != "getAcceleration"@.len());
            reveal_strlit("getTurnRate"); assert("getManifoldPressurePounds"@.len() != "getTurnRate"@.len());
            reveal_strlit("getTurnRadius"); assert("getManifoldPressurePounds"@.len() != "getTurnRadius"@.len());
            reveal_strlit("getRollRate"); assert("getManifoldPressurePounds"@.len() != "getRollRate"@.len());
            reveal_strlit("getEnergyJKg"); assert("getManifoldPressurePounds"@.len() != "getEnergyJKg"@.len());
            reveal_strlit("getMassFuel"); assert("getManifoldPressurePounds"@.len() != "getMassFuel"@.len());
            reveal_strlit("getTotalWeight"); assert("getManifoldPressurePounds"@.len() != "getTotalWeight"@.len());
            reveal_strlit("getFuelTimeMili"); assert("getManifoldPressurePounds"@.len() != "getFuelTimeMili"@.len());
            reveal_strlit("getThrottle"); assert("getManifoldPressurePounds"@.len() != "getThrottle"@.len());
            reveal_strlit("getRPM"); assert("getManifoldPressurePounds"@.len() != "getRPM"@.len());
            reveal_strlit("getManifoldPressure"); assert("getManifoldPressurePounds"@.len() != "getManifoldPressure"@.len());
            reveal_strlit("getWaterTemp"); assert("getManifoldPressurePounds"@.len() != "getWaterTemp"@.len());
            reveal_strlit("getOilTemp"); assert("getManifoldPressurePounds"@.len() != "getOilTemp"@.len());
            reveal_strlit("getPitch"); assert("getManifoldPressurePounds"@.len() != "getPitch"@.len());
            reveal_strlit("getEffHp"); assert("getManifoldPressurePounds"@.len() != "getEffHp"@.len());
            reveal_strlit("getThrust"); assert("getManifoldPressurePounds"@.len() != "getThrust"@.len());
            reveal_strlit("getHorsePower"); assert("getManifoldPressurePounds"@.len() != "getHorsePower"@.len());
            reveal_strlit("getEngineResponse"); assert("getManifoldPressurePounds"@.len() != "getEngineResponse"@.len());
            reveal_strlit("getPropEfficiency"); assert("getManifoldPressurePounds"@.len() != "getPropEfficiency"@.len());
            reveal_strlit("getWepKg"); assert("getManifoldPressurePounds"@.len() != "getWepKg"@.len());
            reveal_strlit("getWepTime"); assert("getManifoldPressurePounds"@.len() != "getWepTime"@.len());
            reveal_strlit("getHeatTolerance"); assert("getManifoldPressurePounds"@.len() != "getHeatTolerance"@.len());
            reveal_strlit("getPowerPercent"); assert("getManifoldPressurePounds"@.len() != "getPowerPercent"@.len());
        },
        DoubleAccessor::ManifoldPressureInchHg => {
            reveal_strlit("getManifoldPressureInchHg");
            reveal_strlit("getIAS"); assert("getManifoldPressureInchHg"@.len() != "getIAS"@.len());
            reveal_strlit("getTAS"); assert("getManifoldPressureInchHg"@.len() != "getTAS"@.len());
            reveal_strlit("getMach"); assert("getManifoldPressureInchHg"@.len() != "getMach"@.len());
            reveal_strlit("getAoA"); assert("getManifoldPressureInchHg"@.len() != "getAoA"@.len());
            reveal_strlit("getAoS"); assert("getManifoldPressureInchHg"@.len() != "getAoS"@.len());
            reveal_strlit("getNy"); assert("getManifoldPressureInchHg"@.len() != "getNy"@.len());
            reveal_strlit("getVario"); assert("getManifoldPressureInchHg"@.len() != "getVario"@.len());
            reveal_strlit("getAltitude"); assert("getManifoldPressureInchHg"@.len() != "getAltitude"@.len());
            reveal_strlit("getRadioAltitude"); assert("getManifoldPressureInchHg"@.len() != "getRadioAltitude"@.len());
            reveal_strlit("getCompass"); assert("getManifoldPressureInchHg"@.len() != "getCompass"@.len());
            reveal_strlit("getSEP"); assert("getManifoldPressureInchHg"@.len() != "getSEP"@.len());
            reveal_strlit("getAcceleration"); assert("getManifoldPressureInchHg"@.len() != "getAcceleration"@.len());
            reveal_strlit("getTurnRate"); assert("getManifoldPressureInchHg"@.len() != "getTurnRate"@.len());
            reveal_strlit("getTurnRadius"); assert("getManifoldPressureInchHg"@.len() != "getTurnRadius"@.len());
            reveal_strlit("getRollRate"); assert("getManifoldPressureInchHg"@.len() != "getRollRate"@.len());
            reveal_strlit("getEnergyJKg"); assert("getManifoldPressureInchHg"@.len() != "getEnergyJKg"@.len());
            reveal_strlit("getMassFuel"); assert("getManifoldPressureInchHg"@.len() != "getMassFuel"@.len());
            reveal_strlit("getTotalWeight"); assert("getManifoldPressureInchHg"@.len() != "getTotalWeight"@.len());
            reveal_strlit("getFuelTimeMili"); assert("getManifoldPressureInchHg"@.len() != "getFuelTimeMili"@.len());
            reveal_strlit("getThrottle"); assert("getManifoldPressureInchHg"@.len() != "getThrottle"@.len());
            reveal_strlit("getRPM"); assert("getManifoldPressureInchHg"@.len() != "getRPM"@.len());
            reveal_strlit("getManifoldPressure"); assert("getManifoldPressureInchHg"@.len() != "getManifoldPressure"@.len());
            reveal_strlit("getWaterTemp"); assert("getManifoldPressureInchHg"@.len() != "getWaterTemp"@.len());
            reveal_strlit("getOilTemp"); assert("getManifoldPressureInchHg"@.len() != "getOilTemp"@.len());
            reveal_strlit("getPitch"); assert("getManifoldPressureInchHg"@.len() != "getPitch"@.len());
            reveal_strlit("getEffHp"); assert("getManifoldPressureInchHg"@.len() != "getEffHp"@.len());
            reveal_strlit("getThrust"); assert("getManifoldPressureInchHg"@.len() != "getThrust"@.len());
            reveal_strlit("getHorsePower"); assert("getManifoldPressureInchHg"@.len() != "getHorsePower"@.len());
            reveal_strlit("getEngineResponse"); assert("getManifoldPressureInchHg"@.len() != "getEngineResponse"@.len());
            reveal_strlit("getPropEfficiency"); assert("getManifoldPressureInchHg"@.len() != "getPropEfficiency"@.len());
            reveal_strlit("getWepKg"); assert("getManifoldPressureInchHg"@.len() != "getWepKg"@.len());
            reveal_strlit("getWepTime"); assert("getManifoldPressureInchHg"@.len() != "getWepTime"@.len());
            reveal_strlit("getHeatTolerance"); assert("getManifoldPressureInchHg"@.len() != "getHeatTolerance"@.len());
            reveal_strlit("getPowerPercent"); assert("getManifoldPressureInchHg"@.len() != "getPowerPercent"@.len());
            reveal_strlit("getManifoldPressurePounds"); assert("getManifoldPressureInchHg"@[19] != "getManifoldPressurePounds"@[19]);
        },
        DoubleAccessor::ManifoldPressureDisplay => {
            reveal_strlit("getManifoldPressureDisplay");
            reveal_strlit("getIAS"); assert("getManifoldPressureDisplay"@.len() != "getIAS"@.len());
            reveal_strlit("getTAS"); assert("getManifoldPressureDisplay"@.len() != "getTAS"@.len());
            reveal_strlit("getMach"); assert("getManifoldPressureDisplay"@.len() != "getMach"@.len());
            reveal_strlit("getAoA"); assert("getManifoldPressureDisplay"@.len() != "getAoA"@.len());
            reveal_strlit("getAoS"); assert("getManifoldPressureDisplay"@.len() != "getAoS"@.len());
            reveal_strlit("getNy"); assert("getManifoldPressureDisplay"@.len() != "getNy"@.len());
            reveal_strlit("getVario"); assert("getManifoldPressureDisplay"@.len() != "getVario"@.len());
            reveal_strlit("getAltitude"); assert("getManifoldPressureDisplay"@.len() != "getAltitude"@.len());
            reveal_strlit("getRadioAltitude"); assert("getManifoldPressureDisplay"@.len() != "getRadioAltitude"@.len());
            reveal_strlit("getCompass"); assert("getManifoldPressureDisplay"@.len() != "getCompass"@.len());
            reveal_strlit("getSEP"); assert("getManifoldPressureDisplay"@.len() != "getSEP"@.len());
            reveal_strlit("getAcceleration"); assert("getManifoldPressureDisplay"@.len() != "getAcceleration"@.len());
            reveal_strlit("getTurnRate"); assert("getManifoldPressureDisplay"@.len() != "getTurnRate"@.len());
            reveal_strlit("getTurnRadius"); assert("getManifoldPressureDisplay"@.len() != "getTurnRadius"@.len());
            reveal_strlit("getRollRate"); assert("getManifoldPressureDisplay"@.len() != "getRollRate"@.len());
            reveal_strlit("getEnergyJKg"); assert("getManifoldPressureDisplay"@.len() != "getEnergyJKg"@.len());
            reveal_strlit("getMassFuel"); assert("getManifoldPressureDisplay"@.len() != "getMassFuel"@.len());
            reveal_strlit("getTotalWeight"); assert("getManifoldPressureDisplay"@.len() != "getTotalWeight"@.len());
            reveal_strlit("getFuelTimeMili"); assert("getManifoldPressureDisplay"@.len() != "getFuelTimeMili"@.len());
            reveal_strlit("getThrottle"); assert("getManifoldPressureDisplay"@.len() != "getThrottle"@.len());
            reveal_strlit("getRPM"); assert("getManifoldPressureDisplay"@.len() != "getRPM"@.len());
            reveal_strlit("getManifoldPressure"); assert("getManifoldPressureDisplay"@.len() != "getManifoldPressure"@.len());
            reveal_strlit("getWaterTemp"); assert("getManifoldPressureDisplay"@.len() != "getWaterTemp"@.len());
            reveal_strlit("getOilTemp"); assert("getManifoldPressureDisplay"@.len() != "getOilTemp"@.len());
            reveal_strlit("getPitch"); assert("getManifoldPressureDisplay"@.len() != "getPitch"@.len());
            reveal_strlit("getEffHp"); assert("getManifoldPressureDisplay"@.len() != "getEffHp"@.len());
            reveal_strlit("getThrust"); assert("getManifoldPressureDisplay"@.len() != "getThrust"@.len());
            reveal_strlit("getHorsePower"); assert("getManifoldPressureDisplay"@.len() != "getHorsePower"@.len());
            reveal_strlit("getEngineResponse"); assert("getManifoldPressureDisplay"@.len() != "getEngineResponse"@.len());
            reveal_strlit("getPropEfficiency"); assert("getManifoldPressureDisplay"@.len() != "getPropEfficiency"@.len());
            reveal_strlit("getWepKg"); assert("getManifoldPressureDisplay"@.len() != "getWepKg"@.len());
            reveal_strlit("getWepTime"); assert("getManifoldPressureDisplay"@.len() != "getWepTime"@.len());
            reveal_strlit("getHeatTolerance"); assert("getManifoldPressureDisplay"@.len() != "getHeatTolerance"@.len());
            reveal_strlit("getPowerPercent"); assert("getManifoldPressureDisplay"@.len() != "getPowerPercent"@.len());
            reveal_strlit("getManifoldPressurePounds"); assert("getManifoldPressureDisplay"@.len() != "getManifoldPressurePounds"@.len());
            reveal_strlit("getManifoldPressureInchHg"); assert("getManifoldPressureDisplay"@.len() != "getManifoldPressureInchHg"@.len());
        },
        DoubleAccessor::UnknownMixture => {
            reveal_strlit("getUnknownMixture");
            reveal_strlit("getIAS"); assert("getUnknownMixture"@.len() != "getIAS"@.len());
            reveal_strlit("getTAS"); assert("getUnknownMixture"@.len() != "getTAS"@.len());
            reveal_strlit("getMach"); assert("getUnknownMixture"@.len() != "getMach"@.len());
            reveal_strlit("getAoA"); assert("getUnknownMixture"@.len() != "getAoA"@.len());
            reveal_strlit("getAoS"); assert("getUnknownMixture"@.len() != "getAoS"@.len());
            reveal_strlit("getNy"); assert("getUnknownMixture"@.len() != "getNy"@.len());
            reveal_strlit("getVario"); assert("getUnknownMixture"@.len() != "getVario"@.len());
            reveal_strlit("getAltitude"); assert("getUnknownMixture"@.len() != "getAltitude"@.len());
            reveal_strlit("getRadioAltitude"); assert("getUnknownMixture"@.len() != "getRadioAltitude"@.len());
            reveal_strlit("getCompass"); assert("getUnknownMixture"@.len() != "getCompass"@.len());
            reveal_strlit("getSEP"); assert("getUnknownMixture"@.len() != "getSEP"@.len());
            reveal_strlit("getAcceleration"); assert("getUnknownMixture"@.len() != "getAcceleration"@.len());
            reveal_strlit("getTurnRate"); assert("getUnknownMixture"@.len() != "getTurnRate"@.len());
            reveal_strlit("getTurnRadius"); assert("getUnknownMixture"@.len() != "getTurnRadius"@.len());
            reveal_strlit("getRollRate"); assert("getUnknownMixture"@.len() != "getRollRate"@.len());
            reveal_strlit("getEnergyJKg"); assert("getUnknownMixture"@.len() != "getEnergyJKg"@.len());
            reveal_strlit("getMassFuel"); assert("getUnknownMixture"@.len() != "getMassFuel"@.len());
            reveal_strlit("getTotalWeight"); assert("getUnknownMixture"@.len() != "getTotalWeight"@.len());
            reveal_strlit("getFuelTimeMili"); assert("getUnknownMixture"@.len() != "getFuelTimeMili"@.len());
            reveal_strlit("getThrottle"); assert("getUnknownMixture"@.len() != "getThrottle"@.len());
            reveal_strlit("getRPM"); assert("getUnknownMixture"@.len() != "getRPM"@.len());
            reveal_strlit("getManifoldPressure"); assert("getUnknownMixture"@.len() != "getManifoldPressure"@.len());
            reveal_strlit("getWaterTemp"); assert("getUnknownMixture"@.len() != "getWaterTemp"@.len());
            reveal_strlit("getOilTemp"); assert("getUnknownMixture"@.len() != "getOilTemp"@.len());
            reveal_strlit("getPitch"); assert("getUnknownMixture"@.len() != "getPitch"@.len());
            reveal_strlit("getEffHp"); assert("getUnknownMixture"@.len() != "getEffHp"@.len());
            reveal_strlit("getThrust"); assert("getUnknownMixture"@.len() != "getThrust"@.len());
            reveal_strlit("getHorsePower"); assert("getUnknownMixture"@.len() != "getHorsePower"@.len());
            reveal_strlit("getEngineResponse"); assert("getUnknownMixture"@[3] != "getEngineResponse"@[3]);
            reveal_strlit("getPropEfficiency"); assert("getUnknownMixture"@[3] != "getPropEfficiency"@[3]);
            reveal_strlit("getWepKg"); assert("getUnknownMixture"@.len() != "getWepKg"@.len());
            reveal_strlit("getWepTime"); assert("getUnknownMixture"@.len() != "getWepTime"@.len());
            reveal_strlit("getHeatTolerance"); assert("getUnknownMixture"@.len() != "getHeatTolerance"@.len());
            reveal_strlit("getPowerPercent"); assert("getUnknownMixture"@.len() != "getPowerPercent"@.len());
            reveal_strlit("getManifoldPressurePounds"); assert("getUnknownMixture"@.len() != "getManifoldPressurePounds"@.len());
            reveal_strlit("getManifoldPressureInchHg"); assert("getUnknownMixture"@.len() != "getManifoldPressureInchHg"@.len());
            reveal_strlit("getManifoldPressureDisplay"); assert("getUnknownMixture"@.len() != "getManifoldPressureDisplay"@.len());
        },
        DoubleAccessor::Radiator => {
            reveal_strlit("getRadiator");
            reveal_strlit("getIAS"); assert("getRadiator"@.len() != "getIAS"@.len());
            reveal_strlit("getTAS"); assert("getRadiator"@.len() != "getTAS"@.len());
            reveal_strlit("getMach"); assert("getRadiator"@.len() != "getMach"@.len());
            reveal_strlit("getAoA"); assert("getRadiator"@.len() != "getAoA"@.len());
            reveal_strlit("getAoS"); assert("getRadiator"@.len() != "getAoS"@.len());
            reveal_strlit("getNy"); assert("getRadiator"@.len() != "getNy"@.len());
            reveal_strlit("getVario"); assert("getRadiator"@.len() != "getVario"@.len());
            reveal_strlit("getAltitude"); assert("getRadiator"@[3] != "getAltitude"@[3]);
            reveal_strlit("getRadioAltitude"); assert("getRadiator"@.len() != "getRadioAltitude"@.len());
            reveal_strlit("getCompass"); assert("getRadiator"@.len() != "getCompass"@.len());
            reveal_strlit("getSEP"); assert("getRadiator"@.len() != "getSEP"@.len());
            reveal_strlit("getAcceleration"); assert("getRadiator"@.len() != "getAcceleration"@.len());
            reveal_strlit("getTurnRate"); assert("getRadiator"@[3] != "getTurnRate"@[3]);
            reveal_strlit("getTurnRadius"); assert("getRadiator"@.len() != "getTurnRadius"@.len());
            reveal_strlit("getRollRate"); assert("getRadiator"@[4] != "getRollRate"@[4]);
            reveal_strlit("getEnergyJKg"); assert("getRadiator"@.len() != "getEnergyJKg"@.len());
            reveal_strlit("getMassFuel"); assert("getRadiator"@[3] != "getMassFuel"@[3]);
            reveal_strlit("getTotalWeight"); assert("getRadiator"@.len() != "getTotalWeight"@.len());
            reveal_strlit("getFuelTimeMili"); assert("getRadiator"@.len() != "getFuelTimeMili"@.len());
            reveal_strlit("getThrottle"); assert("getRadiator"@[3] != "getThrottle"@[3]);
            reveal_strlit("getRPM"); assert("getRadiator"@.len() != "getRPM"@.len());
            reveal_strlit("getManifoldPressure"); assert("getRadiator"@.len() != "getManifoldPressure"@.len());
            reveal_strlit("getWaterTemp"); assert("getRadiator"@.len() != "getWaterTemp"@.len());
            reveal_strlit("getOilTemp"); assert("getRadiator"@.len() != "getOilTemp"@.len());
            reveal_strlit("getPitch"); assert("getRadiator"@.len() != "getPitch"@.len());
            reveal_strlit("getEffHp"); assert("getRadiator"@.len() != "getEffHp"@.len());
            reveal_strlit("getThrust"); assert("getRadiator"@.len() != "getThrust"@.len());
            reveal_strlit("getHorsePower"); assert("getRadiator"@.len() != "getHorsePower"@.len());
            reveal_strlit("getEngineResponse"); assert("getRadiator"@.len() != "getEngineResponse"@.len());
            reveal_strlit("getPropEfficiency"); assert("getRadiator"@.len() != "getPropEfficiency"@.len());
            reveal_strlit("getWepKg"); assert("getRadiator"@.len() != "getWepKg"@.len());
            reveal_strlit("getWepTime"); assert("getRadiator"@.len() != "getWepTime"@.len());
            reveal_strlit("getHeatTolerance"); assert("getRadiator"@.len() != "getHeatTolerance"@.len());
            reveal_strlit("getPowerPercent"); assert("getRadiator"@.len() != "getPowerPercent"@.len());
            reveal_strlit("getManifoldPressurePounds"); assert("getRadiator"@.len() != "getManifoldPressurePounds"@.len());
            reveal_strlit("getManifoldPressureInchHg"); assert("getRadiator"@.len() != "getManifoldPressureInchHg"@.len());
            reveal_strlit("getManifoldPressureDisplay"); assert("getRadiator"@.len() != "getManifoldPressureDisplay"@.len());
            reveal_strlit("getUnknownMixture"); assert("getRadiator"@.len() != "getUnknownMixture"@.len());
        },
        DoubleAccessor::CompressorStage => {
            reveal_strlit("getCompressorStage");
            reveal_strlit("getIAS"); assert("getCompressorStage"@.len() != "getIAS"@.len());
            reveal_strlit("getTAS"); assert("getCompressorStage"@.len() != "getTAS"@.len());
            reveal_strlit("getMach"); assert("getCompressorStage"@.len() != "getMach"@.len());
            reveal_strlit("getAoA"); assert("getCompressorStage"@.len() != "getAoA"@.len());
            reveal_strlit("getAoS"); assert("getCompressorStage"@.len() != "getAoS"@.len());
            reveal_strlit("getNy"); assert("getCompressorStage"@.len() != "getNy"@.len());
            reveal_strlit("getVario"); assert("getCompressorStage"@.len() != "getVario"@.len());
            reveal_strlit("getAltitude"); assert("getCompressorStage"@.len() != "getAltitude"@.len());
            reveal_strlit("getRadioAltitude"); assert("getCompressorStage"@.len() != "getRadioAltitude"@.len());
            reveal_strlit("getCompass"); assert("getCompressorStage"@.len() != "getCompass"@.len());
            reveal_strlit("getSEP"); assert("getCompressorStage"@.len() != "getSEP"@.len());
            reveal_strlit("getAcceleration"); assert("getCompressorStage"@.len() != "getAcceleration"@.len());
            reveal_strlit("getTurnRate"); assert("getCompressorStage"@.len() != "getTurnRate"@.len());
            reveal_strlit("getTurnRadius"); assert("getCompressorStage"@.len() != "getTurnRadius"@.len());
            reveal_strlit("getRollRate"); assert("getCompressorStage"@.len() != "getRollRate"@.len());
            reveal_strlit("getEnergyJKg"); assert("getCompressorStage"@.len() != "getEnergyJKg"@.len());
            reveal_strlit("getMassFuel"); assert("getCompressorStage"@.len() != "getMassFuel"@.len());
            reveal_strlit("getTotalWeight"); assert("getCompressorStage"@.len() != "getTotalWeight"@.len());
            reveal_strlit("getFuelTimeMili"); assert("getCompressorStage"@.len() != "getFuelTimeMili"@.len());
            reveal_strlit("getThrottle"); assert("getCompressorStage"@.len() != "getThrottle"@.len());
            reveal_strlit("getRPM"); assert("getCompressorStage"@.len() != "getRPM"@.len());
            reveal_strlit("getManifoldPressure"); assert("getCompressorStage"@.len() != "getManifoldPressure"@.len());
            reveal_strlit("getWaterTemp"); assert("getCompressorStage"@.len() != "getWaterTemp"@.len());
            reveal_strlit("getOilTemp"); assert("getCompressorStage"@.len() != "getOilTemp"@.len());
            reveal_strlit("getPitch"); assert("getCompressorStage"@.len() != "getPitch"@.len());
            reveal_strlit("getEffHp"); assert("getCompressorStage"@.len() != "getEffHp"@.len());
            reveal_strlit("getThrust"); assert("getCompressorStage"@.len() != "getThrust"@.len());
            reveal_strlit("getHorsePower"); assert("getCompressorStage"@.len() != "getHorsePower"@.len());
            reveal_strlit("getEngineResponse"); assert("getCompressorStage"@.len() != "getEngineResponse"@.len());
            reveal_strlit("getPropEfficiency"); assert("getCompressorStage"@.len() != "getPropEfficiency"@.len());
            reveal_strlit("getWepKg"); assert("getCompressorStage"@.len() != "getWepKg"@.len());
            reveal_strlit("getWepTime"); assert("getCompressorStage"@.len() != "getWepTime"@.len());
            reveal_strlit("getHeatTolerance"); assert("getCompressorStage"@.len() != "getHeatTolerance"@.len());
            reveal_strlit("getPowerPercent"); assert("getCompressorStage"@.len() != "getPowerPercent"@.len());
            reveal_strlit("getManifoldPressurePounds"); assert("getCompressorStage"@.len() != "getManifoldPressurePounds"@.len());
            reveal_strlit("getManifoldPressureInchHg"); assert("getCompressorStage"@.len() != "getManifoldPressureInchHg"@.len());
            reveal_strlit("getManifoldPressureDisplay"); assert("getCompressorStage"@.len() != "getManifoldPressureDisplay"@.len());
            reveal_strlit("getUnknownMixture"); assert("getCompressorStage"@.len() != "getUnknownMixture"@.len());
            reveal_strlit("getRadiator"); assert("getCompressorStage"@.len() != "getRadiator"@.len());
        },
        DoubleAccessor::FuelPercent => {
            reveal_strlit("getFuelPercent");
            reveal_strlit("getIAS"); assert("getFuelPercent"@.len() != "getIAS"@.len());
            reveal_strlit("getTAS"); assert("getFuelPercent"@.len() != "getTAS"@.len());
            reveal_strlit("getMach"); assert("getFuelPercent"@.len() != "getMach"@.len());
            reveal_strlit("getAoA"); assert("getFuelPercent"@.len() != "getAoA"@.len());
            reveal_strlit("getAoS"); assert("getFuelPercent"@.len() != "getAoS"@.len());
            reveal_strlit("getNy"); assert("getFuelPercent"@.len() != "getNy"@.len());
            reveal_strlit("getVario"); assert("getFuelPercent"@.len() != "getVario"@.len());
            reveal_strlit("getAltitude"); assert("getFuelPercent"@.len() != "getAltitude"@.len());
            reveal_strlit("getRadioAltitude"); assert("getFuelPercent"@.len() != "getRadioAltitude"@.len());
            reveal_strlit("getCompass"); assert("getFuelPercent"@.len() != "getCompass"@.len());
            reveal_strlit("getSEP"); assert("getFuelPercent"@.len() != "getSEP"@.len());
            reveal_strlit("getAcceleration"); assert("getFuelPercent"@.len() != "getAcceleration"@.len());
            reveal_strlit("getTurnRate"); assert("getFuelPercent"@.len() != "getTurnRate"@.len());
            reveal_strlit("getTurnRadius"); assert("getFuelPercent"@.len() != "getTurnRadius"@.len());
            reveal_strlit("getRollRate"); assert("getFuelPercent"@.len() != "getRollRate"@.len());
            reveal_strlit("getEnergyJKg"); assert("getFuelPercent"@.len() != "getEnergyJKg"@.len());
            reveal_strlit("getMassFuel"); assert("getFuelPercent"@.len() != "getMassFuel"@.len());
            reveal_strlit("getTotalWeight"); assert("getFuelPercent"@[3] != "getTotalWeight"@[3]);
            reveal_strlit("getFuelTimeMili"); assert("getFuelPercent"@.len() != "getFuelTimeMili"@.len());
            reveal_strlit("getThrottle"); assert("getFuelPercent"@.len() != "getThrottle"@.len());
            reveal_strlit("getRPM"); assert("getFuelPercent"@.len() != "getRPM"@.len());
            reveal_strlit("getManifoldPressure"); assert("getFuelPercent"@.len() != "getManifoldPressure"@.len());
            reveal_strlit("getWaterTemp"); assert("getFuelPercent"@.len() != "getWaterTemp"@.len());
            reveal_strlit("getOilTemp"); assert("getFuelPercent"@.len() != "getOilTemp"@.len());
            reveal_strlit("getPitch"); assert("getFuelPercent"@.len() != "getPitch"@.len());
            reveal_strlit("getEffHp"); assert("getFuelPercent"@.len() != "getEffHp"@.len());
            reveal_strlit("getThrust"); assert("getFuelPercent"@.len() != "getThrust"@.len());
            reveal_strlit("getHorsePower"); assert("getFuelPercent"@.len() != "getHorsePower"@.len());
            reveal_strlit("getEngineResponse"); assert("getFuelPercent"@.len() != "getEngineResponse"@.len());
            reveal_strlit("getPropEfficiency"); assert("getFuelPercent"@.len() != "getPropEfficiency"@.len());
            reveal_strlit("getWepKg"); assert("getFuelPercent"@.len() != "getWepKg"@.len());
            reveal_strlit("getWepTime"); assert("getFuelPercent"@.len() != "getWepTime"@.len());
            reveal_strlit("getHeatTolerance"); assert("getFuelPercent"@.len() != "getHeatTolerance"@.len());
            reveal_strlit("getPowerPercent"); assert("getFuelPercent"@.len() != "getPowerPercent"@.len());
            reveal_strlit("getManifoldPressurePounds"); assert("getFuelPercent"@.len() != "getManifoldPressurePounds"@.len());
            reveal_strlit("getManifoldPressureInchHg"); assert("getFuelPercent"@.len() != "getManifoldPressureInchHg"@.len());
            reveal_strlit("getManifoldPressureDisplay"); assert("getFuelPercent"@.len() != "getManifoldPressureDisplay"@.len());
            reveal_strlit("getUnknownMixture"); assert("getFuelPercent"@.len() != "getUnknownMixture"@.len());
            reveal_strlit("getRadiator"); assert("getFuelPercent"@.len() != "getRadiator"@.len());
            reveal_strlit("getCompressorStage"); assert("getFuelPercent"@.len() != "getCompressorStage"@.len());
        },
        DoubleAccessor::RpmThrottle => {
            reveal_strlit("getRPMThrottle");
            reveal_strlit("getIAS"); assert("getRPMThrottle"@.len() != "getIAS"@.len());
            reveal_strlit("getTAS"); assert("getRPMThrottle"@.len() != "getTAS"@.len());
            reveal_strlit("getMach"); assert("getRPMThrottle"@.len() != "getMach"@.len());
            reveal_strlit("getAoA"); assert("getRPMThrottle"@.len() != "getAoA"@.len());
            reveal_strlit("getAoS"); assert("getRPMThrottle"@.len() != "getAoS"@.len());
            reveal_strlit("getNy"); assert("getRPMThrottle"@.len() != "getNy"@.len());
            reveal_strlit("getVario"); assert("getRPMThrottle"@.len() != "getVario"@.len());
            reveal_strlit("getAltitude"); assert("getRPMThrottle"@.len() != "getAltitude"@.len());
            reveal_strlit("getRadioAltitude"); assert("getRPMThrottle"@.len() != "getRadioAltitude"@.len());
            reveal_strlit("getCompass"); assert("getRPMThrottle"@.len() != "getCompass"@.len());
            reveal_strlit("getSEP"); assert("getRPMThrottle"@.len() != "getSEP"@.len());
            reveal_strlit("getAcceleration"); assert("getRPMThrottle"@.len() != "getAcceleration"@.len());
            reveal_strlit("getTurnRate"); assert("getRPMThrottle"@.len() != "getTurnRate"@.len());
            reveal_strlit("getTurnRadius"); assert("getRPMThrottle"@.len() != "getTurnRadius"@.len());
            reveal_strlit("getRollRate"); assert("getRPMThrottle"@.len() != "getRollRate"@.len());
            reveal_strlit("getEnergyJKg"); assert("getRPMThrottle"@.len() != "getEnergyJKg"@.len());
            reveal_strlit("getMassFuel"); assert("getRPMThrottle"@.len() != "getMassFuel"@.len());
            reveal_strlit("getTotalWeight"); assert("getRPMThrottle"@[3] != "getTotalWeight"@[3]);
            reveal_strlit("getFuelTimeMili"); assert("getRPMThrottle"@.len() != "getFuelTimeMili"@.len());
            reveal_strlit("getThrottle"); assert("getRPMThrottle"@.len() != "getThrottle"@.len());
            reveal_strlit("getRPM"); assert("getRPMThrottle"@.len() != "getRPM"@.len());
            reveal_strlit("getManifoldPressure"); assert("getRPMThrottle"@.len() != "getManifoldPressure"@.len());
            reveal_strlit("getWaterTemp"); assert("getRPMThrottle"@.len() != "getWaterTemp"@.len());
            reveal_strlit("getOilTemp"); assert("getRPMThrottle"@.len() != "getOilTemp"@.len());
            reveal_strlit("getPitch"); assert("getRPMThrottle"@.len() != "getPitch"@.len());
            reveal_strlit("getEffHp"); assert("getRPMThrottle"@.len() != "getEffHp"@.len());
            reveal_strlit("getThrust"); assert("getRPMThrottle"@.len() != "getThrust"@.len());
            reveal_strlit("getHorsePower"); assert("getRPMThrottle"@.len() != "getHorsePower"@.len());
            reveal_strlit("getEngineResponse"); assert("getRPMThrottle"@.len() != "getEngineResponse"@.len());
            reveal_strlit("getPropEfficiency"); assert("getRPMThrottle"@.len() != "getPropEfficiency"@.len());
            reveal_strlit("getWepKg"); assert("getRPMThrottle"@.len() != "getWepKg"@.len());
            reveal_strlit("getWepTime"); assert("getRPMThrottle"@.len() != "getWepTime"@.len());
            reveal_strlit("getHeatTolerance"); assert("getRPMThrottle"@.len() != "getHeatTolerance"@.len());
            reveal_strlit("getPowerPercent"); assert("getRPMThrottle"@.len() != "getPowerPercent"@.len());
            reveal_strlit("getManifoldPressurePounds"); assert("getRPMThrottle"@.len() != "getManifoldPressurePounds"@.len());
            reveal_strlit("getManifoldPressureInchHg"); assert("getRPMThrottle"@.len() != "getManifoldPressureInchHg"@.len());
            reveal_strlit("getManifoldPressureDisplay"); assert("getRPMThrottle"@.len() != "getManifoldPressureDisplay"@.len());
            reveal_strlit("getUnknownMixture"); assert("getRPMThrottle"@.len() != "getUnknownMixture"@.len());
            reveal_strlit("getRadiator"); assert("getRPMThrottle"@.len() != "getRadiator"@.len());
            reveal_strlit("getCompressorStage"); assert("getRPMThrottle"@.len() != "getCompressorStage"@.len());
            reveal_strlit("getFuelPercent"); assert("getRPMThrottle"@[3] != "getFuelPercent"@[3]);
        },
        DoubleAccessor::Gear => {
            reveal_strlit("getGear");
            reveal_strlit("getIAS"); assert("getGear"@.len() != "getIAS"@.len());
            reveal_strlit("getTAS"); assert("getGear"@.len() != "getTAS"@.len());
            reveal_strlit("getMach"); assert("getGear"@[3] != "getMach"@[3]);
            reveal_strlit("getAoA"); assert("getGear"@.len() != "getAoA"@.len());
            reveal_strlit("getAoS"); assert("getGear"@.len() != "getAoS"@.len());
            reveal_strlit("getNy"); assert("getGear"@.len() != "getNy"@.len());
            reveal_strlit("getVario"); assert("getGear"@.len() != "getVario"@.len());
            reveal_strlit("getAltitude"); assert("getGear"@.len() != "getAltitude"@.len());
            reveal_strlit("getRadioAltitude"); assert("getGear"@.len() != "getRadioAltitude"@.len());
            reveal_strlit("getCompass"); assert("getGear"@.len() != "getCompass"@.len());
            reveal_strlit("getSEP"); assert("getGear"@.len() != "getSEP"@.len());
            reveal_strlit("getAcceleration"); assert("getGear"@.len() != "getAcceleration"@.len());
            reveal_strlit("getTurnRate"); assert("getGear"@.len() != "getTurnRate"@.len());
            reveal_strlit("getTurnRadius"); assert("getGear"@.len() != "getTurnRadius"@.len());
            reveal_strlit("getRollRate"); assert("getGear"@.len() != "getRollRate"@.len());
            reveal_strlit("getEnergyJKg"); assert("getGear"@.len() != "getEnergyJKg"@.len());
            reveal_strlit("getMassFuel"); assert("getGear"@.len() != "getMassFuel"@.len());
            reveal_strlit("getTotalWeight"); assert("getGear"@.len() != "getTotalWeight"@.len());
            reveal_strlit("getFuelTimeMili"); assert("getGear"@.len() != "getFuelTimeMili"@.len());
            reveal_strlit("getThrottle"); assert("getGear"@.len() != "getThrottle"@.len());
            reveal_strlit("getRPM"); assert("getGear"@.len() != "getRPM"@.len());
            reveal_strlit("getManifoldPressure"); assert("getGear"@.len() != "getManifoldPressure"@.len());
            reveal_strlit("getWaterTemp"); assert("getGear"@.len() != "getWaterTemp"@.len());
            reveal_strlit("getOilTemp"); assert("getGear"@.len() != "getOilTemp"@.len());
            reveal_strlit("getPitch"); assert("getGear"@.len() != "getPitch"@.len());
            reveal_strlit("getEffHp"); assert("getGear"@.len() != "getEffHp"@.len());
            reveal_strlit("getThrust"); assert("getGear"@.len() != "getThrust"@.len());
            reveal_strlit("getHorsePower"); assert("getGear"@.len() != "getHorsePower"@.len());
            reveal_strlit("getEngineResponse"); assert("getGear"@.len() != "getEngineResponse"@.len());
            reveal_strlit("getPropEfficiency"); assert("getGear"@.len() != "getPropEfficiency"@.len());
            reveal_strlit("getWepKg"); assert("getGear"@.len() != "getWepKg"@.len());
            reveal_strlit("getWepTime"); assert("getGear"@.len() != "getWepTime"@.len());
            reveal_strlit("getHeatTolerance"); assert("getGear"@.len() != "getHeatTolerance"@.len());
            reveal_strlit("getPowerPercent"); assert("getGear"@.len() != "getPowerPercent"@.len());
            reveal_strlit("getManifoldPressurePounds"); assert("getGear"@.len() != "getManifoldPressurePounds"@.len());
            reveal_strlit("getManifoldPressureInchHg"); assert("getGear"@.len() != "getManifoldPressureInchHg"@.len());
            reveal_strlit("getManifoldPressureDisplay"); assert("getGear"@.len() != "getManifoldPressureDisplay"@.len());
            reveal_strlit("getUnknownMixture"); assert("getGear"@.len() != "getUnknownMixture"@.len());
            reveal_strlit("getRadiator"); assert("getGear"@.len() != "getRadiator"@.len());
            reveal_strlit("getCompressorStage"); assert("getGear"@.len() != "getCompressorStage"@.len());
            reveal_strlit("getFuelPercent"); assert("getGear"@.len() != "getFuelPercent"@.len());
            reveal_strlit("getRPMThrottle"); assert("getGear"@.len() != "getRPMThrottle"@.len());
        },
        DoubleAccessor::Flaps => {
            reveal_strlit("getFlaps");
            reveal_strlit("getIAS"); assert("getFlaps"@.len() != "getIAS"@.len());
            reveal_strlit("getTAS"); assert("getFlaps"@.len() != "getTAS"@.len());
            reveal_strlit("getMach"); assert("getFlaps"@.len() != "getMach"@.len());
            reveal_strlit("getAoA"); assert("getFlaps"@.len() != "getAoA"@.len());
            reveal_strlit("getAoS"); assert("getFlaps"@.len() != "getAoS"@.len());
            reveal_strlit("getNy"); assert("getFlaps"@.len() != "getNy"@.len());
            reveal_strlit("getVario"); assert("getFlaps"@[3] != "getVario"@[3]);
            reveal_strlit("getAltitude"); assert("getFlaps"@.len() != "getAltitude"@.len());
            reveal_strlit("getRadioAltitude"); assert("getFlaps"@.len() != "getRadioAltitude"@.len());
            reveal_strlit("getCompass"); assert("getFlaps"@.len() != "getCompass"@.len());
            reveal_strlit("getSEP"); assert("getFlaps"@.len() != "getSEP"@.len());
            reveal_strlit("getAcceleration"); assert("getFlaps"@.len() != "getAcceleration"@.len());
            reveal_strlit("getTurnRate"); assert("getFlaps"@.len() != "getTurnRate"@.len());
            reveal_strlit("getTurnRadius"); assert("getFlaps"@.len() != "getTurnRadius"@.len());
            reveal_strlit("getRollRate"); assert("getFlaps"@.len() != "getRollRate"@.len());
            reveal_strlit("getEnergyJKg"); assert("getFlaps"@.len() != "getEnergyJKg"@.len());
            reveal_strlit("getMassFuel"); assert("getFlaps"@.len() != "getMassFuel"@.len());
            reveal_strlit("getTotalWeight"); assert("getFlaps"@.len() != "getTotalWeight"@.len());
            reveal_strlit("getFuelTimeMili"); assert("getFlaps"@.len() != "getFuelTimeMili"@.len());
            reveal_strlit("getThrottle"); assert("getFlaps"@.len() != "getThrottle"@.len());
            reveal_strlit("getRPM"); assert("getFlaps"@.len() != "getRPM"@.len());
            reveal_strlit("getManifoldPressure"); assert("getFlaps"@.len() != "getManifoldPressure"@.len());
            reveal_strlit("getWaterTemp"); assert("getFlaps"@.len() != "getWaterTemp"@.len());
            reveal_strlit("getOilTemp"); assert("getFlaps"@.len() != "getOilTemp"@.len());
            reveal_strlit("getPitch"); assert("getFlaps"@[3] != "getPitch"@[3]);
            reveal_strlit("getEffHp"); assert("getFlaps"@[3] != "getEffHp"@[3]);
            reveal_strlit("getThrust"); assert("getFlaps"@.len() != "getThrust"@.len());
            reveal_strlit("getHorsePower"); assert("getFlaps"@.len() != "getHorsePower"@.len());
            reveal_strlit("getEngineResponse"); assert("getFlaps"@.len() != "getEngineResponse"@.len());
            reveal_strlit("getPropEfficiency"); assert("getFlaps"@.len() != "getPropEfficiency"@.len());
            reveal_strlit("getWepKg"); assert("getFlaps"@[3] != "getWepKg"@[3]);
            reveal_strlit("getWepTime"); assert("getFlaps"@.len() != "getWepTime"@.len());
            reveal_strlit("getHeatTolerance"); assert("getFlaps"@.len() != "getHeatTolerance"@.len());
            reveal_strlit("getPowerPercent"); assert("getFlaps"@.len() != "getPowerPercent"@.len());
            reveal_strlit("getManifoldPressurePounds"); assert("getFlaps"@.len() != "getManifoldPressurePounds"@.len());
            reveal_strlit("getManifoldPressureInchHg"); assert("getFlaps"@.len() != "getManifoldPressureInchHg"@.len());
            reveal_strlit("getManifoldPressureDisplay"); assert("getFlaps"@.len() != "getManifoldPressureDisplay"@.len());
            reveal_strlit("getUnknownMixture"); assert("getFlaps"@.len() != "getUnknownMixture"@.len());
            reveal_strlit("getRadiator"); assert("getFlaps"@.len() != "getRadiator"@.len());
            reveal_strlit("getCompressorStage"); assert("getFlaps"@.len() != "getCompressorStage"@.len());
            reveal_strlit("getFuelPercent"); assert("getFlaps"@.len() != "getFuelPercent"@.len());
            reveal_strlit("getRPMThrottle"); assert("getFlaps"@.len() != "getRPMThrottle"@.len());
            reveal_strlit("getGear"); assert("getFlaps"@.len() != "getGear"@.len());
        },
        DoubleAccessor::Airbrake => {
            reveal_strlit("getAirbrake");
            reveal_strlit("getIAS"); assert("getAirbrake"@.len() != "getIAS"@.len());
            reveal_strlit("getTAS"); assert("getAirbrake"@.len() != "getTAS"@.len());
            reveal_strlit("getMach"); assert("getAirbrake"@.len() != "getMach"@.len());
            reveal_strlit("getAoA"); assert("getAirbrake"@.len() != "getAoA"@.len());
            reveal_strlit("getAoS"); assert("getAirbrake"@.len() != "getAoS"@.len());
            reveal_strlit("getNy"); assert("getAirbrake"@.len() != "getNy"@.len());
            reveal_strlit("getVario"); assert("getAirbrake"@.len() != "getVario"@.len());
            reveal_strlit("getAltitude"); assert("getAirbrake"@[4] != "getAltitude"@[4]);
            reveal_strlit("getRadioAltitude"); assert("getAirbrake"@.len() != "getRadioAltitude"@.len());
            reveal_strlit("getCompass"); assert("getAirbrake"@.len() != "getCompass"@.len());
            reveal_strlit("getSEP"); assert("getAirbrake"@.len() != "getSEP"@.len());
            reveal_strlit("getAcceleration"); assert("getAirbrake"@.len() != "getAcceleration"@.len());
            reveal_strlit("getTurnRate"); assert("getAirbrake"@[3] != "getTurnRate"@[3]);
            reveal_strlit("getTurnRadius"); assert("getAirbrake"@.len() != "getTurnRadius"@.len());
            reveal_strlit("getRollRate"); assert("getAirbrake"@[3] != "getRollRate"@[3]);
            reveal_strlit("getEnergyJKg"); assert("getAirbrake"@.len() != "getEnergyJKg"@.len());
            reveal_strlit("getMassFuel"); assert("getAirbrake"@[3] != "getMassFuel"@[3]);
            reveal_strlit("getTotalWeight"); assert("getAirbrake"@.len() != "getTotalWeight"@.len());
            reveal_strlit("getFuelTimeMili"); assert("getAirbrake"@.len() != "getFuelTimeMili"@.len());
            reveal_strlit("getThrottle"); assert("getAirbrake"@[3] != "getThrottle"@[3]);
            reveal_strlit("getRPM"); assert("getAirbrake"@.len() != "getRPM"@.len());
            reveal_strlit("getManifoldPressure"); assert("getAirbrake"@.len() != "getManifoldPressure"@.len());
            reveal_strlit("getWaterTemp"); assert("getAirbrake"@.len() != "getWaterTemp"@.len());
            reveal_strlit("getOilTemp"); assert("getAirbrake"@.len() != "getOilTemp"@.len());
            reveal_strlit("getPitch"); assert("getAirbrake"@.len() != "getPitch"@.len());
            reveal_strlit("getEffHp"); assert("getAirbrake"@.len() != "getEffHp"@.len());
            reveal_strlit("getThrust"); assert("getAirbrake"@.len() != "getThrust"@.len());
            reveal_strlit("getHorsePower"); assert("getAirbrake"@.len() != "getHorsePower"@.len());
            reveal_strlit("getEngineResponse"); assert("getAirbrake"@.len() != "getEngineResponse"@.len());
            reveal_strlit("getPropEfficiency"); assert("getAirbrake"@.len() != "getPropEfficiency"@.len());
            reveal_strlit("getWepKg"); assert("getAirbrake"@.len() != "getWepKg"@.len());
            reveal_strlit("getWepTime"); assert("getAirbrake"@.len() != "getWepTime"@.len());
            reveal_strlit("getHeatTolerance"); assert("getAirbrake"@.len() != "getHeatTolerance"@.len());
            reveal_strlit("getPowerPercent"); assert("getAirbrake"@.len() != "getPowerPercent"@.len());
            reveal_strlit("getManifoldPressurePounds"); assert("getAirbrake"@.len() != "getManifoldPressurePounds"@.len());
            reveal_strlit("getManifoldPressureInchHg"); assert("getAirbrake"@.len() != "getManifoldPressureInchHg"@.len());
            reveal_strlit("getManifoldPressureDisplay"); assert("getAirbrake"@.len() != "getManifoldPressureDisplay"@.len());
            reveal_strlit("getUnknownMixture"); assert("getAirbrake"@.len() != "getUnknownMixture"@.len());
            reveal_strlit("getRadiator"); assert("getAirbrake"@[3] != "getRadiator"@[3]);
            reveal_strlit("getCompressorStage"); assert("getAirbrake"@.len() != "getCompressorStage"@.len());
            reveal_strlit("getFuelPercent"); assert("getAirbrake"@.len() != "getFuelPercent"@.len());
            reveal_strlit("getRPMThrottle"); assert("getAirbrake"@.len() != "getRPMThrottle"@.len());
            reveal_strlit("getGear"); assert("getAirbrake"@.len() != "getGear"@.len());
            reveal_strlit("getFlaps"); assert("getAirbrake"@.len() != "getFlaps"@.len());
        },
        DoubleAccessor::Aileron => {
            reveal_strlit("getAileron");
            reveal_strlit("getIAS"); assert("getAileron"@.len() != "getIAS"@.len());
            reveal_strlit("getTAS"); assert("getAileron"@.len() != "getTAS"@.len());
            reveal_strlit("getMach"); assert("getAileron"@.len() != "getMach"@.len());
            reveal_strlit("getAoA"); assert("getAileron"@.len() != "getAoA"@.len());
            reveal_strlit("getAoS"); assert("getAileron"@.len() != "getAoS"@.len());
            reveal_strlit("getNy"); assert("getAileron"@.len() != "getNy"@.len());
            reveal_strlit("getVario"); assert("getAileron"@.len() != "getVario"@.len());
            reveal_strlit("getAltitude"); assert("getAileron"@.len() != "getAltitude"@.len());
            reveal_strlit("getRadioAltitude"); assert("getAileron"@.len() != "getRadioAltitude"@.len());
            reveal_strlit("getCompass"); assert("getAileron"@[3] != "getCompass"@[3]);
            reveal_strlit("getSEP"); assert("getAileron"@.len() != "getSEP"@.len());
            reveal_strlit("getAcceleration"); assert("getAileron"@.len() != "getAcceleration"@.len());
            reveal_strlit("getTurnRate"); assert("getAileron"@.len() != "getTurnRate"@.len());
            reveal_strlit("getTurnRadius"); assert("getAileron"@.len() != "getTurnRadius"@.len());
            reveal_strlit("getRollRate"); assert("getAileron"@.len() != "getRollRate"@.len());
            reveal_strlit("getEnergyJKg"); assert("getAileron"@.len() != "getEnergyJKg"@.len());
            reveal_strlit("getMassFuel"); assert("getAileron"@.len() != "getMassFuel"@.len());
            reveal_strlit("getTotalWeight"); assert("getAileron"@.len() != "getTotalWeight"@.len());
            reveal_strlit("getFuelTimeMili"); assert("getAileron"@.len() != "getFuelTimeMili"@.len());
            reveal_strlit("getThrottle"); assert("getAileron"@.len() != "getThrottle"@.len());
            reveal_strlit("getRPM"); assert("getAileron"@.len() != "getRPM"@.len());
            reveal_strlit("getManifoldPressure"); assert("getAileron"@.len() != "getManifoldPressure"@.len());
            reveal_strlit("getWaterTemp"); assert("getAileron"@.len() != "getWaterTemp"@.len());
            reveal_strlit("getOilTemp"); assert("getAileron"@[3] != "getOilTemp"@[3]);
            reveal_strlit("getPitch"); assert("getAileron"@.len() != "getPitch"@.len());
            reveal_strlit("getEffHp"); assert("getAileron"@.len() != "getEffHp"@.len());
            reveal_strlit("getThrust"); assert("getAileron"@.len() != "getThrust"@.len());
            reveal_strlit("getHorsePower"); assert("getAileron"@.len() != "getHorsePower"@.len());
            reveal_strlit("getEngineResponse"); assert("getAileron"@.len() != "getEngineResponse"@.len());
            reveal_strlit("getPropEfficiency"); assert("getAileron"@.len() != "getPropEfficiency"@.len());
            reveal_strlit("getWepKg"); assert("getAileron"@.len() != "getWepKg"@.len());
            reveal_strlit("getWepTime"); assert("getAileron"@[3] != "getWepTime"@[3]);
            reveal_strlit("getHeatTolerance"); assert("getAileron"@.len() != "getHeatTolerance"@.len());
            reveal_strlit("getPowerPercent"); assert("getAileron"@.len() != "getPowerPercent"@.len());
            reveal_strlit("getManifoldPressurePounds"); assert("getAileron"@.len() != "getManifoldPressurePounds"@.len());
            reveal_strlit("getManifoldPressureInchHg"); assert("getAileron"@.len() != "getManifoldPressureInchHg"@.len());
            reveal_strlit("getManifoldPressureDisplay"); assert("getAileron"@.len() != "getManifoldPressureDisplay"@.len());
            reveal_strlit("getUnknownMixture"); assert("getAileron"@.len() != "getUnknownMixture"@.len());
            reveal_strlit("getRadiator"); assert("getAileron"@.len() != "getRadiator"@.len());
            reveal_strlit("getCompressorStage"); assert("getAileron"@.len() != "getCompressorStage"@.len());
            reveal_strlit("getFuelPercent"); assert("getAileron"@.len() != "getFuelPercent"@.len());
            reveal_strlit("getRPMThrottle"); assert("getAileron"@.len() != "getRPMThrottle"@.len());
            reveal_strlit("getGear"); assert("getAileron"@.len() != "getGear"@.len());
            reveal_strlit("getFlaps"); assert("getAileron"@.len() != "getFlaps"@.len());
            reveal_strlit("getAirbrake"); assert("getAileron"@.len() != "getAirbrake"@.len());
        },
        DoubleAccessor::Elevator => {
            reveal_strlit("getElevator");
            reveal_strlit("getIAS"); assert("getElevator"@.len() != "getIAS"@.len());
            reveal_strlit("getTAS"); assert("getElevator"@.len() != "getTAS"@.len());
            reveal_strlit("getMach"); assert("getElevator"@.len() != "getMach"@.len());
            reveal_strlit("getAoA"); assert("getElevator"@.len() != "getAoA"@.len());
            reveal_strlit("getAoS"); assert("getElevator"@.len() != "getAoS"@.len());
            reveal_strlit("getNy"); assert("getElevator"@.len() != "getNy"@.len());
            reveal_strlit("getVario"); assert("getElevator"@.len() != "getVario"@.len());
            reveal_strlit("getAltitude"); assert("getElevator"@[3] != "getAltitude"@[3]);
            reveal_strlit("getRadioAltitude"); assert("getElevator"@.len() != "getRadioAltitude"@.len());
            reveal_strlit("getCompass"); assert("getElevator"@.len() != "getCompass"@.len());
            reveal_strlit("getSEP"); assert("getElevator"@.len() != "getSEP"@.len());
            reveal_strlit("getAcceleration"); assert("getElevator"@.len() != "getAcceleration"@.len());
            reveal_strlit("getTurnRate"); assert("getElevator"@[3] != "getTurnRate"@[3]);
            reveal_strlit("getTurnRadius"); assert("getElevator"@.len() != "getTurnRadius"@.len());
            reveal_strlit("getRollRate"); assert("getElevator"@[3] != "getRollRate"@[3]);
            reveal_strlit("getEnergyJKg"); assert("getElevator"@.len() != "getEnergyJKg"@.len());
            reveal_strlit("getMassFuel"); assert("getElevator"@[3] != "getMassFuel"@[3]);
            reveal_strlit("getTotalWeight"); assert("getElevator"@.len() != "getTotalWeight"@.len());
            reveal_strlit("getFuelTimeMili"); assert("getElevator"@.len() != "getFuelTimeMili"@.len());
            reveal_strlit("getThrottle"); assert("getElevator"@[3] != "getThrottle"@[3]);
            reveal_strlit("getRPM"); assert("getElevator"@.len() != "getRPM"@.len());
            reveal_strlit("getManifoldPressure"); assert("getElevator"@.len() != "getManifoldPressure"@.len());
            reveal_strlit("getWaterTemp"); assert("getElevator"@.len() != "getWaterTemp"@.len());
            reveal_strlit("getOilTemp"); assert("getElevator"@.len() != "getOilTemp"@.len());
            reveal_strlit("getPitch"); assert("getElevator"@.len() != "getPitch"@.len());
            reveal_strlit("getEffHp"); assert("getElevator"@.len() != "getEffHp"@.len());
            reveal_strlit("getThrust"); assert("getElevator"@.len() != "getThrust"@.len());
            reveal_strlit("getHorsePower"); assert("getElevator"@.len() != "getHorsePower"@.len());
            reveal_strlit("getEngineResponse"); assert("getElevator"@.len() != "getEngineResponse"@.len());
            reveal_strlit("getPropEfficiency"); assert("getElevator"@.len() != "getPropEfficiency"@.len());
            reveal_strlit("getWepKg"); assert("getElevator"@.len() != "getWepKg"@.len());
            reveal_strlit("getWepTime"); assert("getElevator"@.len() != "getWepTime"@.len());
            reveal_strlit("getHeatTolerance"); assert("getElevator"@.len() != "getHeatTolerance"@.len());
            reveal_strlit("getPowerPercent"); assert("getElevator"@.len() != "getPowerPercent"@.len());
            reveal_strlit("getManifoldPressurePounds"); assert("getElevator"@.len() != "getManifoldPressurePounds"@.len());
            reveal_strlit("getManifoldPressureInchHg"); assert("getElevator"@.len() != "getManifoldPressureInchHg"@.len());
            reveal_strlit("getManifoldPressureDisplay"); assert("getElevator"@.len() != "getManifoldPressureDisplay"@.len());
            reveal_strlit("getUnknownMixture"); assert("getElevator"@.len() != "getUnknownMixture"@.len());
            reveal_strlit("getRadiator"); assert("getElevator"@[3] != "getRadiator"@[3]);
            reveal_strlit("getCompressorStage"); assert("getElevator"@.len() != "getCompressorStage"@.len());
            reveal_strlit("getFuelPercent"); assert("getElevator"@.len() != "getFuelPercent"@.len());
            reveal_strlit("getRPMThrottle"); assert("getElevator"@.len() != "getRPMThrottle"@.len());
            reveal_strlit("getGear"); assert("getElevator"@.len() != "getGear"@.len());
            reveal_strlit("getFlaps"); assert("getElevator"@.len() != "getFlaps"@.len());
            reveal_strlit("getAirbrake"); assert("getElevator"@[3] != "getAirbrake"@[3]);
            reveal_strlit("getAileron"); assert("getElevator"@.len() != "getAileron"@.len());
        },
        DoubleAccessor::Rudder => {
            reveal_strlit("getRudder");
            reveal_strlit("getIAS"); assert("getRudder"@.len() != "getIAS"@.len());
            reveal_strlit("getTAS"); assert("getRudder"@.len() != "getTAS"@.len());
            reveal_strlit("getMach"); assert("getRudder"@.len() != "getMach"@.len());
            reveal_strlit("getAoA"); assert("getRudder"@.len() != "getAoA"@.len());
            reveal_strlit("getAoS"); assert("getRudder"@.len() != "getAoS"@.len());
            reveal_strlit("getNy"); assert("getRudder"@.len() != "getNy"@.len());
            reveal_strlit("getVario"); assert("getRudder"@.len() != "getVario"@.len());
            reveal_strlit("getAltitude"); assert("getRudder"@.len() != "getAltitude"@.len());
            reveal_strlit("getRadioAltitude"); assert("getRudder"@.len() != "getRadioAltitude"@.len());
            reveal_strlit("getCompass"); assert("getRudder"@.len() != "getCompass"@.len());
            reveal_strlit("getSEP"); assert("getRudder"@.len() != "getSEP"@.len());
            reveal_strlit("getAcceleration"); assert("getRudder"@.len() != "getAcceleration"@.len());
            reveal_strlit("getTurnRate"); assert("getRudder"@.len() != "getTurnRate"@.len());
            reveal_strlit("getTurnRadius"); assert("getRudder"@.len() != "getTurnRadius"@.len());
            reveal_strlit("getRollRate"); assert("getRudder"@.len() != "getRollRate"@.len());
            reveal_strlit("getEnergyJKg"); assert("getRudder"@.len() != "getEnergyJKg"@.len());
            reveal_strlit("getMassFuel"); assert("getRudder"@.len() != "getMassFuel"@.len());
            reveal_strlit("getTotalWeight"); assert("getRudder"@.len() != "getTotalWeight"@.len());
            reveal_strlit("getFuelTimeMili"); assert("getRudder"@.len() != "getFuelTimeMili"@.len());
            reveal_strlit("getThrottle"); assert("getRudder"@.len() != "getThrottle"@.len());
            reveal_strlit("getRPM"); assert("getRudder"@.len() != "getRPM"@.len());
            reveal_strlit("getManifoldPressure"); assert("getRudder"@.len() != "getManifoldPressure"@.len());
            reveal_strlit("getWaterTemp"); assert("getRudder"@.len() != "getWaterTemp"@.len());
            reveal_strlit("getOilTemp"); assert("getRudder"@.len() != "getOilTemp"@.len());
            reveal_strlit("getPitch"); assert("getRudder"@.len() != "getPitch"@.len());
            reveal_strlit("getEffHp"); assert("getRudder"@.len() != "getEffHp"@.len());
            reveal_strlit("getThrust"); assert("getRudder"@[3] != "getThrust"@[3]);
            reveal_strlit("getHorsePower"); assert("getRudder"@.len() != "getHorsePower"@.len());
            reveal_strlit("getEngineResponse"); assert("getRudder"@.len() != "getEngineResponse"@.len());
            reveal_strlit("getPropEfficiency"); assert("getRudder"@.len() != "getPropEfficiency"@.len());
            reveal_strlit("getWepKg"); assert("getRudder"@.len() != "getWepKg"@.len());
            reveal_strlit("getWepTime"); assert("getRudder"@.len() != "getWepTime"@.len());
            reveal_strlit("getHeatTolerance"); assert("getRudder"@.len() != "getHeatTolerance"@.len());
            reveal_strlit("getPowerPercent"); assert("getRudder"@.len() != "getPowerPercent"@.len());
            reveal_strlit("getManifoldPressurePounds"); assert("getRudder"@.len() != "getManifoldPressurePounds"@.len());
            reveal_strlit("getManifoldPressureInchHg"); assert("getRudder"@.len() != "getManifoldPressureInchHg"@.len());
            reveal_strlit("getManifoldPressureDisplay"); assert("getRudder"@.len() != "getManifoldPressureDisplay"@.len());
            reveal_strlit("getUnknownMixture"); assert("getRudder"@.len() != "getUnknownMixture"@.len());
            reveal_strlit("getRadiator"); assert("getRudder"@.len() != "getRadiator"@.len());
            reveal_strlit("getCompressorStage"); assert("getRudder"@.len() != "getCompressorStage"@.len());
            reveal_strlit("getFuelPercent"); assert("getRudder"@.len() != "getFuelPercent"@.len());
            reveal_strlit("getRPMThrottle"); assert("getRudder"@.len() != "getRPMThrottle"@.len());
            reveal_strlit("getGear"); assert("getRudder"@.len() != "getGear"@.len());
            reveal_strlit("getFlaps"); assert("getRudder"@.len() != "getFlaps"@.len());
            reveal_strlit("getAirbrake"); assert("getRudder"@.len() != "getAirbrake"@.len());
            reveal_strlit("getAileron"); assert("getRudder"@.len() != "getAileron"@.len());
            reveal_strlit("getElevator"); assert("getRudder"@.len() != "getElevator"@.len());
        },
        DoubleAccessor::WingSweep => {
            reveal_strlit("getWingSweep");
            reveal_strlit("getIAS"); assert("getWingSweep"@.len() != "getIAS"@.len());
            reveal_strlit("getTAS"); assert("getWingSweep"@.len() != "getTAS"@.len());
            reveal_strlit("getMach"); assert("getWingSweep"@.len() != "getMach"@.len());
            reveal_strlit("getAoA"); assert("getWingSweep"@.len() != "getAoA"@.len());
            reveal_strlit("getAoS"); assert("getWingSweep"@.len() != "getAoS"@.len());
            reveal_strlit("getNy"); assert("getWingSweep"@.len() != "getNy"@.len());
            reveal_strlit("getVario"); assert("getWingSweep"@.len() != "getVario"@.len());
            reveal_strlit("getAltitude"); assert("getWingSweep"@.len() != "getAltitude"@.len());
            reveal_strlit("getRadioAltitude"); assert("getWingSweep"@.len() != "getRadioAltitude"@.len());
            reveal_strlit("getCompass"); assert("getWingSweep"@.len() != "getCompass"@.len());
            reveal_strlit("getSEP"); assert("getWingSweep"@.len() != "getSEP"@.len());
            reveal_strlit("getAcceleration"); assert("getWingSweep"@.len() != "getAcceleration"@.len());
            reveal_strlit("getTurnRate"); assert("getWingSweep"@.len() != "getTurnRate"@.len());
            reveal_strlit("getTurnRadius"); assert("getWingSweep"@.len() != "getTurnRadius"@.len());
            reveal_strlit("getRollRate"); assert("getWingSweep"@.len() != "getRollRate"@.len());
            reveal_strlit("getEnergyJKg"); assert("getWingSweep"@[3] != "getEnergyJKg"@[3]);
            reveal_strlit("getMassFuel"); assert("getWingSweep"@.len() != "getMassFuel"@.len());
            reveal_strlit("getTotalWeight"); assert("getWingSweep"@.len() != "getTotalWeight"@.len());
            reveal_strlit("getFuelTimeMili"); assert("getWingSweep"@.len() != "getFuelTimeMili"@.len());
            reveal_strlit("getThrottle"); assert("getWingSweep"@.len() != "getThrottle"@.len());
            reveal_strlit("getRPM"); assert("getWingSweep"@.len() != "getRPM"@.len());
            reveal_strlit("getManifoldPressure"); assert("getWingSweep"@.len() != "getManifoldPressure"@.len());
            reveal_strlit("getWaterTemp"); assert("getWingSweep"@[4] != "getWaterTemp"@[4]);
            reveal_strlit("getOilTemp"); assert("getWingSweep"@.len() != "getOilTemp"@.len());
            reveal_strlit("getPitch"); assert("getWingSweep"@.len() != "getPitch"@.len());
            reveal_strlit("getEffHp"); assert("getWingSweep"@.len() != "getEffHp"@.len());
            reveal_strlit("getThrust"); assert("getWingSweep"@.len() != "getThrust"@.len());
            reveal_strlit("getHorsePower"); assert("getWingSweep"@.len() != "getHorsePower"@.len());
            reveal_strlit("getEngineResponse"); assert("getWingSweep"@.len() != "getEngineResponse"@.len());
            reveal_strlit("getPropEfficiency"); assert("getWingSweep"@.len() != "getPropEfficiency"@.len());
            reveal_strlit("getWepKg"); assert("getWingSweep"@.len() != "getWepKg"@.len());
            reveal_strlit("getWepTime"); assert("getWingSweep"@.len() != "getWepTime"@.len());
            reveal_strlit("getHeatTolerance"); assert("getWingSweep"@.len() != "getHeatTolerance"@.len());
            reveal_strlit("getPowerPercent"); assert("getWingSweep"@.len() != "getPowerPercent"@.len());
            reveal_strlit("getManifoldPressurePounds"); assert("getWingSweep"@.len() != "getManifoldPressurePounds"@.len());
            reveal_strlit("getManifoldPressureInchHg"); assert("getWingSweep"@.len() != "getManifoldPressureInchHg"@.len());
            reveal_strlit("getManifoldPressureDisplay"); assert("getWingSweep"@.len() != "getManifoldPressureDisplay"@.len());
            reveal_strlit("getUnknownMixture"); assert("getWingSweep"@.len() != "getUnknownMixture"@.len());
            reveal_strlit("getRadiator"); assert("getWingSweep"@.len() != "getRadiator"@.len());
            reveal_strlit("getCompressorStage"); assert("getWingSweep"@.len() != "getCompressorStage"@.len());
            reveal_strlit("getFuelPercent"); assert("getWingSweep"@.len() != "getFuelPercent"@.len());
            reveal_strlit("getRPMThrottle"); assert("getWingSweep"@.len() != "getRPMThrottle"@.len());
            reveal_strlit("getGear"); assert("getWingSweep"@.len() != "getGear"@.len());
            reveal_strlit("getFlaps"); assert("getWingSweep"@.len() != "getFlaps"@.len());
            reveal_strlit("getAirbrake"); assert("getWingSweep"@.len() != "getAirbrake"@.len());
            reveal_strlit("getAileron"); assert("getWingSweep"@.len() != "getAileron"@.len());
            reveal_strlit("getElevator"); assert("getWingSweep"@.len() != "getElevator"@.len());
            reveal_strlit("getRudder"); assert("getWingSweep"@.len() != "getRudder"@.len());
        },
        DoubleAccessor::SpeedLimitRatio => {
            reveal_strlit("getSpeedLimitRatio");
            reveal_strlit("getIAS"); assert("getSpeedLimitRatio"@.len() != "getIAS"@.len());
            reveal_strlit("getTAS"); assert("getSpeedLimitRatio"@.len() != "getTAS"@.len());
            reveal_strlit("getMach"); assert("getSpeedLimitRatio"@.len() != "getMach"@.len());
            reveal_strlit("getAoA"); assert("getSpeedLimitRatio"@.len() != "getAoA"@.len());
            reveal_strlit("getAoS"); assert("getSpeedLimitRatio"@.len() != "getAoS"@.len());
            reveal_strlit("getNy"); assert("getSpeedLimitRatio"@.len() != "getNy"@.len());
            reveal_strlit("getVario"); assert("getSpeedLimitRatio"@.len() != "getVario"@.len());
            reveal_strlit("getAltitude"); assert("getSpeedLimitRatio"@.len() != "getAltitude"@.len());
            reveal_strlit("getRadioAltitude"); assert("getSpeedLimitRatio"@.len() != "getRadioAltitude"@.len());
            reveal_strlit("getCompass"); assert("getSpeedLimitRatio"@.len() != "getCompass"@.len());
            reveal_strlit("getSEP"); assert("getSpeedLimitRatio"@.len() != "getSEP"@.len());
            reveal_strlit("getAcceleration"); assert("getSpeedLimitRatio"@.len() != "getAcceleration"@.len());
            reveal_strlit("getTurnRate"); assert("getSpeedLimitRatio"@.len() != "getTurnRate"@.len());
            reveal_strlit("getTurnRadius"); assert("getSpeedLimitRatio"@.len() != "getTurnRadius"@.len());
            reveal_strlit("getRollRate"); assert("getSpeedLimitRatio"@.len() != "getRollRate"@.len());
            reveal_strlit("getEnergyJKg"); assert("getSpeedLimitRatio"@.len() != "getEnergyJKg"@.len());
            reveal_strlit("getMassFuel"); assert("getSpeedLimitRatio"@.len() != "getMassFuel"@.len());
            reveal_strlit("getTotalWeight"); assert("getSpeedLimitRatio"@.len() != "getTotalWeight"@.len());
            reveal_strlit("getFuelTimeMili"); assert("getSpeedLimitRatio"@.len() != "getFuelTimeMili"@.len());
            reveal_strlit("getThrottle"); assert("getSpeedLimitRatio"@.len() != "getThrottle"@.len());
            reveal_strlit("getRPM"); assert("getSpeedLimitRatio"@.len() != "getRPM"@.len());
            reveal_strlit("getManifoldPressure"); assert("getSpeedLimitRatio"@.len() != "getManifoldPressure"@.len());
            reveal_strlit("getWaterTemp"); assert("getSpeedLimitRatio"@.len() != "getWaterTemp"@.len());
            reveal_strlit("getOilTemp"); assert("getSpeedLimitRatio"@.len() != "getOilTemp"@.len());
            reveal_strlit("getPitch"); assert("getSpeedLimitRatio"@.len() != "getPitch"@.len());
            reveal_strlit("getEffHp"); assert("getSpeedLimitRatio"@.len() != "getEffHp"@.len());
            reveal_strlit("getThrust"); assert("getSpeedLimitRatio"@.len() != "getThrust"@.len());
            reveal_strlit("getHorsePower"); assert("getSpeedLimitRatio"@.len() != "getHorsePower"@.len());
            reveal_strlit("getEngineResponse"); assert("getSpeedLimitRatio"@.len() != "getEngineResponse"@.len());
            reveal_strlit("getPropEfficiency"); assert("getSpeedLimitRatio"@.len() != "getPropEfficiency"@.len());
            reveal_strlit("getWepKg"); assert("getSpeedLimitRatio"@.len() != "getWepKg"@.len());
            reveal_strlit("getWepTime"); assert("getSpeedLimitRatio"@.len() != "getWepTime"@.len());
            reveal_strlit("getHeatTolerance"); assert("getSpeedLimitRatio"@.len() != "getHeatTolerance"@.len());
            reveal_strlit("getPowerPercent"); assert("getSpeedLimitRatio"@.len() != "getPowerPercent"@.len());
            reveal_strlit("getManifoldPressurePounds"); assert("getSpeedLimitRatio"@.len() != "getManifoldPressurePounds"@.len());
            reveal_strlit("getManifoldPressureInchHg"); assert("getSpeedLimitRatio"@.len() != "getManifoldPressureInchHg"@.len());
            reveal_strlit("getManifoldPressureDisplay"); assert("getSpeedLimitRatio"@.len() != "getManifoldPressureDisplay"@.len());
            reveal_strlit("getUnknownMixture"); assert("getSpeedLimitRatio"@.len() != "getUnknownMixture"@.len());
            reveal_strlit("getRadiator"); assert("getSpeedLimitRatio"@.len() != "getRadiator"@.len());
            reveal_strlit("getCompressorStage"); assert("getSpeedLimitRatio"@[3] != "getCompressorStage"@[3]);
            reveal_strlit("getFuelPercent"); assert("getSpeedLimitRatio"@.len() != "getFuelPercent"@.len());
            reveal_strlit("getRPMThrottle"); assert("getSpeedLimitRatio"@.len() != "getRPMThrottle"@.len());
            reveal_strlit("getGear"); assert("getSpeedLimitRatio"@.len() != "getGear"@.len());
            reveal_strlit("getFlaps"); assert("getSpeedLimitRatio"@.len() != "getFlaps"@.len());
            reveal_strlit("getAirbrake"); assert("getSpeedLimitRatio"@.len() != "getAirbrake"@.len());
            reveal_strlit("getAileron"); assert("getSpeedLimitRatio"@.len() != "getAileron"@.len());
            reveal_strlit("getElevator"); assert("getSpeedLimitRatio"@.len() != "getElevator"@.len());
            reveal_strlit("getRudder"); assert("getSpeedLimitRatio"@.len() != "getRudder"@.len());
            reveal_strlit("getWingSweep"); assert("getSpeedLimitRatio"@.len() != "getWingSweep"@.len());
        },
        DoubleAccessor::AileronLockRatio => {
            reveal_strlit("getAileronLockRatio");
            reveal_strlit("getIAS"); assert("getAileronLockRatio"@.len() != "getIAS"@.len());
            reveal_strlit("getTAS"); assert("getAileronLockRatio"@.len() != "getTAS"@.len());
            reveal_strlit("getMach"); assert("getAileronLockRatio"@.len() != "getMach"@.len());
            reveal_strlit("getAoA"); assert("getAileronLockRatio"@.len() != "getAoA"@.len());
            reveal_strlit("getAoS"); assert("getAileronLockRatio"@.len() != "getAoS"@.len());
            reveal_strlit("getNy"); assert("getAileronLockRatio"@.len() != "getNy"@.len());
            reveal_strlit("getVario"); assert("getAileronLockRatio"@.len() != "getVario"@.len());
            reveal_strlit("getAltitude"); assert("getAileronLockRatio"@.len() != "getAltitude"@.len());
            reveal_strlit("getRadioAltitude"); assert("getAileronLockRatio"@.len() != "getRadioAltitude"@.len());
            reveal_strlit("getCompass"); assert("getAileronLockRatio"@.len() != "getCompass"@.len());
            reveal_strlit("getSEP"); assert("getAileronLockRatio"@.len() != "getSEP"@.len());
            reveal_strlit("getAcceleration"); assert("getAileronLockRatio"@.len() != "getAcceleration"@.len());
            reveal_strlit("getTurnRate"); assert("getAileronLockRatio"@.len() != "getTurnRate"@.len());
            reveal_strlit("getTurnRadius"); assert("getAileronLockRatio"@.len() != "getTurnRadius"@.len());
            reveal_strlit("getRollRate"); assert("getAileronLockRatio"@.len() != "getRollRate"@.len());
            reveal_strlit("getEnergyJKg"); assert("getAileronLockRatio"@.len() != "getEnergyJKg"@.len());
            reveal_strlit("getMassFuel"); assert("getAileronLockRatio"@.len() != "getMassFuel"@.len());
            reveal_strlit("getTotalWeight"); assert("getAileronLockRatio"@.len() != "getTotalWeight"@.len());
            reveal_strlit("getFuelTimeMili"); assert("getAileronLockRatio"@.len() != "getFuelTimeMili"@.len());
            reveal_strlit("getThrottle"); assert("getAileronLockRatio"@.len() != "getThrottle"@.len());
            reveal_strlit("getRPM"); assert("getAileronLockRatio"@.len() != "getRPM"@.len());
            reveal_strlit("getManifoldPressure"); assert("getAileronLockRatio"@[3] != "getManifoldPressure"@[3]);
            reveal_strlit("getWaterTemp"); assert("getAileronLockRatio"@.len() != "getWaterTemp"@.len());
            reveal_strlit("getOilTemp"); assert("getAileronLockRatio"@.len() != "getOilTemp"@.len());
            reveal_strlit("getPitch"); assert("getAileronLockRatio"@.len() != "getPitch"@.len());
            reveal_strlit("getEffHp"); assert("getAileronLockRatio"@.len() != "getEffHp"@.len());
            reveal_strlit("getThrust"); assert("getAileronLockRatio"@.len() != "getThrust"@.len());
            reveal_strlit("getHorsePower"); assert("getAileronLockRatio"@.len() != "getHorsePower"@.len());
            reveal_strlit("getEngineResponse"); assert("getAileronLockRatio"@.len() != "getEngineResponse"@.len());
            reveal_strlit("getPropEfficiency"); assert("getAileronLockRatio"@.len() != "getPropEfficiency"@.len());
            reveal_strlit("getWepKg"); assert("getAileronLockRatio"@.len() != "getWepKg"@.len());
            reveal_strlit("getWepTime"); assert("getAileronLockRatio"@.len() != "getWepTime"@.len());
            reveal_strlit("getHeatTolerance"); assert("getAileronLockRatio"@.len() != "getHeatTolerance"@.len());
            reveal_strlit("getPowerPercent"); assert("getAileronLockRatio"@.len() != "getPowerPercent"@.len());
            reveal_strlit("getManifoldPressurePounds"); assert("getAileronLockRatio"@.len() != "getManifoldPressurePounds"@.len());
            reveal_strlit("getManifoldPressureInchHg"); assert("getAileronLockRatio"@.len() != "getManifoldPressureInchHg"@.len());
            reveal_strlit("getManifoldPressureDisplay"); assert("getAileronLockRatio"@.len() != "getManifoldPressureDisplay"@.len());
            reveal_strlit("getUnknownMixture"); assert("getAileronLockRatio"@.len() != "getUnknownMixture"@.len());
            reveal_strlit("getRadiator"); assert("getAileronLockRatio"@.len() != "getRadiator"@.len());
            reveal_strlit("getCompressorStage"); assert("getAileronLockRatio"@.len() != "getCompressorStage"@.len());
            reveal_strlit("getFuelPercent"); assert("getAileronLockRatio"@.len() != "getFuelPercent"@.len());
            reveal_strlit("getRPMThrottle"); assert("getAileronLockRatio"@.len() != "getRPMThrottle"@.len());
            reveal_strlit("getGear"); assert("getAileronLockRatio"@.len() != "getGear"@.len());
            reveal_strlit("getFlaps"); assert("getAileronLockRatio"@.len() != "getFlaps"@.len());
            reveal_strlit("getAirbrake"); assert("getAileronLockRatio"@.len() != "getAirbrake"@.len());
            reveal_strlit("getAileron"); assert("getAileronLockRatio"@.len() != "getAileron"@.len());
            reveal_strlit("getElevator"); assert("getAileronLockRatio"@.len() != "getElevator"@.len());
            reveal_strlit("getRudder"); assert("getAileronLockRatio"@.len() != "getRudder"@.len());
            reveal_strlit("getWingSweep"); assert("getAileronLockRatio"@.len() != "getWingSweep"@.len());
            reveal_strlit("getSpeedLimitRatio"); assert("getAileronLockRatio"@.len() != "getSpeedLimitRatio"@.len());
        },
        DoubleAccessor::RudderLockRatio => {
            reveal_strlit("getRudderLockRatio");
            reveal_strlit("getIAS"); assert("getRudderLockRatio"@.len() != "getIAS"@.len());
            reveal_strlit("getTAS"); assert("getRudderLockRatio"@.len() != "getTAS"@.len());
            reveal_strlit("getMach"); assert("getRudderLockRatio"@.len() != "getMach"@.len());
            reveal_strlit("getAoA"); assert("getRudderLockRatio"@.len() != "getAoA"@.len());
            reveal_strlit("getAoS"); assert("getRudderLockRatio"@.len() != "getAoS"@.len());
            reveal_strlit("getNy"); assert("getRudderLockRatio"@.len() != "getNy"@.len());
            reveal_strlit("getVario"); assert("getRudderLockRatio"@.len() != "getVario"@.len());
            reveal_strlit("getAltitude"); assert("getRudderLockRatio"@.len() != "getAltitude"@.len());
            reveal_strlit("getRadioAltitude"); assert("getRudderLockRatio"@.len() != "getRadioAltitude"@.len());
            reveal_strlit("getCompass"); assert("getRudderLockRatio"@.len() != "getCompass"@.len());
            reveal_strlit("getSEP"); assert("getRudderLockRatio"@.len() != "getSEP"@.len());
            reveal_strlit("getAcceleration"); assert("getRudderLockRatio"@.len() != "getAcceleration"@.len());
            reveal_strlit("getTurnRate"); assert("getRudderLockRatio"@.len() != "getTurnRate"@.len());
            reveal_strlit("getTurnRadius"); assert("getRudderLockRatio"@.len() != "getTurnRadius"@.len());
            reveal_strlit("getRollRate"); assert("getRudderLockRatio"@.len() != "getRollRate"@.len());
            reveal_strlit("getEnergyJKg"); assert("getRudderLockRatio"@.len() != "getEnergyJKg"@.len());
            reveal_strlit("getMassFuel"); assert("getRudderLockRatio"@.len() != "getMassFuel"@.len());
            reveal_strlit("getTotalWeight"); assert("getRudderLockRatio"@.len() != "getTotalWeight"@.len());
            reveal_strlit("getFuelTimeMili"); assert("getRudderLockRatio"@.len() != "getFuelTimeMili"@.len());
            reveal_strlit("getThrottle"); assert("getRudderLockRatio"@.len() != "getThrottle"@.len());
            reveal_strlit("getRPM"); assert("getRudderLockRatio"@.len() != "getRPM"@.len());
            reveal_strlit("getManifoldPressure"); assert("getRudderLockRatio"@.len() != "getManifoldPressure"@.len());
            reveal_strlit("getWaterTemp"); assert("getRudderLockRatio"@.len() != "getWaterTemp"@.len());
            reveal_strlit("getOilTemp"); assert("getRudderLockRatio"@.len() != "getOilTemp"@.len());
            reveal_strlit("getPitch"); assert("getRudderLockRatio"@.len() != "getPitch"@.len());
            reveal_strlit("getEffHp"); assert("getRudderLockRatio"@.len() != "getEffHp"@.len());
            reveal_strlit("getThrust"); assert("getRudderLockRatio"@.len() != "getThrust"@.len());
            reveal_strlit("getHorsePower"); assert("getRudderLockRatio"@.len() != "getHorsePower"@.len());
            reveal_strlit("getEngineResponse"); assert("getRudderLockRatio"@.len() != "getEngineResponse"@.len());
            reveal_strlit("getPropEfficiency"); assert("getRudderLockRatio"@.len() != "getPropEfficiency"@.len());
            reveal_strlit("getWepKg"); assert("getRudderLockRatio"@.len() != "getWepKg"@.len());
            reveal_strlit("getWepTime"); assert("getRudderLockRatio"@.len() != "getWepTime"@.len());
            reveal_strlit("getHeatTolerance"); assert("getRudderLockRatio"@.len() != "getHeatTolerance"@.len());
            reveal_strlit("getPowerPercent"); assert("getRudderLockRatio"@.len() != "getPowerPercent"@.len());
            reveal_strlit("getManifoldPressurePounds"); assert("getRudderLockRatio"@.len() != "getManifoldPressurePounds"@.len());
            reveal_strlit("getManifoldPressureInchHg"); assert("getRudderLockRatio"@.len() != "getManifoldPressureInchHg"@.len());
            reveal_strlit("getManifoldPressureDisplay"); assert("getRudderLockRatio"@.len() != "getManifoldPressureDisplay"@.len());
            reveal_strlit("getUnknownMixture"); assert("getRudderLockRatio"@.len() != "getUnknownMixture"@.len());
            reveal_strlit("getRadiator"); assert("getRudderLockRatio"@.len() != "getRadiator"@.len());
            reveal_strlit("getCompressorStage"); assert("getRudderLockRatio"@[3] != "getCompressorStage"@[3]);
            reveal_strlit("getFuelPercent"); assert("getRudderLockRatio"@.len() != "getFuelPercent"@.len());
            reveal_strlit("getRPMThrottle"); assert("getRudderLockRatio"@.len() != "getRPMThrottle"@.len());
            reveal_strlit("getGear"); assert("getRudderLockRatio"@.len() != "getGear"@.len());
            reveal_strlit("getFlaps"); assert("getRudderLockRatio"@.len() != "getFlaps"@.len());
            reveal_strlit("getAirbrake"); assert("getRudderLockRatio"@.len() != "getAirbrake"@.len());
            reveal_strlit("getAileron"); assert("getRudderLockRatio"@.len() != "getAileron"@.len());
            reveal_strlit("getElevator"); assert("getRudderLockRatio"@.len() != "getElevator"@.len());
            reveal_strlit("getRudder"); assert("getRudderLockRatio"@.len() != "getRudder"@.len());
            reveal_strlit("getWingSweep"); assert("getRudderLockRatio"@.len() != "getWingSweep"@.len());
            reveal_strlit("getSpeedLimitRatio"); assert("getRudderLockRatio"@[3] != "getSpeedLimitRatio"@[3]);
            reveal_strlit("getAileronLockRatio"); assert("getRudderLockRatio"@.len() != "getAileronLockRatio"@.len());
        },
        DoubleAccessor::UnitMachLimitRatio => {
            reveal_strlit("getUnitMachLimitRatio");
            reveal_strlit("getIAS"); assert("getUnitMachLimitRatio"@.len() != "getIAS"@.len());
            reveal_strlit("getTAS"); assert("getUnitMachLimitRatio"@.len() != "getTAS"@.len());
            reveal_strlit("getMach"); assert("getUnitMachLimitRatio"@.len() != "getMach"@.len());
            reveal_strlit("getAoA"); assert("getUnitMachLimitRatio"@.len() != "getAoA"@.len());
            reveal_strlit("getAoS"); assert("getUnitMachLimitRatio"@.len() != "getAoS"@.len());
            reveal_strlit("getNy"); assert("getUnitMachLimitRatio"@.len() != "getNy"@.len());
            reveal_strlit("getVario"); assert("getUnitMachLimitRatio"@.len() != "getVario"@.len());
            reveal_strlit("getAltitude"); assert("getUnitMachLimitRatio"@.len() != "getAltitude"@.len());
            reveal_strlit("getRadioAltitude"); assert("getUnitMachLimitRatio"@.len() != "getRadioAltitude"@.len());
            reveal_strlit("getCompass"); assert("getUnitMachLimitRatio"@.len() != "getCompass"@.len());
            reveal_strlit("getSEP"); assert("getUnitMachLimitRatio"@.len() != "getSEP"@.len());
            reveal_strlit("getAcceleration"); assert("getUnitMachLimitRatio"@.len() != "getAcceleration"@.len());
            reveal_strlit("getTurnRate"); assert("getUnitMachLimitRatio"@.len() != "getTurnRate"@.len());
            reveal_strlit("getTurnRadius"); assert("getUnitMachLimitRatio"@.len() != "getTurnRadius"@.len());
            reveal_strlit("getRollRate"); assert("getUnitMachLimitRatio"@.len() != "getRollRate"@.len());
            reveal_strlit("getEnergyJKg"); assert("getUnitMachLimitRatio"@.len() != "getEnergyJKg"@.len());
            reveal_strlit("getMassFuel"); assert("getUnitMachLimitRatio"@.len() != "getMassFuel"@.len());
            reveal_strlit("getTotalWeight"); assert("getUnitMachLimitRatio"@.len() != "getTotalWeight"@.len());
            reveal_strlit("getFuelTimeMili"); assert("getUnitMachLimitRatio"@.len() != "getFuelTimeMili"@.len());
            reveal_strlit("getThrottle"); assert("getUnitMachLimitRatio"@.len() != "getThrottle"@.len());
            reveal_strlit("getRPM"); assert("getUnitMachLimitRatio"@.len() != "getRPM"@.len());
            reveal_strlit("getManifoldPressure"); assert("getUnitMachLimitRatio"@.len() != "getManifoldPressure"@.len());
            reveal_strlit("getWaterTemp"); assert("getUnitMachLimitRatio"@.len() != "getWaterTemp"@.len());
            reveal_strlit("getOilTemp"); assert("getUnitMachLimitRatio"@.len() != "getOilTemp"@.len());
            reveal_strlit("getPitch"); assert("getUnitMachLimitRatio"@.len() != "getPitch"@.len());
            reveal_strlit("getEffHp"); assert("getUnitMachLimitRatio"@.len() != "getEffHp"@.len());
            reveal_strlit("getThrust"); assert("getUnitMachLimitRatio"@.len() != "getThrust"@.len());
            reveal_strlit("getHorsePower"); assert("getUnitMachLimitRatio"@.len() != "getHorsePower"@.len());
            reveal_strlit("getEngineResponse"); assert("getUnitMachLimitRatio"@.len() != "getEngineResponse"@.len());
            reveal_strlit("getPropEfficiency"); assert("getUnitMachLimitRatio"@.len() != "getPropEfficiency"@.len());
            reveal_strlit("getWepKg"); assert("getUnitMachLimitRatio"@.len() != "getWepKg"@.len());
            reveal_strlit("getWepTime"); assert("getUnitMachLimitRatio"@.len() != "getWepTime"@.len());
            reveal_strlit("getHeatTolerance"); assert("getUnitMachLimitRatio"@.len() != "getHeatTolerance"@.len());
            reveal_strlit("getPowerPercent"); assert("getUnitMachLimitRatio"@.len() != "getPowerPercent"@.len());
            reveal_strlit("getManifoldPressurePounds"); assert("getUnitMachLimitRatio"@.len() != "getManifoldPressurePounds"@.len());
            reveal_strlit("getManifoldPressureInchHg"); assert("getUnitMachLimitRatio"@.len() != "getManifoldPressureInchHg"@.len());
            reveal_strlit("getManifoldPressureDisplay"); assert("getUnitMachLimitRatio"@.len() != "getManifoldPressureDisplay"@.len());
            reveal_strlit("getUnknownMixture"); assert("getUnitMachLimitRatio"@.len() != "getUnknownMixture"@.len());
            reveal_strlit("getRadiator"); assert("getUnitMachLimitRatio"@.len() != "getRadiator"@.len());
            reveal_strlit("getCompressorStage"); assert("getUnitMachLimitRatio"@.len() != "getCompressorStage"@.len());
            reveal_strlit("getFuelPercent"); assert("getUnitMachLimitRatio"@.len() != "getFuelPercent"@.len());
            reveal_strlit("getRPMThrottle"); assert("getUnitMachLimitRatio"@.len() != "getRPMThrottle"@.len());
            reveal_strlit("getGear"); assert("getUnitMachLimitRatio"@.len() != "getGear"@.len());
            reveal_strlit("getFlaps"); assert("getUnitMachLimitRatio"@.len() != "getFlaps"@.len());
            reveal_strlit("getAirbrake"); assert("getUnitMachLimitRatio"@.len() != "getAirbrake"@.len());
            reveal_strlit("getAileron"); assert("getUnitMachLimitRatio"@.len() != "getAileron"@.len());
            reveal_strlit("getElevator"); assert("getUnitMachLimitRatio"@.len() != "getElevator"@.len());
            reveal_strlit("getRudder"); assert("getUnitMachLimitRatio"@.len() != "getRudder"@.len());
            reveal_strlit("getWingSweep"); assert("getUnitMachLimitRatio"@.len() != "getWingSweep"@.len());
            reveal_strlit("getSpeedLimitRatio"); assert("getUnitMachLimitRatio"@.len() != "getSpeedLimitRatio"@.len());
            reveal_strlit("getAileronLockRatio"); assert("getUnitMachLimitRatio"@.len() != "getAileronLockRatio"@.len());
            reveal_strlit("getRudderLockRatio"); assert("getUnitMachLimitRatio"@.len() != "getRudderLockRatio"@.len());
        },
        DoubleAccessor::StallSpeed => {
            reveal_strlit("getStallSpeed");
            reveal_strlit("getIAS"); assert("getStallSpeed"@.len() != "getIAS"@.len());
            reveal_strlit("getTAS"); assert("getStallSpeed"@.len() != "getTAS"@.len());
            reveal_strlit("getMach"); assert("getStallSpeed"@.len() != "getMach"@.len());
            reveal_strlit("getAoA"); assert("getStallSpeed"@.len() != "getAoA"@.len());
            reveal_strlit("getAoS"); assert("getStallSpeed"@.len() != "getAoS"@.len());
            reveal_strlit("getNy"); assert("getStallSpeed"@.len() != "getNy"@.len());
            reveal_strlit("getVario"); assert("getStallSpeed"@.len() != "getVario"@.len());
            reveal_strlit("getAltitude"); assert("getStallSpeed"@.len() != "getAltitude"@.len());
            reveal_strlit("getRadioAltitude"); assert("getStallSpeed"@.len() != "getRadioAltitude"@.len());
            reveal_strlit("getCompass"); assert("getStallSpeed"@.len() != "getCompass"@.len());
            reveal_strlit("getSEP"); assert("getStallSpeed"@.len() != "getSEP"@.len());
            reveal_strlit("getAcceleration"); assert("getStallSpeed"@.len() != "getAcceleration"@.len());
            reveal_strlit("getTurnRate"); assert("getStallSpeed"@.len() != "getTurnRate"@.len());
            reveal_strlit("getTurnRadius"); assert("getStallSpeed"@[3] != "getTurnRadius"@[3]);
            reveal_strlit("getRollRate"); assert("getStallSpeed"@.len() != "getRollRate"@.len());
            reveal_strlit("getEnergyJKg"); assert("getStallSpeed"@.len() != "getEnergyJKg"@.len());
            reveal_strlit("getMassFuel"); assert("getStallSpeed"@.len() != "getMassFuel"@.len());
            reveal_strlit("getTotalWeight"); assert("getStallSpeed"@.len() != "getTotalWeight"@.len());
            reveal_strlit("getFuelTimeMili"); assert("getStallSpeed"@.len() != "getFuelTimeMili"@.len());
            reveal_strlit("getThrottle"); assert("getStallSpeed"@.len() != "getThrottle"@.len());
            reveal_strlit("getRPM"); assert("getStallSpeed"@.len() != "getRPM"@.len());
            reveal_strlit("getManifoldPressure"); assert("getStallSpeed"@.len() != "getManifoldPressure"@.len());
            reveal_strlit("getWaterTemp"); assert("getStallSpeed"@.len() != "getWaterTemp"@.len());
            reveal_strlit("getOilTemp"); assert("getStallSpeed"@.len() != "getOilTemp"@.len());
            reveal_strlit("getPitch"); assert("getStallSpeed"@.len() != "getPitch"@.len());
            reveal_strlit("getEffHp"); assert("getStallSpeed"@.len() != "getEffHp"@.len());
            reveal_strlit("getThrust"); assert("getStallSpeed"@.len() != "getThrust"@.len());
            reveal_strlit("getHorsePower"); assert("getStallSpeed"@[3] != "getHorsePower"@[3]);
            reveal_strlit("getEngineResponse"); assert("getStallSpeed"@.len() != "getEngineResponse"@.len());
            reveal_strlit("getPropEfficiency"); assert("getStallSpeed"@.len() != "getPropEfficiency"@.len());
            reveal_strlit("getWepKg"); assert("getStallSpeed"@.len() != "getWepKg"@.len());
            reveal_strlit("getWepTime"); assert("getStallSpeed"@.len() != "getWepTime"@.len());
            reveal_strlit("getHeatTolerance"); assert("getStallSpeed"@.len() != "getHeatTolerance"@.len());
            reveal_strlit("getPowerPercent"); assert("getStallSpeed"@.len() != "getPowerPercent"@.len());
            reveal_strlit("getManifoldPressurePounds"); assert("getStallSpeed"@.len() != "getManifoldPressurePounds"@.len());
            reveal_strlit("getManifoldPressureInchHg"); assert("getStallSpeed"@.len() != "getManifoldPressureInchHg"@.len());
            reveal_strlit("getManifoldPressureDisplay"); assert("getStallSpeed"@.len() != "getManifoldPressureDisplay"@.len());
            reveal_strlit("getUnknownMixture"); assert("getStallSpeed"@.len() != "getUnknownMixture"@.len());
            reveal_strlit("getRadiator"); assert("getStallSpeed"@.len() != "getRadiator"@.len());
            reveal_strlit("getCompressorStage"); assert("getStallSpeed"@.len() != "getCompressorStage"@.len());
            reveal_strlit("getFuelPercent"); assert("getStallSpeed"@.len() != "getFuelPercent"@.len());
            reveal_strlit("getRPMThrottle"); assert("getStallSpeed"@.len() != "getRPMThrottle"@.len());
            reveal_strlit("getGear"); assert("getStallSpeed"@.len() != "getGear"@.len());
            reveal_strlit("getFlaps"); assert("getStallSpeed"@.len() != "getFlaps"@.len());
            reveal_strlit("getAirbrake"); assert("getStallSpeed"@.len() != "getAirbrake"@.len());
            reveal_strlit("getAileron"); assert("getStallSpeed"@.len() != "getAileron"@.len());
            reveal_strlit("getElevator"); assert("getStallSpeed"@.len() != "getElevator"@.len());
            reveal_strlit("getRudder"); assert("getStallSpeed"@.len() != "getRudder"@.len());
            reveal_strlit("getWingSweep"); assert("getStallSpeed"@.len() != "getWingSweep"@.len());
            reveal_strlit("getSpeedLimitRatio"); assert("getStallSpeed"@.len() != "getSpeedLimitRatio"@.len());
            reveal_strlit("getAileronLockRatio"); assert("getStallSpeed"@.len() != "getAileronLockRatio"@.len());
            reveal_strlit("getRudderLockRatio"); assert("getStallSpeed"@.len() != "getRudderLockRatio"@.len());
            reveal_strlit("getUnitMachLimitRatio"); assert("getStallSpeed"@.len() != "getUnitMachLimitRatio"@.len());
        },
        DoubleAccessor::AviahorizonPitch => {
            reveal_strlit("getAviahorizonPitch");
            reveal_strlit("getIAS"); assert("getAviahorizonPitch"@.len() != "getIAS"@.len());
            reveal_strlit("getTAS"); assert("getAviahorizonPitch"@.len() != "getTAS"@.len());
            reveal_strlit("getMach"); assert("getAviahorizonPitch"@.len() != "getMach"@.len());
            reveal_strlit("getAoA"); assert("getAviahorizonPitch"@.len() != "getAoA"@.len());
            reveal_strlit("getAoS"); assert("getAviahorizonPitch"@.len() != "getAoS"@.len());
            reveal_strlit("getNy"); assert("getAviahorizonPitch"@.len() != "getNy"@.len());
            reveal_strlit("getVario"); assert("getAviahorizonPitch"@.len() != "getVario"@.len());
            reveal_strlit("getAltitude"); assert("getAviahorizonPitch"@.len() != "getAltitude"@.len());
            reveal_strlit("getRadioAltitude"); assert("getAviahorizonPitch"@.len() != "getRadioAltitude"@.len());
            reveal_strlit("getCompass"); assert("getAviahorizonPitch"@.len() != "getCompass"@.len());
            reveal_strlit("getSEP"); assert("getAviahorizonPitch"@.len() != "getSEP"@.len());
            reveal_strlit("getAcceleration"); assert("getAviahorizonPitch"@.len() != "getAcceleration"@.len());
            reveal_strlit("getTurnRate"); assert("getAviahorizonPitch"@.len() != "getTurnRate"@.len());
            reveal_strlit("getTurnRadius"); assert("getAviahorizonPitch"@.len() != "getTurnRadius"@.len());
            reveal_strlit("getRollRate"); assert("getAviahorizonPitch"@.len() != "getRollRate"@.len());
            reveal_strlit("getEnergyJKg"); assert("getAviahorizonPitch"@.len() != "getEnergyJKg"@.len());
            reveal_strlit("getMassFuel"); assert("getAviahorizonPitch"@.len() != "getMassFuel"@.len());
            reveal_strlit("getTotalWeight"); assert("getAviahorizonPitch"@.len() != "getTotalWeight"@.len());
            reveal_strlit("getFuelTimeMili"); assert("getAviahorizonPitch"@.len() != "getFuelTimeMili"@.len());
            reveal_strlit("getThrottle"); assert("getAviahorizonPitch"@.len() != "getThrottle"@.len());
            reveal_strlit("getRPM"); assert("getAviahorizonPitch"@.len() != "getRPM"@.len());
            reveal_strlit("getManifoldPressure"); assert("getAviahorizonPitch"@[3] != "getManifoldPressure"@[3]);
            reveal_strlit("getWaterTemp"); assert("getAviahorizonPitch"@.len() != "getWaterTemp"@.len());
            reveal_strlit("getOilTemp"); assert("getAviahorizonPitch"@.len() != "getOilTemp"@.len());
            reveal_strlit("getPitch"); assert("getAviahorizonPitch"@.len() != "getPitch"@.len());
            reveal_strlit("getEffHp"); assert("getAviahorizonPitch"@.len() != "getEffHp"@.len());
            reveal_strlit("getThrust"); assert("getAviahorizonPitch"@.len() != "getThrust"@.len());
            reveal_strlit("getHorsePower"); assert("getAviahorizonPitch"@.len() != "getHorsePower"@.len());
            reveal_strlit("getEngineResponse"); assert("getAviahorizonPitch"@.len() != "getEngineResponse"@.len());
            reveal_strlit("getPropEfficiency"); assert("getAviahorizonPitch"@.len() != "getPropEfficiency"@.len());
            reveal_strlit("getWepKg"); assert("getAviahorizonPitch"@.len() != "getWepKg"@.len());
            reveal_strlit("getWepTime"); assert("getAviahorizonPitch"@.len() != "getWepTime"@.len());
            reveal_strlit("getHeatTolerance"); assert("getAviahorizonPitch"@.len() != "getHeatTolerance"@.len());
            reveal_strlit("getPowerPercent"); assert("getAviahorizonPitch"@.len() != "getPowerPercent"@.len());
            reveal_strlit("getManifoldPressurePounds"); assert("getAviahorizonPitch"@.len() != "getManifoldPressurePounds"@.len());
            reveal_strlit("getManifoldPressureInchHg"); assert("getAviahorizonPitch"@.len() != "getManifoldPressureInchHg"@.len());
            reveal_strlit("getManifoldPressureDisplay"); assert("getAviahorizonPitch"@.len() != "getManifoldPressureDisplay"@.len());
            reveal_strlit("getUnknownMixture"); assert("getAviahorizonPitch"@.len() != "getUnknownMixture"@.len());
            reveal_strlit("getRadiator"); assert("getAviahorizonPitch"@.len() != "getRadiator"@.len());
            reveal_strlit("getCompressorStage"); assert("getAviahorizonPitch"@.len() != "getCompressorStage"@.len());
            reveal_strlit("getFuelPercent"); assert("getAviahorizonPitch"@.len() != "getFuelPercent"@.len());
            reveal_strlit("getRPMThrottle"); assert("getAviahorizonPitch"@.len() != "getRPMThrottle"@.len());
            reveal_strlit("getGear"); assert("getAviahorizonPitch"@.len() != "getGear"@.len());
            reveal_strlit("getFlaps"); assert("getAviahorizonPitch"@.len() != "getFlaps"@.len());
            reveal_strlit("getAirbrake"); assert("getAviahorizonPitch"@.len() != "getAirbrake"@.len());
            reveal_strlit("getAileron"); assert("getAviahorizonPitch"@.len() != "getAileron"@.len());
            reveal_strlit("getElevator"); assert("getAviahorizonPitch"@.len() != "getElevator"@.len());
            reveal_strlit("getRudder"); assert("getAviahorizonPitch"@.len() != "getRudder"@.len());
            reveal_strlit("getWingSweep"); assert("getAviahorizonPitch"@.len() != "getWingSweep"@.len());
            reveal_strlit("getSpeedLimitRatio"); assert("getAviahorizonPitch"@.len() != "getSpeedLimitRatio"@.len());
            reveal_strlit("getAileronLockRatio"); assert("getAviahorizonPitch"@[4] != "getAileronLockRatio"@[4]);
            reveal_strlit("getRudderLockRatio"); assert("getAviahorizonPitch"@.len() != "getRudderLockRatio"@.len());
            reveal_strlit("getUnitMachLimitRatio"); assert("getAviahorizonPitch"@.len() != "getUnitMachLimitRatio"@.len());
            reveal_strlit("getStallSpeed"); assert("getAviahorizonPitch"@.len() != "getStallSpeed"@.len());
        },
        DoubleAccessor::AviahorizonRoll => {
            reveal_strlit("getAviahorizonRoll");
            reveal_strlit("getIAS"); assert("getAviahorizonRoll"@.len() != "getIAS"@.len());
            reveal_strlit("getTAS"); assert("getAviahorizonRoll"@.len() != "getTAS"@.len());
            reveal_strlit("getMach"); assert("getAviahorizonRoll"@.len() != "getMach"@.len());
            reveal_strlit("getAoA"); assert("getAviahorizonRoll"@.len() != "getAoA"@.len());
            reveal_strlit("getAoS"); assert("getAviahorizonRoll"@.len() != "getAoS"@.len());
            reveal_strlit("getNy"); assert("getAviahorizonRoll"@.len() != "getNy"@.len());
            reveal_strlit("getVario"); assert("getAviahorizonRoll"@.len() != "getVario"@.len());
            reveal_strlit("getAltitude"); assert("getAviahorizonRoll"@.len() != "getAltitude"@.len());
            reveal_strlit("getRadioAltitude"); assert("getAviahorizonRoll"@.len() != "getRadioAltitude"@.len());
            reveal_strlit("getCompass"); assert("getAviahorizonRoll"@.len() != "getCompass"@.len());
            reveal_strlit("getSEP"); assert("getAviahorizonRoll"@.len() != "getSEP"@.len());
            reveal_strlit("getAcceleration"); assert("getAviahorizonRoll"@.len() != "getAcceleration"@.len());
            reveal_strlit("getTurnRate"); assert("getAviahorizonRoll"@.len() != "getTurnRate"@.len());
            reveal_strlit("getTurnRadius"); assert("getAviahorizonRoll"@.len() != "getTurnRadius"@.len());
            reveal_strlit("getRollRate"); assert("getAviahorizonRoll"@.len() != "getRollRate"@.len());
            reveal_strlit("getEnergyJKg"); assert("getAviahorizonRoll"@.len() != "getEnergyJKg"@.len());
            reveal_strlit("getMassFuel"); assert("getAviahorizonRoll"@.len() != "getMassFuel"@.len());
            reveal_strlit("getTotalWeight"); assert("getAviahorizonRoll"@.len() != "getTotalWeight"@.len());
            reveal_strlit("getFuelTimeMili"); assert("getAviahorizonRoll"@.len() != "getFuelTimeMili"@.len());
            reveal_strlit("getThrottle"); assert("getAviahorizonRoll"@.len() != "getThrottle"@.len());
            reveal_strlit("getRPM"); assert("getAviahorizonRoll"@.len() != "getRPM"@.len());
            reveal_strlit("getManifoldPressure"); assert("getAviahorizonRoll"@.len() != "getManifoldPressure"@.len());
            reveal_strlit("getWaterTemp"); assert("getAviahorizonRoll"@.len() != "getWaterTemp"@.len());
            reveal_strlit("getOilTemp"); assert("getAviahorizonRoll"@.len() != "getOilTemp"@.len());
            reveal_strlit("getPitch"); assert("getAviahorizonRoll"@.len() != "getPitch"@.len());
            reveal_strlit("getEffHp"); assert("getAviahorizonRoll"@.len() != "getEffHp"@.len());
            reveal_strlit("getThrust"); assert("getAviahorizonRoll"@.len() != "getThrust"@.len());
            reveal_strlit("getHorsePower"); assert("getAviahorizonRoll"@.len() != "getHorsePower"@.len());
            reveal_strlit("getEngineResponse"); assert("getAviahorizonRoll"@.len() != "getEngineResponse"@.len());
            reveal_strlit("getPropEfficiency"); assert("getAviahorizonRoll"@.len() != "getPropEfficiency"@.len());
            reveal_strlit("getWepKg"); assert("getAviahorizonRoll"@.len() != "getWepKg"@.len());
            reveal_strlit("getWepTime"); assert("getAviahorizonRoll"@.len() != "getWepTime"@.len());
            reveal_strlit("getHeatTolerance"); assert("getAviahorizonRoll"@.len() != "getHeatTolerance"@.len());
            reveal_strlit("getPowerPercent"); assert("getAviahorizonRoll"@.len() != "getPowerPercent"@.len());
            reveal_strlit("getManifoldPressurePounds"); assert("getAviahorizonRoll"@.len() != "getManifoldPressurePounds"@.len());
            reveal_strlit("getManifoldPressureInchHg"); assert("getAviahorizonRoll"@.len() != "getManifoldPressureInchHg"@.len());
            reveal_strlit("getManifoldPressureDisplay"); assert("getAviahorizonRoll"@.len() != "getManifoldPressureDisplay"@.len());
            reveal_strlit("getUnknownMixture"); assert("getAviahorizonRoll"@.len() != "getUnknownMixture"@.len());
            reveal_strlit("getRadiator"); assert("getAviahorizonRoll"@.len() != "getRadiator"@.len());
            reveal_strlit("getCompressorStage"); assert("getAviahorizonRoll"@[3] != "getCompressorStage"@[3]);
            reveal_strlit("getFuelPercent"); assert("getAviahorizonRoll"@.len() != "getFuelPercent"@.len());
            reveal_strlit("getRPMThrottle"); assert("getAviahorizonRoll"@.len() != "getRPMThrottle"@.len());
            reveal_strlit("getGear"); assert("getAviahorizonRoll"@.len() != "getGear"@.len());
            reveal_strlit("getFlaps"); assert("getAviahorizonRoll"@.len() != "getFlaps"@.len());
            reveal_strlit("getAirbrake"); assert("getAviahorizonRoll"@.len() != "getAirbrake"@.len());
            reveal_strlit("getAileron"); assert("getAviahorizonRoll"@.len() != "getAileron"@.len());
            reveal_strlit("getElevator"); assert("getAviahorizonRoll"@.len() != "getElevator"@.len());
            reveal_strlit("getRudder"); assert("getAviahorizonRoll"@.len() != "getRudder"@.len());
            reveal_strlit("getWingSweep"); assert("getAviahorizonRoll"@.len() != "getWingSweep"@.len());
            reveal_strlit("getSpeedLimitRatio"); assert("getAviahorizonRoll"@[3] != "getSpeedLimitRatio"@[3]);
            reveal_strlit("getAileronLockRatio"); assert("getAviahorizonRoll"@.len() != "getAileronLockRatio"@.len());
            reveal_strlit("getRudderLockRatio"); assert("getAviahorizonRoll"@[3] != "getRudderLockRatio"@[3]);
            reveal_strlit("getUnitMachLimitRatio"); assert("getAviahorizonRoll"@.len() != "getUnitMachLimitRatio"@.len());
            reveal_strlit("getStallSpeed"); assert("getAviahorizonRoll"@.len() != "getStallSpeed"@.len());
            reveal_strlit("getAviahorizonPitch"); assert("getAviahorizonRoll"@.len() != "getAviahorizonPitch"@.len());
        },
        DoubleAccessor::BoosterFuelKg => {
            reveal_strlit("getBoosterFuelKg");
            reveal_strlit("getIAS"); assert("getBoosterFuelKg"@.len() != "getIAS"@.len());
            reveal_strlit("getTAS"); assert("getBoosterFuelKg"@.len() != "getTAS"@.len());
            reveal_strlit("getMach"); assert("getBoosterFuelKg"@.len() != "getMach"@.len());
            reveal_strlit("getAoA"); assert("getBoosterFuelKg"@.len() != "getAoA"@.len());
            reveal_strlit("getAoS"); assert("getBoosterFuelKg"@.len() != "getAoS"@.len());
            reveal_strlit("getNy"); assert("getBoosterFuelKg"@.len() != "getNy"@.len());
            reveal_strlit("getVario"); assert("getBoosterFuelKg"@.len() != "getVario"@.len());
            reveal_strlit("getAltitude"); assert("getBoosterFuelKg"@.len() != "getAltitude"@.len());
            reveal_strlit("getRadioAltitude"); assert("getBoosterFuelKg"@[3] != "getRadioAltitude"@[3]);
            reveal_strlit("getCompass"); assert("getBoosterFuelKg"@.len() != "getCompass"@.len());
            reveal_strlit("getSEP"); assert("getBoosterFuelKg"@.len() != "getSEP"@.len());
            reveal_strlit("getAcceleration"); assert("getBoosterFuelKg"@.len() != "getAcceleration"@.len());
            reveal_strlit("getTurnRate"); assert("getBoosterFuelKg"@.len() != "getTurnRate"@.len());
            reveal_strlit("getTurnRadius"); assert("getBoosterFuelKg"@.len() != "getTurnRadius"@.len());
            reveal_strlit("getRollRate"); assert("getBoosterFuelKg"@.len() != "getRollRate"@.len());
            reveal_strlit("getEnergyJKg"); assert("getBoosterFuelKg"@.len() != "getEnergyJKg"@.len());
            reveal_strlit("getMassFuel"); assert("getBoosterFuelKg"@.len() != "getMassFuel"@.len());
            reveal_strlit("getTotalWeight"); assert("getBoosterFuelKg"@.len() != "getTotalWeight"@.len());
            reveal_strlit("getFuelTimeMili"); assert("getBoosterFuelKg"@.len() != "getFuelTimeMili"@.len());
            reveal_strlit("getThrottle"); assert("getBoosterFuelKg"@.len() != "getThrottle"@.len());
            reveal_strlit("getRPM"); assert("getBoosterFuelKg"@.len() != "getRPM"@.len());
            reveal_strlit("getManifoldPressure"); assert("getBoosterFuelKg"@.len() != "getManifoldPressure"@.len());
            reveal_strlit("getWaterTemp"); assert("getBoosterFuelKg"@.len() != "getWaterTemp"@.len());
            reveal_strlit("getOilTemp"); assert("getBoosterFuelKg"@.len() != "getOilTemp"@.len());
            reveal_strlit("getPitch"); assert("getBoosterFuelKg"@.len() != "getPitch"@.len());
            reveal_strlit("getEffHp"); assert("getBoosterFuelKg"@.len() != "getEffHp"@.len());
            reveal_strlit("getThrust"); assert("getBoosterFuelKg"@.len() != "getThrust"@.len());
            reveal_strlit("getHorsePower"); assert("getBoosterFuelKg"@.len() != "getHorsePower"@.len());
            reveal_strlit("getEngineResponse"); assert("getBoosterFuelKg"@.len() != "getEngineResponse"@.len());
            reveal_strlit("getPropEfficiency"); assert("getBoosterFuelKg"@.len() != "getPropEfficiency"@.len());
            reveal_strlit("getWepKg"); assert("getBoosterFuelKg"@.len() != "getWepKg"@.len());
            reveal_strlit("getWepTime"); assert("getBoosterFuelKg"@.len() != "getWepTime"@.len());
            reveal_strlit("getHeatTolerance"); assert("getBoosterFuelKg"@[3] != "getHeatTolerance"@[3]);
            reveal_strlit("getPowerPercent"); assert("getBoosterFuelKg"@.len() != "getPowerPercent"@.len());
            reveal_strlit("getManifoldPressurePounds"); assert("getBoosterFuelKg"@.len() != "getManifoldPressurePounds"@.len());
            reveal_strlit("getManifoldPressureInchHg"); assert("getBoosterFuelKg"@.len() != "getManifoldPressureInchHg"@.len());
            reveal_strlit("getManifoldPressureDisplay"); assert("getBoosterFuelKg"@.len() != "getManifoldPressureDisplay"@.len());
            reveal_strlit("getUnknownMixture"); assert("getBoosterFuelKg"@.len() != "getUnknownMixture"@.len());
            reveal_strlit("getRadiator"); assert("getBoosterFuelKg"@.len() != "getRadiator"@.len());
            reveal_strlit("getCompressorStage"); assert("getBoosterFuelKg"@.len() != "getCompressorStage"@.len());
            reveal_strlit("getFuelPercent"); assert("getBoosterFuelKg"@.len() != "getFuelPercent"@.len());
            reveal_strlit("getRPMThrottle"); assert("getBoosterFuelKg"@.len() != "getRPMThrottle"@.len());
            reveal_strlit("getGear"); assert("getBoosterFuelKg"@.len() != "getGear"@.len());
            reveal_strlit("getFlaps"); assert("getBoosterFuelKg"@.len() != "getFlaps"@.len());
            reveal_strlit("getAirbrake"); assert("getBoosterFuelKg"@.len() != "getAirbrake"@.len());
            reveal_strlit("getAileron"); assert("getBoosterFuelKg"@.len() != "getAileron"@.len());
            reveal_strlit("getElevator"); assert("getBoosterFuelKg"@.len() != "getElevator"@.len());
            reveal_strlit("getRudder"); assert("getBoosterFuelKg"@.len() != "getRudder"@.len());
            reveal_strlit("getWingSweep"); assert("getBoosterFuelKg"@.len() != "getWingSweep"@.len());
            reveal_strlit("getSpeedLimitRatio"); assert("getBoosterFuelKg"@.len() != "getSpeedLimitRatio"@.len());
            reveal_strlit("getAileronLockRatio"); assert("getBoosterFuelKg"@.len() != "getAileronLockRatio"@.len());
            reveal_strlit("getRudderLockRatio"); assert("getBoosterFuelKg"@.len() != "getRudderLockRatio"@.len());
            reveal_strlit("getUnitMachLimitRatio"); assert("getBoosterFuelKg"@.len() != "getUnitMachLimitRatio"@.len());
            reveal_strlit("getStallSpeed"); assert("getBoosterFuelKg"@.len() != "getStallSpeed"@.len());
            reveal_strlit("getAviahorizonPitch"); assert("getBoosterFuelKg"@.len() != "getAviahorizonPitch"@.len());
            reveal_strlit("getAviahorizonRoll"); assert("getBoosterFuelKg"@.len() != "getAviahorizonRoll"@.len());
        },
        DoubleAccessor::BoosterFuelPercent => {
            reveal_strlit("getBoosterFuelPercent");
            reveal_strlit("getIAS"); assert("getBoosterFuelPercent"@.len() != "getIAS"@.len());
            reveal_strlit("getTAS"); assert("getBoosterFuelPercent"@.len() != "getTAS"@.len());
            reveal_strlit("getMach"); assert("getBoosterFuelPercent"@.len() != "getMach"@.len());
            reveal_strlit("getAoA"); assert("getBoosterFuelPercent"@.len() != "getAoA"@.len());
            reveal_strlit("getAoS"); assert("getBoosterFuelPercent"@.len() != "getAoS"@.len());
            reveal_strlit("getNy"); assert("getBoosterFuelPercent"@.len() != "getNy"@.len());
            reveal_strlit("getVario"); assert("getBoosterFuelPercent"@.len() != "getVario"@.len());
            reveal_strlit("getAltitude"); assert("getBoosterFuelPercent"@.len() != "getAltitude"@.len());
            reveal_strlit("getRadioAltitude"); assert("getBoosterFuelPercent"@.len() != "getRadioAltitude"@.len());
            reveal_strlit("getCompass"); assert("getBoosterFuelPercent"@.len() != "getCompass"@.len());
            reveal_strlit("getSEP"); assert("getBoosterFuelPercent"@.len() != "getSEP"@.len());
            reveal_strlit("getAcceleration"); assert("getBoosterFuelPercent"@.len() != "getAcceleration"@.len());
            reveal_strlit("getTurnRate"); assert("getBoosterFuelPercent"@.len() != "getTurnRate"@.len());
            reveal_strlit("getTurnRadius"); assert("getBoosterFuelPercent"@.len() != "getTurnRadius"@.len());
            reveal_strlit("getRollRate"); assert("getBoosterFuelPercent"@.len() != "getRollRate"@.len());
            reveal_strlit("getEnergyJKg"); assert("getBoosterFuelPercent"@.len() != "getEnergyJKg"@.len());
            reveal_strlit("getMassFuel"); assert("getBoosterFuelPercent"@.len() != "getMassFuel"@.len());
            reveal_strlit("getTotalWeight"); assert("getBoosterFuelPercent"@.len() != "getTotalWeight"@.len());
            reveal_strlit("getFuelTimeMili"); assert("getBoosterFuelPercent"@.len() != "getFuelTimeMili"@.len());
            reveal_strlit("getThrottle"); assert("getBoosterFuelPercent"@.len() != "getThrottle"@.len());
            reveal_strlit("getRPM"); assert("getBoosterFuelPercent"@.len() != "getRPM"@.len());
            reveal_strlit("getManifoldPressure"); assert("getBoosterFuelPercent"@.len() != "getManifoldPressure"@.len());
            reveal_strlit("getWaterTemp"); assert("getBoosterFuelPercent"@.len() != "getWaterTemp"@.len());
            reveal_strlit("getOilTemp"); assert("getBoosterFuelPercent"@.len() != "getOilTemp"@.len());
            reveal_strlit("getPitch"); assert("getBoosterFuelPercent"@.len() != "getPitch"@.len());
            reveal_strlit("getEffHp"); assert("getBoosterFuelPercent"@.len() != "getEffHp"@.len());
            reveal_strlit("getThrust"); assert("getBoosterFuelPercent"@.len() != "getThrust"@.len());
            reveal_strlit("getHorsePower"); assert("getBoosterFuelPercent"@.len() != "getHorsePower"@.len());
            reveal_strlit("getEngineResponse"); assert("getBoosterFuelPercent"@.len() != "getEngineResponse"@.len());
            reveal_strlit("getPropEfficiency"); assert("getBoosterFuelPercent"@.len() != "getPropEfficiency"@.len());
            reveal_strlit("getWepKg"); assert("getBoosterFuelPercent"@.len() != "getWepKg"@.len());
            reveal_strlit("getWepTime"); assert("getBoosterFuelPercent"@.len() != "getWepTime"@.len());
            reveal_strlit("getHeatTolerance"); assert("getBoosterFuelPercent"@.len() != "getHeatTolerance"@.len());
            reveal_strlit("getPowerPercent"); assert("getBoosterFuelPercent"@.len() != "getPowerPercent"@.len());
            reveal_strlit("getManifoldPressurePounds"); assert("getBoosterFuelPercent"@.len() != "getManifoldPressurePounds"@.len());
            reveal_strlit("getManifoldPressureInchHg"); assert("getBoosterFuelPercent"@.len() != "getManifoldPressureInchHg"@.len());
            reveal_strlit("getManifoldPressureDisplay"); assert("getBoosterFuelPercent"@.len() != "getManifoldPressureDisplay"@.len());
            reveal_strlit("getUnknownMixture"); assert("getBoosterFuelPercent"@.len() != "getUnknownMixture"@.len());
            reveal_strlit("getRadiator"); assert("getBoosterFuelPercent"@.len() != "getRadiator"@.len());
            reveal_strlit("getCompressorStage"); assert("getBoosterFuelPercent"@.len() != "getCompressorStage"@.len());
            reveal_strlit("getFuelPercent"); assert("getBoosterFuelPercent"@.len() != "getFuelPercent"@.len());
            reveal_strlit("getRPMThrottle"); assert("getBoosterFuelPercent"@.len() != "getRPMThrottle"@.len());
            reveal_strlit("getGear"); assert("getBoosterFuelPercent"@.len() != "getGear"@.len());
            reveal_strlit("getFlaps"); assert("getBoosterFuelPercent"@.len() != "getFlaps"@.len());
            reveal_strlit("getAirbrake"); assert("getBoosterFuelPercent"@.len() != "getAirbrake"@.len());
            reveal_strlit("getAileron"); assert("getBoosterFuelPercent"@.len() != "getAileron"@.len());
            reveal_strlit("getElevator"); assert("getBoosterFuelPercent"@.len() != "getElevator"@.len());
            reveal_strlit("getRudder"); assert("getBoosterFuelPercent"@.len() != "getRudder"@.len());
            reveal_strlit("getWingSweep"); assert("getBoosterFuelPercent"@.len() != "getWingSweep"@.len());
            reveal_strlit("getSpeedLimitRatio"); assert("getBoosterFuelPercent"@.len() != "getSpeedLimitRatio"@.len());
            reveal_strlit("getAileronLockRatio"); assert("getBoosterFuelPercent"@.len() != "getAileronLockRatio"@.len());
            reveal_strlit("getRudderLockRatio"); assert("getBoosterFuelPercent"@.len() != "getRudderLockRatio"@.len());
            reveal_strlit("getUnitMachLimitRatio"); assert("getBoosterFuelPercent"@[3] != "getUnitMachLimitRatio"@[3]);
            reveal_strlit("getStallSpeed"); assert("getBoosterFuelPercent"@.len() != "getStallSpeed"@.len());
            reveal_strlit("getAviahorizonPitch"); assert("getBoosterFuelPercent"@.len() != "getAviahorizonPitch"@.len());
            reveal_strlit("getAviahorizonRoll"); assert("getBoosterFuelPercent"@.len() != "getAviahorizonRoll"@.len());
            reveal_strlit("getBoosterFuelKg"); assert("getBoosterFuelPercent"@.len() != "getBoosterFuelKg"@.len());
        },
    }
}

/// A target that is split by `*` into exactly two pieces names the getter of
/// its first piece, trimmed, with the trimmed second piece as multiplier.
pub proof fn law_double_target_split(t: Seq<char>)
    requires
        char_pos_from(t, '*', 0) < t.len(),
        java_split_spec(t, '*').len() == 2,
    ensures
        double_method_name(t) == trim_spec(java_split_spec(t, '*')[0]),
        double_multiplier_text(t) == Some(trim_spec(java_split_spec(t, '*')[1])),
{
}

/// A target `a*b`, where neither `a` nor `b` holds a `*` and `b` is not
/// empty, names the getter `a` trimmed, with `b` trimmed as multiplier; so
/// `getWingSweep * 100` names `getWingSweep`, with multiplier `100`.
pub proof fn law_double_target_getter_times(a: Seq<char>, b: Seq<char>)
    requires
        forall|i: int| 0 <= i < a.len() ==> a[i] != '*',
        forall|i: int| 0 <= i < b.len() ==> b[i] != '*',
        b.len() > 0,
    ensures
        double_method_name(a + seq!['*'] + b) == trim_spec(a),
        double_multiplier_text(a + seq!['*'] + b) == Some(trim_spec(b)),
{
    let t = a + seq!['*'] + b;
    let n = a.len() as int;
    assert(t[n] == '*');
    assert forall|i: int| 0 <= i < n implies t[i] != '*' by {
        assert(t[i] == a[i]);
    }
    assert forall|i: int| n + 1 <= i < t.len() implies t[i] != '*' by {
        assert(t[i] == b[i - n - 1]);
    }
    lemma_char_pos_bounds(t, '*', 0);
    assert(char_pos_from(t, '*', 0) == n);
    lemma_char_pos_bounds(t, '*', n + 1);
    assert(char_pos_from(t, '*', n + 1) == t.len());
    assert(t.subrange(0, n) =~= a);
    assert(t.subrange(n + 1, t.len() as int) =~= b);
    assert(split_from(t, '*', n + 1) == seq![b]);
    assert(split_from(t, '*', 0) == seq![a] + seq![b]);
    let ps = seq![a] + seq![b];
    assert(ps.last() == b);
    assert(drop_trailing_empty(ps) == ps);
    assert(java_split_spec(t, '*') =~= seq![a, b]);
}

} // verus!
