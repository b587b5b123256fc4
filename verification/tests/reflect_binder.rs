//! Tests of the target registry.
use vm_core::reflect_binder::{
    java_split_star, DoubleAccessor, resolve_int, resolve_string, IntAccessor, StringAccessor, TelemetrySource,
};

/// Telemetry stub with configurable text and precision channels.
struct MockTele {
    fuel_time_mili: i64,
    manifold_unit: &'static str,
    manifold_precision: i32,
}

impl Default for MockTele {
    fn default() -> Self {
        MockTele {
            fuel_time_mili: 19,
            manifold_unit: "Ata",
            manifold_precision: 2,
        }
    }
}

impl TelemetrySource for MockTele {
    fn get_fuel_time_mili(&self) -> i64 {
        self.fuel_time_mili
    }
    fn get_manifold_pressure_display_unit(&self) -> String {
        self.manifold_unit.to_string()
    }
    fn get_manifold_pressure_display_precision(&self) -> i32 {
        self.manifold_precision
    }
}

#[test]
fn resolve_string_bindings() {
    let metric = MockTele::default();
    let imperial = MockTele {
        manifold_unit: "P/30.1''",
        ..Default::default()
    };
    let b = resolve_string("getManifoldPressureDisplayUnit");
    assert_eq!(b.accessor, Some(StringAccessor::ManifoldPressureDisplayUnit));
    assert_eq!(b.get(&metric), "Ata");
    assert_eq!(b.get(&imperial), "P/30.1''");
    // trim; 未知 → ""; 空 → ""
    assert_eq!(resolve_string("  getManifoldPressureDisplayUnit ").get(&metric), "Ata");
    assert_eq!(resolve_string("getFooBar").get(&metric), "");
    assert_eq!(resolve_string("").get(&metric), "");
}

#[test]
fn resolve_int_bindings() {
    let metric = MockTele::default();
    let imperial = MockTele {
        manifold_precision: 1,
        ..Default::default()
    };
    let b = resolve_int("getManifoldPressureDisplayPrecision");
    assert_eq!(
        b.accessor,
        Some(IntAccessor::ManifoldPressureDisplayPrecision)
    );
    assert_eq!(b.get(&metric), 2);
    assert_eq!(b.get(&imperial), 1);
    // trim; 未知 → 0; 空 → 0
    assert_eq!(
        resolve_int("  getManifoldPressureDisplayPrecision ").get(&metric),
        2
    );
    assert_eq!(resolve_int("getFooBar").get(&metric), 0);
    assert_eq!(resolve_int("").get(&metric), 0);
}

#[test]
fn string_int_channels_have_no_multiplier_syntax() {
    let m = MockTele::default();
    assert_eq!(
        resolve_string("getManifoldPressureDisplayUnit * 2").get(&m),
        ""
    );
    assert_eq!(
        resolve_int("getManifoldPressureDisplayPrecision * 2").get(&m),
        0
    );
}

#[test]
fn java_split_star_drops_only_trailing_empties() {
    assert_eq!(java_split_star("a*b"), vec!["a", "b"]);
    assert_eq!(java_split_star("a**b"), vec!["a", "", "b"], "中间空串保留");
    assert_eq!(java_split_star("*a"), vec!["", "a"], "前导空串保留");
    assert_eq!(java_split_star("a*"), vec!["a"]);
    assert_eq!(java_split_star("a**"), vec!["a"]);
    assert_eq!(java_split_star("*"), Vec::<&str>::new());
    assert_eq!(java_split_star(""), Vec::<&str>::new());
}

struct NoData;

impl TelemetrySource for NoData {}

#[test]
fn defaults_are_the_metric_display_with_no_data() {
    let s: &dyn TelemetrySource = &NoData;
    assert_eq!(s.get_fuel_time_mili(), 0);
    assert_eq!(s.get_manifold_pressure_display_unit(), "Ata");
    assert_eq!(s.get_manifold_pressure_display_precision(), 2);
    assert_eq!(StringAccessor::ManifoldPressureDisplayUnit.get(s), "Ata");
    assert_eq!(IntAccessor::ManifoldPressureDisplayPrecision.get(s), 2);
    assert_eq!(resolve_int("getManifoldPressureDisplayPrecision").get(s), 2);
}

#[test]
fn every_getter_name_resolves_to_its_own_accessor() {
    let names = [
        "getIAS",
        "getTAS",
        "getMach",
        "getAoA",
        "getAoS",
        "getNy",
        "getVario",
        "getAltitude",
        "getRadioAltitude",
        "getCompass",
        "getSEP",
        "getAcceleration",
        "getTurnRate",
        "getTurnRadius",
        "getRollRate",
        "getEnergyJKg",
        "getMassFuel",
        "getTotalWeight",
        "getFuelTimeMili",
        "getThrottle",
        "getRPM",
        "getManifoldPressure",
        "getWaterTemp",
        "getOilTemp",
        "getPitch",
        "getEffHp",
        "getThrust",
        "getHorsePower",
        "getEngineResponse",
        "getPropEfficiency",
        "getWepKg",
        "getWepTime",
        "getHeatTolerance",
        "getPowerPercent",
        "getManifoldPressurePounds",
        "getManifoldPressureInchHg",
        "getManifoldPressureDisplay",
        "getUnknownMixture",
        "getRadiator",
        "getCompressorStage",
        "getFuelPercent",
        "getRPMThrottle",
        "getGear",
        "getFlaps",
        "getAirbrake",
        "getAileron",
        "getElevator",
        "getRudder",
        "getWingSweep",
        "getSpeedLimitRatio",
        "getAileronLockRatio",
        "getRudderLockRatio",
        "getUnitMachLimitRatio",
        "getStallSpeed",
        "getAviahorizonPitch",
        "getAviahorizonRoll",
        "getBoosterFuelKg",
        "getBoosterFuelPercent",
    ];
    let mut seen: Vec<DoubleAccessor> = Vec::new();
    for n in names.iter() {
        let a = DoubleAccessor::resolve(n).unwrap();
        assert!(!seen.contains(&a));
        seen.push(a);
    }
    assert_eq!(seen.len(), 58);
    assert_eq!(DoubleAccessor::resolve("getias"), None);
    assert_eq!(DoubleAccessor::resolve(" getIAS"), None);
}
