//! End-to-end tests with the real IAPWS-IF97 evaluator: the planned requests
//! are run against `seuif97` and the assembled records are checked against
//! textbook values.

use steam_props::evaluator::Convention;
use steam_props::evaluator::plan_calls;
use steam_props::props::SENTINEL_BITS;
use steam_props::props::SteamProps;
use steam_props::regimes::call_seuif;

/// Runs one computation end to end: plan the requests for the mode, answer
/// each against the evaluator, and assemble the record.
fn compute(p: f64, t: f64, mode: u32) -> SteamProps {
    let calls = plan_calls(p.to_bits(), t.to_bits(), mode);
    let mut answers: Vec<u64> = Vec::with_capacity(calls.len());
    for call in calls.iter() {
        let v1 = f64::from_bits(call.v1);
        let v2 = f64::from_bits(call.v2);
        let r = match call.convention {
            Convention::TemperatureQuality => seuif97::tx(v1, v2, call.prop),
            Convention::PressureQuality => seuif97::px(v1, v2, call.prop),
            Convention::PressureTemperature => seuif97::pt(v1, v2, call.prop),
        };
        answers.push(r.to_bits());
    }
    call_seuif(mode, &answers)
}

fn field(bits: u64) -> f64 {
    f64::from_bits(bits)
}

#[test]
fn saturated_steam_at_atmospheric_boiling_point() {
    let sp = compute(0.101325, 100.0, 10);
    // density of saturated steam at 100 deg C is about 0.598 kg/m3
    assert!(field(sp.d) > 0.55 && field(sp.d) < 0.65, "d = {}", field(sp.d));
    // specific volume is its reciprocal
    assert!((field(sp.d) * field(sp.v) - 1.0).abs() < 1e-9);
    // enthalpy of saturated steam at 100 deg C is about 2675.6 kJ/kg
    assert!(field(sp.h) > 2600.0 && field(sp.h) < 2750.0, "h = {}", field(sp.h));
    // latent heat of vaporization at 100 deg C is about 2256.5 kJ/kg
    assert!(field(sp.lat) > 2200.0 && field(sp.lat) < 2300.0, "lat = {}", field(sp.lat));
    // surface tension at 100 deg C is about 0.0589 N/m
    assert!(field(sp.st) > 0.05 && field(sp.st) < 0.07, "st = {}", field(sp.st));
    // every field was computed
    for bits in [sp.d, sp.v, sp.h, sp.s, sp.u, sp.dv, sp.kv, sp.k, sp.td, sp.st, sp.lat] {
        assert_ne!(bits, SENTINEL_BITS);
    }
}

#[test]
fn latent_heat_matches_native_enthalpy_difference() {
    let sp = compute(0.101325, 100.0, 10);
    let h_vapor: f64 = seuif97::tx(100.0, 1.0, 4);
    let h_liquid: f64 = seuif97::tx(100.0, 0.0, 4);
    assert_eq!(sp.lat, (h_vapor - h_liquid).to_bits());
    assert_eq!(sp.h, h_vapor.to_bits());
}

#[test]
fn saturated_steam_by_pressure_at_one_bar() {
    let sp = compute(0.101325, 0.0, 20);
    // the same state as 100 deg C saturated steam, addressed by pressure
    assert!(field(sp.h) > 2600.0 && field(sp.h) < 2750.0, "h = {}", field(sp.h));
    assert!(field(sp.lat) > 2200.0 && field(sp.lat) < 2300.0, "lat = {}", field(sp.lat));
    let h_vapor: f64 = seuif97::px(0.101325, 1.0, 4);
    let h_liquid: f64 = seuif97::px(0.101325, 0.0, 4);
    assert_eq!(sp.lat, (h_vapor - h_liquid).to_bits());
}

#[test]
fn superheated_steam_regime() {
    let sp = compute(0.1, 700.0, 30);
    // enthalpy of steam at 0.1 MPa and 700 deg C is about 3928 kJ/kg
    assert!(field(sp.h) > 3800.0 && field(sp.h) < 4050.0, "h = {}", field(sp.h));
    // density is about 0.22 kg/m3
    assert!(field(sp.d) > 0.2 && field(sp.d) < 0.25, "d = {}", field(sp.d));
    assert_eq!(sp.u, SENTINEL_BITS);
    assert_eq!(sp.lat, SENTINEL_BITS);
}

#[test]
fn subcooled_water_regime() {
    let sp = compute(0.101325, 25.0, 40);
    // density of liquid water at 25 deg C is about 997 kg/m3
    assert!(field(sp.d) > 990.0 && field(sp.d) < 1005.0, "d = {}", field(sp.d));
    assert_eq!(sp.u, SENTINEL_BITS);
    assert_eq!(sp.lat, SENTINEL_BITS);
}

#[test]
fn steam_and_water_regimes_agree_on_the_same_input() {
    let sp30 = compute(0.101325, 100.0, 30);
    let sp40 = compute(0.101325, 100.0, 40);
    assert_eq!(sp30, sp40);
    assert_eq!(sp30.u, SENTINEL_BITS);
    assert_eq!(sp30.lat, SENTINEL_BITS);
}

#[test]
fn computing_twice_is_bitwise_identical() {
    for mode in [10u32, 20, 30, 40, 50] {
        let first = compute(0.101325, 100.0, mode);
        let second = compute(0.101325, 100.0, mode);
        assert_eq!(first, second);
    }
}

#[test]
fn unsupported_mode_through_the_pipeline() {
    let sp = compute(0.101325, 100.0, 50);
    assert_eq!(sp, SteamProps::new());
    assert_eq!(field(sp.d), -999.0);
    assert_eq!(field(sp.lat), -999.0);
}
