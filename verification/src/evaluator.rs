//! The evaluator-facing vocabulary: the fixed sequences of property requests
//! that each regime issues to the IAPWS-IF97 evaluator.
//!
//! The evaluator itself (the `seuif97` crate) works on double-precision
//! numbers, which this library cannot hold, so the boundary is one of data:
//! a verified planner produces the exact sequence of requests a regime makes,
//! the caller runs them against the evaluator, and the verified regime
//! functions assemble the answers. Every quantity crosses the boundary as an
//! IEEE-754 bit pattern in a `u64`.

use vstd::prelude::*;

verus! {

/// The evaluator's two-variable calling conventions: which pair of physical
/// variables fixes the state for one request.
#[derive(PartialEq, Eq, Structural, Clone, Copy, Debug)]
pub enum Convention {
    /// `seuif97::tx`: temperature (deg C) and quality.
    TemperatureQuality,
    /// `seuif97::px`: pressure (MPa) and quality.
    PressureQuality,
    /// `seuif97::pt`: pressure (MPa) and temperature (deg C).
    PressureTemperature,
}

/// One request to the evaluator: a calling convention, the bit patterns of
/// its two controlling variables, and the property code to compute.
#[derive(PartialEq, Eq, Structural, Clone, Copy, Debug)]
pub struct EvalCall {
    /// which entry point of the evaluator the request goes to
    pub convention: Convention,
    /// first controlling variable, as a bit pattern
    pub v1: u64,
    /// second controlling variable, as a bit pattern
    pub v2: u64,
    /// the evaluator's property code
    pub prop: i32,
}

// The property codes this library requests: a fixed contract with the
// evaluator, not something this library defines semantically.

/// density
pub const PROP_DENSITY: i32 = 2;
/// specific volume
pub const PROP_SPECIFIC_VOLUME: i32 = 3;
/// specific enthalpy
pub const PROP_ENTHALPY: i32 = 4;
/// specific entropy
pub const PROP_ENTROPY: i32 = 5;
/// specific internal energy
pub const PROP_INTERNAL_ENERGY: i32 = 7;
/// dynamic viscosity
pub const PROP_DYNAMIC_VISCOSITY: i32 = 24;
/// kinematic viscosity
pub const PROP_KINEMATIC_VISCOSITY: i32 = 25;
/// thermal conductivity
pub const PROP_THERMAL_CONDUCTIVITY: i32 = 26;
/// thermal diffusivity
pub const PROP_THERMAL_DIFFUSIVITY: i32 = 27;
/// surface tension
pub const PROP_SURFACE_TENSION: i32 = 29;

/// Bit pattern of quality one (the double-precision number one): selects the
/// saturated-vapor branch of the evaluator's saturation entry points.
pub const QUALITY_VAPOR_BITS: u64 = 0x3FF0_0000_0000_0000;

/// Bit pattern of quality zero: selects the saturated-liquid branch.
pub const QUALITY_LIQUID_BITS: u64 = 0;

/// The twelve requests of the saturated-by-temperature regime: the ten
/// required properties at quality one, then the two enthalpies (quality one,
/// quality zero) whose difference is the latent heat.
pub open spec fn saturated_by_temp_plan(t: u64) -> Seq<EvalCall> {
    saturation_plan(Convention::TemperatureQuality, t)
}

/// The twelve requests of the saturated-by-pressure regime: the same shape
/// as saturated-by-temperature, with pressure as the controlling variable.
pub open spec fn saturated_by_pres_plan(p: u64) -> Seq<EvalCall> {
    saturation_plan(Convention::PressureQuality, p)
}

/// The shared shape of the two saturation regimes: every request carries the
/// one controlling variable `v` and a quality selector.
pub open spec fn saturation_plan(conv: Convention, v: u64) -> Seq<EvalCall> {
    seq![
        EvalCall { convention: conv, v1: v, v2: QUALITY_VAPOR_BITS, prop: PROP_DENSITY },
        EvalCall { convention: conv, v1: v, v2: QUALITY_VAPOR_BITS, prop: PROP_SPECIFIC_VOLUME },
        EvalCall { convention: conv, v1: v, v2: QUALITY_VAPOR_BITS, prop: PROP_ENTHALPY },
        EvalCall { convention: conv, v1: v, v2: QUALITY_VAPOR_BITS, prop: PROP_ENTROPY },
        EvalCall { convention: conv, v1: v, v2: QUALITY_VAPOR_BITS, prop: PROP_INTERNAL_ENERGY },
        EvalCall { convention: conv, v1: v, v2: QUALITY_VAPOR_BITS, prop: PROP_DYNAMIC_VISCOSITY },
        EvalCall { convention: conv, v1: v, v2: QUALITY_VAPOR_BITS, prop: PROP_KINEMATIC_VISCOSITY },
        EvalCall { convention: conv, v1: v, v2: QUALITY_VAPOR_BITS, prop: PROP_THERMAL_CONDUCTIVITY },
        EvalCall { convention: conv, v1: v, v2: QUALITY_VAPOR_BITS, prop: PROP_THERMAL_DIFFUSIVITY },
        EvalCall { convention: conv, v1: v, v2: QUALITY_VAPOR_BITS, prop: PROP_SURFACE_TENSION },
        EvalCall { convention: conv, v1: v, v2: QUALITY_VAPOR_BITS, prop: PROP_ENTHALPY },
        EvalCall { convention: conv, v1: v, v2: QUALITY_LIQUID_BITS, prop: PROP_ENTHALPY },
    ]
}

/// The nine requests of the two single-phase regimes ("steam" and "water"):
/// each property at the given pressure and temperature. Internal energy and
/// latent heat are not requested; those fields stay at the sentinel.
pub open spec fn single_phase_plan(p: u64, t: u64) -> Seq<EvalCall> {
    seq![
        EvalCall { convention: Convention::PressureTemperature, v1: p, v2: t, prop: PROP_DENSITY },
        EvalCall { convention: Convention::PressureTemperature, v1: p, v2: t, prop: PROP_SPECIFIC_VOLUME },
        EvalCall { convention: Convention::PressureTemperature, v1: p, v2: t, prop: PROP_ENTHALPY },
        EvalCall { convention: Convention::PressureTemperature, v1: p, v2: t, prop: PROP_ENTROPY },
        EvalCall { convention: Convention::PressureTemperature, v1: p, v2: t, prop: PROP_DYNAMIC_VISCOSITY },
        EvalCall { convention: Convention::PressureTemperature, v1: p, v2: t, prop: PROP_KINEMATIC_VISCOSITY },
        EvalCall { convention: Convention::PressureTemperature, v1: p, v2: t, prop: PROP_THERMAL_CONDUCTIVITY },
        EvalCall { convention: Convention::PressureTemperature, v1: p, v2: t, prop: PROP_THERMAL_DIFFUSIVITY },
        EvalCall { convention: Convention::PressureTemperature, v1: p, v2: t, prop: PROP_SURFACE_TENSION },
    ]
}

/// The requests that `mode` issues: twelve for the saturation regimes, nine
/// for the single-phase regimes, none for an unsupported mode.
pub open spec fn planned_calls(p: u64, t: u64, mode: u32) -> Seq<EvalCall> {
    if mode == 10 {
        saturated_by_temp_plan(t)
    } else if mode == 20 {
        saturated_by_pres_plan(p)
    } else if mode == 30 || mode == 40 {
        single_phase_plan(p, t)
    } else {
        Seq::empty()
    }
}

/// How many answers `mode` expects back: the length of its plan.
pub open spec fn answer_count(mode: u32) -> int {
    if mode == 10 || mode == 20 {
        12
    } else if mode == 30 || mode == 40 {
        9
    } else {
        0
    }
}

/// The exact sequence of evaluator requests for the given mode and inputs.
/// `p` and `t` are the bit patterns of the pressure (MPa) and temperature
/// (deg C); an unsupported mode plans no requests.
pub fn plan_calls(p: u64, t: u64, mode: u32) -> (calls: Vec<EvalCall>)
    ensures
        calls@ == planned_calls(p, t, mode),
        calls@.len() == answer_count(mode),
{
    let mut calls: Vec<EvalCall> = Vec::new();
    if mode == 10 || mode == 20 {
        let conv = if mode == 10 {
            Convention::TemperatureQuality
        } else {
            Convention::PressureQuality
        };
        let v = if mode == 10 {
            t
        } else {
            p
        };
        calls.push(EvalCall { convention: conv, v1: v, v2: QUALITY_VAPOR_BITS, prop: PROP_DENSITY });
        calls.push(EvalCall { convention: conv, v1: v, v2: QUALITY_VAPOR_BITS, prop: PROP_SPECIFIC_VOLUME });
        calls.push(EvalCall { convention: conv, v1: v, v2: QUALITY_VAPOR_BITS, prop: PROP_ENTHALPY });
        calls.push(EvalCall { convention: conv, v1: v, v2: QUALITY_VAPOR_BITS, prop: PROP_ENTROPY });
        calls.push(EvalCall { convention: conv, v1: v, v2: QUALITY_VAPOR_BITS, prop: PROP_INTERNAL_ENERGY });
        calls.push(EvalCall { convention: conv, v1: v, v2: QUALITY_VAPOR_BITS, prop: PROP_DYNAMIC_VISCOSITY });
        calls.push(EvalCall { convention: conv, v1: v, v2: QUALITY_VAPOR_BITS, prop: PROP_KINEMATIC_VISCOSITY });
        calls.push(EvalCall { convention: conv, v1: v, v2: QUALITY_VAPOR_BITS, prop: PROP_THERMAL_CONDUCTIVITY });
        calls.push(EvalCall { convention: conv, v1: v, v2: QUALITY_VAPOR_BITS, prop: PROP_THERMAL_DIFFUSIVITY });
        calls.push(EvalCall { convention: conv, v1: v, v2: QUALITY_VAPOR_BITS, prop: PROP_SURFACE_TENSION });
        calls.push(EvalCall { convention: conv, v1: v, v2: QUALITY_VAPOR_BITS, prop: PROP_ENTHALPY });
        calls.push(EvalCall { convention: conv, v1: v, v2: QUALITY_LIQUID_BITS, prop: PROP_ENTHALPY });
        assert(calls@ =~= planned_calls(p, t, mode));
    } else if mode == 30 || mode == 40 {
        calls.push(EvalCall { convention: Convention::PressureTemperature, v1: p, v2: t, prop: PROP_DENSITY });
        calls.push(EvalCall { convention: Convention::PressureTemperature, v1: p, v2: t, prop: PROP_SPECIFIC_VOLUME });
        calls.push(EvalCall { convention: Convention::PressureTemperature, v1: p, v2: t, prop: PROP_ENTHALPY });
        calls.push(EvalCall { convention: Convention::PressureTemperature, v1: p, v2: t, prop: PROP_ENTROPY });
        calls.push(EvalCall { convention: Convention::PressureTemperature, v1: p, v2: t, prop: PROP_DYNAMIC_VISCOSITY });
        calls.push(EvalCall { convention: Convention::PressureTemperature, v1: p, v2: t, prop: PROP_KINEMATIC_VISCOSITY });
        calls.push(EvalCall { convention: Convention::PressureTemperature, v1: p, v2: t, prop: PROP_THERMAL_CONDUCTIVITY });
        calls.push(EvalCall { convention: Convention::PressureTemperature, v1: p, v2: t, prop: PROP_THERMAL_DIFFUSIVITY });
        calls.push(EvalCall { convention: Convention::PressureTemperature, v1: p, v2: t, prop: PROP_SURFACE_TENSION });
        assert(calls@ =~= planned_calls(p, t, mode));
    } else {
        assert(calls@ =~= planned_calls(p, t, mode));
    }
    calls
}

} // verus!
