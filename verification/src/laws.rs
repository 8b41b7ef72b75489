//! The stated laws of the planner, the regimes and the dispatcher, proved
//! from the contracts of this library's functions.

use vstd::prelude::*;

use crate::evaluator::Convention;
use crate::evaluator::EvalCall;
use crate::evaluator::PROP_ENTHALPY;
use crate::evaluator::QUALITY_LIQUID_BITS;
use crate::evaluator::QUALITY_VAPOR_BITS;
use crate::evaluator::planned_calls;
use crate::evaluator::saturated_by_pres_plan;
use crate::evaluator::saturated_by_temp_plan;
use crate::props::SENTINEL_BITS;
use crate::props::SteamProps;
use crate::regimes::computed_result;
use crate::regimes::saturated_result;
use crate::regimes::single_phase_result;
use crate::softfloat::sub_bits;

verus! {

/// An unsupported mode plans no evaluator requests and yields the record
/// with every one of the eleven fields at the sentinel, whatever the
/// pressure and temperature bit patterns (NaN included) and whatever
/// answers are handed in.
pub proof fn lemma_unsupported_mode_sentinel(p: u64, t: u64, mode: u32, answers: Seq<u64>)
    requires
        mode != 10 && mode != 20 && mode != 30 && mode != 40,
    ensures
        planned_calls(p, t, mode) == Seq::<EvalCall>::empty(),
        computed_result(mode, answers) == SteamProps::spec_default(),
        computed_result(mode, answers).d == SENTINEL_BITS,
        computed_result(mode, answers).v == SENTINEL_BITS,
        computed_result(mode, answers).h == SENTINEL_BITS,
        computed_result(mode, answers).s == SENTINEL_BITS,
        computed_result(mode, answers).u == SENTINEL_BITS,
        computed_result(mode, answers).dv == SENTINEL_BITS,
        computed_result(mode, answers).kv == SENTINEL_BITS,
        computed_result(mode, answers).k == SENTINEL_BITS,
        computed_result(mode, answers).td == SENTINEL_BITS,
        computed_result(mode, answers).st == SENTINEL_BITS,
        computed_result(mode, answers).lat == SENTINEL_BITS,
{
}

/// The "steam" and "water" regimes issue identical requests for the same
/// (pressure, temperature) input, assemble identical records from identical
/// answers, and neither computes internal energy or latent heat: both those
/// fields are the sentinel in both results.
pub proof fn lemma_single_phase_u_lat_sentinel(p: u64, t: u64, answers: Seq<u64>)
    ensures
        planned_calls(p, t, 30) == planned_calls(p, t, 40),
        computed_result(30, answers) == computed_result(40, answers),
        computed_result(30, answers).u == SENTINEL_BITS,
        computed_result(30, answers).lat == SENTINEL_BITS,
        computed_result(40, answers).u == SENTINEL_BITS,
        computed_result(40, answers).lat == SENTINEL_BITS,
{
}

/// In the saturated-by-temperature regime the latent heat is the enthalpy
/// difference across the two-phase boundary: the two closing requests of
/// the plan ask for enthalpy at quality one and at quality zero at the same
/// temperature, and the assembled `lat` is exactly the difference of their
/// answers.
pub proof fn lemma_latent_heat_by_temp(t: u64, answers: Seq<u64>)
    ensures
        saturated_by_temp_plan(t)[10] == (EvalCall {
            convention: Convention::TemperatureQuality,
            v1: t,
            v2: QUALITY_VAPOR_BITS,
            prop: PROP_ENTHALPY,
        }),
        saturated_by_temp_plan(t)[11] == (EvalCall {
            convention: Convention::TemperatureQuality,
            v1: t,
            v2: QUALITY_LIQUID_BITS,
            prop: PROP_ENTHALPY,
        }),
        saturated_result(answers).lat == sub_bits(answers[10], answers[11]),
{
}

/// The same identity for the saturated-by-pressure regime, with pressure as
/// the controlling variable.
pub proof fn lemma_latent_heat_by_pres(p: u64, answers: Seq<u64>)
    ensures
        saturated_by_pres_plan(p)[10] == (EvalCall {
            convention: Convention::PressureQuality,
            v1: p,
            v2: QUALITY_VAPOR_BITS,
            prop: PROP_ENTHALPY,
        }),
        saturated_by_pres_plan(p)[11] == (EvalCall {
            convention: Convention::PressureQuality,
            v1: p,
            v2: QUALITY_LIQUID_BITS,
            prop: PROP_ENTHALPY,
        }),
        saturated_result(answers).lat == sub_bits(answers[10], answers[11]),
{
}

/// Computing twice with identical inputs gives bitwise-identical records:
/// the dispatcher returns exactly `computed_result` of its inputs, which
/// depends on nothing else, so two results of the same mode and answers are
/// equal.
pub proof fn lemma_compute_deterministic(
    mode: u32,
    answers: Seq<u64>,
    r1: SteamProps,
    r2: SteamProps,
)
    requires
        r1 == computed_result(mode, answers),
        r2 == computed_result(mode, answers),
    ensures
        r1 == r2,
{
}

/// A saturation regime populates all eleven fields: whenever none of the
/// evaluator's twelve answers is the sentinel and the derived latent heat
/// does not happen to equal the sentinel either, no field of the result is
/// the sentinel.
pub proof fn lemma_saturated_populates_all_fields(answers: Seq<u64>)
    requires
        answers.len() == 12,
        forall|i: int| 0 <= i < 12 ==> answers[i] != SENTINEL_BITS,
        sub_bits(answers[10], answers[11]) != SENTINEL_BITS,
    ensures
        saturated_result(answers).d != SENTINEL_BITS,
        saturated_result(answers).v != SENTINEL_BITS,
        saturated_result(answers).h != SENTINEL_BITS,
        saturated_result(answers).s != SENTINEL_BITS,
        saturated_result(answers).u != SENTINEL_BITS,
        saturated_result(answers).dv != SENTINEL_BITS,
        saturated_result(answers).kv != SENTINEL_BITS,
        saturated_result(answers).k != SENTINEL_BITS,
        saturated_result(answers).td != SENTINEL_BITS,
        saturated_result(answers).st != SENTINEL_BITS,
        saturated_result(answers).lat != SENTINEL_BITS,
{
}

/// A single-phase regime populates exactly nine of the eleven fields:
/// whenever none of the evaluator's nine answers is the sentinel, the nine
/// computed fields are not the sentinel, and internal energy and latent
/// heat are.
pub proof fn lemma_single_phase_populates_nine_fields(answers: Seq<u64>)
    requires
        answers.len() == 9,
        forall|i: int| 0 <= i < 9 ==> answers[i] != SENTINEL_BITS,
    ensures
        single_phase_result(answers).d != SENTINEL_BITS,
        single_phase_result(answers).v != SENTINEL_BITS,
        single_phase_result(answers).h != SENTINEL_BITS,
        single_phase_result(answers).s != SENTINEL_BITS,
        single_phase_result(answers).dv != SENTINEL_BITS,
        single_phase_result(answers).kv != SENTINEL_BITS,
        single_phase_result(answers).k != SENTINEL_BITS,
        single_phase_result(answers).td != SENTINEL_BITS,
        single_phase_result(answers).st != SENTINEL_BITS,
        single_phase_result(answers).u == SENTINEL_BITS,
        single_phase_result(answers).lat == SENTINEL_BITS,
{
}

} // verus!
