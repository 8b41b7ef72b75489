//! The four regime functions and the mode dispatcher.
//!
//! Each regime takes the evaluator's answers to its planned requests, in
//! plan order, and assembles the result record; the two saturation regimes
//! additionally derive the latent heat as the difference of the two closing
//! enthalpy answers. The dispatcher runs exactly one regime per call and
//! answers an unsupported mode with the all-sentinel record.

use vstd::prelude::*;

use crate::evaluator::answer_count;
use crate::props::SENTINEL_BITS;
use crate::props::SteamProps;
use crate::softfloat::double_sub;
use crate::softfloat::sub_bits;

verus! {

/// The record a saturation regime assembles from its twelve answers: the
/// first ten fill the ten computed fields in plan order, and the latent heat
/// is the difference of the last two (enthalpy at quality one minus enthalpy
/// at quality zero).
pub open spec fn saturated_result(answers: Seq<u64>) -> SteamProps {
    SteamProps {
        d: answers[0],
        v: answers[1],
        h: answers[2],
        s: answers[3],
        u: answers[4],
        dv: answers[5],
        kv: answers[6],
        k: answers[7],
        td: answers[8],
        st: answers[9],
        lat: sub_bits(answers[10], answers[11]),
    }
}

/// The record a single-phase regime assembles from its nine answers:
/// internal energy and latent heat are never computed and stay at the
/// sentinel.
pub open spec fn single_phase_result(answers: Seq<u64>) -> SteamProps {
    SteamProps {
        d: answers[0],
        v: answers[1],
        h: answers[2],
        s: answers[3],
        u: SENTINEL_BITS,
        dv: answers[4],
        kv: answers[5],
        k: answers[6],
        td: answers[7],
        st: answers[8],
        lat: SENTINEL_BITS,
    }
}

/// What the dispatcher returns for a mode and the answers to its plan.
pub open spec fn computed_result(mode: u32, answers: Seq<u64>) -> SteamProps {
    if mode == 10 || mode == 20 {
        saturated_result(answers)
    } else if mode == 30 || mode == 40 {
        single_phase_result(answers)
    } else {
        SteamProps::spec_default()
    }
}

/// Saturated steam addressed by temperature: assembles the answers to the
/// twelve requests of `saturated_by_temp_plan`.
pub fn sat_steam_by_temp(answers: &Vec<u64>) -> (sp: SteamProps)
    requires
        answers@.len() == 12,
    ensures
        sp == saturated_result(answers@),
{
    assemble_saturated(answers)
}

/// Saturated steam addressed by pressure: assembles the answers to the
/// twelve requests of `saturated_by_pres_plan`.
pub fn sat_steam_by_pres(answers: &Vec<u64>) -> (sp: SteamProps)
    requires
        answers@.len() == 12,
    ensures
        sp == saturated_result(answers@),
{
    assemble_saturated(answers)
}

/// The single-phase "steam" regime: assembles the answers to the nine
/// requests of `single_phase_plan`.
pub fn steam(answers: &Vec<u64>) -> (sp: SteamProps)
    requires
        answers@.len() == 9,
    ensures
        sp == single_phase_result(answers@),
{
    assemble_single_phase(answers)
}

/// The single-phase "water" regime. Its requests and its assembly are
/// identical to the "steam" regime: any distinction between the two lives
/// inside the evaluator's own phase logic, not in this layer.
pub fn water(answers: &Vec<u64>) -> (sp: SteamProps)
    requires
        answers@.len() == 9,
    ensures
        sp == single_phase_result(answers@),
{
    assemble_single_phase(answers)
}

fn assemble_saturated(answers: &Vec<u64>) -> (sp: SteamProps)
    requires
        answers@.len() == 12,
    ensures
        sp == saturated_result(answers@),
{
    let mut sp = SteamProps::new();
    sp.d = answers[0];
    sp.v = answers[1];
    sp.h = answers[2];
    sp.s = answers[3];
    sp.u = answers[4];
    sp.dv = answers[5];
    sp.kv = answers[6];
    sp.k = answers[7];
    sp.td = answers[8];
    sp.st = answers[9];
    sp.lat = double_sub(answers[10], answers[11]);
    sp
}

fn assemble_single_phase(answers: &Vec<u64>) -> (sp: SteamProps)
    requires
        answers@.len() == 9,
    ensures
        sp == single_phase_result(answers@),
{
    let mut sp = SteamProps::new();
    sp.d = answers[0];
    sp.v = answers[1];
    sp.h = answers[2];
    sp.s = answers[3];
    sp.dv = answers[4];
    sp.kv = answers[5];
    sp.k = answers[6];
    sp.td = answers[7];
    sp.st = answers[8];
    sp
}

/// The dispatcher: runs exactly one regime on the answers to the mode's
/// planned requests, and returns the all-sentinel record for an unsupported
/// mode. `answers` are the evaluator's returns for `planned_calls`, in plan
/// order, each as a bit pattern.
pub fn call_seuif(mode: u32, answers: &Vec<u64>) -> (sp: SteamProps)
    requires
        answers@.len() == answer_count(mode),
    ensures
        sp == computed_result(mode, answers@),
{
    match mode {
        10 => sat_steam_by_temp(answers),
        20 => sat_steam_by_pres(answers),
        30 => steam(answers),
        40 => water(answers),
        _ => SteamProps::new(),
    }
}

} // verus!
