//! The result record: eleven thermodynamic quantities of one water/steam
//! state, each held as the IEEE-754 bit pattern of a double-precision number.

use vstd::prelude::*;

verus! {

/// Bit pattern of the sentinel value that marks a field as "not computed":
/// the double-precision number minus nine hundred ninety-nine.
pub const SENTINEL_BITS: u64 = 0xC08F_3800_0000_0000;

/// An immutable-after-construction record of eleven physical quantities.
/// Each field holds the bit pattern of a double-precision number; a field
/// that a regime does not compute stays at `SENTINEL_BITS`.
#[derive(PartialEq, Eq, Structural, Clone, Copy, Debug)]
pub struct SteamProps {
    /// density, kg/m3
    pub d: u64,
    /// specific volume, m3/kg
    pub v: u64,
    /// specific enthalpy, kJ/kg
    pub h: u64,
    /// specific entropy, kJ/(kg.K)
    pub s: u64,
    /// specific internal energy, kJ/kg
    pub u: u64,
    /// dynamic viscosity, Pa.s
    pub dv: u64,
    /// kinematic viscosity, m2/s
    pub kv: u64,
    /// thermal conductivity, W/(m.K)
    pub k: u64,
    /// thermal diffusivity, m2/s
    pub td: u64,
    /// surface tension, N/m
    pub st: u64,
    /// latent heat of vaporization, kJ/kg
    pub lat: u64,
}

impl SteamProps {
    /// The all-sentinel record: no field computed.
    pub open spec fn spec_default() -> SteamProps {
        SteamProps {
            d: SENTINEL_BITS,
            v: SENTINEL_BITS,
            h: SENTINEL_BITS,
            s: SENTINEL_BITS,
            u: SENTINEL_BITS,
            dv: SENTINEL_BITS,
            kv: SENTINEL_BITS,
            k: SENTINEL_BITS,
            td: SENTINEL_BITS,
            st: SENTINEL_BITS,
            lat: SENTINEL_BITS,
        }
    }

    /// A fresh record with every field at the sentinel.
    pub fn new() -> (sp: SteamProps)
        ensures
            sp == SteamProps::spec_default(),
    {
        SteamProps {
            d: SENTINEL_BITS,
            v: SENTINEL_BITS,
            h: SENTINEL_BITS,
            s: SENTINEL_BITS,
            u: SENTINEL_BITS,
            dv: SENTINEL_BITS,
            kv: SENTINEL_BITS,
            k: SENTINEL_BITS,
            td: SENTINEL_BITS,
            st: SENTINEL_BITS,
            lat: SENTINEL_BITS,
        }
    }
}

} // verus!
