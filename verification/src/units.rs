//! Exact integer unit arithmetic for energy, power and emissions.
//!
//! All quantities are carried in micro-units so that every conversion in
//! this module is exact integer arithmetic:
//!
//! * energy in microjoules (`Energy`),
//! * power in microwatts (`Power`),
//! * kilowatt-hour amounts as millionths of a kilowatt-hour,
//! * carbon-dioxide-equivalent mass in micrograms.

use vstd::prelude::*;

verus! {

/// Microjoules in one millionth of a kilowatt-hour (3.6 J).
pub const MICROJOULES_PER_MICRO_KWH: u64 = 3_600_000;

/// Microjoules attributed to transferring one gigabyte (0.0028125 kWh).
pub const MICROJOULES_PER_GIGABYTE: u64 = 10_125_000_000;

/// Microjoules attributed to transferring one megabyte (0.0000028125 kWh).
pub const MICROJOULES_PER_MEGABYTE: u64 = 10_125_000;

/// Default emissions factor in grams of CO2e per kilowatt-hour
/// (global average).
pub const DEFAULT_CO2E_PER_KWH: u64 = 436;

/// An amount of energy, stored in microjoules.
#[derive(Clone, Copy, PartialEq, Eq, Structural, PartialOrd, Ord, Debug)]
pub struct Energy {
    /// The amount in microjoules.
    pub microjoules: u64,
}

/// An amount of power, stored in microwatts.
#[derive(Clone, Copy, PartialEq, Eq, Structural, PartialOrd, Ord, Debug)]
pub struct Power {
    /// The amount in microwatts.
    pub microwatts: u64,
}

/// Millionths of a kilowatt-hour held in `microjoules` microjoules,
/// rounded towards zero.
pub open spec fn spec_joules_to_kwh(microjoules: int) -> int {
    microjoules / (MICROJOULES_PER_MICRO_KWH as int)
}

/// Microjoules in `kwh_millionths` millionths of a kilowatt-hour.
pub open spec fn spec_kwh_to_joules(kwh_millionths: int) -> int {
    kwh_millionths * (MICROJOULES_PER_MICRO_KWH as int)
}

/// Micrograms of CO2e for an energy in microjoules and an emissions
/// factor in grams of CO2e per kilowatt-hour.
pub open spec fn spec_co2e(microjoules: int, grams_per_kwh: int) -> int {
    spec_joules_to_kwh(microjoules) * grams_per_kwh
}

/// Energy attributed to transferring `gigabytes` gigabytes of data.
pub fn gigabytes_to_kwh(gigabytes: u64) -> (e: Energy)
    requires
        gigabytes * MICROJOULES_PER_GIGABYTE <= u64::MAX,
    ensures
        e.microjoules == gigabytes * MICROJOULES_PER_GIGABYTE,
{
    Energy { microjoules: gigabytes * MICROJOULES_PER_GIGABYTE }
}

/// Energy attributed to transferring `megabytes` megabytes of data.
pub fn megabytes_to_kwh(megabytes: u64) -> (e: Energy)
    requires
        megabytes * MICROJOULES_PER_MEGABYTE <= u64::MAX,
    ensures
        e.microjoules == megabytes * MICROJOULES_PER_MEGABYTE,
{
    Energy { microjoules: megabytes * MICROJOULES_PER_MEGABYTE }
}

/// Converts an energy to millionths of a kilowatt-hour, rounded towards
/// zero.
pub fn joules_to_kwh(joules: Energy) -> (kwh_millionths: u64)
    ensures
        kwh_millionths == spec_joules_to_kwh(joules.microjoules as int),
{
    joules.microjoules / MICROJOULES_PER_MICRO_KWH
}

/// Converts millionths of a kilowatt-hour to an energy.
pub fn kwh_to_joules(kwh_millionths: u64) -> (e: Energy)
    requires
        spec_kwh_to_joules(kwh_millionths as int) <= u64::MAX,
    ensures
        e.microjoules == spec_kwh_to_joules(kwh_millionths as int),
{
    Energy { microjoules: kwh_millionths * MICROJOULES_PER_MICRO_KWH }
}

/// CO2e mass in micrograms for `kwh_millionths` millionths of a
/// kilowatt-hour under an emissions factor in grams of CO2e per
/// kilowatt-hour. One millionth of a kilowatt-hour contributes exactly
/// `grams_per_kwh` micrograms.
pub fn kwh_to_co2e(kwh_millionths: u64, grams_per_kwh: u64) -> (micrograms: u64)
    requires
        kwh_millionths * grams_per_kwh <= u64::MAX,
    ensures
        micrograms == kwh_millionths * grams_per_kwh,
{
    kwh_millionths * grams_per_kwh
}

/// Energy consumed at a fixed thermal-design power of `tdp_watts` watts
/// over `time_seconds` seconds.
pub fn tdp_to_joules(tdp_watts: u64, time_seconds: u64) -> (e: Energy)
    requires
        tdp_watts * time_seconds * 1_000_000 <= u64::MAX,
    ensures
        e.microjoules == tdp_watts * time_seconds * 1_000_000,
{
    Energy { microjoules: tdp_watts * time_seconds * 1_000_000 }
}

/// Energy consumed by a run of `runtime_seconds` seconds at an average
/// power of `average_power_watts` watts.
pub fn benchmarks_to_kwh(runtime_seconds: u64, average_power_watts: u64) -> (e: Energy)
    requires
        runtime_seconds * average_power_watts * 1_000_000 <= u64::MAX,
    ensures
        e.microjoules == runtime_seconds * average_power_watts * 1_000_000,
{
    Energy { microjoules: runtime_seconds * average_power_watts * 1_000_000 }
}

/// Converting a kilowatt-hour amount to an energy and back returns the
/// amount unchanged: the two conversions are exact inverses wherever the
/// intermediate energy is representable.
pub proof fn lemma_kwh_joules_round_trip(kwh_millionths: u64)
    ensures
        spec_joules_to_kwh(spec_kwh_to_joules(kwh_millionths as int)) == kwh_millionths,
{
    let j = spec_kwh_to_joules(kwh_millionths as int);
    assert(j / (MICROJOULES_PER_MICRO_KWH as int) == kwh_millionths) by (nonlinear_arith)
        requires
            j == kwh_millionths * (MICROJOULES_PER_MICRO_KWH as int),
    ;
}

/// CO2e mass is monotonically increasing in both the energy and the
/// emissions factor.
pub proof fn lemma_co2e_monotone(uj1: int, uj2: int, f1: int, f2: int)
    requires
        0 <= uj1 <= uj2,
        0 <= f1 <= f2,
    ensures
        spec_co2e(uj1, f1) <= spec_co2e(uj2, f2),
{
    let c = MICROJOULES_PER_MICRO_KWH as int;
    assert(uj1 / c <= uj2 / c && 0 <= uj1 / c) by (nonlinear_arith)
        requires
            0 <= uj1 <= uj2,
            c == MICROJOULES_PER_MICRO_KWH as int,
    ;
    assert((uj1 / c) * f1 <= (uj2 / c) * f2) by (nonlinear_arith)
        requires
            0 <= uj1 / c <= uj2 / c,
            0 <= f1 <= f2,
    ;
}

} // verus!
