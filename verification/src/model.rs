//! The measurement data model: requested and concrete power sources,
//! the measurement configuration, the result record and the error
//! taxonomy.

use vstd::prelude::*;
use crate::text::str_eq;
use crate::units::Energy;
use crate::units::Power;
use crate::units::spec_co2e;
use crate::units::joules_to_kwh;
use crate::units::kwh_to_co2e;
use crate::units::DEFAULT_CO2E_PER_KWH;

verus! {

/// A requested power measurement strategy. `Auto` asks the engine to
/// pick the first available concrete strategy.
#[derive(Clone, Copy, PartialEq, Eq, Structural, Debug)]
pub enum PowerSource {
    /// Automatically select the best power source.
    Auto,
    /// Cumulative hardware energy counter (RAPL).
    Rapl,
    /// System-wide power supply telemetry (ACPI).
    Acpi,
    /// Estimate from a fixed thermal-design power (least accurate).
    TdpEstimate,
}

/// The concrete strategy a measurement was taken with. Unlike
/// `PowerSource` it has no `Auto`: a result always records which
/// strategy actually ran.
#[derive(Clone, Copy, PartialEq, Eq, Structural, Debug)]
pub enum MeasurementMethod {
    /// Cumulative hardware energy counter (RAPL).
    Rapl,
    /// System-wide power supply telemetry (ACPI).
    Acpi,
    /// Estimate from a fixed thermal-design power.
    TdpEstimate,
}

impl Default for PowerSource {
    fn default() -> (r: Self)
        ensures
            r == PowerSource::Auto,
    {
        PowerSource::Auto
    }
}

impl PowerSource {
    /// The display name of the strategy.
    pub open spec fn spec_label(&self) -> Seq<char> {
        match self {
            PowerSource::Auto => "Auto"@,
            PowerSource::Rapl => "RAPL"@,
            PowerSource::Acpi => "ACPI"@,
            PowerSource::TdpEstimate => "TDP Estimate"@,
        }
    }

    /// Returns the display name of the strategy.
    pub fn label(&self) -> (r: String)
        ensures
            r@ == self.spec_label(),
    {
        match self {
            PowerSource::Auto => String::from_str("Auto"),
            PowerSource::Rapl => String::from_str("RAPL"),
            PowerSource::Acpi => String::from_str("ACPI"),
            PowerSource::TdpEstimate => String::from_str("TDP Estimate"),
        }
    }

    /// Parses a strategy name: `auto`, `rapl`, `acpi` or `tdp`. Any
    /// other name is reported back in the error.
    pub fn from_str(s: &str) -> (r: Result<PowerSource, String>)
        ensures
            match r {
                Ok(ps) => (s@ == "auto"@ && ps == PowerSource::Auto) || (s@ == "rapl"@ && ps
                    == PowerSource::Rapl) || (s@ == "acpi"@ && ps == PowerSource::Acpi) || (s@
                    == "tdp"@ && ps == PowerSource::TdpEstimate),
                Err(m) => !(s@ == "auto"@ || s@ == "rapl"@ || s@ == "acpi"@ || s@ == "tdp"@) && m@
                    == "Unknown power source: "@ + s@,
            },
    {
        if str_eq(s, "auto") {
            Ok(PowerSource::Auto)
        } else if str_eq(s, "rapl") {
            Ok(PowerSource::Rapl)
        } else if str_eq(s, "acpi") {
            Ok(PowerSource::Acpi)
        } else if str_eq(s, "tdp") {
            Ok(PowerSource::TdpEstimate)
        } else {
            Err(String::from_str("Unknown power source: ").concat(s))
        }
    }
}

impl MeasurementMethod {
    /// The display name of the strategy.
    pub open spec fn spec_label(&self) -> Seq<char> {
        match self {
            MeasurementMethod::Rapl => "RAPL"@,
            MeasurementMethod::Acpi => "ACPI"@,
            MeasurementMethod::TdpEstimate => "TDP Estimate"@,
        }
    }

    /// Returns the display name of the strategy.
    pub fn label(&self) -> (r: String)
        ensures
            r@ == self.spec_label(),
    {
        match self {
            MeasurementMethod::Rapl => String::from_str("RAPL"),
            MeasurementMethod::Acpi => String::from_str("ACPI"),
            MeasurementMethod::TdpEstimate => String::from_str("TDP Estimate"),
        }
    }
}

/// Measurement configuration: the sampling budget, the requested
/// strategy and the polling period of the telemetry sampler.
#[derive(Clone, Copy, PartialEq, Eq, Structural, Debug)]
pub struct MeasurementConfig {
    /// Wall-clock sampling budget in milliseconds. It bounds the
    /// telemetry sampler; the counter and estimate strategies are
    /// bound by the workload instead.
    pub duration_ms: u64,
    /// The requested strategy.
    pub power_source: PowerSource,
    /// Polling period of the telemetry sampler in milliseconds.
    pub sample_interval_ms: u64,
}

impl MeasurementConfig {
    /// A configuration is valid for a sampling strategy only with a
    /// positive polling period.
    pub open spec fn valid(&self) -> bool {
        self.sample_interval_ms > 0
    }

    /// Returns whether the polling period is positive.
    pub fn is_valid(&self) -> (r: bool)
        ensures
            r == self.valid(),
    {
        self.sample_interval_ms > 0
    }
}

/// The emissions factor to apply: the given one, or the documented
/// global-average default.
pub open spec fn chosen_factor(co2e_per_kwh: Option<u64>) -> int {
    match co2e_per_kwh {
        Some(f) => f as int,
        None => DEFAULT_CO2E_PER_KWH as int,
    }
}

/// One completed measurement: constructed once at the end of a run and
/// never mutated.
#[derive(Clone, Copy, PartialEq, Eq, Structural, Debug)]
pub struct EnergyMeasurement {
    /// Total energy consumed, in microjoules.
    pub total_energy: Energy,
    /// Average power over the run, in microwatts.
    pub average_power: Power,
    /// Peak power observed, in microwatts.
    pub peak_power: Power,
    /// Actual elapsed wall-clock time of the measurement in
    /// microseconds.
    pub duration_us: u64,
    /// The concrete strategy the measurement was taken with.
    pub measurement_method: MeasurementMethod,
}

impl EnergyMeasurement {
    /// CO2e mass in micrograms attributable to the total energy, under
    /// an emissions factor in grams of CO2e per kilowatt-hour (the
    /// global-average default when unspecified).
    pub fn co2e(&self, co2e_per_kwh: Option<u64>) -> (micrograms: u64)
        requires
            spec_co2e(self.total_energy.microjoules as int, chosen_factor(co2e_per_kwh))
                <= u64::MAX,
        ensures
            micrograms == spec_co2e(
                self.total_energy.microjoules as int,
                chosen_factor(co2e_per_kwh),
            ),
    {
        let factor: u64 = match co2e_per_kwh {
            Some(f) => f,
            None => DEFAULT_CO2E_PER_KWH,
        };
        let kwh_millionths: u64 = joules_to_kwh(self.total_energy);
        kwh_to_co2e(kwh_millionths, factor)
    }
}

/// Why a measurement could not be taken.
#[derive(Debug)]
pub enum MeasurementError {
    /// An underlying read or open failed; carries the text of the
    /// operating-system error.
    IoError(String),
    /// The hardware energy counter is missing or unreadable.
    RaplNotAvailable,
    /// No power supply telemetry could be discovered.
    AcpiNotAvailable,
    /// A value that was expected to be numeric could not be parsed;
    /// carries the offending attribute.
    InvalidMeasurement(String),
}

} // verus!
