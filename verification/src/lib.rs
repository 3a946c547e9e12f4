//! Energy measurement for a single workload run.
//!
//! The crate models energy and power in exact integer micro-units
//! (microjoules, microwatts, microseconds), selects one of three
//! measurement strategies — a cumulative hardware energy counter, power
//! supply telemetry, or a fixed thermal-design-power estimate — and
//! reduces the raw readings of the chosen strategy to a single
//! measurement record.

pub mod counter;
pub mod engine;
pub mod model;
pub mod supply;
pub mod text;
pub mod units;

pub use units::Energy;
pub use units::Power;
pub use units::gigabytes_to_kwh;
pub use units::megabytes_to_kwh;
pub use units::joules_to_kwh;
pub use units::kwh_to_joules;
pub use units::kwh_to_co2e;
pub use units::tdp_to_joules;
pub use units::benchmarks_to_kwh;
pub use units::DEFAULT_CO2E_PER_KWH;
pub use units::lemma_co2e_monotone;
pub use units::lemma_kwh_joules_round_trip;
pub use model::PowerSource;
pub use model::MeasurementMethod;
pub use model::MeasurementConfig;
pub use model::EnergyMeasurement;
pub use model::MeasurementError;
pub use counter::RaplMeasurement;
pub use supply::AcpiMeasurement;
pub use supply::AcpiPowerInfo;
pub use supply::SupplyFiles;
pub use engine::BenchmarkExecutor;
pub use engine::DEFAULT_TDP_MICROWATTS;
pub use engine::lemma_tdp_deterministic;

