//! The measurement engine: strategy selection and the reduction of raw
//! readings to one measurement record.
//!
//! The engine itself is free of clocks and platform files. The caller
//! probes the platform, runs the workload, samples power where the
//! chosen strategy asks for it, and hands the readings and the elapsed
//! time to the reduction of the chosen strategy.

use vstd::prelude::*;
use crate::model::EnergyMeasurement;
use crate::model::MeasurementConfig;
use crate::model::MeasurementMethod;
use crate::model::PowerSource;
use crate::units::Energy;
use crate::units::Power;

verus! {

/// The fixed thermal-design power the estimate strategy assumes, in
/// microwatts (28 W, a conservative laptop processor figure). The
/// constant is the documented default; making it configurable is a
/// known limitation.
pub const DEFAULT_TDP_MICROWATTS: u64 = 28_000_000;

/// Sum of a sample sequence, in microwatts.
pub open spec fn spec_sum(s: Seq<u64>) -> int
    decreases s.len(),
{
    if s.len() == 0 {
        0
    } else {
        spec_sum(s.drop_last()) + s.last()
    }
}

/// Arithmetic mean of a sample sequence, rounded towards zero; 0 when
/// no sample was taken.
pub open spec fn spec_average(s: Seq<u64>) -> int {
    if s.len() == 0 {
        0
    } else {
        spec_sum(s) / s.len() as int
    }
}

/// Running peak of a sample sequence, starting from 0; 0 when no
/// sample was taken.
pub open spec fn spec_peak(s: Seq<u64>) -> int
    decreases s.len(),
{
    if s.len() == 0 {
        0
    } else if s.last() > spec_peak(s.drop_last()) {
        s.last() as int
    } else {
        spec_peak(s.drop_last())
    }
}

/// The strategy the automatic fallback chain picks from the
/// availability probes: the hardware counter first, then supply
/// telemetry, then the estimate, which is always available.
pub open spec fn spec_auto_selection(rapl_available: bool, acpi_available: bool)
    -> MeasurementMethod {
    if rapl_available {
        MeasurementMethod::Rapl
    } else if acpi_available {
        MeasurementMethod::Acpi
    } else {
        MeasurementMethod::TdpEstimate
    }
}

/// Runs one workload measurement: owns the configuration and reduces
/// the readings of the chosen strategy.
pub struct BenchmarkExecutor {
    config: MeasurementConfig,
}

impl BenchmarkExecutor {
    /// The configuration the executor was built with.
    pub closed spec fn spec_config(&self) -> MeasurementConfig {
        self.config
    }

    /// Creates a new benchmark executor.
    pub fn new(config: MeasurementConfig) -> (r: BenchmarkExecutor)
        ensures
            r.spec_config() == config,
    {
        BenchmarkExecutor { config }
    }

    /// Returns the configuration.
    pub fn config(&self) -> (r: &MeasurementConfig)
        ensures
            *r == self.spec_config(),
    {
        &self.config
    }

    /// Selects the concrete strategy for this run. An explicit request
    /// is honoured as it stands, whether or not the probes found it
    /// available: its unavailability surfaces when the strategy is
    /// constructed. An automatic request takes the first available
    /// strategy in the fixed priority order, falling back to the
    /// estimate, so automatic selection always succeeds.
    pub fn select_method(&self, rapl_available: bool, acpi_available: bool) -> (m:
        MeasurementMethod)
        ensures
            self.spec_config().power_source == PowerSource::Rapl ==> m == MeasurementMethod::Rapl,
            self.spec_config().power_source == PowerSource::Acpi ==> m == MeasurementMethod::Acpi,
            self.spec_config().power_source == PowerSource::TdpEstimate ==> m
                == MeasurementMethod::TdpEstimate,
            self.spec_config().power_source == PowerSource::Auto ==> m == spec_auto_selection(
                rapl_available,
                acpi_available,
            ),
    {
        match self.config.power_source {
            PowerSource::Auto => {
                if rapl_available {
                    MeasurementMethod::Rapl
                } else if acpi_available {
                    MeasurementMethod::Acpi
                } else {
                    MeasurementMethod::TdpEstimate
                }
            },
            PowerSource::Rapl => MeasurementMethod::Rapl,
            PowerSource::Acpi => MeasurementMethod::Acpi,
            PowerSource::TdpEstimate => MeasurementMethod::TdpEstimate,
        }
    }

    /// Reduces a hardware counter run to a measurement: the counter
    /// before and after the workload, in microjoules, and the elapsed
    /// wall time in microseconds. The counter is cumulative and
    /// monotonic, so the energy is the difference; the average power
    /// follows from energy over time. The strategy takes only the two
    /// snapshots, so no power curve exists and the peak power is
    /// reported as 0.
    pub fn measure_with_rapl(
        &self,
        start_energy_uj: u64,
        end_energy_uj: u64,
        duration_us: u64,
    ) -> (m: EnergyMeasurement)
        requires
            start_energy_uj <= end_energy_uj,
            duration_us > 0,
            (end_energy_uj - start_energy_uj) * 1_000_000 / duration_us as int <= u64::MAX,
        ensures
            m.total_energy.microjoules == end_energy_uj - start_energy_uj,
            m.average_power.microwatts == (end_energy_uj - start_energy_uj) * 1_000_000
                / duration_us as int,
            m.peak_power.microwatts == 0,
            m.duration_us == duration_us,
            m.measurement_method == MeasurementMethod::Rapl,
    {
        let energy_uj: u64 = end_energy_uj - start_energy_uj;
        let average_uw_wide: u128 = energy_uj as u128 * 1_000_000u128 / duration_us as u128;
        proof {
            assert(energy_uj as int * 1_000_000 / duration_us as int <= u64::MAX);
        }
        let average_uw: u64 = average_uw_wide as u64;
        EnergyMeasurement {
            total_energy: Energy { microjoules: energy_uj },
            average_power: Power { microwatts: average_uw },
            peak_power: Power { microwatts: 0 },
            duration_us,
            measurement_method: MeasurementMethod::Rapl,
        }
    }

    /// Reduces a supply telemetry run to a measurement: the power
    /// samples collected by the sampler, in microwatts, and the
    /// elapsed wall time in microseconds. The average power is the
    /// arithmetic mean of the samples (0 when none was taken), the
    /// peak is their running maximum, and the total energy is
    /// re-derived as average power times duration — deliberately not
    /// an integral of the sample curve. The peak never falls below the
    /// average.
    pub fn measure_with_acpi(&self, samples: &Vec<u64>, duration_us: u64) -> (m:
        EnergyMeasurement)
        requires
            spec_sum(samples@) <= u64::MAX,
            spec_average(samples@) * duration_us as int / 1_000_000 <= u64::MAX,
        ensures
            m.average_power.microwatts == spec_average(samples@),
            m.peak_power.microwatts == spec_peak(samples@),
            m.total_energy.microjoules == spec_average(samples@) * duration_us as int / 1_000_000,
            m.duration_us == duration_us,
            m.measurement_method == MeasurementMethod::Acpi,
            m.peak_power.microwatts >= m.average_power.microwatts,
    {
        let mut sum: u64 = 0;
        let mut peak: u64 = 0;
        let mut i: usize = 0;
        while i < samples.len()
            invariant
                0 <= i <= samples@.len(),
                spec_sum(samples@) <= u64::MAX,
                sum == spec_sum(samples@.subrange(0, i as int)),
                peak == spec_peak(samples@.subrange(0, i as int)),
            decreases samples.len() - i,
        {
            proof {
                let pre = samples@.subrange(0, i as int);
                let cur = samples@.subrange(0, i + 1);
                assert(cur.drop_last() =~= pre);
                assert(cur.last() == samples@[i as int]);
                lemma_sum_prefix_le(samples@, i + 1);
                lemma_sum_nonneg(pre);
            }
            let s = samples[i];
            sum = sum + s;
            if s > peak {
                peak = s;
            }
            i = i + 1;
        }
        proof {
            assert(samples@.subrange(0, samples@.len() as int) =~= samples@);
        }
        let average_uw: u64 = if samples.len() > 0 {
            sum / samples.len() as u64
        } else {
            0
        };
        proof {
            lemma_peak_ge_average(samples@);
        }
        let energy_wide: u128 = average_uw as u128 * duration_us as u128 / 1_000_000u128;
        let energy_uj: u64 = energy_wide as u64;
        EnergyMeasurement {
            total_energy: Energy { microjoules: energy_uj },
            average_power: Power { microwatts: average_uw },
            peak_power: Power { microwatts: peak },
            duration_us,
            measurement_method: MeasurementMethod::Acpi,
        }
    }

    /// Reduces a thermal-estimate run to a measurement from the
    /// elapsed wall time in microseconds alone: the strategy assumes
    /// the fixed thermal-design power throughout, so the energy is
    /// that constant times the elapsed time, and the average and peak
    /// power both equal the constant. The strategy never fails.
    pub fn measure_with_tdp(&self, duration_us: u64) -> (m: EnergyMeasurement)
        requires
            DEFAULT_TDP_MICROWATTS * duration_us as int / 1_000_000 <= u64::MAX,
        ensures
            m.total_energy.microjoules == DEFAULT_TDP_MICROWATTS * duration_us as int / 1_000_000,
            m.total_energy.microjoules == (DEFAULT_TDP_MICROWATTS / 1_000_000) * duration_us,
            m.average_power.microwatts == DEFAULT_TDP_MICROWATTS,
            m.peak_power.microwatts == DEFAULT_TDP_MICROWATTS,
            m.duration_us == duration_us,
            m.measurement_method == MeasurementMethod::TdpEstimate,
    {
        let energy_wide: u128 = DEFAULT_TDP_MICROWATTS as u128 * duration_us as u128
            / 1_000_000u128;
        proof {
            let d = duration_us as int;
            assert((28_000_000 * d) / 1_000_000 == 28 * d) by (nonlinear_arith);
        }
        let energy_uj: u64 = energy_wide as u64;
        EnergyMeasurement {
            total_energy: Energy { microjoules: energy_uj },
            average_power: Power { microwatts: DEFAULT_TDP_MICROWATTS },
            peak_power: Power { microwatts: DEFAULT_TDP_MICROWATTS },
            duration_us,
            measurement_method: MeasurementMethod::TdpEstimate,
        }
    }
}

/// The thermal estimate is deterministic: whatever two workloads did,
/// any two measurements that the estimate's contract admits for equal
/// measured wall durations are equal in every field.
pub proof fn lemma_tdp_deterministic(m1: EnergyMeasurement, m2: EnergyMeasurement)
    requires
        m1.duration_us == m2.duration_us,
        m1.total_energy.microjoules == DEFAULT_TDP_MICROWATTS * m1.duration_us as int / 1_000_000,
        m2.total_energy.microjoules == DEFAULT_TDP_MICROWATTS * m2.duration_us as int / 1_000_000,
        m1.average_power.microwatts == DEFAULT_TDP_MICROWATTS,
        m2.average_power.microwatts == DEFAULT_TDP_MICROWATTS,
        m1.peak_power.microwatts == DEFAULT_TDP_MICROWATTS,
        m2.peak_power.microwatts == DEFAULT_TDP_MICROWATTS,
        m1.measurement_method == MeasurementMethod::TdpEstimate,
        m2.measurement_method == MeasurementMethod::TdpEstimate,
    ensures
        m1 == m2,
{
}

proof fn lemma_sum_nonneg(s: Seq<u64>)
    ensures
        spec_sum(s) >= 0,
    decreases s.len(),
{
    if s.len() > 0 {
        lemma_sum_nonneg(s.drop_last());
    }
}

/// Partial sums of samples never exceed the total.
proof fn lemma_sum_prefix_le(s: Seq<u64>, m: int)
    requires
        0 <= m <= s.len(),
    ensures
        spec_sum(s.subrange(0, m)) <= spec_sum(s),
    decreases s.len() - m,
{
    if m == s.len() {
        assert(s.subrange(0, m) =~= s);
    } else {
        lemma_sum_prefix_le(s, m + 1);
        let p = s.subrange(0, m);
        let q = s.subrange(0, m + 1);
        assert(q.drop_last() =~= p);
        assert(q.last() == s[m]);
    }
}

proof fn lemma_peak_nonneg(s: Seq<u64>)
    ensures
        spec_peak(s) >= 0,
    decreases s.len(),
{
    if s.len() > 0 {
        lemma_peak_nonneg(s.drop_last());
    }
}

/// The sum of a sample sequence is at most its length times its peak.
proof fn lemma_sum_le_len_times_peak(s: Seq<u64>)
    ensures
        spec_sum(s) <= s.len() * spec_peak(s),
    decreases s.len(),
{
    if s.len() > 0 {
        let d = s.drop_last();
        lemma_sum_le_len_times_peak(d);
        lemma_peak_nonneg(d);
        assert(spec_peak(d) <= spec_peak(s));
        assert(d.len() * spec_peak(d) <= d.len() * spec_peak(s)) by (nonlinear_arith)
            requires
                0 <= d.len(),
                spec_peak(d) <= spec_peak(s),
        ;
        assert(s.last() <= spec_peak(s));
        assert(s.len() * spec_peak(s) == d.len() * spec_peak(s) + spec_peak(s)) by (
        nonlinear_arith)
            requires
                s.len() == d.len() + 1,
        ;
    }
}

/// The running peak of a sample sequence never falls below the mean.
proof fn lemma_peak_ge_average(s: Seq<u64>)
    ensures
        spec_average(s) <= spec_peak(s),
    decreases s.len(),
{
    if s.len() == 0 {
    } else {
        lemma_sum_le_len_times_peak(s);
        lemma_peak_nonneg(s);
        assert(spec_sum(s) / s.len() as int <= spec_peak(s)) by (nonlinear_arith)
            requires
                s.len() > 0,
                spec_sum(s) <= s.len() * spec_peak(s),
                spec_peak(s) >= 0,
        ;
    }
}

} // verus!
