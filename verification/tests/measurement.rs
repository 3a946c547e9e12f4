use carbonara::AcpiMeasurement;
use carbonara::AcpiPowerInfo;
use carbonara::BenchmarkExecutor;
use carbonara::Energy;
use carbonara::EnergyMeasurement;
use carbonara::MeasurementConfig;
use carbonara::MeasurementError;
use carbonara::MeasurementMethod;
use carbonara::Power;
use carbonara::PowerSource;
use carbonara::RaplMeasurement;
use carbonara::SupplyFiles;
use carbonara::DEFAULT_TDP_MICROWATTS;

fn tdp_config() -> MeasurementConfig {
    MeasurementConfig {
        duration_ms: 1000,
        power_source: PowerSource::TdpEstimate,
        sample_interval_ms: 100,
    }
}

fn no_files() -> SupplyFiles {
    SupplyFiles { voltage_now: None, current_now: None, power_now: None, energy_now: None }
}

#[test]
fn test_tdp_measurement() {
    let executor = BenchmarkExecutor::new(tdp_config());
    // A run whose workload took one second of wall time.
    let measurement = executor.measure_with_tdp(1_000_000);

    assert!(measurement.total_energy > Energy { microjoules: 0 });
    assert_eq!(measurement.measurement_method, MeasurementMethod::TdpEstimate);
}

#[test]
fn test_rapl_availability() {
    // The platform probe hands the constructor the counter file's path
    // when it exists and is readable, and nothing otherwise.
    let rapl_result =
        RaplMeasurement::new(Some("/sys/class/powercap/intel-rapl/intel-rapl:0/energy_uj".to_string()));
    match rapl_result {
        Ok(_) => println!("RAPL is available on this system"),
        Err(MeasurementError::RaplNotAvailable) => {
            println!("RAPL is not available on this system")
        }
        Err(e) => panic!("Unexpected error: {:?}", e),
    }
    match RaplMeasurement::new(None) {
        Ok(_) => println!("RAPL is available on this system"),
        Err(MeasurementError::RaplNotAvailable) => {
            println!("RAPL is not available on this system")
        }
        Err(e) => panic!("Unexpected error: {:?}", e),
    }
}

#[test]
fn test_acpi_availability() {
    // A registry with one battery entry, and one with no usable entry.
    let acpi_result = AcpiMeasurement::new(
        "/sys/class/power_supply".to_string(),
        vec!["BAT0".to_string(), "hidraw0".to_string()],
    );
    match acpi_result {
        Ok(_) => println!("ACPI power measurement is available"),
        Err(MeasurementError::AcpiNotAvailable) => {
            println!("ACPI power measurement is not available on this system")
        }
        Err(e) => panic!("Unexpected error: {:?}", e),
    }
    match AcpiMeasurement::new("/sys/class/power_supply".to_string(), vec![]) {
        Ok(_) => println!("ACPI power measurement is available"),
        Err(MeasurementError::AcpiNotAvailable) => {
            println!("ACPI power measurement is not available on this system")
        }
        Err(e) => panic!("Unexpected error: {:?}", e),
    }
}

#[test]
fn test_acpi_measurement() {
    let config = MeasurementConfig {
        duration_ms: 2000,
        power_source: PowerSource::Acpi,
        sample_interval_ms: 100,
    };
    let executor = BenchmarkExecutor::new(config);

    let acpi = AcpiMeasurement::new(
        "/sys/class/power_supply".to_string(),
        vec!["BAT0".to_string()],
    )
    .expect("a battery entry was given");

    // One sampling tick: the device reports its power directly.
    let raw = vec![SupplyFiles {
        voltage_now: Some("12000000\n".to_string()),
        current_now: Some("1250000\n".to_string()),
        power_now: Some("15000000\n".to_string()),
        energy_now: None,
    }];
    let info = acpi.read_power_info(&raw).expect("the attributes are numeric");
    let sample = acpi.calculate_power(&info);
    assert_eq!(sample, 15_000_000);

    let samples = vec![sample];
    let measurement = executor.measure_with_acpi(&samples, 2_000_000);
    println!("ACPI Measurement Results:");
    println!("Total Energy: {:?}", measurement.total_energy);
    println!("Average Power: {:?}", measurement.average_power);
    println!("Peak Power: {:?}", measurement.peak_power);
    println!("Duration: {:?}", measurement.duration_us);
}

#[test]
fn thermal_estimate_is_constant_power_times_time() {
    let executor = BenchmarkExecutor::new(tdp_config());
    // 2.5 s of wall time at 28 W is exactly 70 J.
    let m = executor.measure_with_tdp(2_500_000);
    assert_eq!(m.total_energy, Energy { microjoules: 70_000_000 });
    assert_eq!(m.average_power, Power { microwatts: DEFAULT_TDP_MICROWATTS });
    assert_eq!(m.peak_power, Power { microwatts: DEFAULT_TDP_MICROWATTS });
    assert_eq!(m.duration_us, 2_500_000);
    assert_eq!(m.measurement_method, MeasurementMethod::TdpEstimate);
}

#[test]
fn thermal_estimate_is_deterministic() {
    // Two runs of equal measured wall duration report the same
    // measurement, whatever their workloads did.
    let e1 = BenchmarkExecutor::new(tdp_config());
    let e2 = BenchmarkExecutor::new(tdp_config());
    assert_eq!(e1.measure_with_tdp(1_234_567), e2.measure_with_tdp(1_234_567));
}

#[test]
fn telemetry_reduction_of_three_samples() {
    let executor = BenchmarkExecutor::new(tdp_config());
    // Samples of 10 W, 20 W and 15 W.
    let samples = vec![10_000_000u64, 20_000_000, 15_000_000];
    let m = executor.measure_with_acpi(&samples, 3_000_000);
    assert_eq!(m.average_power, Power { microwatts: 15_000_000 });
    assert_eq!(m.peak_power, Power { microwatts: 20_000_000 });
    // total energy re-derived as average power times duration
    assert_eq!(m.total_energy, Energy { microjoules: 45_000_000 });
    assert_eq!(m.measurement_method, MeasurementMethod::Acpi);
    assert!(m.peak_power.microwatts >= m.average_power.microwatts);
}

#[test]
fn telemetry_reduction_without_samples_reports_zero_power() {
    let executor = BenchmarkExecutor::new(tdp_config());
    let samples: Vec<u64> = vec![];
    let m = executor.measure_with_acpi(&samples, 500_000);
    assert_eq!(m.average_power, Power { microwatts: 0 });
    assert_eq!(m.peak_power, Power { microwatts: 0 });
    assert_eq!(m.total_energy, Energy { microjoules: 0 });
}

#[test]
fn counter_reduction_matches_snapshots() {
    let executor = BenchmarkExecutor::new(tdp_config());
    // 1,000,000 µJ then 3,500,000 µJ over 2.5 s: 2.5 J and 1 W.
    let m = executor.measure_with_rapl(1_000_000, 3_500_000, 2_500_000);
    assert_eq!(m.total_energy, Energy { microjoules: 2_500_000 });
    assert_eq!(m.average_power, Power { microwatts: 1_000_000 });
    assert_eq!(m.peak_power, Power { microwatts: 0 });
    assert_eq!(m.duration_us, 2_500_000);
    assert_eq!(m.measurement_method, MeasurementMethod::Rapl);
}

#[test]
fn auto_selection_falls_back_to_thermal_estimate() {
    let config = MeasurementConfig {
        duration_ms: 1000,
        power_source: PowerSource::Auto,
        sample_interval_ms: 100,
    };
    let executor = BenchmarkExecutor::new(config);
    assert_eq!(executor.select_method(false, false), MeasurementMethod::TdpEstimate);
    assert_eq!(executor.select_method(true, true), MeasurementMethod::Rapl);
    assert_eq!(executor.select_method(false, true), MeasurementMethod::Acpi);
}

#[test]
fn explicit_selection_is_honoured_without_fallback() {
    let config = MeasurementConfig {
        duration_ms: 1000,
        power_source: PowerSource::Rapl,
        sample_interval_ms: 100,
    };
    let executor = BenchmarkExecutor::new(config);
    assert_eq!(executor.select_method(false, true), MeasurementMethod::Rapl);
}

#[test]
fn zero_discoverable_devices_is_an_error() {
    // Entries that match neither prefix are ignored, never silently
    // kept as zero-power devices.
    let r = AcpiMeasurement::new(
        "/sys/class/power_supply".to_string(),
        vec!["hidraw0".to_string(), "ucsi-source-psy-1".to_string()],
    );
    assert!(matches!(r, Err(MeasurementError::AcpiNotAvailable)));
}

#[test]
fn only_battery_and_ac_entries_are_retained() {
    let acpi = AcpiMeasurement::new(
        "/sys/class/power_supply".to_string(),
        vec![
            "AC".to_string(),
            "BAT0".to_string(),
            "BAT1".to_string(),
            "hidraw0".to_string(),
        ],
    )
    .expect("battery entries were given");
    assert_eq!(acpi.supplies().len(), 3);
    assert_eq!(acpi.supplies()[0], "AC");
    assert_eq!(acpi.supplies()[1], "BAT0");
    assert_eq!(acpi.supplies()[2], "BAT1");
    assert_eq!(acpi.power_supply_path().as_str(), "/sys/class/power_supply");
}

#[test]
fn counter_parses_a_trimmed_reading() {
    let rapl = RaplMeasurement::new(Some("energy_uj".to_string())).unwrap();
    assert_eq!(rapl.read_energy_counter(" 12345\n").unwrap(), 12345);
    assert_eq!(
        rapl.read_energy_counter("18446744073709551615\n").unwrap(),
        u64::MAX
    );
}

#[test]
fn counter_rejects_non_numeric_readings() {
    let rapl = RaplMeasurement::new(Some("energy_uj".to_string())).unwrap();
    for raw in ["", "  \n", "12a3", "-5", "+5", "18446744073709551616"] {
        match rapl.read_energy_counter(raw) {
            Err(MeasurementError::InvalidMeasurement(m)) => {
                assert!(m.starts_with("invalid energy counter reading: "));
            }
            other => panic!("Unexpected result: {:?}", other),
        }
    }
}

#[test]
fn absent_attribute_files_default_without_error() {
    let acpi = AcpiMeasurement::new(
        "/sys/class/power_supply".to_string(),
        vec!["BAT0".to_string()],
    )
    .unwrap();
    let info = acpi.read_power_info(&vec![no_files()]).unwrap();
    assert_eq!(info.len(), 1);
    assert_eq!(info[0].voltage_now, 0);
    assert_eq!(info[0].current_now, 0);
    assert!(info[0].power_now.is_none());
    assert!(info[0].energy_now.is_none());
}

#[test]
fn unparseable_attribute_file_is_an_error() {
    let acpi = AcpiMeasurement::new(
        "/sys/class/power_supply".to_string(),
        vec!["BAT0".to_string()],
    )
    .unwrap();
    let raw = vec![SupplyFiles {
        voltage_now: Some("garbage".to_string()),
        current_now: None,
        power_now: None,
        energy_now: None,
    }];
    match acpi.read_power_info(&raw) {
        Err(MeasurementError::InvalidMeasurement(m)) => {
            assert_eq!(m, "Failed to parse voltage_now for BAT0");
        }
        other => panic!("Unexpected result: {:?}", other),
    }
}

#[test]
fn derived_power_sums_devices() {
    let acpi = AcpiMeasurement::new(
        "/sys/class/power_supply".to_string(),
        vec!["BAT0".to_string(), "AC".to_string()],
    )
    .unwrap();
    let info = vec![
        // Reports power directly: 5 W.
        AcpiPowerInfo {
            voltage_now: 0,
            current_now: 0,
            power_now: Some(5_000_000),
            energy_now: None,
        },
        // Derived from 12 V at 2 A: 24 W.
        AcpiPowerInfo {
            voltage_now: 12_000_000,
            current_now: 2_000_000,
            power_now: None,
            energy_now: None,
        },
    ];
    assert_eq!(acpi.calculate_power(&info), 29_000_000);
}

#[test]
fn power_source_parses_its_names() {
    assert_eq!(PowerSource::from_str("auto").unwrap(), PowerSource::Auto);
    assert_eq!(PowerSource::from_str("rapl").unwrap(), PowerSource::Rapl);
    assert_eq!(PowerSource::from_str("acpi").unwrap(), PowerSource::Acpi);
    assert_eq!(PowerSource::from_str("tdp").unwrap(), PowerSource::TdpEstimate);
    assert_eq!(
        PowerSource::from_str("solar").unwrap_err(),
        "Unknown power source: solar"
    );
    assert_eq!(PowerSource::default(), PowerSource::Auto);
}

#[test]
fn strategy_labels() {
    assert_eq!(PowerSource::Auto.label(), "Auto");
    assert_eq!(PowerSource::Rapl.label(), "RAPL");
    assert_eq!(PowerSource::Acpi.label(), "ACPI");
    assert_eq!(PowerSource::TdpEstimate.label(), "TDP Estimate");
    assert_eq!(MeasurementMethod::Rapl.label(), "RAPL");
    assert_eq!(MeasurementMethod::Acpi.label(), "ACPI");
    assert_eq!(MeasurementMethod::TdpEstimate.label(), "TDP Estimate");
}

#[test]
fn co2e_uses_the_default_factor_when_unspecified() {
    let m = EnergyMeasurement {
        total_energy: Energy { microjoules: 3_600_000_000_000 },
        average_power: Power { microwatts: 1_000_000 },
        peak_power: Power { microwatts: 1_000_000 },
        duration_us: 3_600_000_000,
        measurement_method: MeasurementMethod::Rapl,
    };
    // One kilowatt-hour at the global-average 436 g/kWh.
    assert_eq!(m.co2e(None), 436_000_000);
    assert_eq!(m.co2e(Some(500)), 500_000_000);
    assert_eq!(m.co2e(Some(0)), 0);
}

#[test]
fn config_validity_requires_positive_interval() {
    let mut config = tdp_config();
    assert!(config.is_valid());
    config.sample_interval_ms = 0;
    assert!(!config.is_valid());
}
