use carbonara::Energy;
use carbonara::benchmarks_to_kwh;
use carbonara::gigabytes_to_kwh;
use carbonara::joules_to_kwh;
use carbonara::kwh_to_co2e;
use carbonara::kwh_to_joules;
use carbonara::megabytes_to_kwh;
use carbonara::tdp_to_joules;

#[test]
fn test_gigabytes_to_kwh() {
    // 0.0028125 kWh = 10_125_000_000 microjoules.
    assert_eq!(gigabytes_to_kwh(1), Energy { microjoules: 10_125_000_000 });
}

#[test]
fn test_megabytes_to_kwh() {
    // 0.0000028125 kWh = 10_125_000 microjoules.
    assert_eq!(megabytes_to_kwh(1), Energy { microjoules: 10_125_000 });
}

#[test]
fn test_kwh_to_co2e() {
    // One kilowatt-hour at 436 g/kWh is 436 grams of CO2e.
    assert_eq!(kwh_to_co2e(1_000_000, 436), 436_000_000);
}

#[test]
fn test_joules_to_kwh() {
    // 3,600,000 joules is exactly one kilowatt-hour.
    assert_eq!(joules_to_kwh(Energy { microjoules: 3_600_000_000_000 }), 1_000_000);
}

#[test]
fn test_kwh_to_joules() {
    // One kilowatt-hour is exactly 3,600,000 joules.
    assert_eq!(kwh_to_joules(1_000_000), Energy { microjoules: 3_600_000_000_000 });
}

#[test]
fn test_tdp_to_joules() {
    // 28 W for 5 s is 140 joules.
    assert_eq!(tdp_to_joules(28, 5), Energy { microjoules: 140_000_000 });
}

#[test]
fn test_benchmarks_to_kwh() {
    // 3600 s at 100 W is 360,000 joules.
    assert_eq!(benchmarks_to_kwh(3600, 100), Energy { microjoules: 360_000_000_000 });
}

#[test]
fn benchmarks_hour_at_hundred_watts_is_tenth_of_kwh() {
    // 3600 s at 100 W is 0.1 kWh, i.e. 100,000 millionths.
    assert_eq!(joules_to_kwh(benchmarks_to_kwh(3600, 100)), 100_000);
}

#[test]
fn kwh_joules_round_trip_is_exact() {
    for x in [0u64, 1, 17, 1_000_000, 2_812_500, 5_000_000_000_000] {
        assert_eq!(joules_to_kwh(kwh_to_joules(x)), x);
    }
}

#[test]
fn co2e_scales_with_energy_and_factor() {
    // Half a kilowatt-hour at the same factor gives half the mass.
    assert_eq!(kwh_to_co2e(500_000, 436), 218_000_000);
    // Monotone in both arguments.
    assert!(kwh_to_co2e(400_000, 300) <= kwh_to_co2e(500_000, 300));
    assert!(kwh_to_co2e(500_000, 300) <= kwh_to_co2e(500_000, 436));
    assert_eq!(kwh_to_co2e(0, 436), 0);
    assert_eq!(kwh_to_co2e(1_000_000, 0), 0);
}
