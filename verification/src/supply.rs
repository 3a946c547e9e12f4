//! The power supply telemetry strategy: battery and AC adapter devices
//! discovered in the platform's power-supply registry, each exposing up
//! to four numeric attribute files in micro-units.

use vstd::prelude::*;
use crate::model::MeasurementError;
use crate::text::all_digits;
use crate::text::digits_value;
use crate::text::parse_trimmed_u64;
use crate::text::spec_trim;

verus! {

/// One per-device telemetry snapshot, in device-native micro-units. An
/// attribute whose file is absent reads as 0 (voltage, current) or as
/// `None` (power, energy).
#[derive(Clone, Copy, Debug)]
pub struct AcpiPowerInfo {
    /// Voltage in microvolts.
    pub voltage_now: u64,
    /// Current in microamps.
    pub current_now: u64,
    /// Directly reported instantaneous power in microwatts, if the
    /// device exposes it.
    pub power_now: Option<u64>,
    /// Cumulative energy in microwatt-hours, if the device exposes it.
    pub energy_now: Option<u64>,
}

/// The raw attribute file contents of one power supply device, as read
/// from its directory: `None` where the file is absent.
#[derive(Debug)]
pub struct SupplyFiles {
    /// Content of the voltage attribute file.
    pub voltage_now: Option<String>,
    /// Content of the current attribute file.
    pub current_now: Option<String>,
    /// Content of the instantaneous power attribute file.
    pub power_now: Option<String>,
    /// Content of the cumulative energy attribute file.
    pub energy_now: Option<String>,
}

/// A power supply device name that the telemetry strategy retains: a
/// battery (`BAT` prefix) or an AC adapter (`AC` prefix).
pub open spec fn is_supply_name(name: Seq<char>) -> bool {
    ||| (name.len() >= 3 && name[0] == 'B' && name[1] == 'A' && name[2] == 'T')
    ||| (name.len() >= 2 && name[0] == 'A' && name[1] == 'C')
}

/// The subsequence of registry entries that the telemetry strategy
/// retains, in discovery order.
pub open spec fn retained_supplies(entries: Seq<Seq<char>>) -> Seq<Seq<char>>
    decreases entries.len(),
{
    if entries.len() == 0 {
        Seq::empty()
    } else {
        retained_supplies(entries.drop_last()) + (if is_supply_name(entries.last()) {
            seq![entries.last()]
        } else {
            Seq::empty()
        })
    }
}

/// A raw attribute is acceptable when its file is absent, or its
/// content is a run of decimal digits (ignoring surrounding
/// whitespace) whose value fits in a `u64`.
pub open spec fn attr_parses(o: Option<String>) -> bool {
    match o {
        Option::None => true,
        Option::Some(s) => spec_trim(s@).len() > 0 && all_digits(spec_trim(s@)) && digits_value(
            spec_trim(s@),
        ) <= u64::MAX,
    }
}

/// The numeric value of a raw attribute, with 0 for an absent file.
pub open spec fn attr_value(o: Option<String>) -> int {
    match o {
        Option::None => 0,
        Option::Some(s) => digits_value(spec_trim(s@)),
    }
}

/// The numeric value of a raw attribute, with `None` for an absent
/// file.
pub open spec fn attr_opt_value(o: Option<String>) -> Option<u64> {
    match o {
        Option::None => Option::None,
        Option::Some(s) => Option::Some(digits_value(spec_trim(s@)) as u64),
    }
}

/// All four raw attributes of one device are acceptable.
pub open spec fn files_ok(f: SupplyFiles) -> bool {
    attr_parses(f.voltage_now) && attr_parses(f.current_now) && attr_parses(f.power_now)
        && attr_parses(f.energy_now)
}

/// Device `i` is the first whose raw attributes do not parse.
pub open spec fn first_failing(raw: Seq<SupplyFiles>, i: int) -> bool {
    &&& 0 <= i < raw.len()
    &&& !files_ok(raw[i])
    &&& forall|k: int| 0 <= k < i ==> files_ok(#[trigger] raw[k])
}

/// The name of the first attribute of `f` that does not parse, in the
/// fixed read order: voltage, current, power, energy. Meaningful only
/// for a device with a failing attribute.
pub open spec fn first_bad_attr(f: SupplyFiles) -> Seq<char> {
    if !attr_parses(f.voltage_now) {
        "voltage_now"@
    } else if !attr_parses(f.current_now) {
        "current_now"@
    } else if !attr_parses(f.power_now) {
        "power_now"@
    } else {
        "energy_now"@
    }
}

/// The telemetry snapshot described by one device's raw attribute
/// files.
pub open spec fn info_of(f: SupplyFiles) -> AcpiPowerInfo {
    AcpiPowerInfo {
        voltage_now: attr_value(f.voltage_now) as u64,
        current_now: attr_value(f.current_now) as u64,
        power_now: attr_opt_value(f.power_now),
        energy_now: attr_opt_value(f.energy_now),
    }
}

/// The power drawn through one device in microwatts: the directly
/// reported instantaneous power where present, otherwise derived from
/// voltage and current.
pub open spec fn device_power(d: AcpiPowerInfo) -> int {
    match d.power_now {
        Option::Some(p) => p as int,
        Option::None => (d.voltage_now * d.current_now) / 1_000_000,
    }
}

/// Total system power in microwatts: the sum over all devices.
pub open spec fn total_power(s: Seq<AcpiPowerInfo>) -> int
    decreases s.len(),
{
    if s.len() == 0 {
        0
    } else {
        total_power(s.drop_last()) + device_power(s.last())
    }
}

/// The power supply telemetry reader: the registry path and the
/// retained battery and AC adapter device names, fixed at construction.
pub struct AcpiMeasurement {
    power_supply_path: String,
    cached_power_supplies: Vec<String>,
}

impl AcpiMeasurement {
    /// The registry path the devices were discovered under.
    pub closed spec fn spec_power_supply_path(&self) -> Seq<char> {
        self.power_supply_path@
    }

    /// The names of the retained devices.
    pub closed spec fn spec_supplies(&self) -> Seq<Seq<char>> {
        self.cached_power_supplies.deep_view()
    }

    /// Creates a new telemetry reader from the entries discovered in
    /// the platform's power-supply registry: retains the battery and
    /// AC adapter entries, and fails with the telemetry-unavailable
    /// error exactly when no entry is retained.
    pub fn new(power_supply_path: String, entries: Vec<String>) -> (r: Result<
        AcpiMeasurement,
        MeasurementError,
    >)
        ensures
            match r {
                Ok(m) => {
                    &&& retained_supplies(entries.deep_view()).len() > 0
                    &&& m.spec_power_supply_path() == power_supply_path@
                    &&& m.spec_supplies() == retained_supplies(entries.deep_view())
                },
                Err(e) => retained_supplies(entries.deep_view()).len() == 0 && e
                    is AcpiNotAvailable,
            },
    {
        let mut kept: Vec<String> = Vec::new();
        let mut i: usize = 0;
        while i < entries.len()
            invariant
                0 <= i <= entries.len(),
                kept.deep_view() == retained_supplies(entries.deep_view().subrange(0, i as int)),
            decreases entries.len() - i,
        {
            let name = &entries[i];
            proof {
                let pre = entries.deep_view().subrange(0, i as int);
                let cur = entries.deep_view().subrange(0, i + 1);
                assert(cur.drop_last() =~= pre);
                assert(cur.last() == entries.deep_view()[i as int]);
            }
            if is_supply_name_exec(name) {
                kept.push(name.clone());
                proof {
                    assert(kept.deep_view() =~= retained_supplies(
                        entries.deep_view().subrange(0, i + 1),
                    ));
                }
            } else {
                proof {
                    assert(kept.deep_view() =~= retained_supplies(
                        entries.deep_view().subrange(0, i + 1),
                    ));
                }
            }
            i = i + 1;
        }
        proof {
            assert(entries.deep_view().subrange(0, entries.deep_view().len() as int)
                =~= entries.deep_view());
        }
        if kept.len() == 0 {
            Err(MeasurementError::AcpiNotAvailable)
        } else {
            Ok(AcpiMeasurement { power_supply_path, cached_power_supplies: kept })
        }
    }

    /// Returns the registry path.
    pub fn power_supply_path(&self) -> (r: &String)
        ensures
            r@ == self.spec_power_supply_path(),
    {
        &self.power_supply_path
    }

    /// Returns the names of the retained devices.
    pub fn supplies(&self) -> (r: &Vec<String>)
        ensures
            r.deep_view() == self.spec_supplies(),
    {
        &self.cached_power_supplies
    }

    /// Parses the raw attribute files of every retained device, one
    /// `SupplyFiles` record per device in order, into telemetry
    /// snapshots. An absent attribute file is not an error; a present
    /// but non-numeric one fails with an invalid-measurement error.
    pub fn read_power_info(&self, raw: &Vec<SupplyFiles>) -> (r: Result<
        Vec<AcpiPowerInfo>,
        MeasurementError,
    >)
        requires
            raw.len() == self.spec_supplies().len(),
        ensures
            match r {
                Ok(infos) => {
                    &&& forall|i: int| 0 <= i < raw@.len() ==> files_ok(#[trigger] raw@[i])
                    &&& infos@.len() == raw@.len()
                    &&& forall|i: int|
                        0 <= i < raw@.len() ==> #[trigger] infos@[i] == info_of(raw@[i])
                },
                Err(e) => {
                    &&& exists|i: int| first_failing(raw@, i)
                    &&& e matches MeasurementError::InvalidMeasurement(msg)
                    &&& forall|i: int|
                        first_failing(raw@, i) ==> msg@ == "Failed to parse "@ + first_bad_attr(
                            raw@[i],
                        ) + " for "@ + self.spec_supplies()[i]
                },
            },
    {
        let mut infos: Vec<AcpiPowerInfo> = Vec::new();
        let mut i: usize = 0;
        while i < raw.len()
            invariant
                0 <= i <= raw@.len(),
                raw.len() == self.spec_supplies().len(),
                self.spec_supplies() == self.cached_power_supplies.deep_view(),
                infos@.len() == i,
                forall|k: int| 0 <= k < i ==> files_ok(#[trigger] raw@[k]),
                forall|k: int| 0 <= k < i ==> #[trigger] infos@[k] == info_of(raw@[k]),
            decreases raw.len() - i,
        {
            let files = &raw[i];
            let supply: &String = &self.cached_power_supplies[i];
            let voltage: u64 = match parse_attr(&files.voltage_now, "voltage_now", supply) {
                Ok(Some(v)) => v,
                Ok(None) => 0,
                Err(e) => {
                    proof {
                        assert(first_failing(raw@, i as int));
                        assert(first_bad_attr(raw@[i as int]) == "voltage_now"@);
                        assert(self.spec_supplies()[i as int] == supply@);
                        assert forall|j: int| first_failing(raw@, j) implies j == i as int by {
                            lemma_first_failing_unique(raw@, i as int, j);
                        }
                    }
                    return Err(e);
                },
            };
            let current: u64 = match parse_attr(&files.current_now, "current_now", supply) {
                Ok(Some(v)) => v,
                Ok(None) => 0,
                Err(e) => {
                    proof {
                        assert(first_failing(raw@, i as int));
                        assert(first_bad_attr(raw@[i as int]) == "current_now"@);
                        assert(self.spec_supplies()[i as int] == supply@);
                        assert forall|j: int| first_failing(raw@, j) implies j == i as int by {
                            lemma_first_failing_unique(raw@, i as int, j);
                        }
                    }
                    return Err(e);
                },
            };
            let power: Option<u64> = match parse_attr(&files.power_now, "power_now", supply) {
                Ok(v) => v,
                Err(e) => {
                    proof {
                        assert(first_failing(raw@, i as int));
                        assert(first_bad_attr(raw@[i as int]) == "power_now"@);
                        assert(self.spec_supplies()[i as int] == supply@);
                        assert forall|j: int| first_failing(raw@, j) implies j == i as int by {
                            lemma_first_failing_unique(raw@, i as int, j);
                        }
                    }
                    return Err(e);
                },
            };
            let energy: Option<u64> = match parse_attr(&files.energy_now, "energy_now", supply) {
                Ok(v) => v,
                Err(e) => {
                    proof {
                        assert(first_failing(raw@, i as int));
                        assert(first_bad_attr(raw@[i as int]) == "energy_now"@);
                        assert(self.spec_supplies()[i as int] == supply@);
                        assert forall|j: int| first_failing(raw@, j) implies j == i as int by {
                            lemma_first_failing_unique(raw@, i as int, j);
                        }
                    }
                    return Err(e);
                },
            };
            infos.push(
                AcpiPowerInfo {
                    voltage_now: voltage,
                    current_now: current,
                    power_now: power,
                    energy_now: energy,
                },
            );
            i = i + 1;
        }
        Ok(infos)
    }

    /// Total system power in microwatts across the given snapshots:
    /// per device the directly reported power where present, otherwise
    /// voltage times current scaled back to microwatts; devices are
    /// summed, not averaged.
    pub fn calculate_power(&self, info: &Vec<AcpiPowerInfo>) -> (r: u64)
        requires
            forall|i: int|
                0 <= i < info@.len() && (#[trigger] info@[i]).power_now is None ==> info@[
                    i
                ].voltage_now * info@[i].current_now <= u64::MAX,
            total_power(info@) <= u64::MAX,
        ensures
            r == total_power(info@),
    {
        let mut total: u64 = 0;
        let mut i: usize = 0;
        while i < info.len()
            invariant
                0 <= i <= info@.len(),
                forall|k: int|
                    0 <= k < info@.len() && (#[trigger] info@[k]).power_now is None ==> info@[
                        k
                    ].voltage_now * info@[k].current_now <= u64::MAX,
                total_power(info@) <= u64::MAX,
                total == total_power(info@.subrange(0, i as int)),
            decreases info.len() - i,
        {
            proof {
                let pre = info@.subrange(0, i as int);
                let cur = info@.subrange(0, i + 1);
                assert(cur.drop_last() =~= pre);
                assert(cur.last() == info@[i as int]);
                lemma_total_power_prefix_le(info@, i + 1);
                lemma_total_power_nonneg(pre);
            }
            let d = &info[i];
            let dp: u64 = match d.power_now {
                Some(p) => p,
                None => (d.voltage_now * d.current_now) / 1_000_000,
            };
            total = total + dp;
            i = i + 1;
        }
        proof {
            assert(info@.subrange(0, info@.len() as int) =~= info@);
        }
        total
    }
}

/// Parses one raw attribute: `Ok(None)` for an absent file, `Ok(Some)`
/// for a numeric content, and an invalid-measurement error naming the
/// attribute and the device for anything else.
fn parse_attr(o: &Option<String>, attr: &str, supply: &String) -> (r: Result<
    Option<u64>,
    MeasurementError,
>)
    ensures
        match r {
            Ok(v) => attr_parses(*o) && v == attr_opt_value(*o),
            Err(e) => {
                &&& !attr_parses(*o)
                &&& e matches MeasurementError::InvalidMeasurement(m)
                &&& m@ == "Failed to parse "@ + attr@ + " for "@ + supply@
            },
        },
{
    match o {
        None => Ok(None),
        Some(s) => {
            match parse_trimmed_u64(s.as_str()) {
                Some(v) => Ok(Some(v)),
                None => Err(
                    MeasurementError::InvalidMeasurement(
                        String::from_str("Failed to parse ").concat(attr).concat(" for ").concat(
                            supply.as_str(),
                        ),
                    ),
                ),
            }
        },
    }
}

/// Whether a device name is retained: prefixed by the battery or the
/// AC adapter marker.
fn is_supply_name_exec(name: &String) -> (r: bool)
    ensures
        r == is_supply_name(name@),
{
    let s: &str = name.as_str();
    let len: usize = s.unicode_len();
    if len >= 3 && s.get_char(0) == 'B' && s.get_char(1) == 'A' && s.get_char(2) == 'T' {
        true
    } else if len >= 2 && s.get_char(0) == 'A' && s.get_char(1) == 'C' {
        true
    } else {
        false
    }
}

/// At most one device is the first failing one.
proof fn lemma_first_failing_unique(raw: Seq<SupplyFiles>, i: int, j: int)
    requires
        first_failing(raw, i),
        first_failing(raw, j),
    ensures
        i == j,
{
    if i < j {
        assert(files_ok(raw[i]));
    }
    if j < i {
        assert(files_ok(raw[j]));
    }
}

proof fn lemma_total_power_nonneg(s: Seq<AcpiPowerInfo>)
    ensures
        total_power(s) >= 0,
    decreases s.len(),
{
    if s.len() > 0 {
        lemma_total_power_nonneg(s.drop_last());
        lemma_device_power_nonneg(s.last());
    }
}

proof fn lemma_device_power_nonneg(d: AcpiPowerInfo)
    ensures
        device_power(d) >= 0,
{
    match d.power_now {
        Option::Some(_) => {
        },
        Option::None => {
            assert((d.voltage_now * d.current_now) / 1_000_000 >= 0) by (nonlinear_arith)
                requires
                    d.voltage_now >= 0 && d.current_now >= 0,
            ;
        },
    }
}

/// Partial sums of device power never exceed the total.
proof fn lemma_total_power_prefix_le(s: Seq<AcpiPowerInfo>, m: int)
    requires
        0 <= m <= s.len(),
    ensures
        total_power(s.subrange(0, m)) <= total_power(s),
    decreases s.len() - m,
{
    if m == s.len() {
        assert(s.subrange(0, m) =~= s);
    } else {
        lemma_total_power_prefix_le(s, m + 1);
        let p = s.subrange(0, m);
        let q = s.subrange(0, m + 1);
        assert(q.drop_last() =~= p);
        assert(q.last() == s[m]);
        lemma_device_power_nonneg(s[m]);
    }
}

} // verus!
