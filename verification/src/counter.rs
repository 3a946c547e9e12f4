//! The hardware energy counter strategy: a platform file exposing a
//! monotonically increasing cumulative energy value in microjoules.

use vstd::prelude::*;
use crate::model::MeasurementError;
use crate::text::all_digits;
use crate::text::digits_value;
use crate::text::parse_trimmed_u64;
use crate::text::parses_to;
use crate::text::spec_trim;

verus! {

/// A validated hardware energy counter. Holds the path of the counter
/// file; the raw readings themselves are taken by the caller and parsed
/// here.
pub struct RaplMeasurement {
    package_path: String,
}

impl RaplMeasurement {
    /// The path of the counter file.
    pub closed spec fn spec_package_path(&self) -> Seq<char> {
        self.package_path@
    }

    /// Creates a new hardware counter instance from the platform
    /// probe's result: the counter file's path if it exists and could
    /// be opened for reading, `None` otherwise. An absent or unreadable
    /// counter is reported as unavailable.
    pub fn new(probed_path: Option<String>) -> (r: Result<RaplMeasurement, MeasurementError>)
        ensures
            match r {
                Ok(m) => probed_path matches Some(p) && m.spec_package_path() == p@,
                Err(e) => probed_path is None && e is RaplNotAvailable,
            },
    {
        match probed_path {
            Some(p) => Ok(RaplMeasurement { package_path: p }),
            None => Err(MeasurementError::RaplNotAvailable),
        }
    }

    /// Returns the path of the counter file.
    pub fn package_path(&self) -> (r: &String)
        ensures
            r@ == self.spec_package_path(),
    {
        &self.package_path
    }

    /// Parses one raw text of the counter file into the cumulative
    /// energy in microjoules: ignoring surrounding whitespace, the text
    /// must be a run of decimal digits whose value fits in a `u64`.
    pub fn read_energy_counter(&self, raw: &str) -> (r: Result<u64, MeasurementError>)
        ensures
            match r {
                Ok(n) => parses_to(spec_trim(raw@), n as int),
                Err(e) => {
                    &&& !(spec_trim(raw@).len() > 0 && all_digits(spec_trim(raw@))
                        && digits_value(spec_trim(raw@)) <= u64::MAX)
                    &&& e matches MeasurementError::InvalidMeasurement(m)
                    &&& m@ == "invalid energy counter reading: "@ + raw@
                },
            },
    {
        match parse_trimmed_u64(raw) {
            Some(n) => Ok(n),
            None => Err(
                MeasurementError::InvalidMeasurement(
                    String::from_str("invalid energy counter reading: ").concat(raw),
                ),
            ),
        }
    }
}

} // verus!
