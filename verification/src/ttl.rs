//! Time-to-live resolution: a user-supplied magnitude and unit token become a
//! duration in seconds, with saturating arithmetic.

use vstd::prelude::*;
use crate::text::str_equal;

verus! {

/// Seconds per unit. An unrecognized token fails closed to the longer,
/// "hours" interpretation so that a typo never shortens a publication's
/// lifetime.
pub open spec fn unit_factor(unit: Seq<char>) -> u64 {
    if unit == "minutes"@ {
        60
    } else {
        3600
    }
}

/// The resolved expiry: magnitude times the unit factor, clamped to the
/// largest representable value instead of wrapping.
pub open spec fn resolve_spec(magnitude: u64, unit: Seq<char>) -> u64 {
    if magnitude * unit_factor(unit) > u64::MAX {
        u64::MAX
    } else {
        (magnitude * unit_factor(unit)) as u64
    }
}

/// Converts a TTL magnitude and unit token into seconds, saturating at
/// `u64::MAX`.
pub fn resolve(magnitude: u64, unit: &str) -> (r: u64)
    ensures
        r == resolve_spec(magnitude, unit@),
{
    let factor: u64 = if str_equal(unit, "minutes") {
        60
    } else {
        3600
    };
    match magnitude.checked_mul(factor) {
        Some(v) => v,
        None => u64::MAX,
    }
}

} // verus!
