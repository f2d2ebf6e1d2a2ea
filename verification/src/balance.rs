//! The rules of the feeder energy balance: for one interval of one feeder,
//! whether the loss raises an alert and what it most likely comes from.
//!
//! All quantities are doubles, given by their IEEE-754 bit patterns. The
//! comparisons below are those of doubles: for patterns with a clear sign
//! bit that are no NaN, the order of the doubles is the order of the
//! patterns.

use vstd::prelude::*;

verus! {

/// The pattern of 0.9: below this share of reporting meters a balance is put
/// down to missing data.
pub const COVERAGE_FLOOR: u64 = 0x3FEC_CCCC_CCCC_CCCD;

/// The pattern of 0.05: a relative loss up to this size is put down to
/// physics.
pub const PHYSICAL_LOSS: u64 = 0x3FA9_9999_9999_999A;

/// The pattern of 0.02: a relative loss beyond this size raises the alert.
pub const LOSS_ALERT_THRESHOLD: u64 = 0x3F94_7AE1_47AE_147B;

/// The pattern without its sign bit: the pattern of the absolute value.
pub open spec fn magnitude(bits: u64) -> u64 {
    if bits >= 0x8000_0000_0000_0000 {
        (bits - 0x8000_0000_0000_0000) as u64
    } else {
        bits
    }
}

/// Whether a pattern is that of a NaN.
pub open spec fn is_nan(bits: u64) -> bool {
    magnitude(bits) > 0x7FF0_0000_0000_0000
}

/// Whether the double of pattern `bits` is below the positive double of
/// pattern `bound`: a negative number and a negative zero are, a NaN is
/// not.
pub open spec fn below(bits: u64, bound: u64) -> bool {
    !is_nan(bits) && (bits < bound || bits >= 0x8000_0000_0000_0000)
}

/// Whether the double of pattern `bits` is at least the positive double of
/// pattern `bound`; a NaN is not.
pub open spec fn at_least(bits: u64, bound: u64) -> bool {
    !is_nan(bits) && !below(bits, bound)
}

/// Whether the absolute value of the double of pattern `bits` is at most
/// the positive double of pattern `bound`.
pub open spec fn within(bits: u64, bound: u64) -> bool {
    !is_nan(bits) && magnitude(bits) <= bound
}

/// Whether the absolute value of the double of pattern `bits` is above the
/// positive double of pattern `bound`.
pub open spec fn beyond(bits: u64, bound: u64) -> bool {
    !is_nan(bits) && magnitude(bits) > bound
}

/// What a loss is put down to.
#[derive(Debug, Clone, Copy, PartialEq, Eq, Structural)]
pub enum CauseHint {
    Unknown,
    Data,
    Topology,
    Theft,
    Physics,
}

/// One interval of one feeder, as far as the rules look at it.
#[derive(Debug, Clone, Copy)]
pub struct Balance {
    /// The loss as a share of the generation; none where nothing was
    /// generated.
    pub loss_pct: Option<u64>,
    /// The share of the feeder's meters that reported.
    pub meter_coverage_pct: u64,
    /// The number of topology events on the feeder in the interval.
    pub topology_events: u64,
    /// The number of tamper, reverse-run, magnetic and theft-suspect events
    /// of the feeder's meters in the interval.
    pub theft_events: u64,
}

/// The cause of a loss; the first rule that applies decides. Nothing
/// generated: unknown. Too few meters reporting: data. A topology event:
/// topology. A theft event while enough meters report: theft. A small loss:
/// physics. Anything else: unknown. A small loss is put down to physics
/// whether or not it raises the alert.
pub open spec fn cause_of(b: Balance) -> CauseHint {
    match b.loss_pct {
        None => CauseHint::Unknown,
        Some(loss) => if below(b.meter_coverage_pct, COVERAGE_FLOOR) {
            CauseHint::Data
        } else if b.topology_events > 0 {
            CauseHint::Topology
        } else if b.theft_events > 0 && at_least(b.meter_coverage_pct, COVERAGE_FLOOR) {
            CauseHint::Theft
        } else if within(loss, PHYSICAL_LOSS) {
            CauseHint::Physics
        } else {
            CauseHint::Unknown
        },
    }
}

/// Whether a loss raises the alert: its size is beyond the threshold. Where
/// nothing was generated there is no alert.
pub open spec fn alert_of(b: Balance) -> bool {
    match b.loss_pct {
        None => false,
        Some(loss) => beyond(loss, LOSS_ALERT_THRESHOLD),
    }
}

fn magnitude_of(bits: u64) -> (m: u64)
    ensures
        m == magnitude(bits),
{
    if bits >= 0x8000_0000_0000_0000 {
        bits - 0x8000_0000_0000_0000
    } else {
        bits
    }
}

impl Balance {
    /// What the loss is put down to.
    pub fn cause_hint(&self) -> (hint: CauseHint)
        ensures
            hint == cause_of(*self),
    {
        match self.loss_pct {
            None => CauseHint::Unknown,
            Some(loss) => {
                let coverage = magnitude_of(self.meter_coverage_pct);
                let coverage_is_number = coverage <= 0x7FF0_0000_0000_0000;
                let coverage_low = coverage_is_number && (self.meter_coverage_pct < COVERAGE_FLOOR
                    || self.meter_coverage_pct >= 0x8000_0000_0000_0000);
                if coverage_low {
                    CauseHint::Data
                } else if self.topology_events > 0 {
                    CauseHint::Topology
                } else if self.theft_events > 0 && coverage_is_number {
                    CauseHint::Theft
                } else if magnitude_of(loss) <= PHYSICAL_LOSS {
                    CauseHint::Physics
                } else {
                    CauseHint::Unknown
                }
            },
        }
    }

    /// Whether the loss raises the alert.
    pub fn alert(&self) -> (raised: bool)
        ensures
            raised == alert_of(*self),
    {
        match self.loss_pct {
            None => false,
            Some(loss) => {
                let size = magnitude_of(loss);
                size > LOSS_ALERT_THRESHOLD && size <= 0x7FF0_0000_0000_0000
            },
        }
    }
}

impl CauseHint {
    /// The name under which the cause is stored.
    pub fn as_str(self) -> (name: &'static str)
        ensures
            name@ == match self {
                CauseHint::Unknown => "unknown"@,
                CauseHint::Data => "data"@,
                CauseHint::Topology => "topology"@,
                CauseHint::Theft => "theft"@,
                CauseHint::Physics => "physics"@,
            },
    {
        match self {
            CauseHint::Unknown => "unknown",
            CauseHint::Data => "data",
            CauseHint::Topology => "topology",
            CauseHint::Theft => "theft",
            CauseHint::Physics => "physics",
        }
    }
}

/// A loss that raises no alert and has no other cause is put down to
/// physics: the alert's threshold lies below the bound of a physical loss.
pub proof fn quiet_loss_is_physical(b: Balance)
    requires
        b.loss_pct is Some,
        !is_nan(b.loss_pct->0),
        !alert_of(b),
        !below(b.meter_coverage_pct, COVERAGE_FLOOR),
        b.topology_events == 0,
        b.theft_events == 0,
    ensures
        cause_of(b) == CauseHint::Physics,
{
}

} // verus!
