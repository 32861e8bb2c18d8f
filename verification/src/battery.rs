//! Battery level from voltage via piecewise-linear interpolation across
//! discharge-curve segments, in fixed point: voltages in millivolts,
//! battery fractions in permille (a full battery is 1000).

use vstd::prelude::*;

verus! {

/// One segment of a discharge profile: a descending voltage range
/// (millivolts) mapped linearly onto a battery-fraction range (permille).
#[derive(Debug, Copy, Clone, PartialEq, Eq, Structural)]
pub struct BatteryDischargeProfile {
    /// Upper voltage bound, exclusive, in millivolts.
    pub voltage_high: u32,
    /// Lower voltage bound, inclusive, in millivolts.
    pub voltage_low: u32,
    /// Battery fraction at the upper voltage bound, in permille.
    pub pct_high: u32,
    /// Battery fraction at the lower voltage bound, in permille.
    pub pct_low: u32,
}

impl BatteryDischargeProfile {
    /// Well-formedness: the voltage range is non-empty and the fraction
    /// bounds are ordered with it.
    pub open spec fn wf(&self) -> bool {
        self.voltage_low < self.voltage_high && self.pct_low <= self.pct_high
    }

    /// Whether the segment's voltage range contains the sample: at or
    /// above the lower bound and strictly below the upper bound.
    pub open spec fn contains(&self, voltage: int) -> bool {
        self.voltage_low <= voltage < self.voltage_high
    }

    /// The linear interpolation of the segment at a contained voltage.
    pub open spec fn spec_interpolate(&self, voltage: int) -> int {
        self.pct_low + (voltage - self.voltage_low) * (self.pct_high - self.pct_low) / (
        self.voltage_high - self.voltage_low)
    }

    /// Creates a new discharge profile segment from its voltage and
    /// fraction bounds, each given high first.
    pub fn new(voltage_high: u32, voltage_low: u32, pct_high: u32, pct_low: u32) -> (r: Self)
        requires
            voltage_low < voltage_high,
            pct_low <= pct_high,
        ensures
            r == (BatteryDischargeProfile { voltage_high, voltage_low, pct_high, pct_low }),
            r.wf(),
    {
        BatteryDischargeProfile { voltage_high, voltage_low, pct_high, pct_low }
    }

    /// Calculates the battery fraction for a voltage inside this segment
    /// by linear interpolation, or `None` when the voltage lies outside
    /// the segment's range.
    pub fn calc_pct(&self, voltage: u32) -> (r: Option<u32>)
        requires
            self.wf(),
        ensures
            r matches Some(p) ==> self.contains(voltage as int) && p == self.spec_interpolate(
                voltage as int,
            ),
            r is None <==> !self.contains(voltage as int),
            r matches Some(p) ==> self.pct_low <= p <= self.pct_high,
    {
        if self.voltage_low <= voltage && voltage < self.voltage_high {
            let dv: u32 = voltage - self.voltage_low;
            let dp: u32 = self.pct_high - self.pct_low;
            proof {
                assert(dv as int * dp as int <= 0xFFFFFFFF * 0xFFFFFFFF) by (nonlinear_arith)
                    requires 0 <= dv <= 0xFFFFFFFF, 0 <= dp <= 0xFFFFFFFF;
            }
            let num: u64 = (dv as u64) * (dp as u64);
            let den: u64 = (self.voltage_high - self.voltage_low) as u64;
            let scaled: u64 = num / den;
            proof {
                let dv = voltage - self.voltage_low;
                let dp = self.pct_high - self.pct_low;
                let dd = self.voltage_high - self.voltage_low;
                assert(dv * dp <= dd * dp) by (nonlinear_arith)
                    requires 0 <= dv <= dd, 0 <= dp;
                assert(dd * dp / dd == dp) by (nonlinear_arith)
                    requires dd > 0, dp >= 0;
                assert(dv * dp / dd <= dd * dp / dd) by (nonlinear_arith)
                    requires dd > 0, 0 <= dv * dp <= dd * dp;
            }
            Some(self.pct_low + (scaled as u32))
        } else {
            None
        }
    }
}

/// The battery fraction a sequence of segments (ordered from the full end
/// of the curve to the empty end) assigns to a voltage: saturate full at
/// or above the first segment's upper bound, otherwise the first segment
/// containing the voltage decides by interpolation, otherwise empty.
pub open spec fn spec_calc_pct_range(levels: Seq<BatteryDischargeProfile>, voltage: int) -> int {
    if levels.len() > 0 && voltage >= levels[0].voltage_high {
        1000
    } else {
        spec_scan_levels(levels, voltage)
    }
}

/// The first segment whose range contains the voltage decides; a voltage
/// below every segment yields the empty fraction.
pub open spec fn spec_scan_levels(levels: Seq<BatteryDischargeProfile>, voltage: int) -> int
    decreases levels.len(),
{
    if levels.len() == 0 {
        0
    } else if levels[0].contains(voltage) {
        levels[0].spec_interpolate(voltage)
    } else {
        spec_scan_levels(levels.skip(1), voltage)
    }
}

impl BatteryDischargeProfile {
    /// Calculates a battery fraction (permille) from a range of discharge
    /// profiles ordered from highest to lowest voltage. Saturates to 1000
    /// at or above the first segment's upper bound and to 0 below every
    /// segment.
    pub fn calc_pct_from_profile_range(voltage: u32, levels: &[BatteryDischargeProfile]) -> (r:
        u32)
        requires
            forall|i: int| 0 <= i < levels@.len() ==> (#[trigger] levels@[i]).wf(),
        ensures
            r == spec_calc_pct_range(levels@, voltage as int),
    {
        if levels.len() > 0 && voltage >= levels[0].voltage_high {
            return 1000;
        }

        let n = levels.len();
        let mut i: usize = 0;
        proof {
            assert(levels@.skip(0) =~= levels@);
        }
        while i < n
            invariant
                n == levels@.len(),
                i <= n,
                levels@.len() == 0 || voltage < levels@[0].voltage_high,
                forall|j: int| 0 <= j < levels@.len() ==> (#[trigger] levels@[j]).wf(),
                spec_scan_levels(levels@, voltage as int) == spec_scan_levels(
                    levels@.skip(i as int),
                    voltage as int,
                ),
            decreases n - i,
        {
            let level = &levels[i];
            proof {
                assert(levels@.skip(i as int)[0] == levels@[i as int]);
            }
            if let Some(p) = level.calc_pct(voltage) {
                proof {
                    assert(levels@.skip(i as int).len() > 0);
                    assert(spec_scan_levels(levels@.skip(i as int), voltage as int) == levels@[
                        i as int
                    ].spec_interpolate(voltage as int));
                }
                return p;
            }
            proof {
                assert(levels@.skip(i as int).skip(1) =~= levels@.skip(i + 1));
            }
            i += 1;
        }
        0
    }
}

/// Every segment of the sequence is well formed.
pub open spec fn all_wf(levels: Seq<BatteryDischargeProfile>) -> bool {
    forall|i: int| 0 <= i < levels.len() ==> (#[trigger] levels[i]).wf()
}

/// The segments run from the full end of the curve to the empty end: each
/// segment's upper bound sits at or below the previous segment's lower
/// bound.
pub open spec fn descending_chain(levels: Seq<BatteryDischargeProfile>) -> bool {
    forall|i: int| 1 <= i < levels.len() ==> (#[trigger] levels[i]).voltage_high <= levels[i
        - 1].voltage_low
}

/// In a well-formed descending chain, the last segment has the smallest
/// lower bound.
proof fn lemma_last_low_le_first(levels: Seq<BatteryDischargeProfile>)
    requires
        levels.len() > 0,
        all_wf(levels),
        descending_chain(levels),
    ensures
        levels.last().voltage_low <= levels[0].voltage_low,
    decreases levels.len(),
{
    if levels.len() > 1 {
        let rest = levels.skip(1);
        assert(all_wf(rest) && descending_chain(rest)) by {
            assert(forall|i: int| 0 <= i < rest.len() ==> rest[i] == levels[i + 1]);
        }
        lemma_last_low_le_first(rest);
        assert(rest.last() == levels.last());
        assert(rest[0] == levels[1]);
    }
}

/// A voltage at or below the bottom of a well-formed descending chain
/// whose bottom fraction is the empty fraction scans to 0.
proof fn lemma_scan_below_bottom(levels: Seq<BatteryDischargeProfile>, voltage: int)
    requires
        levels.len() > 0,
        all_wf(levels),
        descending_chain(levels),
        levels.last().pct_low == 0,
        voltage <= levels.last().voltage_low,
    ensures
        spec_scan_levels(levels, voltage) == 0,
    decreases levels.len(),
{
    let first = levels[0];
    if levels.len() == 1 {
        assert(levels.last() == first);
        if first.contains(voltage) {
            assert(voltage == first.voltage_low);
            assert((voltage - first.voltage_low) * (first.pct_high - first.pct_low) == 0);
        } else {
            assert(spec_scan_levels(levels.skip(1), voltage) == 0);
        }
    } else {
        let rest = levels.skip(1);
        assert(all_wf(rest) && descending_chain(rest) && rest.last() == levels.last()) by {
            assert(forall|i: int| 0 <= i < rest.len() ==> rest[i] == levels[i + 1]);
        }
        lemma_last_low_le_first(rest);
        assert(rest[0] == levels[1]);
        assert(voltage < first.voltage_low);
        lemma_scan_below_bottom(rest, voltage);
    }
}

/// Law: the saturating policy of the discharge profile. For a non-empty,
/// well-formed profile ordered from full to empty, any voltage at or
/// above the top segment's upper bound yields exactly the full fraction
/// 1000, and when the profile runs down to the empty fraction, any
/// voltage at or below the bottom segment's lower bound yields exactly 0.
pub proof fn lemma_calc_pct_saturates(levels: Seq<BatteryDischargeProfile>, voltage: int)
    requires
        levels.len() > 0,
        all_wf(levels),
        descending_chain(levels),
        levels.last().pct_low == 0,
    ensures
        voltage >= levels[0].voltage_high ==> spec_calc_pct_range(levels, voltage) == 1000,
        voltage <= levels.last().voltage_low ==> spec_calc_pct_range(levels, voltage) == 0,
{
    if voltage <= levels.last().voltage_low {
        lemma_last_low_le_first(levels);
        assert(voltage < levels[0].voltage_high);
        lemma_scan_below_bottom(levels, voltage);
    }
}

} // verus!
