use parasite::BatteryDischargeProfile;

// Voltages are in millivolts and battery fractions in permille, so the
// reference points 3.0 V -> 1.0 and 2.0 V -> 0.0 read as 3000 -> 1000 and
// 2000 -> 0.

#[test]
fn battery_level_from_one_profile() {
    let level = BatteryDischargeProfile::new(3000, 2000, 1000, 0);

    assert_eq!(level.calc_pct(2500), Some(500));
    assert_eq!(level.calc_pct(3500), None);
    assert_eq!(level.calc_pct(1500), None);
}

#[test]
fn battery_level_from_profile_range() {
    let levels = [
        BatteryDischargeProfile::new(3000, 2500, 1000, 500),
        BatteryDischargeProfile::new(2500, 2000, 500, 0),
    ];

    let expect_results: [(u32, u32); 4] = [(3500, 1000), (2750, 750), (2250, 250), (1500, 0)];

    for (voltage, pct) in expect_results {
        assert_eq!(BatteryDischargeProfile::calc_pct_from_profile_range(voltage, &levels), pct);
    }
}

/// A half-way voltage on a single full-range segment lands exactly on the
/// half fraction.
#[test]
fn midpoint_interpolates_exactly() {
    let level = BatteryDischargeProfile::new(3000, 2000, 1000, 0);
    assert_eq!(level.calc_pct(2500), Some(500));
}

/// The deployed discharge curve saturates at both ends: full at or above
/// the top bound, empty at or below the bottom bound.
#[test]
fn deployed_profile_saturates() {
    let levels = [
        BatteryDischargeProfile::new(3000, 2900, 1000, 420),
        BatteryDischargeProfile::new(2900, 2740, 420, 180),
        BatteryDischargeProfile::new(2740, 2440, 180, 60),
        BatteryDischargeProfile::new(2440, 2010, 60, 0),
    ];

    assert_eq!(BatteryDischargeProfile::calc_pct_from_profile_range(3000, &levels), 1000);
    assert_eq!(BatteryDischargeProfile::calc_pct_from_profile_range(3200, &levels), 1000);
    assert_eq!(BatteryDischargeProfile::calc_pct_from_profile_range(2010, &levels), 0);
    assert_eq!(BatteryDischargeProfile::calc_pct_from_profile_range(1900, &levels), 0);
}

/// An empty profile yields the empty fraction for any voltage.
#[test]
fn empty_profile_is_empty_fraction() {
    let levels: [BatteryDischargeProfile; 0] = [];
    assert_eq!(BatteryDischargeProfile::calc_pct_from_profile_range(2500, &levels), 0);
}
