use fancurve::curve::FanCurve;
use fancurve::curve::TempSpeedPoint;
use fancurve::curve::ValidationError;

fn calibration_curve() -> FanCurve {
    let mut c = FanCurve::new();
    c.insert_or_update(10, 0).unwrap();
    c.insert_or_update(20, 30).unwrap();
    c.insert_or_update(30, 60).unwrap();
    c.insert_or_update(36, 70).unwrap();
    c.insert_or_update(40, 80).unwrap();
    c.insert_or_update(52, 90).unwrap();
    c.insert_or_update(58, 100).unwrap();
    c
}

fn points_of(c: &FanCurve) -> Vec<(i32, u32)> {
    let mut out = Vec::new();
    let mut i = 0;
    while i < c.len() {
        let p = c.point_at(i);
        out.push((p.temp(), p.speed()));
        i += 1;
    }
    out
}

#[test]
fn try_new_accepts_the_declared_ranges() {
    let p = TempSpeedPoint::try_new(5, 0).unwrap();
    assert_eq!(p.temp(), 5);
    assert_eq!(p.speed(), 0);
    let p = TempSpeedPoint::try_new(95, 100).unwrap();
    assert_eq!(p.temp(), 95);
    assert_eq!(p.speed(), 100);
}

#[test]
fn try_new_rejects_out_of_range_pairs() {
    assert_eq!(
        TempSpeedPoint::try_new(4, 50),
        Err(ValidationError::TemperatureOutOfRange)
    );
    assert_eq!(
        TempSpeedPoint::try_new(96, 50),
        Err(ValidationError::TemperatureOutOfRange)
    );
    assert_eq!(
        TempSpeedPoint::try_new(50, 101),
        Err(ValidationError::SpeedOutOfRange)
    );
    // The temperature is checked first, as in the error messages' order.
    assert_eq!(
        TempSpeedPoint::try_new(4, 101),
        Err(ValidationError::TemperatureOutOfRange)
    );
}

#[test]
fn validation_error_messages() {
    assert_eq!(
        ValidationError::TemperatureOutOfRange.message(),
        "Temperature must be between 5C and 95C"
    );
    assert_eq!(
        ValidationError::SpeedOutOfRange.message(),
        "Fan speed must be between 0% and 100%"
    );
}

#[test]
fn point_updates_in_place() {
    let mut p = TempSpeedPoint::try_new(36, 70).unwrap();
    p.update_speed(75);
    assert_eq!(p.speed(), 75);
    p.update_temp(37);
    assert_eq!(p.temp(), 37);
}

#[test]
fn inserts_in_any_order_come_out_strictly_ascending() {
    let orders: [[(i32, u32); 7]; 3] = [
        [(10, 0), (20, 30), (30, 60), (36, 70), (40, 80), (52, 90), (58, 100)],
        [(58, 100), (52, 90), (40, 80), (36, 70), (30, 60), (20, 30), (10, 0)],
        [(36, 70), (10, 0), (52, 90), (30, 60), (58, 100), (20, 30), (40, 80)],
    ];
    for order in orders.iter() {
        let mut c = FanCurve::new();
        for (t, s) in order.iter() {
            c.insert_or_update(*t, *s).unwrap();
        }
        let pts = points_of(&c);
        assert_eq!(pts.len(), 7);
        for w in pts.windows(2) {
            assert!(w[0].0 < w[1].0, "temperatures must strictly ascend");
        }
        assert_eq!(
            pts,
            vec![(10, 0), (20, 30), (30, 60), (36, 70), (40, 80), (52, 90), (58, 100)]
        );
    }
}

#[test]
fn reinserting_an_existing_temperature_updates_in_place() {
    let mut c = calibration_curve();
    let before = c.len();
    c.insert_or_update(36, 75).unwrap();
    assert_eq!(c.len(), before, "no duplicate may appear");
    let pts = points_of(&c);
    assert!(pts.contains(&(36, 75)));
    assert!(!pts.contains(&(36, 70)));
}

#[test]
fn rejected_pairs_leave_the_curve_untouched() {
    let mut c = calibration_curve();
    let before = points_of(&c);
    assert_eq!(
        c.insert_or_update(4, 50),
        Err(ValidationError::TemperatureOutOfRange)
    );
    assert_eq!(
        c.insert_or_update(96, 50),
        Err(ValidationError::TemperatureOutOfRange)
    );
    assert_eq!(
        c.insert_or_update(50, 101),
        Err(ValidationError::SpeedOutOfRange)
    );
    assert_eq!(points_of(&c), before);
}

#[test]
fn lookup_resolves_the_hottest_applicable_breakpoint() {
    let c = calibration_curve();
    assert_eq!(c.lookup_speed_for_temperature(37), Some(70));
    assert_eq!(c.lookup_speed_for_temperature(9), None);
    assert_eq!(c.lookup_speed_for_temperature(58), Some(100));
    assert_eq!(c.lookup_speed_for_temperature(95), Some(100));
}

#[test]
fn lookup_on_an_empty_curve_is_none() {
    let c = FanCurve::new();
    assert_eq!(c.lookup_speed_for_temperature(50), None);
}

#[test]
fn lookup_at_exact_breakpoints() {
    let c = calibration_curve();
    assert_eq!(c.lookup_speed_for_temperature(10), Some(0));
    assert_eq!(c.lookup_speed_for_temperature(36), Some(70));
    assert_eq!(c.lookup_speed_for_temperature(39), Some(70));
    assert_eq!(c.lookup_speed_for_temperature(40), Some(80));
}

#[test]
fn update_point_at_keeps_the_order_or_refuses() {
    let mut c = calibration_curve();
    // Index 3 is (36, 70); a speed-only change is always fine.
    assert!(c.update_point_at(3, 36, 75));
    assert_eq!(c.point_at(3).speed(), 75);
    // A temperature that would pass its right neighbour (40) is refused.
    assert!(!c.update_point_at(3, 45, 75));
    assert_eq!(c.point_at(3).temp(), 36);
    // A temperature still between the neighbours is applied.
    assert!(c.update_point_at(3, 38, 75));
    assert_eq!(c.point_at(3).temp(), 38);
    // Out-of-range values are refused.
    assert!(!c.update_point_at(3, 38, 101));
    assert_eq!(c.point_at(3).speed(), 75);
}
