use rope_length_measure::counted_length::CountedLength;

#[test]
fn new_starts_at_zero() {
    let c = CountedLength::new(10000, 2048);
    assert_eq!(c.position(), 0);
    assert_eq!(c.radius_um(), 10000);
    assert_eq!(c.pulses_per_revolution(), 2048);
    assert_eq!(c.get_length(), 0);
}

#[test]
fn one_revolution_is_one_circumference() {
    let mut c = CountedLength::new(10000, 2048);
    c.update_with_difference(2048);
    // 2π · 0.01 m ≈ 0.0628318 m
    assert_eq!(c.get_length(), 62831);
}

#[test]
fn length_is_function_of_summed_deltas() {
    let deltas = [5, -17, 300, 1024, -2, 740];
    let mut a = CountedLength::new(12500, 1000);
    for d in deltas {
        a.update_with_difference(d);
    }
    let mut b = CountedLength::new(12500, 1000);
    b.update_with_difference(deltas.iter().sum());
    assert_eq!(a.position(), 2050);
    assert_eq!(a.get_length(), b.get_length());
    // 2π · 2.05 · 12.5 mm = 161.0066... mm
    assert_eq!(a.get_length(), 161006);
}

#[test]
fn reset_gives_zero_length() {
    let mut c = CountedLength::new(10000, 2048);
    c.update_with_difference(123456);
    c.update_with_difference(-7);
    c.reset();
    assert_eq!(c.position(), 0);
    assert_eq!(c.get_length(), 0);
    c.reset();
    assert_eq!(c.get_length(), 0);
}

#[test]
fn zero_delta_keeps_length() {
    let mut c = CountedLength::new(10000, 2048);
    c.update_with_difference(777);
    let before = c.get_length();
    c.update_with_difference(0);
    assert_eq!(c.get_length(), before);
    assert_eq!(c.position(), 777);
}

#[test]
fn reverse_revolution_takes_off_one_circumference() {
    let mut c = CountedLength::new(10000, 2048);
    c.update_with_difference(3 * 2048);
    assert_eq!(c.get_length(), 188495);
    c.update_with_difference(-2048);
    assert_eq!(c.get_length(), 125663);
    let drop = 188495 - 125663;
    assert!(drop == 62831 || drop == 62832);
}

#[test]
fn negative_length_truncates_toward_zero() {
    let mut c = CountedLength::new(10000, 2048);
    c.update_with_difference(-2048);
    assert_eq!(c.get_length(), -62831);
}

#[test]
fn extreme_position_does_not_overflow() {
    let mut c = CountedLength::new(u32::MAX, 1);
    for _ in 0..4 {
        c.update_with_difference(i32::MAX);
    }
    let p = c.position() as i128;
    assert_eq!(p, 4 * i32::MAX as i128);
    assert_eq!(c.get_length(), p * 62831853 * (u32::MAX as i128) / 10000000);
}
