use rf_exposure::{calculate_mpe_limit, calculate_reflection_coefficient, FrequencyValues, Ratio};

fn band(freq_khz: u32, swr_centi: u32) -> FrequencyValues {
    FrequencyValues { freq_khz, swr_centi, gaindbi_centi: 150 }
}

#[test]
fn reflection_coefficient_is_zero_on_a_matched_line() {
    let r = calculate_reflection_coefficient(&band(7_300, 100));
    assert_eq!(r, Ratio { num: 0, den: 200 });
    assert_eq!(r.num as f32 / r.den as f32, 0.0);
}

#[test]
fn reflection_coefficient_of_first_band() {
    let r = calculate_reflection_coefficient(&band(7_300, 225));
    assert_eq!(r, Ratio { num: 125, den: 325 });
}

#[test]
fn reflection_coefficient_of_every_band() {
    let expected = [
        (225, 125, 325),
        (135, 35, 235),
        (370, 270, 470),
        (445, 345, 545),
        (410, 310, 510),
        (218, 118, 318),
    ];
    for (swr, num, den) in expected {
        let r = calculate_reflection_coefficient(&band(14_350, swr));
        assert_eq!(r, Ratio { num, den });
        assert!(r.num < r.den);
    }
}

#[test]
fn reflection_coefficient_below_one_takes_absolute_value() {
    let r = calculate_reflection_coefficient(&band(7_300, 50));
    assert_eq!(r, Ratio { num: 50, den: 150 });
}

#[test]
fn reflection_coefficient_at_largest_swr_does_not_overflow() {
    let r = calculate_reflection_coefficient(&band(7_300, u32::MAX));
    assert_eq!(r.num, u32::MAX as u64 - 100);
    assert_eq!(r.den, u32::MAX as u64 + 100);
}

#[test]
fn reflection_coefficient_is_the_same_on_a_second_call() {
    let f = band(18_100, 370);
    assert_eq!(calculate_reflection_coefficient(&f), calculate_reflection_coefficient(&f));
}

#[test]
fn mpe_limit_of_first_band() {
    let r = calculate_mpe_limit(&band(7_300, 225));
    assert_eq!(r, Ratio { num: 180_000_000, den: 53_290_000 });
    assert!((r.num as f64 / r.den as f64 - 180.0 / (7.3f64 * 7.3)).abs() < 1e-9);
}

#[test]
fn mpe_limit_at_largest_frequency_does_not_overflow() {
    let r = calculate_mpe_limit(&band(u32::MAX, 225));
    assert_eq!(r.den, (u32::MAX as u64) * (u32::MAX as u64));
}
