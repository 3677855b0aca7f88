use modsync::limits::rate_limit_bps;

#[test]
fn absent_setting_means_no_limit() {
    assert_eq!(rate_limit_bps(None), None);
}

#[test]
fn zero_setting_means_no_limit() {
    assert_eq!(rate_limit_bps(Some(0)), None);
}

#[test]
fn ordinary_setting_is_scaled_to_bytes() {
    assert_eq!(rate_limit_bps(Some(500)), Some(512_000));
    assert_eq!(rate_limit_bps(Some(1)), Some(1024));
}

#[test]
fn largest_fitting_setting_is_kept() {
    // 4194303 KB/s is the largest value whose byte rate fits 32 bits.
    assert_eq!(rate_limit_bps(Some(4_194_303)), Some(4_294_966_272));
}

#[test]
fn overflowing_setting_means_no_limit() {
    assert_eq!(rate_limit_bps(Some(4_194_304)), None);
    assert_eq!(rate_limit_bps(Some(u64::MAX)), None);
}
