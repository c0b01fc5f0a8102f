use netbsd_proc::statm::statm_bytes;

#[test]
fn statm_real_capture_converts_pages_to_bytes() {
    let (v, r) = statm_bytes("5625 2577 0 1 0 24 0", 4096);
    assert_eq!(v, Some(5625 * 4096));
    assert_eq!(r, Some(2577 * 4096));
}

#[test]
fn statm_corrupt_leading_field_does_not_promote_rss() {
    let (v2, r2) = statm_bytes("xxx 2577", 4096);
    assert_eq!(v2, None, "positional parse must not skip a bad field");
    assert_eq!(r2, Some(2577 * 4096));
}

#[test]
fn statm_missing_fields_are_unknown() {
    assert_eq!(statm_bytes("", 4096), (None, None));
    assert_eq!(statm_bytes("   \n", 4096), (None, None));
    assert_eq!(statm_bytes("12", 4096), (Some(12 * 4096), None));
    assert_eq!(statm_bytes("12 y", 4096), (Some(12 * 4096), None));
}

#[test]
fn statm_product_saturates() {
    assert_eq!(
        statm_bytes("18446744073709551615 2", 2),
        (Some(u64::MAX), Some(4))
    );
    assert_eq!(statm_bytes("18446744073709551616 2", 2), (None, Some(4)));
    assert_eq!(statm_bytes("3 0", 0), (Some(0), Some(0)));
}
