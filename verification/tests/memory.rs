use netbsd_proc::memory::{page_size_from, peak_rss_from, thread_count_from};

#[test]
fn page_size_falls_back_to_4096() {
    assert_eq!(page_size_from(8192), 8192);
    assert_eq!(page_size_from(1), 1);
    assert_eq!(page_size_from(0), 4096);
    assert_eq!(page_size_from(-1), 4096);
    assert_eq!(page_size_from(i64::MAX), i64::MAX as u64);
}

#[test]
fn peak_rss_is_kilobytes_times_1024() {
    assert_eq!(peak_rss_from(0, 2048), Some(2048 * 1024));
    assert_eq!(peak_rss_from(0, 0), Some(0));
    assert_eq!(peak_rss_from(-1, 2048), None);
    assert_eq!(peak_rss_from(0, -5), None);
    assert_eq!(peak_rss_from(0, i64::MAX), Some(u64::MAX));
}

#[test]
fn thread_count_counts_readable_entries() {
    assert_eq!(thread_count_from(&[]), None);
    assert_eq!(thread_count_from(&[false, false]), None);
    assert_eq!(thread_count_from(&[true]), Some(1));
    assert_eq!(thread_count_from(&[true, false, true, true]), Some(3));
}
