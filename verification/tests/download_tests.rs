use minlaunch::download::DownloadProgress;

#[test]
fn progress_is_monotone_over_chunks() {
    let mut p = DownloadProgress::new(1000);
    let mut last: u128 = 0;
    for chunk in [100u64, 1, 250, 0, 649] {
        let pct = p.record_chunk(chunk);
        assert!(pct >= last);
        last = pct;
    }
    assert_eq!(last, 100);
}

#[test]
fn progress_exceeds_one_hundred_when_the_expected_size_was_low() {
    // The reported size was stale: more bytes arrive than expected. The
    // percentage is not clamped and exceeds 100.
    let mut p = DownloadProgress::new(100);
    assert_eq!(p.record_chunk(60), 60);
    let over = p.record_chunk(60);
    assert_eq!(over, 120);
    assert!(over > 100);
}

#[test]
fn progress_rounds_half_away_from_zero() {
    // 1/3 of 100 rounds down to 33; 1/8 of 100 is 12.5 and rounds up.
    let mut p = DownloadProgress::new(3);
    assert_eq!(p.record_chunk(1), 33);
    let mut q = DownloadProgress::new(8);
    assert_eq!(q.record_chunk(1), 13);
}

#[test]
fn fresh_download_starts_at_zero_bytes() {
    let p = DownloadProgress::new(42);
    assert_eq!(p.expected_size, 42);
    assert_eq!(p.downloaded_size, 0);
}
