use inference_runtime::transfer::{
    declared_total, download_percent, is_status_accepted, open_mode, parse_content_range_total,
    progress_message, range_header, short_file_message, should_emit, OpenMode,
};

#[test]
fn fresh_download_sends_no_range() {
    assert_eq!(range_header(0), None);
}

#[test]
fn resumed_download_asks_from_the_existing_size() {
    assert_eq!(range_header(1), Some("bytes=1-".to_string()));
    assert_eq!(range_header(1048576), Some("bytes=1048576-".to_string()));
    assert_eq!(range_header(u64::MAX), Some("bytes=18446744073709551615-".to_string()));
}

#[test]
fn only_the_success_class_is_accepted() {
    assert!(is_status_accepted(200));
    assert!(is_status_accepted(206));
    assert!(is_status_accepted(299));
    assert!(!is_status_accepted(199));
    assert!(!is_status_accepted(300));
    assert!(!is_status_accepted(404));
    assert!(!is_status_accepted(416));
    assert!(!is_status_accepted(500));
    assert!(!is_status_accepted(0));
}

#[test]
fn content_range_total_is_read_behind_the_slash() {
    assert_eq!(parse_content_range_total("bytes 100-999/1234"), 1234);
    assert_eq!(parse_content_range_total("bytes 0-0/1"), 1);
    assert_eq!(parse_content_range_total("bytes */77"), 77);
    assert_eq!(parse_content_range_total("bytes 1-2/+5"), 5);
}

#[test]
fn malformed_content_range_counts_as_unknown() {
    assert_eq!(parse_content_range_total(""), 0);
    assert_eq!(parse_content_range_total("bytes"), 0);
    assert_eq!(parse_content_range_total("bytes 100-999"), 0);
    assert_eq!(parse_content_range_total("bytes 100-999/*"), 0);
    assert_eq!(parse_content_range_total("bytes 100-999/"), 0);
    assert_eq!(parse_content_range_total("bytes 100-999/12 "), 0);
    assert_eq!(parse_content_range_total("bytes/12 3"), 0);
    assert_eq!(parse_content_range_total("bytes 1-2/3/4"), 0);
    assert_eq!(parse_content_range_total("bytes 0-1/99999999999999999999"), 0);
}

#[test]
fn declared_total_depends_on_the_kind_of_response() {
    assert_eq!(declared_total(200, Some(500), None), 500);
    assert_eq!(declared_total(200, None, Some("bytes 0-9/10")), 0);
    assert_eq!(declared_total(206, Some(500), Some("bytes 100-999/1234")), 1234);
    assert_eq!(declared_total(206, Some(500), None), 0);
    assert_eq!(declared_total(206, None, Some("garbage")), 0);
}

#[test]
fn partial_file_is_continued_only_on_partial_content() {
    assert_eq!(open_mode(100, 206), OpenMode::Append);
    assert_eq!(open_mode(100, 200), OpenMode::Truncate);
    assert_eq!(open_mode(0, 206), OpenMode::Truncate);
    assert_eq!(open_mode(0, 200), OpenMode::Truncate);
}

#[test]
fn progress_is_due_by_time_or_by_volume() {
    assert!(!should_emit(0, 0));
    assert!(!should_emit(29, 8 * 1024 * 1024 - 1));
    assert!(should_emit(30, 0));
    assert!(should_emit(0, 8 * 1024 * 1024));
    assert!(should_emit(1000, 1));
}

#[test]
fn download_fills_the_first_half_of_the_scale() {
    assert_eq!(download_percent(0, 1000), 0);
    assert_eq!(download_percent(10, 1000), 0);
    assert_eq!(download_percent(20, 1000), 1);
    assert_eq!(download_percent(500, 1000), 25);
    assert_eq!(download_percent(999, 1000), 49);
    assert_eq!(download_percent(1000, 1000), 50);
    assert_eq!(download_percent(5000, 1000), 50);
    assert_eq!(download_percent(u64::MAX - 1, u64::MAX), 49);
}

#[test]
fn unknown_total_reports_a_fixed_mark() {
    assert_eq!(download_percent(0, 0), 25);
    assert_eq!(download_percent(123456, 0), 25);
}

#[test]
fn download_percent_never_decreases() {
    let total = 7_654_321u64;
    let mut last = 0u32;
    let mut done = 0u64;
    while done <= total + 100_000 {
        let now = download_percent(done, total);
        assert!(now >= last);
        assert!(now <= 50);
        last = now;
        done += 33_333;
    }
}

#[test]
fn download_percent_is_the_exact_floor_of_the_fraction() {
    for (done, total) in [(1u64, 3u64), (2, 3), (1, 7), (123, 4567), (4566, 4567), (58, 100)] {
        let percent = download_percent(done, total);
        assert_eq!(percent as u64, done * 50 / total);
        let rounded = ((done as f64 / total as f64) * 50.0) as u32;
        assert!(percent == rounded || percent == rounded + 1);
    }
    assert_eq!(download_percent(58, 100), 29);
}

#[test]
fn progress_message_names_both_sizes_when_total_is_known() {
    assert_eq!(progress_message(1536, 1024 * 1024), "Downloaded 1.5 KB of 1.0 MB ");
    assert_eq!(progress_message(10, 0), "Downloaded 10 B ");
}

#[test]
fn short_file_message_reports_both_sizes() {
    assert_eq!(
        short_file_message(512, 2048),
        "Downloaded 512 B of 2.0 KB, attempting to resume..."
    );
}
