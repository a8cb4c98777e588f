use inference_runtime::download::{
    DownloadAction, DownloadEvent, DownloadSession, FailureKind, Phase, Stage, BACKOFF_SECONDS,
    MAX_ATTEMPTS,
};
use inference_runtime::transfer::OpenMode;

fn responded(status: u16, text: &str, length: Option<u64>, range: Option<&str>) -> DownloadEvent {
    DownloadEvent::Responded {
        status,
        status_text: text.to_string(),
        content_length: length,
        content_range: range.map(|r| r.to_string()),
    }
}

fn is_request(action: &DownloadAction, range: Option<&str>) -> bool {
    match action {
        DownloadAction::Request { range: r } => r.as_deref() == range,
        _ => false,
    }
}

fn is_backoff(action: &DownloadAction) -> bool {
    matches!(action, DownloadAction::Backoff { seconds } if *seconds == 2)
}

fn is_fail(action: &DownloadAction, kind: FailureKind, message: &str) -> bool {
    matches!(action, DownloadAction::Fail { kind: k, message: m } if *k == kind && m == message)
}

#[test]
fn budget_is_three_attempts_two_seconds_apart() {
    assert_eq!(MAX_ATTEMPTS, 3);
    assert_eq!(BACKOFF_SECONDS, 2);
}

#[test]
fn new_session_is_pending() {
    let s = DownloadSession::new();
    assert_eq!(s.stage, Stage::Pending);
    assert_eq!(s.phase(), Phase::Pending);
    assert_eq!(s.attempt, 0);
    assert_eq!(s.bytes_transferred(), 0);
}

#[test]
fn fresh_download_runs_to_completion() {
    let mut s = DownloadSession::new();
    assert!(is_request(&s.step(DownloadEvent::Ready { existing: 0 }), None));
    assert_eq!(s.phase(), Phase::InProgress);
    assert_eq!(s.attempt, 1);
    let a = s.step(responded(200, "200 OK", Some(3000), None));
    assert!(matches!(a, DownloadAction::Open { mode: OpenMode::Truncate }));
    assert_eq!(s.total, 3000);
    assert!(matches!(s.step(DownloadEvent::Opened), DownloadAction::Receive));
    assert!(matches!(s.step(DownloadEvent::Chunk { len: 1000, idle_ms: 5 }), DownloadAction::Receive));
    match s.step(DownloadEvent::Chunk { len: 1000, idle_ms: 30 }) {
        DownloadAction::Report { percent, message } => {
            assert_eq!(percent, 33);
            assert_eq!(message, "Downloaded 2.0 KB of 2.9 KB ");
        }
        _ => panic!("a report was due"),
    }
    assert!(matches!(s.step(DownloadEvent::Chunk { len: 1000, idle_ms: 1 }), DownloadAction::Receive));
    assert_eq!(s.bytes_transferred(), 3000);
    assert!(matches!(s.step(DownloadEvent::Ended), DownloadAction::Measure));
    assert_eq!(s.phase(), Phase::Verifying);
    assert!(matches!(s.step(DownloadEvent::Measured { file_len: Some(3000) }), DownloadAction::Done));
    assert_eq!(s.phase(), Phase::Completed);
    assert_eq!(s.attempt, 1);
}

#[test]
fn resume_requests_from_the_partial_size_and_appends() {
    let mut s = DownloadSession::new();
    assert!(is_request(&s.step(DownloadEvent::Ready { existing: 400 }), Some("bytes=400-")));
    let a = s.step(responded(206, "206 Partial Content", Some(600), Some("bytes 400-999/1000")));
    assert!(matches!(a, DownloadAction::Open { mode: OpenMode::Append }));
    assert_eq!(s.total, 1000);
    assert_eq!(s.kept, 400);
    s.step(DownloadEvent::Opened);
    match s.step(DownloadEvent::Chunk { len: 100, idle_ms: 40 }) {
        DownloadAction::Report { percent, message } => {
            assert_eq!(percent, 25);
            assert_eq!(message, "Downloaded 500 B of 1000 B ");
        }
        _ => panic!("a report was due"),
    }
    s.step(DownloadEvent::Chunk { len: 500, idle_ms: 0 });
    assert_eq!(s.bytes_transferred(), 1000);
    assert!(matches!(s.step(DownloadEvent::Ended), DownloadAction::Measure));
    assert!(matches!(s.step(DownloadEvent::Measured { file_len: Some(1000) }), DownloadAction::Done));
}

#[test]
fn ignored_range_restarts_from_zero() {
    let mut s = DownloadSession::new();
    assert!(is_request(&s.step(DownloadEvent::Ready { existing: 400 }), Some("bytes=400-")));
    let a = s.step(responded(200, "200 OK", Some(1000), None));
    assert!(matches!(a, DownloadAction::Open { mode: OpenMode::Truncate }));
    assert_eq!(s.kept, 0);
    assert_eq!(s.total, 1000);
    s.step(DownloadEvent::Opened);
    match s.step(DownloadEvent::Chunk { len: 100, idle_ms: 40 }) {
        DownloadAction::Report { percent, .. } => assert_eq!(percent, 5),
        _ => panic!("a report was due"),
    }
}

#[test]
fn third_attempt_succeeds_after_two_failures() {
    let mut s = DownloadSession::new();
    s.step(DownloadEvent::Ready { existing: 0 });
    let a = s.step(DownloadEvent::RequestFailed { error: "connection refused".to_string() });
    assert!(is_backoff(&a));
    assert_eq!(s.phase(), Phase::Pending);
    s.step(DownloadEvent::Ready { existing: 0 });
    assert!(is_backoff(&s.step(responded(503, "503 Service Unavailable", None, None))));
    assert!(is_request(&s.step(DownloadEvent::Ready { existing: 0 }), None));
    assert_eq!(s.attempt, 3);
    s.step(responded(200, "200 OK", None, None));
    s.step(DownloadEvent::Opened);
    s.step(DownloadEvent::Chunk { len: 10, idle_ms: 0 });
    assert!(matches!(s.step(DownloadEvent::Ended), DownloadAction::Done));
    assert_eq!(s.phase(), Phase::Completed);
}

#[test]
fn third_failure_surfaces_its_own_error() {
    let mut s = DownloadSession::new();
    s.step(DownloadEvent::Ready { existing: 0 });
    assert!(is_backoff(&s.step(DownloadEvent::RequestFailed { error: "first".to_string() })));
    s.step(DownloadEvent::Ready { existing: 0 });
    assert!(is_backoff(&s.step(DownloadEvent::RequestFailed { error: "second".to_string() })));
    s.step(DownloadEvent::Ready { existing: 0 });
    let a = s.step(DownloadEvent::RequestFailed { error: "third".to_string() });
    assert!(is_fail(&a, FailureKind::Network, "Request error: third"));
    assert_eq!(s.phase(), Phase::Failed);
    assert!(matches!(s.step(DownloadEvent::Ready { existing: 0 }), DownloadAction::Rejected));
    assert_eq!(s.attempt, 3);
}

#[test]
fn each_kind_of_failure_has_its_text() {
    let mut s = DownloadSession::new();
    s.attempt = 2;
    s.step(DownloadEvent::Ready { existing: 0 });
    assert!(is_fail(
        &s.step(responded(404, "404 Not Found", None, None)),
        FailureKind::HttpStatus,
        "HTTP error: 404 Not Found"
    ));

    let mut s = DownloadSession::new();
    s.attempt = 2;
    s.step(DownloadEvent::Ready { existing: 0 });
    s.step(responded(200, "200 OK", None, None));
    s.step(DownloadEvent::Opened);
    let a = s.step(DownloadEvent::ReadFailed { error: "reset".to_string() });
    assert!(is_fail(&a, FailureKind::Network, "Data read error: reset"));

    let mut s = DownloadSession::new();
    s.attempt = 2;
    s.step(DownloadEvent::Ready { existing: 0 });
    s.step(responded(200, "200 OK", None, None));
    s.step(DownloadEvent::Opened);
    let a = s.step(DownloadEvent::WriteFailed { error: "disk full".to_string() });
    assert!(is_fail(&a, FailureKind::Io, "Write error: disk full"));
}

#[test]
fn short_file_is_retried_like_a_network_failure() {
    let mut s = DownloadSession::new();
    s.step(DownloadEvent::Ready { existing: 0 });
    s.step(responded(200, "200 OK", Some(2048), None));
    s.step(DownloadEvent::Opened);
    s.step(DownloadEvent::Chunk { len: 512, idle_ms: 0 });
    assert!(matches!(s.step(DownloadEvent::Ended), DownloadAction::Measure));
    assert!(is_backoff(&s.step(DownloadEvent::Measured { file_len: Some(512) })));
    assert_eq!(s.phase(), Phase::Pending);

    assert!(is_request(&s.step(DownloadEvent::Ready { existing: 512 }), Some("bytes=512-")));
    s.step(responded(206, "206 Partial Content", None, Some("bytes 512-2047/2048")));
    s.step(DownloadEvent::Opened);
    s.step(DownloadEvent::Ended);
    assert!(is_backoff(&s.step(DownloadEvent::Measured { file_len: None })));

    s.step(DownloadEvent::Ready { existing: 512 });
    s.step(responded(206, "206 Partial Content", None, Some("bytes 512-2047/2048")));
    s.step(DownloadEvent::Opened);
    s.step(DownloadEvent::Chunk { len: 100, idle_ms: 0 });
    s.step(DownloadEvent::Ended);
    let a = s.step(DownloadEvent::Measured { file_len: Some(612) });
    assert!(is_fail(&a, FailureKind::SizeMismatch, "Downloaded 612 B of 2.0 KB, attempting to resume..."));
}

#[test]
fn unmeasured_file_counts_as_kept_plus_received() {
    let mut s = DownloadSession::new();
    s.step(DownloadEvent::Ready { existing: 100 });
    s.step(responded(206, "206 Partial Content", None, Some("bytes 100-199/200")));
    s.step(DownloadEvent::Opened);
    s.step(DownloadEvent::Chunk { len: 100, idle_ms: 0 });
    s.step(DownloadEvent::Ended);
    assert!(matches!(s.step(DownloadEvent::Measured { file_len: None }), DownloadAction::Done));
}

#[test]
fn file_errors_are_not_retried() {
    let mut s = DownloadSession::new();
    s.step(DownloadEvent::Ready { existing: 0 });
    s.step(responded(200, "200 OK", None, None));
    let a = s.step(DownloadEvent::OpenFailed { error: "denied".to_string() });
    assert!(is_fail(&a, FailureKind::Io, "Error creating temp file: denied"));
    assert_eq!(s.phase(), Phase::Failed);
    assert_eq!(s.attempt, 1);

    let mut s = DownloadSession::new();
    s.step(DownloadEvent::Ready { existing: 7 });
    s.step(responded(206, "206 Partial Content", None, None));
    let a = s.step(DownloadEvent::OpenFailed { error: "denied".to_string() });
    assert!(is_fail(&a, FailureKind::Io, "Error opening file for append: denied"));

    let mut s = DownloadSession::new();
    s.step(DownloadEvent::Ready { existing: 0 });
    s.step(responded(200, "200 OK", None, None));
    s.step(DownloadEvent::Opened);
    let a = s.step(DownloadEvent::FlushFailed { error: "io".to_string() });
    assert!(is_fail(&a, FailureKind::Io, "Write error (flush): io"));
    assert_eq!(s.phase(), Phase::Failed);
}

#[test]
fn progress_is_throttled_by_volume_too() {
    let mut s = DownloadSession::new();
    s.step(DownloadEvent::Ready { existing: 0 });
    s.step(responded(200, "200 OK", None, None));
    s.step(DownloadEvent::Opened);
    let mib = 1024 * 1024;
    for _ in 0..7 {
        assert!(matches!(s.step(DownloadEvent::Chunk { len: mib, idle_ms: 1 }), DownloadAction::Receive));
    }
    match s.step(DownloadEvent::Chunk { len: mib, idle_ms: 1 }) {
        DownloadAction::Report { percent, message } => {
            assert_eq!(percent, 25);
            assert_eq!(message, "Downloaded 8.0 MB ");
        }
        _ => panic!("a report was due after 8 MiB"),
    }
    assert!(matches!(s.step(DownloadEvent::Chunk { len: mib, idle_ms: 1 }), DownloadAction::Receive));
}

#[test]
fn events_out_of_turn_change_nothing() {
    let mut s = DownloadSession::new();
    let before = s;
    assert!(matches!(s.step(DownloadEvent::Opened), DownloadAction::Rejected));
    assert!(matches!(s.step(DownloadEvent::Ended), DownloadAction::Rejected));
    assert!(matches!(s.step(DownloadEvent::Chunk { len: 1, idle_ms: 1 }), DownloadAction::Rejected));
    assert!(matches!(
        s.step(DownloadEvent::RequestFailed { error: "x".to_string() }),
        DownloadAction::Rejected
    ));
    assert_eq!(s, before);
    s.step(DownloadEvent::Ready { existing: 0 });
    let running = s;
    assert!(matches!(s.step(DownloadEvent::Ready { existing: 5 }), DownloadAction::Rejected));
    assert!(matches!(s.step(DownloadEvent::Measured { file_len: None }), DownloadAction::Rejected));
    assert_eq!(s, running);
}

#[test]
fn byte_counter_saturates() {
    let mut s = DownloadSession::new();
    s.step(DownloadEvent::Ready { existing: 0 });
    s.step(responded(200, "200 OK", None, None));
    s.step(DownloadEvent::Opened);
    s.step(DownloadEvent::Chunk { len: u64::MAX, idle_ms: 0 });
    s.step(DownloadEvent::Chunk { len: 10, idle_ms: 0 });
    assert_eq!(s.received, u64::MAX);
    assert_eq!(s.bytes_transferred(), u64::MAX);
}

#[test]
fn percentage_does_not_fall_when_the_file_starts_again() {
    let mut s = DownloadSession::new();
    s.step(DownloadEvent::Ready { existing: 0 });
    s.step(responded(200, "200 OK", Some(100), None));
    s.step(DownloadEvent::Opened);
    match s.step(DownloadEvent::Chunk { len: 60, idle_ms: 30 }) {
        DownloadAction::Report { percent, message } => {
            assert_eq!(percent, 30);
            assert_eq!(message, "Downloaded 60 B of 100 B ");
        }
        _ => panic!("a report was due"),
    }
    assert!(is_backoff(&s.step(DownloadEvent::ReadFailed { error: "reset".to_string() })));
    assert!(is_request(&s.step(DownloadEvent::Ready { existing: 60 }), Some("bytes=60-")));
    let a = s.step(responded(200, "200 OK", Some(100), None));
    assert!(matches!(a, DownloadAction::Open { mode: OpenMode::Truncate }));
    s.step(DownloadEvent::Opened);
    match s.step(DownloadEvent::Chunk { len: 10, idle_ms: 30 }) {
        DownloadAction::Report { percent, message } => {
            assert_eq!(percent, 30);
            assert_eq!(message, "Downloaded 10 B of 100 B ");
        }
        _ => panic!("a report was due"),
    }
    match s.step(DownloadEvent::Chunk { len: 60, idle_ms: 30 }) {
        DownloadAction::Report { percent, .. } => assert_eq!(percent, 35),
        _ => panic!("a report was due"),
    }
    assert_eq!(s.reported_percent, 35);
}

#[test]
fn percentage_does_not_fall_when_a_total_becomes_known() {
    let mut s = DownloadSession::new();
    s.step(DownloadEvent::Ready { existing: 0 });
    s.step(responded(200, "200 OK", None, None));
    s.step(DownloadEvent::Opened);
    match s.step(DownloadEvent::Chunk { len: 10, idle_ms: 30 }) {
        DownloadAction::Report { percent, .. } => assert_eq!(percent, 25),
        _ => panic!("a report was due"),
    }
    assert!(is_backoff(&s.step(DownloadEvent::ReadFailed { error: "reset".to_string() })));
    s.step(DownloadEvent::Ready { existing: 10 });
    s.step(responded(206, "206 Partial Content", None, Some("bytes 10-999/1000")));
    s.step(DownloadEvent::Opened);
    let mut last = 25;
    for _ in 0..99 {
        match s.step(DownloadEvent::Chunk { len: 10, idle_ms: 30 }) {
            DownloadAction::Report { percent, .. } => {
                assert!(percent >= last && percent <= 50);
                last = percent;
            }
            _ => panic!("a report was due"),
        }
    }
    assert_eq!(last, 50);
}
