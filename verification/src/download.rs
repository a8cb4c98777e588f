//! The download engine as a state machine.
//!
//! The engine itself performs no I/O. Its caller sends the request, writes
//! the file and sleeps; after every such step it reports what happened as a
//! [`DownloadEvent`] and receives the next thing to do as a
//! [`DownloadAction`]. Before reporting `ReadFailed`, `WriteFailed` or
//! `Ended` the caller flushes the file, and reports `FlushFailed` instead if
//! that fails.

use crate::transfer::{
    declared_total, declared_total_of, download_percent, download_percent_of, emit_due,
    is_status_accepted, open_mode, open_mode_for, progress_message, progress_text, range_header,
    range_header_for, short_file_message, short_file_text, should_emit, status_accepted, OpenMode,
    DOWNLOAD_SHARE,
};
use vstd::prelude::*;
use vstd::string::*;

verus! {

/// A download is tried this many times in all.
pub const MAX_ATTEMPTS: u32 = 3;

/// Seconds to wait between two attempts.
pub const BACKOFF_SECONDS: u64 = 2;

/// Where a session stands.
#[derive(Clone, Copy, Debug, PartialEq, Eq, Structural)]
pub enum Stage {
    /// No attempt is running: none was started yet, or the last one failed
    /// and the next is due after the backoff.
    Pending,
    /// The request is out and no response has been seen.
    Requesting,
    /// The response was accepted and the temp file is being opened.
    Opening,
    /// The body is being written to the temp file.
    Streaming,
    /// The body ended and the size of the temp file is being checked.
    Verifying,
    /// The temp file holds the whole artifact.
    Completed,
    /// The download was given up.
    Failed,
}

/// The kind of failure that ended or interrupted a download.
#[derive(Clone, Copy, Debug, PartialEq, Eq, Structural)]
pub enum FailureKind {
    /// The connection could not be made or broke while the body was read.
    Network,
    /// The server answered with a status that carries no content.
    HttpStatus,
    /// Fewer bytes arrived than the server declared.
    SizeMismatch,
    /// The temp file could not be opened, written or flushed.
    Io,
}

/// The coarse phase of a session.
#[derive(Clone, Copy, Debug, PartialEq, Eq, Structural)]
pub enum Phase {
    Pending,
    InProgress,
    Verifying,
    Completed,
    Failed,
}

/// The bookkeeping of one download: the attempt count and the byte counters
/// of the running attempt.
#[derive(Clone, Copy, Debug, PartialEq, Eq, Structural)]
pub struct DownloadSession {
    /// Where the session stands.
    pub stage: Stage,
    /// Attempts started so far.
    pub attempt: u32,
    /// Size of the partial file found when the running attempt began.
    pub existing: u64,
    /// How much of that partial file the running attempt builds on.
    pub kept: u64,
    /// Bytes received in the running attempt.
    pub received: u64,
    /// Total size declared by the server, zero when unknown.
    pub total: u64,
    /// Value of `received` at the last progress report.
    pub reported_at: u64,
    /// The largest percentage reported so far, over all attempts.
    pub reported_percent: u32,
}

/// What the caller observed.
pub enum DownloadEvent {
    /// An attempt can start; the temp file currently holds `existing` bytes.
    Ready { existing: u64 },
    /// The request could not be sent or no response arrived.
    RequestFailed { error: String },
    /// Response headers arrived. `status_text` is the status line as it is
    /// shown to people, such as `404 Not Found`.
    Responded {
        status: u16,
        status_text: String,
        content_length: Option<u64>,
        content_range: Option<String>,
    },
    /// The temp file is open.
    Opened,
    /// The temp file could not be opened.
    OpenFailed { error: String },
    /// `len` bytes were received and written, `idle_ms` milliseconds after
    /// the last progress report.
    Chunk { len: u64, idle_ms: u64 },
    /// Reading the body failed.
    ReadFailed { error: String },
    /// Writing to the temp file failed.
    WriteFailed { error: String },
    /// Flushing the temp file failed.
    FlushFailed { error: String },
    /// The body ended.
    Ended,
    /// The size of the temp file was looked up; `None` when that failed.
    Measured { file_len: Option<u64> },
}

/// What the caller is to do next.
pub enum DownloadAction {
    /// Send the request, with this `Range` header if there is one.
    Request { range: Option<String> },
    /// Open the temp file.
    Open { mode: OpenMode },
    /// Read the next chunk of the body.
    Receive,
    /// Report progress, then read the next chunk. The percentage is never
    /// smaller than that of an earlier report of the same download.
    Report { percent: u32, message: String },
    /// Look up the size of the temp file.
    Measure,
    /// Wait, then report `Ready`.
    Backoff { seconds: u64 },
    /// The download is complete.
    Done,
    /// The download failed for good with this error.
    Fail { kind: FailureKind, message: String },
    /// The event does not belong to the session's stage; nothing changed.
    Rejected,
}

/// Mathematical form of a [`DownloadEvent`].
pub enum EventModel {
    Ready { existing: u64 },
    RequestFailed { error: Seq<char> },
    Responded {
        status: u16,
        status_text: Seq<char>,
        content_length: Option<u64>,
        content_range: Option<Seq<char>>,
    },
    Opened,
    OpenFailed { error: Seq<char> },
    Chunk { len: u64, idle_ms: u64 },
    ReadFailed { error: Seq<char> },
    WriteFailed { error: Seq<char> },
    FlushFailed { error: Seq<char> },
    Ended,
    Measured { file_len: Option<u64> },
}

/// Mathematical form of a [`DownloadAction`].
pub enum ActionModel {
    Request { range: Option<Seq<char>> },
    Open { mode: OpenMode },
    Receive,
    Report { percent: u32, message: Seq<char> },
    Measure,
    Backoff { seconds: u64 },
    Done,
    Fail { kind: FailureKind, message: Seq<char> },
    Rejected,
}

impl View for DownloadEvent {
    type V = EventModel;

    open spec fn view(&self) -> EventModel {
        match *self {
            DownloadEvent::Ready { existing } => EventModel::Ready { existing },
            DownloadEvent::RequestFailed { error } => EventModel::RequestFailed { error: error@ },
            DownloadEvent::Responded { status, status_text, content_length, content_range } => {
                EventModel::Responded {
                    status,
                    status_text: status_text@,
                    content_length,
                    content_range: match content_range {
                        Some(v) => Some(v@),
                        None => None,
                    },
                }
            },
            DownloadEvent::Opened => EventModel::Opened,
            DownloadEvent::OpenFailed { error } => EventModel::OpenFailed { error: error@ },
            DownloadEvent::Chunk { len, idle_ms } => EventModel::Chunk { len, idle_ms },
            DownloadEvent::ReadFailed { error } => EventModel::ReadFailed { error: error@ },
            DownloadEvent::WriteFailed { error } => EventModel::WriteFailed { error: error@ },
            DownloadEvent::FlushFailed { error } => EventModel::FlushFailed { error: error@ },
            DownloadEvent::Ended => EventModel::Ended,
            DownloadEvent::Measured { file_len } => EventModel::Measured { file_len },
        }
    }
}

impl View for DownloadAction {
    type V = ActionModel;

    open spec fn view(&self) -> ActionModel {
        match *self {
            DownloadAction::Request { range } => ActionModel::Request {
                range: match range {
                    Some(v) => Some(v@),
                    None => None,
                },
            },
            DownloadAction::Open { mode } => ActionModel::Open { mode },
            DownloadAction::Receive => ActionModel::Receive,
            DownloadAction::Report { percent, message } => ActionModel::Report {
                percent,
                message: message@,
            },
            DownloadAction::Measure => ActionModel::Measure,
            DownloadAction::Backoff { seconds } => ActionModel::Backoff { seconds },
            DownloadAction::Done => ActionModel::Done,
            DownloadAction::Fail { kind, message } => ActionModel::Fail { kind, message: message@ },
            DownloadAction::Rejected => ActionModel::Rejected,
        }
    }
}

/// `a + b`, cut off at the largest 64-bit value.
pub open spec fn capped_sum(a: u64, b: u64) -> u64 {
    if a + b > u64::MAX {
        u64::MAX
    } else {
        (a + b) as u64
    }
}

/// The larger of two percentages.
pub open spec fn larger(a: u32, b: u32) -> u32 {
    if a >= b {
        a
    } else {
        b
    }
}

/// What a recoverable failure leads to: another attempt after the backoff
/// while the budget lasts, and after the last attempt the failure itself as
/// the download's error.
pub open spec fn retry_or_fail(s: DownloadSession, kind: FailureKind, message: Seq<char>) -> (
    DownloadSession,
    ActionModel,
) {
    if s.attempt < MAX_ATTEMPTS {
        (DownloadSession { stage: Stage::Pending, ..s }, ActionModel::Backoff { seconds: BACKOFF_SECONDS })
    } else {
        (DownloadSession { stage: Stage::Failed, ..s }, ActionModel::Fail { kind, message })
    }
}

/// Kind and error text of a recoverable failure, if `event` is one in the
/// stage of `s`: a request that failed, a status without content, a broken
/// read or write, or a file that came out shorter than declared.
pub open spec fn recoverable_failure(s: DownloadSession, event: EventModel) -> Option<
    (FailureKind, Seq<char>),
> {
    match (s.stage, event) {
        (Stage::Requesting, EventModel::RequestFailed { error }) => Some(
            (FailureKind::Network, "Request error: "@ + error),
        ),
        (Stage::Requesting, EventModel::Responded { status, status_text, .. }) => {
            if status_accepted(status) {
                None
            } else {
                Some((FailureKind::HttpStatus, "HTTP error: "@ + status_text))
            }
        },
        (Stage::Streaming, EventModel::ReadFailed { error }) => Some(
            (FailureKind::Network, "Data read error: "@ + error),
        ),
        (Stage::Streaming, EventModel::WriteFailed { error }) => Some(
            (FailureKind::Io, "Write error: "@ + error),
        ),
        (Stage::Verifying, EventModel::Measured { file_len }) => {
            let on_disk = match file_len {
                Some(n) => n,
                None => capped_sum(s.kept, s.received),
            };
            if on_disk < s.total {
                Some((FailureKind::SizeMismatch, short_file_text(on_disk, s.total)))
            } else {
                None
            }
        },
        _ => None,
    }
}

/// The transition function: the session after `event` and the action that
/// answers it.
pub open spec fn step_model(s: DownloadSession, event: EventModel) -> (DownloadSession, ActionModel) {
    match recoverable_failure(s, event) {
        Some(failure) => retry_or_fail(s, failure.0, failure.1),
        None => match (s.stage, event) {
            (Stage::Pending, EventModel::Ready { existing }) => (
                DownloadSession {
                    stage: Stage::Requesting,
                    attempt: (s.attempt + 1) as u32,
                    existing,
                    kept: 0,
                    received: 0,
                    total: 0,
                    reported_at: 0,
                    reported_percent: s.reported_percent,
                },
                ActionModel::Request { range: range_header_for(existing) },
            ),
            (
                Stage::Requesting,
                EventModel::Responded { status, content_length, content_range, .. },
            ) => {
                let mode = open_mode_for(s.existing, status);
                (
                    DownloadSession {
                        stage: Stage::Opening,
                        total: declared_total_of(status, content_length, content_range),
                        kept: if mode == OpenMode::Append {
                            s.existing
                        } else {
                            0
                        },
                        ..s
                    },
                    ActionModel::Open { mode },
                )
            },
            (Stage::Opening, EventModel::Opened) => (
                DownloadSession { stage: Stage::Streaming, ..s },
                ActionModel::Receive,
            ),
            (Stage::Opening, EventModel::OpenFailed { error }) => (
                DownloadSession { stage: Stage::Failed, ..s },
                ActionModel::Fail {
                    kind: FailureKind::Io,
                    message: if s.kept > 0 {
                        "Error opening file for append: "@ + error
                    } else {
                        "Error creating temp file: "@ + error
                    },
                },
            ),
            (Stage::Streaming, EventModel::Chunk { len, idle_ms }) => {
                let received = capped_sum(s.received, len);
                if emit_due(idle_ms, (received - s.reported_at) as u64) {
                    let done = capped_sum(s.kept, received);
                    let percent = larger(s.reported_percent, download_percent_of(done, s.total));
                    (
                        DownloadSession {
                            received,
                            reported_at: received,
                            reported_percent: percent,
                            ..s
                        },
                        ActionModel::Report { percent, message: progress_text(done, s.total) },
                    )
                } else {
                    (DownloadSession { received, ..s }, ActionModel::Receive)
                }
            },
            (Stage::Streaming, EventModel::FlushFailed { error }) => (
                DownloadSession { stage: Stage::Failed, ..s },
                ActionModel::Fail { kind: FailureKind::Io, message: "Write error (flush): "@ + error },
            ),
            (Stage::Streaming, EventModel::Ended) => {
                if s.total > 0 {
                    (DownloadSession { stage: Stage::Verifying, ..s }, ActionModel::Measure)
                } else {
                    (DownloadSession { stage: Stage::Completed, ..s }, ActionModel::Done)
                }
            },
            (Stage::Verifying, EventModel::Measured { .. }) => (
                DownloadSession { stage: Stage::Completed, ..s },
                ActionModel::Done,
            ),
            _ => (s, ActionModel::Rejected),
        },
    }
}

fn prefixed(prefix: &str, rest: &str) -> (s: String)
    ensures
        s@ == prefix@ + rest@,
{
    let mut s = String::from_str(prefix);
    s.append(rest);
    s
}

impl DownloadSession {
    /// The attempt count stays within the budget, an attempt is running
    /// exactly in the stages between request and verification, the last
    /// report does not lie ahead of what was received, and no percentage
    /// beyond the download's share of the scale was reported.
    pub open spec fn wf(&self) -> bool {
        &&& self.attempt <= MAX_ATTEMPTS
        &&& self.stage == Stage::Pending ==> self.attempt < MAX_ATTEMPTS
        &&& (self.stage == Stage::Requesting || self.stage == Stage::Opening || self.stage
            == Stage::Streaming || self.stage == Stage::Verifying || self.stage
            == Stage::Completed) ==> self.attempt >= 1
        &&& self.reported_at <= self.received
        &&& self.kept <= self.existing
        &&& self.reported_percent <= DOWNLOAD_SHARE
    }

    /// A session before its first attempt.
    pub open spec fn fresh() -> DownloadSession {
        DownloadSession {
            stage: Stage::Pending,
            attempt: 0,
            existing: 0,
            kept: 0,
            received: 0,
            total: 0,
            reported_at: 0,
            reported_percent: 0,
        }
    }

    /// The coarse phase that belongs to the stage.
    pub open spec fn phase_of(&self) -> Phase {
        match self.stage {
            Stage::Pending => Phase::Pending,
            Stage::Requesting | Stage::Opening | Stage::Streaming => Phase::InProgress,
            Stage::Verifying => Phase::Verifying,
            Stage::Completed => Phase::Completed,
            Stage::Failed => Phase::Failed,
        }
    }

    /// Starts a session; the first event it accepts is `Ready`.
    pub fn new() -> (s: DownloadSession)
        ensures
            s == DownloadSession::fresh(),
            s.wf(),
    {
        DownloadSession {
            stage: Stage::Pending,
            attempt: 0,
            existing: 0,
            kept: 0,
            received: 0,
            total: 0,
            reported_at: 0,
            reported_percent: 0,
        }
    }

    /// The session's phase.
    pub fn phase(&self) -> (p: Phase)
        ensures
            p == self.phase_of(),
    {
        match self.stage {
            Stage::Pending => Phase::Pending,
            Stage::Requesting | Stage::Opening | Stage::Streaming => Phase::InProgress,
            Stage::Verifying => Phase::Verifying,
            Stage::Completed => Phase::Completed,
            Stage::Failed => Phase::Failed,
        }
    }

    /// Bytes of the artifact that are on disk: what the attempt kept of the
    /// partial file plus what it received.
    pub fn bytes_transferred(&self) -> (n: u64)
        ensures
            n == capped_sum(self.kept, self.received),
    {
        self.kept.saturating_add(self.received)
    }

    fn fail_or_retry(&mut self, kind: FailureKind, message: String) -> (action: DownloadAction)
        requires
            old(self).wf(),
            old(self).attempt >= 1,
        ensures
            (*final(self), action@) == retry_or_fail(*old(self), kind, message@),
            final(self).wf(),
    {
        if self.attempt < MAX_ATTEMPTS {
            self.stage = Stage::Pending;
            DownloadAction::Backoff { seconds: BACKOFF_SECONDS }
        } else {
            self.stage = Stage::Failed;
            DownloadAction::Fail { kind, message }
        }
    }

    /// Advances the session by one event and says what to do next.
    pub fn step(&mut self, event: DownloadEvent) -> (action: DownloadAction)
        requires
            old(self).wf(),
        ensures
            (*final(self), action@) == step_model(*old(self), event@),
            final(self).wf(),
    {
        match event {
            DownloadEvent::Ready { existing } => {
                if self.stage == Stage::Pending {
                    self.stage = Stage::Requesting;
                    self.attempt = self.attempt + 1;
                    self.existing = existing;
                    self.kept = 0;
                    self.received = 0;
                    self.total = 0;
                    self.reported_at = 0;
                    DownloadAction::Request { range: range_header(existing) }
                } else {
                    DownloadAction::Rejected
                }
            },
            DownloadEvent::RequestFailed { error } => {
                if self.stage == Stage::Requesting {
                    self.fail_or_retry(
                        FailureKind::Network,
                        prefixed("Request error: ", error.as_str()),
                    )
                } else {
                    DownloadAction::Rejected
                }
            },
            DownloadEvent::Responded { status, status_text, content_length, content_range } => {
                if self.stage != Stage::Requesting {
                    DownloadAction::Rejected
                } else if !is_status_accepted(status) {
                    self.fail_or_retry(
                        FailureKind::HttpStatus,
                        prefixed("HTTP error: ", status_text.as_str()),
                    )
                } else {
                    let total = match &content_range {
                        Some(v) => declared_total(status, content_length, Some(v.as_str())),
                        None => declared_total(status, content_length, None),
                    };
                    let mode = open_mode(self.existing, status);
                    self.stage = Stage::Opening;
                    self.total = total;
                    self.kept = match mode {
                        OpenMode::Append => self.existing,
                        OpenMode::Truncate => 0,
                    };
                    DownloadAction::Open { mode }
                }
            },
            DownloadEvent::Opened => {
                if self.stage == Stage::Opening {
                    self.stage = Stage::Streaming;
                    DownloadAction::Receive
                } else {
                    DownloadAction::Rejected
                }
            },
            DownloadEvent::OpenFailed { error } => {
                if self.stage == Stage::Opening {
                    self.stage = Stage::Failed;
                    let message = if self.kept > 0 {
                        prefixed("Error opening file for append: ", error.as_str())
                    } else {
                        prefixed("Error creating temp file: ", error.as_str())
                    };
                    DownloadAction::Fail { kind: FailureKind::Io, message }
                } else {
                    DownloadAction::Rejected
                }
            },
            DownloadEvent::Chunk { len, idle_ms } => {
                if self.stage == Stage::Streaming {
                    let received = self.received.saturating_add(len);
                    self.received = received;
                    if should_emit(idle_ms, received - self.reported_at) {
                        let done = self.kept.saturating_add(received);
                        let now = download_percent(done, self.total);
                        let percent = if self.reported_percent >= now {
                            self.reported_percent
                        } else {
                            now
                        };
                        self.reported_at = received;
                        self.reported_percent = percent;
                        DownloadAction::Report {
                            percent,
                            message: progress_message(done, self.total),
                        }
                    } else {
                        DownloadAction::Receive
                    }
                } else {
                    DownloadAction::Rejected
                }
            },
            DownloadEvent::ReadFailed { error } => {
                if self.stage == Stage::Streaming {
                    self.fail_or_retry(
                        FailureKind::Network,
                        prefixed("Data read error: ", error.as_str()),
                    )
                } else {
                    DownloadAction::Rejected
                }
            },
            DownloadEvent::WriteFailed { error } => {
                if self.stage == Stage::Streaming {
                    self.fail_or_retry(FailureKind::Io, prefixed("Write error: ", error.as_str()))
                } else {
                    DownloadAction::Rejected
                }
            },
            DownloadEvent::FlushFailed { error } => {
                if self.stage == Stage::Streaming {
                    self.stage = Stage::Failed;
                    DownloadAction::Fail {
                        kind: FailureKind::Io,
                        message: prefixed("Write error (flush): ", error.as_str()),
                    }
                } else {
                    DownloadAction::Rejected
                }
            },
            DownloadEvent::Ended => {
                if self.stage == Stage::Streaming {
                    if self.total > 0 {
                        self.stage = Stage::Verifying;
                        DownloadAction::Measure
                    } else {
                        self.stage = Stage::Completed;
                        DownloadAction::Done
                    }
                } else {
                    DownloadAction::Rejected
                }
            },
            DownloadEvent::Measured { file_len } => {
                if self.stage == Stage::Verifying {
                    let on_disk = match file_len {
                        Some(n) => n,
                        None => self.kept.saturating_add(self.received),
                    };
                    if on_disk < self.total {
                        self.fail_or_retry(
                            FailureKind::SizeMismatch,
                            short_file_message(on_disk, self.total),
                        )
                    } else {
                        self.stage = Stage::Completed;
                        DownloadAction::Done
                    }
                } else {
                    DownloadAction::Rejected
                }
            },
        }
    }
}

/// The session reached from `s` by the events of `events`, in order.
pub open spec fn run(s: DownloadSession, events: Seq<EventModel>) -> DownloadSession
    decreases events.len(),
{
    if events.len() == 0 {
        s
    } else {
        step_model(run(s, events.drop_last()), events.last()).0
    }
}

/// The action that answers the last event of `events`.
pub open spec fn last_action(s: DownloadSession, events: Seq<EventModel>) -> ActionModel
    recommends
        events.len() > 0,
{
    step_model(run(s, events.drop_last()), events.last()).1
}

/// `events` is one attempt, begun from the waiting session `s`, whose last
/// event is a recoverable failure; the result is that failure's error text.
pub open spec fn failed_attempt(s: DownloadSession, events: Seq<EventModel>) -> Option<
    (FailureKind, Seq<char>),
> {
    if events.len() >= 2 && s.stage == Stage::Pending && events[0] is Ready && run(
        s,
        events.drop_last(),
    ).attempt == s.attempt + 1 {
        recoverable_failure(run(s, events.drop_last()), events.last())
    } else {
        None
    }
}

/// A recoverable failure costs one attempt: while the budget lasts the
/// session waits and goes back to `Pending`; on the last attempt the session
/// fails with the text of that very failure.
pub proof fn recoverable_failures_are_retried(s: DownloadSession, event: EventModel)
    requires
        s.wf(),
        recoverable_failure(s, event) is Some,
    ensures
        s.attempt < MAX_ATTEMPTS ==> step_model(s, event) == (
            DownloadSession { stage: Stage::Pending, ..s },
            ActionModel::Backoff { seconds: BACKOFF_SECONDS },
        ),
        s.attempt == MAX_ATTEMPTS ==> step_model(s, event) == (
            DownloadSession { stage: Stage::Failed, ..s },
            ActionModel::Fail {
                kind: recoverable_failure(s, event).unwrap().0,
                message: recoverable_failure(s, event).unwrap().1,
            },
        ),
{
}

/// After two failed attempts the session still accepts a third; neither
/// failure was reported as the download's error, and if the third attempt
/// ends with `Done` the session is complete.
pub proof fn third_attempt_is_granted(
    first: Seq<EventModel>,
    second: Seq<EventModel>,
    third: Seq<EventModel>,
)
    requires
        failed_attempt(DownloadSession::fresh(), first) is Some,
        failed_attempt(run(DownloadSession::fresh(), first), second) is Some,
        third.len() > 0,
    ensures
        last_action(DownloadSession::fresh(), first) == (ActionModel::Backoff {
            seconds: BACKOFF_SECONDS,
        }),
        last_action(run(DownloadSession::fresh(), first), second) == (ActionModel::Backoff {
            seconds: BACKOFF_SECONDS,
        }),
        run(run(DownloadSession::fresh(), first), second).stage == Stage::Pending,
        run(run(DownloadSession::fresh(), first), second).attempt == 2,
        last_action(run(run(DownloadSession::fresh(), first), second), third) == ActionModel::Done
            ==> run(run(run(DownloadSession::fresh(), first), second), third).stage
            == Stage::Completed,
{
}

/// When all three attempts fail, the download fails with exactly the error
/// text of the third.
pub proof fn third_failure_is_final(
    first: Seq<EventModel>,
    second: Seq<EventModel>,
    third: Seq<EventModel>,
)
    requires
        failed_attempt(DownloadSession::fresh(), first) is Some,
        failed_attempt(run(DownloadSession::fresh(), first), second) is Some,
        failed_attempt(run(run(DownloadSession::fresh(), first), second), third) is Some,
    ensures
        last_action(run(run(DownloadSession::fresh(), first), second), third) == (
        ActionModel::Fail {
            kind: failed_attempt(
                run(run(DownloadSession::fresh(), first), second),
                third,
            ).unwrap().0,
            message: failed_attempt(
                run(run(DownloadSession::fresh(), first), second),
                third,
            ).unwrap().1,
        }),
        run(run(run(DownloadSession::fresh(), first), second), third).stage == Stage::Failed,
{
}

/// A step keeps a well-formed session well formed.
pub proof fn step_keeps_the_session_well_formed(s: DownloadSession, event: EventModel)
    requires
        s.wf(),
    ensures
        step_model(s, event).0.wf(),
{
    match event {
        EventModel::Chunk { len, idle_ms } => {
            let received = capped_sum(s.received, len);
            let done = capped_sum(s.kept, received);
            crate::transfer::download_percent_is_monotonic(done, done, s.total);
        },
        _ => {},
    }
}

/// The reported percentage never falls, whatever happens in between: a
/// report carries the larger of the last reported percentage and the
/// position of the running attempt, so neither a retry that starts the file
/// again nor a total that becomes known later makes it go back. It never
/// leaves the download's share of the scale either.
pub proof fn reported_percentage_never_falls(s: DownloadSession, event: EventModel)
    requires
        s.wf(),
    ensures
        s.reported_percent <= step_model(s, event).0.reported_percent <= DOWNLOAD_SHARE,
        step_model(s, event).1 matches ActionModel::Report { percent, .. } ==> percent
            == step_model(s, event).0.reported_percent,
{
    step_keeps_the_session_well_formed(s, event);
}

/// Over any run of events the largest reported percentage only grows.
pub proof fn reported_percentage_grows_over_a_run(s: DownloadSession, events: Seq<EventModel>)
    requires
        s.wf(),
    ensures
        run(s, events).wf(),
        s.reported_percent <= run(s, events).reported_percent,
    decreases events.len(),
{
    if events.len() > 0 {
        reported_percentage_grows_over_a_run(s, events.drop_last());
        reported_percentage_never_falls(run(s, events.drop_last()), events.last());
        step_keeps_the_session_well_formed(run(s, events.drop_last()), events.last());
    }
}

/// Of two reports in one run the later is never the smaller, also where
/// attempts failed and were started again between them.
pub proof fn later_reports_are_not_smaller(
    s: DownloadSession,
    events: Seq<EventModel>,
    earlier: int,
    later: int,
)
    requires
        s.wf(),
        0 < earlier <= later <= events.len(),
        last_action(s, events.take(earlier)) is Report,
        last_action(s, events.take(later)) is Report,
    ensures
        last_action(s, events.take(earlier))->Report_percent <= last_action(
            s,
            events.take(later),
        )->Report_percent,
{
    let first = events.take(earlier);
    let second = events.take(later);
    reported_percentage_grows_over_a_run(s, first.drop_last());
    reported_percentage_never_falls(run(s, first.drop_last()), first.last());
    reported_percentage_grows_over_a_run(s, second.drop_last());
    reported_percentage_never_falls(run(s, second.drop_last()), second.last());
    if earlier < later {
        let between = second.drop_last().skip(earlier);
        run_in_two_parts(s, first, between);
        assert(first + between =~= second.drop_last());
        reported_percentage_grows_over_a_run(s, first);
        reported_percentage_grows_over_a_run(run(s, first), between);
    } else {
        assert(first =~= second);
    }
}

/// Running two sequences of events one after the other is running their
/// concatenation.
pub proof fn run_in_two_parts(s: DownloadSession, first: Seq<EventModel>, second: Seq<EventModel>)
    ensures
        run(s, first + second) == run(run(s, first), second),
    decreases second.len(),
{
    if second.len() == 0 {
        assert(first + second =~= first);
    } else {
        run_in_two_parts(s, first, second.drop_last());
        assert((first + second).drop_last() =~= first + second.drop_last());
        assert((first + second).last() == second.last());
    }
}

} // verus!
