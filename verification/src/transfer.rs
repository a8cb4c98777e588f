//! The rules of a single transfer attempt: what to ask the server for, how
//! to read its answer, where the received bytes go and when to report
//! progress.

use crate::sizes::{push_size, size_text};
use crate::text::{
    decimal, find_char, first_index_of, parse_u64_from, parsed_u64, push_decimal, to_chars,
};
use vstd::prelude::*;
use vstd::string::*;

verus! {

/// Progress is reported at most once per this many milliseconds ...
pub const EMIT_INTERVAL_MS: u64 = 30;

/// ... unless this many new bytes have arrived since the last report.
pub const EMIT_EVERY_BYTES: u64 = 8 * 1024 * 1024;

/// The share of the overall progress scale that the download fills.
pub const DOWNLOAD_SHARE: u32 = 50;

/// The percentage shown while the total size is unknown.
pub const UNKNOWN_TOTAL_PERCENT: u32 = 25;

/// Seconds within which a connection has to be made.
pub const CONNECT_TIMEOUT_SECONDS: u64 = 20;

/// Seconds that one attempt may take in all.
pub const ATTEMPT_TIMEOUT_SECONDS: u64 = 600;

/// HTTP status of a response that carries only the requested range.
pub const PARTIAL_CONTENT: u16 = 206;

/// How the temp file is opened for an attempt.
#[derive(Clone, Copy, Debug, PartialEq, Eq, Structural)]
pub enum OpenMode {
    /// Keep what is there and write behind it.
    Append,
    /// Start from an empty file.
    Truncate,
}

/// The value of the `Range` header that asks for everything from byte
/// `offset` on.
pub open spec fn range_from(offset: nat) -> Seq<char> {
    "bytes="@ + decimal(offset) + "-"@
}

/// The `Range` header of an attempt that finds `existing` bytes already on
/// disk: none for a fresh download, otherwise a request for the rest.
pub open spec fn range_header_for(existing: u64) -> Option<Seq<char>> {
    if existing > 0 {
        Some(range_from(existing as nat))
    } else {
        None
    }
}

/// Chooses the `Range` header for an attempt that finds `existing` bytes of
/// the file already on disk.
pub fn range_header(existing: u64) -> (h: Option<String>)
    ensures
        match h {
            Some(v) => range_header_for(existing) == Some(v@),
            None => range_header_for(existing) is None,
        },
{
    if existing > 0 {
        let mut v = String::from_str("bytes=");
        push_decimal(&mut v, existing);
        v.append("-");
        Some(v)
    } else {
        None
    }
}

/// Whether a response with this status carries content: any status of the
/// 2xx class, which includes partial content.
pub open spec fn status_accepted(status: u16) -> bool {
    200 <= status <= 299
}

/// Whether the body of a response with this status is to be stored.
pub fn is_status_accepted(status: u16) -> (ok: bool)
    ensures
        ok == status_accepted(status),
{
    200 <= status && status <= 299
}

/// The total that a `Content-Range` value of the form
/// `<unit> <span>/<total>` declares: what follows the first `/` behind the
/// first space, read as a number. Zero stands for "unknown" and is the answer
/// for every value of another form.
pub open spec fn content_range_total(value: Seq<char>) -> u64 {
    match first_index_of(value, ' ') {
        None => 0,
        Some(i) => {
            let rest = value.skip(i + 1);
            match first_index_of(rest, '/') {
                None => 0,
                Some(j) => match parsed_u64(rest.skip(j + 1)) {
                    Some(total) => total,
                    None => 0,
                },
            }
        },
    }
}

/// Reads the total size out of a `Content-Range` header value.
pub fn parse_content_range_total(value: &str) -> (total: u64)
    ensures
        total == content_range_total(value@),
{
    let v = to_chars(value);
    assert(v@.skip(0) =~= v@);
    let space = find_char(&v, 0, ' ');
    if space == v.len() {
        return 0;
    }
    let ghost rest = v@.skip(space + 1);
    let slash = find_char(&v, space + 1, '/');
    if slash == v.len() {
        return 0;
    }
    assert(rest.skip(slash - (space + 1) + 1) =~= v@.skip(slash + 1));
    match parse_u64_from(&v, slash + 1) {
        Some(total) => total,
        None => 0,
    }
}

/// The total size that a response declares, zero when it declares none. A
/// partial response states it in `Content-Range`; a full one in
/// `Content-Length`.
pub open spec fn declared_total_of(
    status: u16,
    content_length: Option<u64>,
    content_range: Option<Seq<char>>,
) -> u64 {
    if status == PARTIAL_CONTENT {
        match content_range {
            Some(value) => content_range_total(value),
            None => 0,
        }
    } else {
        match content_length {
            Some(n) => n,
            None => 0,
        }
    }
}

/// The total size of the file according to the response headers.
pub fn declared_total(status: u16, content_length: Option<u64>, content_range: Option<&str>) -> (total: u64)
    ensures
        total == declared_total_of(
            status,
            content_length,
            match content_range {
                Some(v) => Some(v@),
                None => None,
            },
        ),
{
    if status == PARTIAL_CONTENT {
        match content_range {
            Some(value) => parse_content_range_total(value),
            None => 0,
        }
    } else {
        match content_length {
            Some(n) => n,
            None => 0,
        }
    }
}

/// The partial file is continued only when there is one and the server
/// honoured the range; a full response replaces whatever was there.
pub open spec fn open_mode_for(existing: u64, status: u16) -> OpenMode {
    if existing > 0 && status == PARTIAL_CONTENT {
        OpenMode::Append
    } else {
        OpenMode::Truncate
    }
}

/// Chooses how to open the temp file for the body of a response.
pub fn open_mode(existing: u64, status: u16) -> (mode: OpenMode)
    ensures
        mode == open_mode_for(existing, status),
{
    if existing > 0 && status == PARTIAL_CONTENT {
        OpenMode::Append
    } else {
        OpenMode::Truncate
    }
}

/// What the temp file holds once `body` has been written to a file that held
/// `before` and was opened in `mode`.
pub open spec fn file_after(mode: OpenMode, before: Seq<u8>, body: Seq<u8>) -> Seq<u8> {
    match mode {
        OpenMode::Append => before + body,
        OpenMode::Truncate => body,
    }
}

/// Progress is due when enough time has passed since the last report or
/// enough new data has arrived, whichever comes first.
pub open spec fn emit_due(idle_ms: u64, new_bytes: u64) -> bool {
    idle_ms >= EMIT_INTERVAL_MS || new_bytes >= EMIT_EVERY_BYTES
}

/// Whether a progress report is due, `idle_ms` milliseconds and `new_bytes`
/// bytes after the last one.
pub fn should_emit(idle_ms: u64, new_bytes: u64) -> (due: bool)
    ensures
        due == emit_due(idle_ms, new_bytes),
{
    idle_ms >= EMIT_INTERVAL_MS || new_bytes >= EMIT_EVERY_BYTES
}

/// The download's position on the overall progress scale: the received
/// fraction of the first half, never beyond it, or a fixed mark while the
/// total is unknown.
pub open spec fn download_percent_of(done: u64, total: u64) -> u32 {
    if total > 0 {
        if done >= total {
            DOWNLOAD_SHARE
        } else {
            ((done * DOWNLOAD_SHARE) / (total as int)) as u32
        }
    } else {
        UNKNOWN_TOTAL_PERCENT
    }
}

/// The percentage to report when `done` bytes of `total` are on disk.
pub fn download_percent(done: u64, total: u64) -> (percent: u32)
    ensures
        percent == download_percent_of(done, total),
        percent <= DOWNLOAD_SHARE,
{
    if total > 0 {
        if done >= total {
            DOWNLOAD_SHARE
        } else {
            let scaled: u128 = (done as u128) * 50;
            let q: u128 = scaled / (total as u128);
            assert(q <= 50) by (nonlinear_arith)
                requires
                    q == (done * 50) / (total as int),
                    0 <= done < total,
            ;
            q as u32
        }
    } else {
        UNKNOWN_TOTAL_PERCENT
    }
}

/// Within one attempt the reported percentage never goes down as more bytes
/// arrive.
pub proof fn download_percent_is_monotonic(earlier: u64, later: u64, total: u64)
    requires
        earlier <= later,
    ensures
        download_percent_of(earlier, total) <= download_percent_of(later, total) <= DOWNLOAD_SHARE,
{
    if total > 0 {
        let t = total as int;
        if later < total {
            assert((earlier * 50) / t <= (later * 50) / t <= 50) by (nonlinear_arith)
                requires
                    0 <= earlier <= later < t,
            ;
        } else if earlier < total {
            assert((earlier * 50) / t <= 50) by (nonlinear_arith)
                requires
                    0 <= earlier < t,
            ;
        }
    }
}

/// The message that goes with a progress report.
pub open spec fn progress_text(done: u64, total: u64) -> Seq<char> {
    if total > 0 {
        "Downloaded "@ + size_text(done as nat) + " of "@ + size_text(total as nat) + " "@
    } else {
        "Downloaded "@ + size_text(done as nat) + " "@
    }
}

/// Builds the message of a progress report.
pub fn progress_message(done: u64, total: u64) -> (m: String)
    ensures
        m@ == progress_text(done, total),
{
    let mut m = String::from_str("Downloaded ");
    push_size(&mut m, done);
    if total > 0 {
        m.append(" of ");
        push_size(&mut m, total);
    }
    m.append(" ");
    m
}

/// The error of an attempt that ended with fewer bytes on disk than the
/// server declared.
pub open spec fn short_file_text(on_disk: u64, total: u64) -> Seq<char> {
    "Downloaded "@ + size_text(on_disk as nat) + " of "@ + size_text(total as nat)
        + ", attempting to resume..."@
}

/// Builds the error message for a file that came out short.
pub fn short_file_message(on_disk: u64, total: u64) -> (m: String)
    ensures
        m@ == short_file_text(on_disk, total),
{
    let mut m = String::from_str("Downloaded ");
    push_size(&mut m, on_disk);
    m.append(" of ");
    push_size(&mut m, total);
    m.append(", attempting to resume...");
    m
}

/// A resumed attempt asks for exactly the missing part, and whether the
/// server honours the range or sends the whole file again, the temp file ends
/// up byte for byte equal to a fresh download.
pub proof fn resume_yields_the_same_file(content: Seq<u8>, existing: u64, status: u16)
    requires
        0 < existing < content.len(),
        status_accepted(status),
    ensures
        range_header_for(existing) == Some(range_from(existing as nat)),
        file_after(
            open_mode_for(existing, status),
            content.take(existing as int),
            if status == PARTIAL_CONTENT {
                content.skip(existing as int)
            } else {
                content
            },
        ) == content,
{
    assert(content.take(existing as int) + content.skip(existing as int) =~= content);
}

} // verus!
