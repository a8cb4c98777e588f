//! Progress of a model download.

use crate::events::{ProgressModel, ProgressPayload};
use crate::sizes::{push_size, size_text};
use vstd::prelude::*;
use vstd::string::*;

verus! {

/// The largest percentage reported before the download is complete.
pub const MODEL_PERCENT_CAP: u32 = 99;

/// While the total is unknown, every this many bytes count as one percent.
pub const UNKNOWN_TOTAL_STEP: u64 = 5 * 1024 * 1024;

/// The largest percentage reported while the total is unknown.
pub const UNKNOWN_TOTAL_CAP: u32 = 95;

/// A note goes to the log every this many mebibytes.
pub const LOG_EVERY_MB: u64 = 5;

/// The percentage of a model download: the received share of the total, or
/// one percent per step while the total is unknown; never 100 before the
/// download is complete.
pub open spec fn model_percent_of(downloaded: u64, total: u64) -> u32 {
    if total > 0 {
        if (downloaded * 100) / (total as int) >= MODEL_PERCENT_CAP {
            MODEL_PERCENT_CAP
        } else {
            ((downloaded * 100) / (total as int)) as u32
        }
    } else if downloaded / UNKNOWN_TOTAL_STEP >= UNKNOWN_TOTAL_CAP {
        UNKNOWN_TOTAL_CAP
    } else {
        (downloaded / UNKNOWN_TOTAL_STEP) as u32
    }
}

/// The percentage to report for a model download.
pub fn model_percent(downloaded: u64, total: u64) -> (percent: u32)
    ensures
        percent == model_percent_of(downloaded, total),
        percent <= MODEL_PERCENT_CAP,
{
    if total > 0 {
        let scaled: u128 = (downloaded as u128) * 100;
        let q: u128 = scaled / (total as u128);
        if q >= 99 {
            MODEL_PERCENT_CAP
        } else {
            q as u32
        }
    } else {
        let steps = downloaded / UNKNOWN_TOTAL_STEP;
        if steps >= 95 {
            UNKNOWN_TOTAL_CAP
        } else {
            steps as u32
        }
    }
}

/// The message of a model download report.
pub open spec fn model_progress_text(downloaded: u64, total: u64) -> Seq<char> {
    if total > 0 {
        "Скачано "@ + size_text(downloaded as nat) + " из "@ + size_text(total as nat)
    } else {
        "Скачано "@ + size_text(downloaded as nat) + " (размер неизвестен)"@
    }
}

/// The report for a model download of which `downloaded` bytes have
/// arrived.
pub fn model_progress(downloaded: u64, total: u64) -> (p: ProgressPayload)
    ensures
        p@ == (ProgressModel {
            progress: model_percent_of(downloaded, total),
            message: model_progress_text(downloaded, total),
        }),
        p.wf(),
{
    let mut message = String::from_str("Скачано ");
    push_size(&mut message, downloaded);
    if total > 0 {
        message.append(" из ");
        push_size(&mut message, total);
    } else {
        message.append(" (размер неизвестен)");
    }
    ProgressPayload { progress: model_percent(downloaded, total), message }
}

/// The report that opens a model download.
pub fn model_download_started() -> (p: ProgressPayload)
    ensures
        p@ == (ProgressModel { progress: 0, message: "Starting model download..."@ }),
{
    ProgressPayload::new(0, "Starting model download...")
}

/// The report that closes a model download.
pub fn model_download_completed() -> (p: ProgressPayload)
    ensures
        p@ == (ProgressModel { progress: 100, message: "Модель успешно скачана"@ }),
{
    ProgressPayload::new(100, "Модель успешно скачана")
}

/// Whether a note is due in the log: at least five whole mebibytes have
/// arrived since the last one.
pub fn log_due(downloaded: u64, last_logged_mb: u64) -> (due: bool)
    ensures
        due == (downloaded / 1048576u64 >= last_logged_mb + LOG_EVERY_MB),
{
    let now = downloaded / (1024 * 1024);
    match last_logged_mb.checked_add(LOG_EVERY_MB) {
        Some(next) => now >= next,
        None => false,
    }
}

/// The percentage never goes down while bytes arrive.
pub proof fn model_percent_is_monotonic(earlier: u64, later: u64, total: u64)
    requires
        earlier <= later,
    ensures
        model_percent_of(earlier, total) <= model_percent_of(later, total) <= MODEL_PERCENT_CAP,
{
    if total > 0 {
        let t = total as int;
        assert((earlier * 100) / t <= (later * 100) / t) by (nonlinear_arith)
            requires
                0 <= earlier <= later,
                t > 0,
        ;
    } else {
        assert(earlier / UNKNOWN_TOTAL_STEP <= later / UNKNOWN_TOTAL_STEP) by (nonlinear_arith)
            requires
                0 <= earlier <= later,
                UNKNOWN_TOTAL_STEP == 5242880,
        ;
    }
}

} // verus!
