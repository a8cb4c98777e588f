//! The events that the runtime reports to its caller's sink.

use vstd::prelude::*;
use vstd::string::*;

verus! {

/// A progress report: a percentage and a message for people.
#[derive(Clone, Debug)]
pub struct ProgressPayload {
    pub progress: u32,
    pub message: String,
}

/// Mathematical form of a [`ProgressPayload`].
pub struct ProgressModel {
    pub progress: u32,
    pub message: Seq<char>,
}

impl View for ProgressPayload {
    type V = ProgressModel;

    open spec fn view(&self) -> ProgressModel {
        ProgressModel { progress: self.progress, message: self.message@ }
    }
}

/// Which part of an installation a progress report belongs to.
#[derive(Clone, Copy, Debug, PartialEq, Eq, Structural)]
pub enum ProgressPhase {
    Download,
    Extract,
}

/// The phase that owns a percentage: the download fills the scale up to its
/// middle, extraction the rest.
pub open spec fn phase_of_percent(progress: u32) -> ProgressPhase {
    if progress < 50 {
        ProgressPhase::Download
    } else {
        ProgressPhase::Extract
    }
}

impl ProgressPayload {
    /// A report is well formed when its percentage is one.
    pub open spec fn wf(&self) -> bool {
        self.progress <= 100
    }

    /// A report with the given percentage and message.
    pub fn new(progress: u32, message: &str) -> (p: ProgressPayload)
        ensures
            p@ == (ProgressModel { progress, message: message@ }),
    {
        ProgressPayload { progress, message: String::from_str(message) }
    }

    /// The phase that the report belongs to.
    pub fn phase(&self) -> (phase: ProgressPhase)
        ensures
            phase == phase_of_percent(self.progress),
    {
        if self.progress < 50 {
            ProgressPhase::Download
        } else {
            ProgressPhase::Extract
        }
    }
}

/// Where a line of server output came from.
#[derive(Clone, Copy, Debug, PartialEq, Eq, Structural)]
pub enum StreamOrigin {
    Stdout,
    Stderr,
}

/// One line of a server's output.
#[derive(Clone, Debug)]
pub struct LogLineEvent {
    pub line: String,
    pub origin: StreamOrigin,
}

/// The report that opens a server installation.
pub fn download_started() -> (p: ProgressPayload)
    ensures
        p@ == (ProgressModel { progress: 0, message: "Starting download... "@ }),
        p.wf(),
{
    ProgressPayload::new(0, "Starting download... ")
}

/// The report that opens the extraction.
pub fn extraction_started() -> (p: ProgressPayload)
    ensures
        p@ == (ProgressModel { progress: 50, message: "Extracting archive..."@ }),
        p.wf(),
{
    ProgressPayload::new(50, "Extracting archive...")
}

} // verus!
