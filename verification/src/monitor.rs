//! The monitoring loop: refresh the blacklist, capture, analyze, report,
//! then sleep a randomized while — checking the cancellation flag at every
//! one-second step so a shutdown signal is honored within a second.

use crate::{MAX_SLEEP_SECONDS, MIN_SLEEP_SECONDS, SLICE_HEIGHT};
use vstd::prelude::*;

verus! {

/// Relies on rand::random: a machine-random value; nothing is promised of
/// it.
#[verifier::external_body]
fn random_u64() -> u64 {
    rand::random::<u64>()
}

/// A randomized sleep between the fixed bounds, so the polling cadence is
/// not predictable: at least the short minimum, always under the longer
/// maximum.
pub fn sleep_duration_seconds() -> (r: u64)
    ensures
        MIN_SLEEP_SECONDS <= r < MAX_SLEEP_SECONDS,
{
    let x = random_u64();
    MIN_SLEEP_SECONDS + x % (MAX_SLEEP_SECONDS - MIN_SLEEP_SECONDS)
}

/// Where one one-second step of the backoff sleep leads.
#[derive(Clone, Copy, PartialEq, Eq, Structural, Debug)]
pub enum SleepStep {
    /// Sleep one more second, then step again with this many seconds left.
    Continue(u64),
    /// The full duration has passed.
    Finished,
    /// The cancellation flag was seen; stop sleeping at once.
    Cancelled,
}

/// The sleep decision: cancellation wins immediately, otherwise the
/// remaining seconds count down to the end.
pub open spec fn sleep_step_spec(remaining: u64, cancelled: bool) -> SleepStep {
    if cancelled {
        SleepStep::Cancelled
    } else if remaining == 0 {
        SleepStep::Finished
    } else {
        SleepStep::Continue((remaining - 1) as u64)
    }
}

/// One one-second step of the cancellable sleep.
pub fn sleep_step(remaining: u64, cancelled: bool) -> (r: SleepStep)
    ensures
        r == sleep_step_spec(remaining, cancelled),
{
    if cancelled {
        SleepStep::Cancelled
    } else if remaining == 0 {
        SleepStep::Finished
    } else {
        SleepStep::Continue(remaining - 1)
    }
}

/// However much sleep is still owed, the very next one-second check after
/// the cancellation flag is set ends the sleep: a shutdown signal is
/// honored within at most one second.
pub proof fn lemma_cancellation_stops_sleep(remaining: u64)
    ensures
        sleep_step_spec(remaining, true) == SleepStep::Cancelled,
{
}

/// The self-throttling pause between slices: ten seconds of pause for every
/// second a slice took to process, holding still at the top of the range.
pub fn throttle_seconds(elapsed_seconds: u64) -> (r: u64)
    ensures
        elapsed_seconds <= u64::MAX / 10 ==> r == 10 * elapsed_seconds,
        elapsed_seconds > u64::MAX / 10 ==> r == u64::MAX,
{
    if elapsed_seconds <= u64::MAX / 10 {
        10 * elapsed_seconds
    } else {
        u64::MAX
    }
}

/// The top rows of the horizontal slices a frame of the given height is cut
/// into: every multiple of the slice height below the frame height, in
/// order.
pub fn slice_offsets(height: u32) -> (r: Vec<u32>)
    ensures
        forall|j: int| 0 <= j < r@.len() ==> r@[j] == j * (SLICE_HEIGHT as int),
        r@.len() * (SLICE_HEIGHT as int) >= height as int,
        height > 0 ==> r@.len() > 0 && (r@.len() - 1) * (SLICE_HEIGHT as int) < height as int,
        height == 0 ==> r@.len() == 0,
{
    let mut r: Vec<u32> = Vec::new();
    let h = height as u64;
    let step = SLICE_HEIGHT as u64;
    let mut i: u64 = 0;
    while i < h
        invariant
            step == SLICE_HEIGHT as u64,
            h == height as u64,
            i == r@.len() * (SLICE_HEIGHT as int),
            i <= h + step,
            forall|j: int| 0 <= j < r@.len() ==> r@[j] == j * (SLICE_HEIGHT as int),
            r@.len() > 0 ==> (r@.len() - 1) * (SLICE_HEIGHT as int) < h,
        decreases h + step - i,
    {
        r.push(i as u32);
        i = i + step;
    }
    r
}

/// When the log has grown past the limit, only the lines from the middle of
/// the limit onward are kept; a log within the limit is left alone.
pub fn trim_log_lines(lines: &Vec<String>, limit: usize) -> (r: Option<Vec<String>>)
    ensures
        (lines@.len() > limit) == (r is Some),
        r matches Some(kept) ==> kept@ =~= lines@.skip((limit / 2) as int),
{
    if lines.len() <= limit {
        return None;
    }
    let start = limit / 2;
    let mut kept: Vec<String> = Vec::new();
    for i in start..lines.len()
        invariant
            start == limit / 2,
            start <= lines@.len(),
            kept@.len() == i - start,
            forall|j: int| 0 <= j < kept@.len() ==> kept@[j] == lines@[start + j],
    {
        kept.push(lines[i].clone());
    }
    proof {
        assert(kept@ =~= lines@.skip(start as int));
    }
    Some(kept)
}

/// Where the monitoring loop stands.
#[derive(Clone, Copy, PartialEq, Eq, Structural, Debug)]
pub enum MonitorPhase {
    /// Fetching the remote keyword blacklist.
    FetchBlacklist,
    /// Starting a cycle: every count is reset to zero.
    StartCycle,
    /// Enumerating the attached displays.
    Capture,
    /// Capturing and analyzing the displays, in enumeration order.
    Analyze,
    /// Building and posting the event report.
    Report,
    /// Sleeping the randomized backoff, one second at a time.
    Sleep,
    /// The loop has observed cancellation and unwound.
    Stopped,
}

/// What the loop just learned.
#[derive(Clone, Copy, PartialEq, Eq, Structural, Debug)]
pub enum MonitorEvent {
    /// The blacklist arrived and was built.
    BlacklistReady,
    /// Fetching or parsing the blacklist failed; the cycle is abandoned and
    /// retried after the backoff.
    FetchFailed,
    /// The counts were reset.
    CountsReset,
    /// The displays were enumerated.
    DisplaysEnumerated,
    /// Enumerating the displays failed; this cycle's capture is skipped.
    EnumerationFailed,
    /// Every display was captured and analyzed (a display whose capture or
    /// decode failed was skipped and logged).
    AnalysisFinished,
    /// The cancellation flag was seen between slices or displays.
    AnalysisCancelled,
    /// The event report was posted.
    ReportPosted,
    /// Posting failed; the cycle is abandoned, the loop goes on.
    ReportFailed,
    /// The backoff sleep ran to its end.
    SleepFinished,
    /// The cancellation flag was seen during the sleep.
    SleepCancelled,
    /// The cancellation flag was seen at a phase boundary.
    CancellationSeen,
}

/// The transition table of the monitoring loop.
pub open spec fn monitor_step_spec(p: MonitorPhase, e: MonitorEvent) -> MonitorPhase {
    if e == MonitorEvent::CancellationSeen || e == MonitorEvent::AnalysisCancelled || e
        == MonitorEvent::SleepCancelled {
        MonitorPhase::Stopped
    } else {
        match (p, e) {
            (MonitorPhase::FetchBlacklist, MonitorEvent::BlacklistReady) => MonitorPhase::StartCycle,
            (MonitorPhase::FetchBlacklist, MonitorEvent::FetchFailed) => MonitorPhase::Sleep,
            (MonitorPhase::StartCycle, MonitorEvent::CountsReset) => MonitorPhase::Capture,
            (MonitorPhase::Capture, MonitorEvent::DisplaysEnumerated) => MonitorPhase::Analyze,
            (MonitorPhase::Capture, MonitorEvent::EnumerationFailed) => MonitorPhase::Report,
            (MonitorPhase::Analyze, MonitorEvent::AnalysisFinished) => MonitorPhase::Report,
            (MonitorPhase::Report, MonitorEvent::ReportPosted) => MonitorPhase::Sleep,
            (MonitorPhase::Report, MonitorEvent::ReportFailed) => MonitorPhase::Sleep,
            (MonitorPhase::Sleep, MonitorEvent::SleepFinished) => MonitorPhase::StartCycle,
            _ => p,
        }
    }
}

/// One step of the monitoring loop: from the phase and what just happened,
/// the next phase.
pub fn monitor_step(p: MonitorPhase, e: MonitorEvent) -> (r: MonitorPhase)
    ensures
        r == monitor_step_spec(p, e),
{
    if e == MonitorEvent::CancellationSeen || e == MonitorEvent::AnalysisCancelled || e
        == MonitorEvent::SleepCancelled {
        MonitorPhase::Stopped
    } else {
        match (p, e) {
            (MonitorPhase::FetchBlacklist, MonitorEvent::BlacklistReady) => MonitorPhase::StartCycle,
            (MonitorPhase::FetchBlacklist, MonitorEvent::FetchFailed) => MonitorPhase::Sleep,
            (MonitorPhase::StartCycle, MonitorEvent::CountsReset) => MonitorPhase::Capture,
            (MonitorPhase::Capture, MonitorEvent::DisplaysEnumerated) => MonitorPhase::Analyze,
            (MonitorPhase::Capture, MonitorEvent::EnumerationFailed) => MonitorPhase::Report,
            (MonitorPhase::Analyze, MonitorEvent::AnalysisFinished) => MonitorPhase::Report,
            (MonitorPhase::Report, MonitorEvent::ReportPosted) => MonitorPhase::Sleep,
            (MonitorPhase::Report, MonitorEvent::ReportFailed) => MonitorPhase::Sleep,
            (MonitorPhase::Sleep, MonitorEvent::SleepFinished) => MonitorPhase::StartCycle,
            _ => p,
        }
    }
}

/// The loop stops on cancellation, wherever it stands — and on nothing
/// else: no failure event ends it; it is designed to run until killed.
pub proof fn lemma_loop_exits_only_by_cancellation(p: MonitorPhase, e: MonitorEvent)
    requires
        p != MonitorPhase::Stopped,
    ensures
        (e == MonitorEvent::CancellationSeen || e == MonitorEvent::AnalysisCancelled || e
            == MonitorEvent::SleepCancelled) ==> monitor_step_spec(p, e)
            == MonitorPhase::Stopped,
        !(e == MonitorEvent::CancellationSeen || e == MonitorEvent::AnalysisCancelled || e
            == MonitorEvent::SleepCancelled) ==> monitor_step_spec(p, e)
            != MonitorPhase::Stopped,
{
}

} // verus!
