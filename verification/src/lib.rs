use vstd::prelude::*;

pub mod analyzer;
pub mod blacklist;
pub mod blacklist_fetch;
pub mod pairing;
pub mod monitor;
pub mod requests;
pub mod session;
pub mod tamper;
pub mod text;

verus! {

/// Lowest number of seconds the monitoring loop sleeps between cycles.
pub const MIN_SLEEP_SECONDS: u64 = 120;

/// Highest number of seconds the monitoring loop sleeps between cycles.
pub const MAX_SLEEP_SECONDS: u64 = 300;

/// Number of pixel rows handed to the OCR engine at a time.
pub const SLICE_HEIGHT: u32 = 512;

/// When the log grows past this many lines, the older half is dropped.
pub const LOG_FILE_LINE_COUNT_LIMIT: usize = 10000;

/// The error taxonomy of the agent.
///
/// `Auth` is fatal to startup; `Entitlement` means the remote account lacks
/// access; `Network` aborts the current cycle only; `Tamper` forces shutdown;
/// `Cancelled` drives the cooperative exit path; `Image` and `Decode` skip a
/// single display's analysis.
#[derive(Clone, Copy, PartialEq, Eq, Structural, Debug)]
pub enum OpenAccError {
    Auth,
    Entitlement,
    Network,
    Tamper,
    Cancelled,
    Image,
    Decode,
}

/// Adds one to a counter, holding still at the top of the range.
pub fn saturating_increment(c: i32) -> (r: i32)
    ensures
        c < i32::MAX ==> r == c + 1,
        c == i32::MAX ==> r == c,
{
    if c == i32::MAX {
        c
    } else {
        c + 1
    }
}

} // verus!
