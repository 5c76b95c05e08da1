//! What the server does about scanning when it starts.
use vstd::prelude::*;

verus! {

/// The scan decision at start-up.
#[derive(Debug, PartialEq, Eq, Structural)]
pub enum StartupScan {
    /// The library has been scanned before: nothing to do.
    Skip,
    /// The library has never been scanned, but a scan holds the lock:
    /// report that the scanner is already running.
    AlreadyRunning,
    /// The library has never been scanned: start a scan.
    Start,
}

/// The scan decision at start-up, given how many scans are recorded
/// (0 when counting failed) and whether the scanner's lock is held.
pub fn startup_scan(recorded_scans: i64, locked: bool) -> (r: StartupScan)
    ensures
        recorded_scans != 0 ==> r == StartupScan::Skip,
        recorded_scans == 0 && locked ==> r == StartupScan::AlreadyRunning,
        recorded_scans == 0 && !locked ==> r == StartupScan::Start,
{
    if recorded_scans != 0 {
        StartupScan::Skip
    } else if locked {
        StartupScan::AlreadyRunning
    } else {
        StartupScan::Start
    }
}

} // verus!
