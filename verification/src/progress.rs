//! Progress-reporting cadence and content. The reporter is advisory: it
//! reads the run counters and never touches them, so disabling it cannot
//! change what the filter keeps. Rendering is left to the caller; this
//! module decides when to act and what a status message must carry.

use vstd::prelude::*;

use crate::pipeline::RunCounters;

verus! {

/// What the reporter does after one forwarded record.
#[derive(Clone, Copy, PartialEq, Eq, Structural, Debug)]
pub enum ProgressAction {
    /// Nothing: reporting is disabled, or the record is off-cadence.
    Quiet,
    /// A lightweight "alive" tick, every 256th record seen.
    Tick,
    /// A tick plus a refresh of the status message, every 65536th record
    /// seen.
    Refresh,
}

/// The content of one status message: the counters at the refresh point.
#[derive(Clone, Copy, PartialEq, Eq, Structural, Debug)]
pub struct ProgressSnapshot {
    pub total_seen: usize,
    pub total_filtered: usize,
}

/// The cadence decision: quiet when disabled; a message refresh every
/// 65536th record seen; an alive tick every 256th; quiet otherwise. The
/// sub-sampling goes by the low bits of `total_seen`, that is by its
/// remainder at powers of two.
pub open spec fn spec_progress_action(enabled: bool, total_seen: usize) -> ProgressAction {
    if !enabled {
        ProgressAction::Quiet
    } else if total_seen % 65536 == 0 {
        ProgressAction::Refresh
    } else if total_seen % 256 == 0 {
        ProgressAction::Tick
    } else {
        ProgressAction::Quiet
    }
}

/// Masking the low eight (or sixteen) bits is the same test as divisibility
/// by 256 (or 65536).
pub proof fn lemma_low_bits_are_cadence(n: u64)
    ensures
        (n & 0xff == 0) <==> (n % 256 == 0),
        (n & 0xffff == 0) <==> (n % 65536 == 0),
{
    assert((n & 0xff == 0) <==> (n % 256 == 0)) by (bit_vector);
    assert((n & 0xffff == 0) <==> (n % 65536 == 0)) by (bit_vector);
}

/// Decides what the reporter does after one forwarded record, from the
/// counters alone; the counters are only read.
pub fn progress_action(enabled: bool, counters: &RunCounters) -> (a: ProgressAction)
    ensures
        a == spec_progress_action(enabled, counters.total_seen),
{
    if !enabled {
        ProgressAction::Quiet
    } else if counters.total_seen % 65536 == 0 {
        ProgressAction::Refresh
    } else if counters.total_seen % 256 == 0 {
        ProgressAction::Tick
    } else {
        ProgressAction::Quiet
    }
}

/// The snapshot a refreshed status message is built from: exactly the
/// counters as they stand, nothing recomputed.
pub fn snapshot(counters: &RunCounters) -> (s: ProgressSnapshot)
    ensures
        s.total_seen == counters.total_seen,
        s.total_filtered == counters.total_filtered,
{
    ProgressSnapshot { total_seen: counters.total_seen, total_filtered: counters.total_filtered }
}

} // verus!
