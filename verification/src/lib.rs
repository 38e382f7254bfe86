//! Streaming filter for binary alignment files: drops "doubly soft-clipped"
//! records with short template length, keeping the rest in their original
//! order. The decision logic, counters and progress cadence live here, fully
//! verified; file decoding and encoding are left to the caller.

use vstd::prelude::*;

pub mod model;
pub mod order;
pub mod pipeline;
pub mod predicate;
pub mod progress;

verus! {

/// The stage at which a pipeline run failed. Every failure is terminal:
/// the run aborts at the first error with no retry or resynchronisation.
#[derive(Clone, Copy, PartialEq, Eq, Structural, Debug)]
pub enum FilterError {
    InputOpenError,
    HeaderDecodeError,
    RecordDecodeError,
    OutputOpenError,
    HeaderEncodeError,
    RecordEncodeError,
}

} // verus!
