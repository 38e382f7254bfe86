//! The data the filter reads from one alignment record, held as plain values:
//! the CIGAR operation sequence, the signed template length and the optional
//! reference-sequence association. The codec that decodes records from disk
//! owns the full record; the caller hands this view to the filter.

use vstd::prelude::*;

verus! {

/// The kind of one CIGAR operation.
#[derive(Clone, Copy, PartialEq, Eq, Structural, Debug)]
pub enum CigarOpKind {
    Match,
    Insertion,
    Deletion,
    Skip,
    SoftClip,
    HardClip,
    Pad,
    SequenceMatch,
    SequenceMismatch,
}

/// One CIGAR operation: a kind and a non-negative span length.
#[derive(Clone, Copy, PartialEq, Eq, Structural, Debug)]
pub struct CigarOp {
    pub kind: CigarOpKind,
    pub len: usize,
}

/// What the filter reads from a decoded alignment record.
#[derive(Clone, PartialEq, Debug)]
pub struct RecordView {
    /// The ordered CIGAR operation sequence.
    pub cigar: Vec<CigarOp>,
    /// The signed inferred insert size of the paired fragment.
    pub template_length: i32,
    /// The index of the reference sequence this record aligns to, if any.
    pub reference_sequence_id: Option<usize>,
}

/// The two thresholds of one filter run, immutable once built.
#[derive(Clone, Copy, PartialEq, Eq, Structural, Debug)]
pub struct FilterConfig {
    /// The least soft-clip length that counts towards the artifact pattern.
    pub min_clip_width: usize,
    /// The largest absolute template length still eligible for discarding.
    pub max_template_length: i32,
}

impl FilterConfig {
    /// A configuration is well formed when the clip width is positive and the
    /// template-length bound is non-negative.
    pub open spec fn wf(self) -> bool {
        &&& self.min_clip_width > 0
        &&& self.max_template_length >= 0
    }

    /// Builds a configuration, rejecting a zero clip width or a negative
    /// template-length bound.
    pub fn new(min_clip_width: usize, max_template_length: i32) -> (r: Option<FilterConfig>)
        ensures
            r is Some <==> (min_clip_width > 0 && max_template_length >= 0),
            r matches Some(cfg) ==> cfg == (FilterConfig { min_clip_width, max_template_length })
                && cfg.wf(),
    {
        if min_clip_width > 0 && max_template_length >= 0 {
            Some(FilterConfig { min_clip_width, max_template_length })
        } else {
            None
        }
    }
}

} // verus!
