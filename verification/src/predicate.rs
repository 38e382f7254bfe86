//! The clip predicate: decides whether one record matches the doubly
//! soft-clipped artifact pattern, and whether it is discarded under a given
//! configuration.

use vstd::prelude::*;

use crate::model::{CigarOp, CigarOpKind, FilterConfig, RecordView};

verus! {

/// A CIGAR operation sequence matches the artifact pattern under clip width
/// `w` when it has at least three operations and both endpoint operations are
/// soft clips of length at least `w`.
pub open spec fn spec_is_artifact(cigar: Seq<CigarOp>, w: usize) -> bool {
    &&& cigar.len() >= 3
    &&& cigar[0].kind is SoftClip
    &&& cigar[cigar.len() - 1].kind is SoftClip
    &&& cigar[0].len >= w
    &&& cigar[cigar.len() - 1].len >= w
}

/// The absolute value of a template length, as a mathematical integer.
pub open spec fn spec_template_abs(template_length: i32) -> int {
    if template_length < 0 {
        -(template_length as int)
    } else {
        template_length as int
    }
}

/// A record is discarded when it matches the artifact pattern and its
/// absolute template length is within the configured bound (inclusively).
pub open spec fn spec_discard(rec: RecordView, cfg: FilterConfig) -> bool {
    &&& spec_is_artifact(rec.cigar@, cfg.min_clip_width)
    &&& spec_template_abs(rec.template_length) <= cfg.max_template_length
}

/// Decides whether the record's CIGAR matches the doubly soft-clipped
/// artifact pattern at clip width `w`.
pub fn record_is_double_clipped(rec: &RecordView, w: usize) -> (b: bool)
    ensures
        b == spec_is_artifact(rec.cigar@, w),
{
    let n = rec.cigar.len();
    if n < 3 {
        return false;
    }
    let fst = rec.cigar[0];
    let lst = rec.cigar[n - 1];
    match (fst.kind, lst.kind) {
        (CigarOpKind::SoftClip, CigarOpKind::SoftClip) => fst.len >= w && lst.len >= w,
        _ => false,
    }
}

/// Decides whether the record is discarded under the configuration: it must
/// both match the artifact pattern and have an absolute template length no
/// greater than the configured bound.
pub fn discard(rec: &RecordView, cfg: &FilterConfig) -> (d: bool)
    ensures
        d == spec_discard(*rec, *cfg),
{
    if !record_is_double_clipped(rec, cfg.min_clip_width) {
        return false;
    }
    let tl: i64 = rec.template_length as i64;
    let abs_tl: i64 = if tl < 0 { -tl } else { tl };
    abs_tl <= cfg.max_template_length as i64
}

/// A CIGAR sequence of fewer than three operations never matches the
/// artifact pattern, whatever its operation kinds and lengths.
pub proof fn lemma_short_cigar_never_artifact(cigar: Seq<CigarOp>, w: usize)
    requires
        cigar.len() < 3,
    ensures
        !spec_is_artifact(cigar, w),
{
}

/// A CIGAR sequence of at least three operations whose two endpoints are
/// soft clips of length at least `w` matches the artifact pattern; and
/// replacing either endpoint by an operation of any other kind makes the
/// pattern fail.
pub proof fn lemma_endpoints_decide_artifact(cigar: Seq<CigarOp>, w: usize, other: CigarOp)
    requires
        cigar.len() >= 3,
        cigar[0].kind is SoftClip,
        cigar[cigar.len() - 1].kind is SoftClip,
        cigar[0].len >= w,
        cigar[cigar.len() - 1].len >= w,
        !(other.kind is SoftClip),
    ensures
        spec_is_artifact(cigar, w),
        !spec_is_artifact(cigar.update(0, other), w),
        !spec_is_artifact(cigar.update(cigar.len() - 1, other), w),
{
}

/// A record is discarded exactly when it matches the artifact pattern and
/// its absolute template length is at most the configured bound; a template
/// length equal to the bound is still eligible.
pub proof fn lemma_discard_characterisation(rec: RecordView, cfg: FilterConfig)
    requires
        cfg.wf(),
    ensures
        spec_discard(rec, cfg) <==> (spec_is_artifact(rec.cigar@, cfg.min_clip_width)
            && spec_template_abs(rec.template_length) <= cfg.max_template_length),
        rec.template_length == cfg.max_template_length
            ==> (spec_discard(rec, cfg) <==> spec_is_artifact(rec.cigar@, cfg.min_clip_width)),
{
}

} // verus!
