//! Tests of the clip predicate and the discard decision.

use squishy::model::{CigarOp, CigarOpKind, FilterConfig, RecordView};
use squishy::predicate::{discard, record_is_double_clipped};

fn op(kind: CigarOpKind, len: usize) -> CigarOp {
    CigarOp { kind, len }
}

fn rec(cigar: Vec<CigarOp>, template_length: i32) -> RecordView {
    RecordView { cigar, template_length, reference_sequence_id: None }
}

fn cfg(w: usize, t: i32) -> FilterConfig {
    FilterConfig::new(w, t).unwrap()
}

#[test]
fn empty_cigar_is_never_artifact() {
    let r = rec(vec![], 0);
    assert!(!record_is_double_clipped(&r, 1));
    assert!(!record_is_double_clipped(&r, 25));
}

#[test]
fn one_op_cigar_is_never_artifact() {
    let r = rec(vec![op(CigarOpKind::SoftClip, 100)], 0);
    assert!(!record_is_double_clipped(&r, 1));
}

#[test]
fn two_op_cigar_is_never_artifact() {
    let r = rec(
        vec![op(CigarOpKind::SoftClip, 100), op(CigarOpKind::SoftClip, 100)],
        0,
    );
    assert!(!record_is_double_clipped(&r, 1));
}

#[test]
fn doubly_clipped_three_op_cigar_is_artifact() {
    let r = rec(
        vec![
            op(CigarOpKind::SoftClip, 30),
            op(CigarOpKind::Match, 40),
            op(CigarOpKind::SoftClip, 30),
        ],
        0,
    );
    assert!(record_is_double_clipped(&r, 25));
}

#[test]
fn changing_either_endpoint_kind_defeats_the_pattern() {
    let start_not_clip = rec(
        vec![
            op(CigarOpKind::Match, 30),
            op(CigarOpKind::Match, 40),
            op(CigarOpKind::SoftClip, 30),
        ],
        0,
    );
    assert!(!record_is_double_clipped(&start_not_clip, 25));
    let end_not_clip = rec(
        vec![
            op(CigarOpKind::SoftClip, 30),
            op(CigarOpKind::Match, 40),
            op(CigarOpKind::HardClip, 30),
        ],
        0,
    );
    assert!(!record_is_double_clipped(&end_not_clip, 25));
}

#[test]
fn short_first_clip_defeats_the_pattern() {
    let r = rec(
        vec![
            op(CigarOpKind::SoftClip, 10),
            op(CigarOpKind::Match, 40),
            op(CigarOpKind::SoftClip, 30),
        ],
        0,
    );
    assert!(!record_is_double_clipped(&r, 25));
}

#[test]
fn clip_width_exactly_at_threshold_counts() {
    let r = rec(
        vec![
            op(CigarOpKind::SoftClip, 25),
            op(CigarOpKind::Match, 40),
            op(CigarOpKind::SoftClip, 25),
        ],
        0,
    );
    assert!(record_is_double_clipped(&r, 25));
    assert!(!record_is_double_clipped(&r, 26));
}

fn artifact_cigar() -> Vec<CigarOp> {
    vec![
        op(CigarOpKind::SoftClip, 30),
        op(CigarOpKind::Match, 40),
        op(CigarOpKind::SoftClip, 30),
    ]
}

#[test]
fn discard_needs_both_conjuncts() {
    let c = cfg(25, 50);
    // Artifact and short template: discarded.
    assert!(discard(&rec(artifact_cigar(), 10), &c));
    // Artifact but long template: retained.
    assert!(!discard(&rec(artifact_cigar(), 200), &c));
    // Short template but no artifact: retained.
    let plain = vec![op(CigarOpKind::Match, 100)];
    assert!(!discard(&rec(plain, 10), &c));
}

#[test]
fn template_length_boundary_is_inclusive() {
    let c = cfg(25, 50);
    assert!(discard(&rec(artifact_cigar(), 50), &c));
    assert!(!discard(&rec(artifact_cigar(), 51), &c));
}

#[test]
fn template_length_is_compared_by_absolute_value() {
    let c = cfg(25, 50);
    assert!(discard(&rec(artifact_cigar(), -50), &c));
    assert!(!discard(&rec(artifact_cigar(), -51), &c));
    assert!(!discard(&rec(artifact_cigar(), i32::MIN), &c));
    assert!(discard(&rec(artifact_cigar(), 0), &c));
}

#[test]
fn config_rejects_bad_thresholds() {
    assert!(FilterConfig::new(0, 50).is_none());
    assert!(FilterConfig::new(25, -1).is_none());
    let c = FilterConfig::new(25, 0).unwrap();
    assert_eq!(c.min_clip_width, 25);
    assert_eq!(c.max_template_length, 0);
}
