//! Laws about what a run retains: the output is a subsequence of the input
//! with exactly the discarded records removed, and filtering is idempotent,
//! so a second run over its own output changes nothing.

use vstd::prelude::*;

use crate::model::FilterConfig;
use crate::model::RecordView;
use crate::pipeline::retain_pred;
use crate::pipeline::spec_retained;
use crate::predicate::spec_discard;

verus! {

/// `a` stands inside `b` in order: `b` can be thinned to `a` by deleting
/// elements, with no reordering.
pub open spec fn is_subsequence_of<A>(a: Seq<A>, b: Seq<A>) -> bool
    decreases b.len(), a.len(),
{
    if a.len() == 0 {
        true
    } else if b.len() == 0 {
        false
    } else {
        ||| (a.last() == b.last() && is_subsequence_of(a.drop_last(), b.drop_last()))
        ||| is_subsequence_of(a, b.drop_last())
    }
}

/// What a filter keeps is a subsequence of what it was given.
pub proof fn lemma_filter_is_subsequence<A>(s: Seq<A>, pred: spec_fn(A) -> bool)
    ensures
        is_subsequence_of(s.filter(pred), s),
    decreases s.len(),
{
    reveal(Seq::filter);
    if s.len() > 0 {
        lemma_filter_is_subsequence(s.drop_last(), pred);
        if pred(s.last()) {
            assert(s.filter(pred).drop_last() =~= s.drop_last().filter(pred));
        }
    }
}

/// A filter whose predicate every element already passes returns its input
/// unchanged.
pub proof fn lemma_filter_of_passing_is_identity<A>(s: Seq<A>, pred: spec_fn(A) -> bool)
    requires
        forall|i: int| 0 <= i < s.len() ==> pred(#[trigger] s[i]),
    ensures
        s.filter(pred) == s,
    decreases s.len(),
{
    reveal(Seq::filter);
    if s.len() == 0 {
        assert(s.filter(pred) =~= s);
    } else {
        lemma_filter_of_passing_is_identity(s.drop_last(), pred);
        assert(s.filter(pred) =~= s);
    }
}

/// The retained records are a subsequence of the input: exactly the
/// discarded records are removed, every record the decision discards is
/// absent, every record it keeps is present, and none is reordered.
pub proof fn lemma_retained_is_ordered_subsequence(input: Seq<RecordView>, cfg: FilterConfig)
    ensures
        is_subsequence_of(spec_retained(input, cfg), input),
        forall|i: int|
            0 <= i < spec_retained(input, cfg).len() ==> !spec_discard(
                #[trigger] spec_retained(input, cfg)[i],
                cfg,
            ),
        forall|i: int|
            0 <= i < input.len() && !spec_discard(#[trigger] input[i], cfg) ==> spec_retained(
                input,
                cfg,
            ).contains(input[i]),
{
    lemma_filter_is_subsequence(input, retain_pred(cfg));
    assert forall|i: int| 0 <= i < spec_retained(input, cfg).len() implies !spec_discard(
        #[trigger] spec_retained(input, cfg)[i],
        cfg,
    ) by {
        input.lemma_filter_pred(retain_pred(cfg), i);
    }
    assert forall|i: int|
        0 <= i < input.len() && !spec_discard(#[trigger] input[i], cfg) implies spec_retained(
        input,
        cfg,
    ).contains(input[i]) by {
        input.lemma_filter_contains(retain_pred(cfg), i);
    }
}

/// Filtering is idempotent: a second run with the same configuration over
/// the records the first run retained retains them all, so repeating the
/// filter produces identical output.
pub proof fn lemma_retained_idempotent(input: Seq<RecordView>, cfg: FilterConfig)
    ensures
        spec_retained(spec_retained(input, cfg), cfg) == spec_retained(input, cfg),
{
    let kept = spec_retained(input, cfg);
    assert forall|i: int| 0 <= i < kept.len() implies retain_pred(cfg)(#[trigger] kept[i]) by {
        input.lemma_filter_pred(retain_pred(cfg), i);
    }
    lemma_filter_of_passing_is_identity(kept, retain_pred(cfg));
}

} // verus!
