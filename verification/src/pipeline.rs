//! The streaming filter pipeline: per-record processing with run counters,
//! and a whole-run model over a finite sequence of decode results. Retained
//! records keep their original relative order; the run stops at the first
//! decode failure.

use vstd::prelude::*;

use crate::model::{FilterConfig, RecordView};
use crate::predicate::{discard, spec_discard};
use crate::FilterError;

verus! {

/// The two counters of one run. Both only grow, one step per record.
#[derive(Clone, Copy, Debug)]
pub struct RunCounters {
    /// How many records were pulled from the decoder so far.
    pub total_seen: usize,
    /// How many of those were discarded.
    pub total_filtered: usize,
}

impl RunCounters {
    /// At no point can more records have been discarded than seen.
    pub open spec fn wf(self) -> bool {
        self.total_filtered <= self.total_seen
    }

    /// Fresh counters for a new run.
    pub fn new() -> (c: RunCounters)
        ensures
            c.total_seen == 0,
            c.total_filtered == 0,
            c.wf(),
    {
        RunCounters { total_seen: 0, total_filtered: 0 }
    }
}

/// What the pipeline did with one decoded record.
#[derive(Clone, Copy, PartialEq, Eq, Structural, Debug)]
pub enum StepAction {
    /// The record was forwarded to the encoder unmodified.
    Forwarded,
    /// The record matched the discard decision and was not forwarded.
    Discarded,
}

/// One item of the decoder's output: a decoded record, or a decode failure.
pub enum DecodeResult {
    Decoded(RecordView),
    Failed,
}

/// Processes one decoded record: counts it as seen, decides whether it is
/// discarded, and counts a discard. The caller forwards the record to the
/// encoder exactly when the action says so.
pub fn process_record(rec: &RecordView, cfg: &FilterConfig, counters: &mut RunCounters) -> (action:
    StepAction)
    requires
        old(counters).wf(),
        old(counters).total_seen < usize::MAX,
    ensures
        final(counters).total_seen == old(counters).total_seen + 1,
        (action is Discarded) == spec_discard(*rec, *cfg),
        action is Discarded ==> final(counters).total_filtered == old(
            counters,
        ).total_filtered + 1,
        action is Forwarded ==> final(counters).total_filtered == old(counters).total_filtered,
        final(counters).wf(),
{
    counters.total_seen = counters.total_seen + 1;
    if discard(rec, cfg) {
        counters.total_filtered = counters.total_filtered + 1;
        StepAction::Discarded
    } else {
        StepAction::Forwarded
    }
}

/// How many items stand before the first decode failure; the whole length
/// when every item decoded.
pub open spec fn clean_prefix_len(items: Seq<DecodeResult>) -> int
    decreases items.len(),
{
    if items.len() == 0 {
        0
    } else if items[0] is Failed {
        0
    } else {
        1 + clean_prefix_len(items.drop_first())
    }
}

/// The records decoded before the first failure, in input order.
pub open spec fn prefix_records(items: Seq<DecodeResult>, k: int) -> Seq<RecordView> {
    items.take(k).map_values(|d: DecodeResult| d->Decoded_0)
}

/// The predicate a run keeps records by: not discarded under `cfg`.
pub open spec fn retain_pred(cfg: FilterConfig) -> spec_fn(RecordView) -> bool {
    |r: RecordView| !spec_discard(r, cfg)
}

/// The records a run retains from `input`: those not discarded, in input
/// order.
pub open spec fn spec_retained(input: Seq<RecordView>, cfg: FilterConfig) -> Seq<RecordView> {
    input.filter(retain_pred(cfg))
}

/// The outcome of one whole run: the retained records in order, the final
/// counters, and the terminal error, if the run failed.
pub struct PipelineOutcome {
    pub retained: Vec<RecordView>,
    pub counters: RunCounters,
    pub error: Option<FilterError>,
}

/// `clean_prefix_len` is exactly the position of the first failure, or the
/// length when there is none.
pub proof fn lemma_clean_prefix_len_at(items: Seq<DecodeResult>, i: int)
    requires
        0 <= i <= items.len(),
        forall|j: int| 0 <= j < i ==> !((#[trigger] items[j]) is Failed),
        i == items.len() || items[i] is Failed,
    ensures
        clean_prefix_len(items) == i,
    decreases i,
{
    if i == 0 {
    } else {
        assert(!(items[0] is Failed));
        lemma_clean_prefix_len_at(items.drop_first(), i - 1);
    }
}

/// Filtering a sequence extended by one element keeps the old result and
/// appends the element exactly when it passes the predicate.
pub proof fn lemma_filter_push<A>(s: Seq<A>, x: A, pred: spec_fn(A) -> bool)
    ensures
        s.push(x).filter(pred) == (if pred(x) {
            s.filter(pred).push(x)
        } else {
            s.filter(pred)
        }),
{
    reveal(Seq::filter);
    assert(s.push(x).drop_last() =~= s);
    assert(s.push(x).last() == x);
}

/// Runs the whole filter over a finite sequence of decode results, the
/// verified model of one complete pipeline run: every record before the
/// first decode failure is counted as seen, the discarded ones are counted
/// and dropped, the rest are retained in input order, and a decode failure
/// ends the run at once with a record-decode error.
pub fn run_pipeline(items: Vec<DecodeResult>, cfg: &FilterConfig) -> (out: PipelineOutcome)
    ensures
        ({
            let k = clean_prefix_len(items@);
            &&& out.counters.total_seen == k
            &&& out.retained@ == spec_retained(prefix_records(items@, k), *cfg)
            &&& out.counters.total_filtered == k - out.retained@.len()
            &&& out.counters.wf()
            &&& (out.error is Some <==> k < items@.len())
            &&& (out.error matches Some(e) ==> e is RecordDecodeError)
        }),
{
    let ghost orig = items@;
    let n = items.len();
    let mut rest = items;
    let mut stack: Vec<DecodeResult> = Vec::new();
    while rest.len() > 0
        invariant
            rest@.len() + stack@.len() == n,
            rest@ == orig.take(rest@.len() as int),
            forall|j: int| 0 <= j < stack@.len() ==> stack@[j] == orig[n - 1 - j],
            n == orig.len(),
        decreases rest.len(),
    {
        let ghost m = rest@.len() as int;
        let d = rest.pop().unwrap();
        proof {
            assert(rest@ =~= orig.take(m - 1));
        }
        stack.push(d);
    }
    let mut retained: Vec<RecordView> = Vec::new();
    let mut counters = RunCounters::new();
    let mut i: usize = 0;
    while i < n
        invariant
            orig == items@,
            i <= n,
            n == orig.len(),
            stack@.len() == n - i,
            forall|j: int| 0 <= j < stack@.len() ==> stack@[j] == orig[n - 1 - j],
            forall|j: int| 0 <= j < i ==> !((#[trigger] orig[j]) is Failed),
            counters.total_seen == i,
            counters.total_filtered == i - retained@.len(),
            retained@ == spec_retained(prefix_records(orig, i as int), *cfg),
            counters.wf(),
        decreases n - i,
    {
        let item = stack.pop().unwrap();
        proof {
            assert(item == orig[i as int]);
        }
        match item {
            DecodeResult::Failed => {
                proof {
                    lemma_clean_prefix_len_at(orig, i as int);
                }
                return PipelineOutcome {
                    retained,
                    counters,
                    error: Some(FilterError::RecordDecodeError),
                };
            },
            DecodeResult::Decoded(rec) => {
                proof {
                    assert(prefix_records(orig, i + 1) =~= prefix_records(orig, i as int).push(
                        rec,
                    ));
                    lemma_filter_push(prefix_records(orig, i as int), rec, retain_pred(*cfg));
                }
                let action = process_record(&rec, cfg, &mut counters);
                match action {
                    StepAction::Forwarded => {
                        retained.push(rec);
                    },
                    StepAction::Discarded => {},
                }
            },
        }
        i = i + 1;
    }
    proof {
        lemma_clean_prefix_len_at(orig, n as int);
    }
    PipelineOutcome { retained, counters, error: None }
}

} // verus!
