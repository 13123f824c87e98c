//! Sorting the outcomes of a run into the three reporting buckets.

use vstd::prelude::*;
use crate::outcome::{ImportResult, OutcomeKind};

verus! {

/// The outcomes of one kind, in the order in which the run produced them.
pub open spec fn of_kind(outcomes: Seq<ImportResult>, kind: OutcomeKind) -> Seq<ImportResult> {
    outcomes.filter(|o: ImportResult| o.spec_kind() == kind)
}

/// The outcomes of a run, one bucket for each kind.
#[derive(Clone, Debug, PartialEq, Eq)]
pub struct Classified {
    pub success: Vec<ImportResult>,
    pub invalid_url: Vec<ImportResult>,
    pub failed: Vec<ImportResult>,
}

impl Classified {
    /// Whether the buckets hold exactly the outcomes of `outcomes`, each under
    /// its kind and in the order of `outcomes`.
    pub open spec fn classifies(&self, outcomes: Seq<ImportResult>) -> bool {
        &&& self.success@ == of_kind(outcomes, OutcomeKind::Success)
        &&& self.invalid_url@ == of_kind(outcomes, OutcomeKind::InvalidUrl)
        &&& self.failed@ == of_kind(outcomes, OutcomeKind::Failed)
    }

    /// The number of outcomes in the three buckets together.
    pub open spec fn spec_total(&self) -> nat {
        self.success@.len() + self.invalid_url@.len() + self.failed@.len()
    }
}

/// Appending one outcome extends the bucket of its kind and no other.
pub proof fn of_kind_push(outcomes: Seq<ImportResult>, next: ImportResult, kind: OutcomeKind)
    ensures
        of_kind(outcomes.push(next), kind) == if next.spec_kind() == kind {
            of_kind(outcomes, kind).push(next)
        } else {
            of_kind(outcomes, kind)
        },
{
    reveal(Seq::filter);
    assert(outcomes.push(next).drop_last() =~= outcomes);
}

/// Every outcome falls into exactly one bucket: the three buckets together
/// are as long as the sequence that was classified.
pub proof fn buckets_partition(outcomes: Seq<ImportResult>)
    ensures
        of_kind(outcomes, OutcomeKind::Success).len() + of_kind(
            outcomes,
            OutcomeKind::InvalidUrl,
        ).len() + of_kind(outcomes, OutcomeKind::Failed).len() == outcomes.len(),
    decreases outcomes.len(),
{
    if outcomes.len() == 0 {
        reveal(Seq::filter);
    } else {
        let front = outcomes.drop_last();
        let last = outcomes.last();
        assert(front.push(last) =~= outcomes);
        buckets_partition(front);
        of_kind_push(front, last, OutcomeKind::Success);
        of_kind_push(front, last, OutcomeKind::InvalidUrl);
        of_kind_push(front, last, OutcomeKind::Failed);
    }
}

/// Classifying is a function of the outcomes alone: whatever classifies the
/// same sequence has the same buckets, with the same contents in the same
/// order, however often it is done.
pub proof fn classification_is_unique(outcomes: Seq<ImportResult>, a: Classified, b: Classified)
    requires
        a.classifies(outcomes),
        b.classifies(outcomes),
    ensures
        a.success@ == b.success@,
        a.invalid_url@ == b.invalid_url@,
        a.failed@ == b.failed@,
{
}

/// Classifying a bucket again changes nothing: all of it stays under its
/// kind, and the other two buckets are empty.
pub proof fn bucket_is_fixed_point(outcomes: Seq<ImportResult>, kind: OutcomeKind, other: OutcomeKind)
    ensures
        of_kind(of_kind(outcomes, kind), kind) == of_kind(outcomes, kind),
        other != kind ==> of_kind(of_kind(outcomes, kind), other) == Seq::<ImportResult>::empty(),
    decreases outcomes.len(),
{
    if outcomes.len() == 0 {
        reveal(Seq::filter);
    } else {
        let front = outcomes.drop_last();
        let last = outcomes.last();
        assert(front.push(last) =~= outcomes);
        bucket_is_fixed_point(front, kind, other);
        of_kind_push(front, last, kind);
        if last.spec_kind() == kind {
            of_kind_push(of_kind(front, kind), last, kind);
            of_kind_push(of_kind(front, kind), last, other);
        }
    }
}

/// Sorts the outcomes of a run into the three buckets. Each bucket keeps the
/// order in which its outcomes stand in `outcomes`.
pub fn classify(outcomes: &Vec<ImportResult>) -> (r: Classified)
    ensures
        r.classifies(outcomes@),
        r.spec_total() == outcomes@.len(),
{
    let mut success: Vec<ImportResult> = Vec::new();
    let mut invalid_url: Vec<ImportResult> = Vec::new();
    let mut failed: Vec<ImportResult> = Vec::new();
    proof {
        reveal(Seq::filter);
        assert(outcomes@.take(0) =~= Seq::<ImportResult>::empty());
    }
    let mut i: usize = 0;
    while i < outcomes.len()
        invariant
            i <= outcomes@.len(),
            success@ == of_kind(outcomes@.take(i as int), OutcomeKind::Success),
            invalid_url@ == of_kind(outcomes@.take(i as int), OutcomeKind::InvalidUrl),
            failed@ == of_kind(outcomes@.take(i as int), OutcomeKind::Failed),
        decreases outcomes@.len() - i,
    {
        let outcome = outcomes[i].duplicate();
        proof {
            let seen = outcomes@.take(i as int);
            assert(outcomes@.take(i + 1) =~= seen.push(outcome));
            of_kind_push(seen, outcome, OutcomeKind::Success);
            of_kind_push(seen, outcome, OutcomeKind::InvalidUrl);
            of_kind_push(seen, outcome, OutcomeKind::Failed);
        }
        match outcome.kind() {
            OutcomeKind::Success => success.push(outcome),
            OutcomeKind::InvalidUrl => invalid_url.push(outcome),
            OutcomeKind::Failed => failed.push(outcome),
        }
        i += 1;
    }
    proof {
        assert(outcomes@.take(i as int) =~= outcomes@);
        buckets_partition(outcomes@);
    }
    Classified { success, invalid_url, failed }
}

} // verus!
