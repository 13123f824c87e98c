//! Putting the outcomes of a run back into the order of its records.
//!
//! The records of a run are worked on at the same time, and their calls end
//! in any order. Each outcome comes back with the position of its record,
//! and `order_outcomes` gives the outcomes in the order of the records.

use vstd::prelude::*;
use vstd::set_lib::{lemma_int_range, lemma_subset_equality, set_int_range};
use crate::article::Article;
use crate::outcome::ImportResult;

verus! {

/// The outcome of the record at one position of the input.
#[derive(Clone, Debug, PartialEq, Eq)]
pub struct Completed {
    pub position: usize,
    pub outcome: ImportResult,
}

/// Whether `completed` holds the outcomes of one run over `articles`: one
/// outcome for every record, none for a position twice, and each with the
/// URL of its record.
pub open spec fn complete_run(articles: Seq<Article>, completed: Seq<Completed>) -> bool {
    &&& completed.len() == articles.len()
    &&& forall|k: int|
        0 <= k < completed.len() ==> {
            &&& (#[trigger] completed[k]).position < articles.len()
            &&& completed[k].outcome.url@ == articles[completed[k].position as int].url@
        }
    &&& forall|j: int, k: int|
        0 <= j < k < completed.len() ==> (#[trigger] completed[j]).position != (
        #[trigger] completed[k]).position
}

/// Whether `outcomes` holds the outcomes of a run in the order of its
/// records: one for each record, each with the URL of the record at its
/// position, and at every position the outcome that was completed for it.
pub open spec fn in_input_order(
    articles: Seq<Article>,
    completed: Seq<Completed>,
    outcomes: Seq<ImportResult>,
) -> bool {
    &&& outcomes.len() == articles.len()
    &&& forall|i: int| 0 <= i < outcomes.len() ==> (#[trigger] outcomes[i]).url@ == articles[i].url@
    &&& forall|k: int|
        0 <= k < completed.len() ==> outcomes[(#[trigger] completed[k]).position as int]
            == completed[k].outcome
}

/// In a complete run every record has its outcome.
pub proof fn every_record_is_completed(articles: Seq<Article>, completed: Seq<Completed>, i: int)
    requires
        complete_run(articles, completed),
        0 <= i < articles.len(),
    ensures
        exists|k: int| 0 <= k < completed.len() && (#[trigger] completed[k]).position == i,
{
    let n = articles.len() as int;
    let positions = Seq::new(completed.len(), |k: int| completed[k].position as int);
    assert(positions.no_duplicates()) by {
        assert forall|a: int, b: int|
            0 <= a < positions.len() && 0 <= b < positions.len() && a != b implies positions[a]
            != positions[b] by {
            if a < b {
                assert(completed[a].position != completed[b].position);
            } else {
                assert(completed[b].position != completed[a].position);
            }
        }
    }
    positions.unique_seq_to_set();
    lemma_int_range(0, n);
    assert(positions.to_set().subset_of(set_int_range(0, n))) by {
        assert forall|p: int| positions.to_set().contains(p) implies set_int_range(0, n).contains(
            p,
        ) by {
            let k = choose|k: int| 0 <= k < positions.len() && positions[k] == p;
            assert(completed[k].position < articles.len());
        }
    }
    vstd::seq_lib::seq_to_set_is_finite(positions);
    lemma_subset_equality(positions.to_set(), set_int_range(0, n));
    assert(set_int_range(0, n).contains(i));
    assert(positions.contains(i));
    let k = choose|k: int| 0 <= k < positions.len() && positions[k] == i;
    assert(completed[k].position == i);
}

/// The order of the outcomes of a complete run is determined by the run:
/// two sequences that hold its outcomes in the order of the records are
/// the same sequence.
pub proof fn input_order_is_unique(
    articles: Seq<Article>,
    completed: Seq<Completed>,
    a: Seq<ImportResult>,
    b: Seq<ImportResult>,
)
    requires
        complete_run(articles, completed),
        in_input_order(articles, completed, a),
        in_input_order(articles, completed, b),
    ensures
        a == b,
{
    assert forall|i: int| 0 <= i < a.len() implies a[i] == b[i] by {
        every_record_is_completed(articles, completed, i);
        let k = choose|k: int| 0 <= k < completed.len() && (#[trigger] completed[k]).position == i;
        assert(a[completed[k].position as int] == completed[k].outcome);
        assert(b[completed[k].position as int] == completed[k].outcome);
    }
    assert(a =~= b);
}

/// The number of slots that are filled.
spec fn filled(slots: Seq<Option<ImportResult>>) -> nat
    decreases slots.len(),
{
    if slots.len() == 0 {
        0
    } else {
        filled(slots.drop_last()) + if slots.last() is Some {
            1nat
        } else {
            0nat
        }
    }
}

proof fn filled_bound(slots: Seq<Option<ImportResult>>)
    ensures
        filled(slots) <= slots.len(),
        filled(slots) == slots.len() ==> forall|i: int| 0 <= i < slots.len() ==> slots[i] is Some,
        (forall|i: int| 0 <= i < slots.len() ==> slots[i] is None) ==> filled(slots) == 0,
    decreases slots.len(),
{
    if slots.len() > 0 {
        filled_bound(slots.drop_last());
        assert(forall|i: int|
            0 <= i < slots.len() - 1 ==> slots.drop_last()[i] == slots[i]);
    }
}

proof fn filled_grows(slots: Seq<Option<ImportResult>>, at: int, outcome: ImportResult)
    requires
        0 <= at < slots.len(),
        slots[at] is None,
    ensures
        filled(slots.update(at, Some(outcome))) == filled(slots) + 1,
    decreases slots.len(),
{
    let after = slots.update(at, Some(outcome));
    if at == slots.len() - 1 {
        assert(after.drop_last() =~= slots.drop_last());
    } else {
        filled_grows(slots.drop_last(), at, outcome);
        assert(after.drop_last() =~= slots.drop_last().update(at, Some(outcome)));
    }
}

/// How many records are worked on at the same time: all of them where no
/// limit is set, and else as many as the limit allows, but always one.
pub open spec fn spec_worker_count(limit: Option<usize>, records: usize) -> usize {
    match limit {
        Some(l) => if l == 0 {
            1
        } else {
            l
        },
        None => if records == 0 {
            1
        } else {
            records
        },
    }
}

/// How many records are worked on at the same time.
#[verifier::when_used_as_spec(spec_worker_count)]
pub fn worker_count(limit: Option<usize>, records: usize) -> (r: usize)
    ensures
        r == spec_worker_count(limit, records),
        r >= 1,
{
    match limit {
        Some(l) => if l == 0 {
            1
        } else {
            l
        },
        None => if records == 0 {
            1
        } else {
            records
        },
    }
}

/// Gives the outcomes of a run in the order of its records, whatever the
/// order in which they were completed: the result has one outcome for each
/// record, and the outcome at a position is the one that was completed for
/// that position. `None` where `completed` does not hold the outcomes of
/// one run over `articles`.
pub fn order_outcomes(articles: &Vec<Article>, completed: &Vec<Completed>) -> (r: Option<
    Vec<ImportResult>,
>)
    ensures
        r is Some <==> complete_run(articles@, completed@),
        r matches Some(outcomes) ==> in_input_order(articles@, completed@, outcomes@),
{
    let n = articles.len();
    if completed.len() != n {
        return None;
    }
    let mut slots: Vec<Option<ImportResult>> = Vec::new();
    let mut i: usize = 0;
    while i < n
        invariant
            i <= n,
            slots@.len() == i,
            forall|j: int| 0 <= j < i ==> slots@[j] is None,
        decreases n - i,
    {
        slots.push(None);
        i += 1;
    }
    let ghost mut owner: Seq<int> = Seq::new(n as nat, |i: int| -1);
    proof {
        filled_bound(slots@);
    }
    let mut k: usize = 0;
    while k < n
        invariant
            k <= n,
            n == articles@.len(),
            n == completed@.len(),
            slots@.len() == n,
            owner.len() == n,
            filled(slots@) == k,
            forall|i: int|
                0 <= i < n ==> if (#[trigger] owner[i]) == -1 {
                    slots@[i] is None
                } else {
                    &&& 0 <= owner[i] < k
                    &&& completed@[owner[i]].position == i
                    &&& slots@[i] == Some(completed@[owner[i]].outcome)
                },
            forall|j: int|
                0 <= j < k ==> {
                    &&& (#[trigger] completed@[j]).position < n
                    &&& completed@[j].outcome.url@ == articles@[completed@[j].position as int].url@
                    &&& owner[completed@[j].position as int] == j
                },
        decreases n - k,
    {
        let position = completed[k].position;
        if position >= n {
            return None;
        }
        if completed[k].outcome.url != articles[position].url {
            return None;
        }
        if slots[position].is_some() {
            proof {
                let j = owner[position as int];
                assert(completed@[j].position == completed@[k as int].position);
            }
            return None;
        }
        let outcome = completed[k].outcome.duplicate();
        proof {
            filled_grows(slots@, position as int, outcome);
            owner = owner.update(position as int, k as int);
        }
        slots.set(position, Some(outcome));
        k += 1;
    }
    proof {
        filled_bound(slots@);
        assert forall|a: int, b: int| 0 <= a < b < completed@.len() implies (
        #[trigger] completed@[a]).position != (#[trigger] completed@[b]).position by {
            assert(owner[completed@[a].position as int] == a);
            assert(owner[completed@[b].position as int] == b);
        }
    }
    let mut outcomes: Vec<ImportResult> = Vec::new();
    let mut i: usize = 0;
    while i < n
        invariant
            i <= n,
            slots@.len() == n,
            outcomes@.len() == i,
            forall|j: int| 0 <= j < n ==> slots@[j] is Some,
            forall|j: int| 0 <= j < i ==> slots@[j] == Some(#[trigger] outcomes@[j]),
        decreases n - i,
    {
        match &slots[i] {
            Some(outcome) => {
                outcomes.push(outcome.duplicate());
            },
            None => {
                assert(false);
            },
        }
        i += 1;
    }
    proof {
        assert forall|i: int| 0 <= i < outcomes@.len() implies (#[trigger] outcomes@[i]).url@
            == articles@[i].url@ by {
            assert(owner[i] != -1);
            assert(completed@[owner[i]].position == i);
        }
        assert forall|k: int| 0 <= k < completed@.len() implies outcomes@[(
        #[trigger] completed@[k]).position as int] == completed@[k].outcome by {
            let p = completed@[k].position as int;
            assert(owner[p] == k);
            assert(slots@[p] == Some(outcomes@[p]));
        }
    }
    Some(outcomes)
}

} // verus!
