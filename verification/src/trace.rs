//! What holds of every run of a record through its steps.
//!
//! A run is the sequence of events that are reported for one record, from
//! the moment it is taken up. The actions of a run are those that its steps
//! ask for, in their order; a step that ignores its event asks for none.

use vstd::prelude::*;
use crate::article::Article;
use crate::pipeline::{step, ActionView, Event, StageView};

verus! {

/// The stage that a record is in after the events of a run, and the actions
/// that were asked for on the way. `ids` gives, for each step, the request
/// id to use if that step sends the save mutation.
pub open spec fn run(article: Article, events: Seq<Event>, ids: spec_fn(int) -> Seq<char>) -> (
    StageView,
    Seq<ActionView>,
)
    decreases events.len(),
{
    if events.len() == 0 {
        (StageView::Pending, Seq::<ActionView>::empty())
    } else {
        let (stage, actions) = run(article, events.drop_last(), ids);
        let (next, action) = step(article, stage, events.last(), ids(events.len() - 1));
        (
            next,
            if action is Ignore {
                actions
            } else {
                actions.push(action)
            },
        )
    }
}

/// Whether the actions are those of a record that has come to `stage`:
/// the check of the URL first, then the save, then the archive mutation
/// where the record asks for it, and the outcome last.
pub open spec fn actions_fit(article: Article, stage: StageView, actions: Seq<ActionView>) -> bool {
    let checked = actions.len() >= 1 && actions[0] is Validate;
    let saved = checked && actions.len() >= 2 && actions[1] is Save;
    let archived = saved && actions.len() >= 3 && actions[2] is Archive && article.needs_archive();
    match stage {
        StageView::Pending => actions.len() == 0,
        StageView::Validating => checked && actions.len() == 1,
        StageView::Saving => saved && actions.len() == 2,
        StageView::Archiving { remote_id } => archived && actions.len() == 3,
        StageView::InvalidUrl => {
            &&& checked
            &&& actions.len() == 2
            &&& actions[1] matches ActionView::Emit { outcome }
            &&& !outcome.successful
            &&& outcome.is_invalid_url
        },
        StageView::Failed => {
            &&& saved
            &&& actions.len() == 3 || (archived && actions.len() == 4)
            &&& actions.last() matches ActionView::Emit { outcome }
            &&& !outcome.successful
            &&& !outcome.is_invalid_url
        },
        StageView::Success => {
            &&& saved
            &&& if article.needs_archive() {
                archived && actions.len() == 4
            } else {
                actions.len() == 3
            }
            &&& actions.last() matches ActionView::Emit { outcome }
            &&& outcome.successful
            &&& !outcome.is_invalid_url
        },
    }
}

/// Every run has the actions that fit the stage it has come to.
pub proof fn run_fits(article: Article, events: Seq<Event>, ids: spec_fn(int) -> Seq<char>)
    ensures
        actions_fit(article, run(article, events, ids).0, run(article, events, ids).1),
    decreases events.len(),
{
    if events.len() > 0 {
        run_fits(article, events.drop_last(), ids);
    }
}

/// A run has one outcome at most, and has it exactly when the record is
/// done; the outcome is the last action of the run and is for the record's
/// URL.
pub proof fn one_outcome_for_each_record(
    article: Article,
    events: Seq<Event>,
    ids: spec_fn(int) -> Seq<char>,
)
    ensures
        ({
            let (stage, actions) = run(article, events, ids);
            &&& forall|i: int|
                0 <= i < actions.len() && (#[trigger] actions[i]) is Emit ==> stage.terminal() && i
                    == actions.len() - 1
            &&& stage.terminal() ==> actions.len() > 0 && actions.last() is Emit
            &&& actions.len() <= 4
        }),
{
    run_fits(article, events, ids);
}

/// A record that ends with an invalid URL was never sent to the remote
/// service: its run asks for no save and for no archive mutation.
pub proof fn invalid_url_is_never_saved(
    article: Article,
    events: Seq<Event>,
    ids: spec_fn(int) -> Seq<char>,
)
    requires
        run(article, events, ids).0 is InvalidUrl,
    ensures
        forall|i: int|
            0 <= i < run(article, events, ids).1.len() ==> {
                &&& !((#[trigger] run(article, events, ids).1[i]) is Save)
                &&& !(run(article, events, ids).1[i] is Archive)
            },
{
    run_fits(article, events, ids);
}

/// A record that ends as failed or as a success was sent to the remote
/// service: its run asks for the save mutation, once.
pub proof fn finished_record_was_saved(
    article: Article,
    events: Seq<Event>,
    ids: spec_fn(int) -> Seq<char>,
)
    requires
        run(article, events, ids).0 is Failed || run(article, events, ids).0 is Success,
    ensures
        ({
            let actions = run(article, events, ids).1;
            forall|i: int| 0 <= i < actions.len() ==> ((#[trigger] actions[i]) is Save <==> i == 1)
        }),
        run(article, events, ids).1.len() >= 2,
{
    run_fits(article, events, ids);
}

/// A record ends as a success only after the archive mutation, where its
/// location asks for that, and without it where it does not.
pub proof fn success_follows_archive(
    article: Article,
    events: Seq<Event>,
    ids: spec_fn(int) -> Seq<char>,
)
    requires
        run(article, events, ids).0 is Success,
    ensures
        ({
            let actions = run(article, events, ids).1;
            article.needs_archive() <==> exists|i: int|
                0 <= i < actions.len() && (#[trigger] actions[i]) is Archive
        }),
{
    run_fits(article, events, ids);
    let actions = run(article, events, ids).1;
    if article.needs_archive() {
        assert(actions[2] is Archive);
    }
}

} // verus!
