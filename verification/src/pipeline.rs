//! The steps that one record takes through the import.
//!
//! A record starts as `Pending`, has its URL checked, is saved, is archived
//! where its location asks for that, and ends in one of three terminal
//! stages. `advance` decides each step from the stage and from what
//! happened; the calls themselves are made by its caller.

use vstd::prelude::*;
use crate::article::Article;
use crate::outcome::{
    failed_outcome, invalid_url_outcome, success_outcome, ErrorKind, ImportResult,
    ImportResultView,
};
use crate::reply::{judge_reply, judged, CallReply, Operation, Verdict};
use crate::request::{
    create_archive_input, create_input_with_id, fresh_request_id, is_request_id, save_input_of,
    ArchiveInput, SaveInput, SaveInputView,
};
use crate::validator::{check_valid_url, validation_of, Validation, ValidationView};

verus! {

/// Where a record stands.
#[derive(Clone, Debug, PartialEq, Eq)]
pub enum Stage {
    /// Nothing was done yet.
    Pending,
    /// The URL is being checked.
    Validating,
    /// The save mutation is under way.
    Saving,
    /// The record was saved under `remote_id`; the archive mutation is under way.
    Archiving { remote_id: String },
    /// Terminal: saved, and archived where that was asked for.
    Success,
    /// Terminal: the URL could not be reached.
    InvalidUrl,
    /// Terminal: a call to the remote service did not succeed.
    Failed,
}

/// What happened since the last step.
#[derive(Clone, Debug, PartialEq, Eq)]
pub enum Event {
    /// The record was taken up.
    Started,
    /// The fetch of the URL ended.
    Validated(CallReply),
    /// The save mutation ended.
    Saved(CallReply),
    /// The archive mutation ended.
    Archived(CallReply),
}

/// What the caller has to do next.
#[derive(Clone, Debug, PartialEq, Eq)]
pub enum Action {
    /// Fetch the URL and report `Event::Validated`.
    Validate { url: String },
    /// Send the save mutation and report `Event::Saved`.
    Save { input: SaveInput },
    /// Send the archive mutation and report `Event::Archived`.
    Archive { request: ArchiveInput },
    /// The record is done: this is its outcome.
    Emit { outcome: ImportResult },
    /// The event does not belong to the stage; nothing is to be done.
    Ignore,
}

/// The values of a `Stage`.
pub enum StageView {
    Pending,
    Validating,
    Saving,
    Archiving { remote_id: Seq<char> },
    Success,
    InvalidUrl,
    Failed,
}

/// The values of an `Action`.
pub enum ActionView {
    Validate { url: Seq<char> },
    Save { input: SaveInputView },
    Archive { link_id: Seq<char>, archived: bool },
    Emit { outcome: ImportResultView },
    Ignore,
}

impl View for Stage {
    type V = StageView;

    open spec fn view(&self) -> StageView {
        match *self {
            Stage::Pending => StageView::Pending,
            Stage::Validating => StageView::Validating,
            Stage::Saving => StageView::Saving,
            Stage::Archiving { remote_id } => StageView::Archiving { remote_id: remote_id@ },
            Stage::Success => StageView::Success,
            Stage::InvalidUrl => StageView::InvalidUrl,
            Stage::Failed => StageView::Failed,
        }
    }
}

impl View for Action {
    type V = ActionView;

    open spec fn view(&self) -> ActionView {
        match *self {
            Action::Validate { url } => ActionView::Validate { url: url@ },
            Action::Save { input } => ActionView::Save { input: input@ },
            Action::Archive { request } => ActionView::Archive {
                link_id: request.link_id@,
                archived: request.archived,
            },
            Action::Emit { outcome } => ActionView::Emit { outcome: outcome@ },
            Action::Ignore => ActionView::Ignore,
        }
    }
}

impl StageView {
    /// Whether the record is done.
    pub open spec fn terminal(self) -> bool {
        self is Success || self is InvalidUrl || self is Failed
    }

    /// How far the record has come: the number of steps behind it, with
    /// every terminal stage counted as the last.
    pub open spec fn rank(self) -> nat {
        match self {
            StageView::Pending => 0,
            StageView::Validating => 1,
            StageView::Saving => 2,
            StageView::Archiving { remote_id } => 3,
            _ => 4,
        }
    }

    /// Whether `event` is the one that a record in this stage waits for.
    pub open spec fn awaits(self, event: Event) -> bool {
        match self {
            StageView::Pending => event is Started,
            StageView::Validating => event is Validated,
            StageView::Saving => event is Saved,
            StageView::Archiving { remote_id } => event is Archived,
            _ => false,
        }
    }
}

/// The detail of a record that has to be archived and was saved by a
/// response that holds no identifier.
pub open spec fn missing_identifier_detail(url: Seq<char>) -> Seq<char> {
    "Error occurred during the archiving of the URL "@ + url
        + ": the response to the save holds no identifier"@
}

/// The step after the fetch of the URL: on to the save for a page that was
/// reached, and else the end, with nothing sent to the remote service.
pub open spec fn after_validation(article: Article, reply: CallReply, id: Seq<char>) -> (
    StageView,
    ActionView,
) {
    match validation_of(article.url@, reply) {
        ValidationView::Reachable => (
            StageView::Saving,
            ActionView::Save { input: save_input_of(article, id) },
        ),
        ValidationView::Unreachable { status } => (
            StageView::InvalidUrl,
            ActionView::Emit {
                outcome: invalid_url_outcome(article.url@, ErrorKind::InvalidUrl, None),
            },
        ),
        ValidationView::ValidationError { detail } => (
            StageView::InvalidUrl,
            ActionView::Emit {
                outcome: invalid_url_outcome(article.url@, ErrorKind::Validation, Some(detail)),
            },
        ),
    }
}

/// The step after the save: a rejected save fails the record; an accepted
/// one ends it in success, unless the record has to be archived, which takes
/// the identifier that the response holds.
pub open spec fn after_save(article: Article, reply: CallReply) -> (StageView, ActionView) {
    match judged(Operation::Save, article.url@, reply) {
        Verdict::Rejected { kind, detail } => (
            StageView::Failed,
            ActionView::Emit { outcome: failed_outcome(article.url@, kind, detail) },
        ),
        Verdict::Accepted { identifier } => if !article.needs_archive() {
            (
                StageView::Success,
                ActionView::Emit { outcome: success_outcome(article.url@, identifier) },
            )
        } else {
            match identifier {
                Some(remote_id) => (
                    StageView::Archiving { remote_id },
                    ActionView::Archive { link_id: remote_id, archived: true },
                ),
                None => (
                    StageView::Failed,
                    ActionView::Emit {
                        outcome: failed_outcome(
                            article.url@,
                            ErrorKind::RemoteApplication,
                            missing_identifier_detail(article.url@),
                        ),
                    },
                ),
            }
        },
    }
}

/// The step after the archive mutation: success where it was accepted; a
/// rejected one fails the record, although it was saved.
pub open spec fn after_archive(article: Article, remote_id: Seq<char>, reply: CallReply) -> (
    StageView,
    ActionView,
) {
    match judged(Operation::Archive, article.url@, reply) {
        Verdict::Rejected { kind, detail } => (
            StageView::Failed,
            ActionView::Emit { outcome: failed_outcome(article.url@, kind, detail) },
        ),
        Verdict::Accepted { identifier } => (
            StageView::Success,
            ActionView::Emit { outcome: success_outcome(article.url@, Some(remote_id)) },
        ),
    }
}

/// One step of a record: the stage it enters and what is to be done, given
/// the stage it is in, what happened, and the request id to use if the step
/// sends the save mutation. An event that does not belong to the stage
/// changes nothing.
pub open spec fn step(article: Article, stage: StageView, event: Event, id: Seq<char>) -> (
    StageView,
    ActionView,
) {
    match (stage, event) {
        (StageView::Pending, Event::Started) => (
            StageView::Validating,
            ActionView::Validate { url: article.url@ },
        ),
        (StageView::Validating, Event::Validated(reply)) => after_validation(article, reply, id),
        (StageView::Saving, Event::Saved(reply)) => after_save(article, reply),
        (StageView::Archiving { remote_id }, Event::Archived(reply)) => after_archive(
            article,
            remote_id,
            reply,
        ),
        _ => (stage, ActionView::Ignore),
    }
}

/// The request id that an action carries; empty for all but a save.
pub open spec fn request_id_in(action: ActionView) -> Seq<char> {
    match action {
        ActionView::Save { input } => input.client_request_id,
        _ => Seq::<char>::empty(),
    }
}

fn missing_identifier(url: &str) -> (r: String)
    ensures
        r@ == missing_identifier_detail(url@),
{
    let mut detail = String::from_str("Error occurred during the archiving of the URL ");
    detail.append(url);
    detail.append(": the response to the save holds no identifier");
    detail
}

fn validated(article: &Article, reply: &CallReply, id: String) -> (r: (Stage, Action))
    ensures
        (r.0@, r.1@) == after_validation(*article, *reply, id@),
{
    match check_valid_url(article.url.as_str(), reply) {
        Validation::Reachable => (
            Stage::Saving,
            Action::Save { input: create_input_with_id(article, id) },
        ),
        Validation::Unreachable { status } => (
            Stage::InvalidUrl,
            Action::Emit {
                outcome: ImportResult::invalid_url(
                    article.url.clone(),
                    ErrorKind::InvalidUrl,
                    None,
                ),
            },
        ),
        Validation::ValidationError { detail } => (
            Stage::InvalidUrl,
            Action::Emit {
                outcome: ImportResult::invalid_url(
                    article.url.clone(),
                    ErrorKind::Validation,
                    Some(detail),
                ),
            },
        ),
    }
}

fn saved(article: &Article, reply: &CallReply) -> (r: (Stage, Action))
    ensures
        (r.0@, r.1@) == after_save(*article, *reply),
{
    match judge_reply(Operation::Save, article.url.as_str(), reply) {
        Err(error) => (
            Stage::Failed,
            Action::Emit {
                outcome: ImportResult::failed(article.url.clone(), error.kind, error.message),
            },
        ),
        Ok(identifier) => {
            if !article.is_archived() {
                (
                    Stage::Success,
                    Action::Emit { outcome: ImportResult::success(article.url.clone(), identifier) },
                )
            } else {
                match identifier {
                    Some(remote_id) => (
                        Stage::Archiving { remote_id: remote_id.clone() },
                        Action::Archive { request: create_archive_input(remote_id) },
                    ),
                    None => (
                        Stage::Failed,
                        Action::Emit {
                            outcome: ImportResult::failed(
                                article.url.clone(),
                                ErrorKind::RemoteApplication,
                                missing_identifier(article.url.as_str()),
                            ),
                        },
                    ),
                }
            }
        },
    }
}

fn archived(article: &Article, remote_id: String, reply: &CallReply) -> (r: (Stage, Action))
    ensures
        (r.0@, r.1@) == after_archive(*article, remote_id@, *reply),
{
    match judge_reply(Operation::Archive, article.url.as_str(), reply) {
        Err(error) => (
            Stage::Failed,
            Action::Emit {
                outcome: ImportResult::failed(article.url.clone(), error.kind, error.message),
            },
        ),
        Ok(identifier) => (
            Stage::Success,
            Action::Emit { outcome: ImportResult::success(article.url.clone(), Some(remote_id)) },
        ),
    }
}

/// One step of a record, with `id` as the request id of the save mutation
/// if the step sends it.
pub fn advance_with_id(article: &Article, stage: Stage, event: Event, id: String) -> (r: (
    Stage,
    Action,
))
    ensures
        (r.0@, r.1@) == step(*article, stage@, event, id@),
{
    match stage {
        Stage::Pending => match event {
            Event::Started => (Stage::Validating, Action::Validate { url: article.url.clone() }),
            _ => (Stage::Pending, Action::Ignore),
        },
        Stage::Validating => match event {
            Event::Validated(reply) => validated(article, &reply, id),
            _ => (Stage::Validating, Action::Ignore),
        },
        Stage::Saving => match event {
            Event::Saved(reply) => saved(article, &reply),
            _ => (Stage::Saving, Action::Ignore),
        },
        Stage::Archiving { remote_id } => match event {
            Event::Archived(reply) => archived(article, remote_id, &reply),
            _ => (Stage::Archiving { remote_id }, Action::Ignore),
        },
        Stage::Success => (Stage::Success, Action::Ignore),
        Stage::InvalidUrl => (Stage::InvalidUrl, Action::Ignore),
        Stage::Failed => (Stage::Failed, Action::Ignore),
    }
}

/// Whether the step from `stage` on `event` sends the save mutation.
fn sends_save(article: &Article, stage: &Stage, event: &Event) -> (r: bool)
    ensures
        r == (stage@ is Validating && event is Validated && validation_of(
            article.url@,
            event->Validated_0,
        ) is Reachable),
{
    match stage {
        Stage::Validating => match event {
            Event::Validated(reply) => match check_valid_url(article.url.as_str(), reply) {
                Validation::Reachable => true,
                _ => false,
            },
            _ => false,
        },
        _ => false,
    }
}

/// One step of a record: the stage it enters and what the caller has to do
/// next. Where the step sends the save mutation, the request carries an id
/// that was made for it; everything else is decided by the record, the
/// stage and the event.
pub fn advance(article: &Article, stage: Stage, event: Event) -> (r: (Stage, Action))
    ensures
        (r.0@, r.1@) == step(*article, stage@, event, request_id_in(r.1@)),
        r.1@ is Save ==> is_request_id(request_id_in(r.1@)),
{
    if sends_save(article, &stage, &event) {
        let id = fresh_request_id();
        advance_with_id(article, stage, event, id)
    } else {
        advance_with_id(article, stage, event, String::new())
    }
}

/// A record that is done stays done: no event moves it, and nothing is sent
/// or emitted for it again.
pub proof fn terminal_stage_absorbs(article: Article, stage: StageView, event: Event, id: Seq<char>)
    requires
        stage.terminal(),
    ensures
        step(article, stage, event, id) == (stage, ActionView::Ignore),
{
}

/// Every record comes to an end: the event that a stage waits for moves the
/// record on, so that it is done after four steps at most, and any other
/// event leaves it where it is.
pub proof fn step_makes_progress(article: Article, stage: StageView, event: Event, id: Seq<char>)
    ensures
        ({
            let (next, action) = step(article, stage, event, id);
            &&& stage.awaits(event) ==> next.rank() > stage.rank() && !(action is Ignore)
            &&& !stage.awaits(event) ==> next == stage && action is Ignore
            &&& next.rank() <= 4
            &&& next.terminal() <==> next.rank() == 4
        }),
{
}

/// An outcome is emitted exactly on the step that ends a record, and its
/// kind is the stage that the record ends in.
pub proof fn outcome_matches_stage(article: Article, stage: StageView, event: Event, id: Seq<char>)
    ensures
        ({
            let (next, action) = step(article, stage, event, id);
            &&& action is Emit <==> (!stage.terminal() && next.terminal())
            &&& action matches ActionView::Emit { outcome } ==> {
                &&& outcome.url == article.url@
                &&& next is Success <==> (outcome.successful && !outcome.is_invalid_url)
                &&& next is InvalidUrl <==> (!outcome.successful && outcome.is_invalid_url)
                &&& next is Failed <==> (!outcome.successful && !outcome.is_invalid_url)
                &&& outcome.remote_id is Some ==> outcome.successful
                &&& outcome.successful <==> outcome.error_kind is None
                &&& outcome.successful ==> outcome.error is None
                &&& outcome.error_kind matches Some(kind) ==> (kind.of_validation() <==> next
                    is InvalidUrl)
            }
        }),
{
}

/// The save mutation is sent on one step only: from the check of the URL,
/// and only for a page that was reached. A record whose URL could not be
/// reached ends without a call to the remote service.
pub proof fn save_follows_reachable_url(
    article: Article,
    stage: StageView,
    event: Event,
    id: Seq<char>,
)
    ensures
        ({
            let (next, action) = step(article, stage, event, id);
            &&& action is Save <==> (stage is Validating && event is Validated && validation_of(
                article.url@,
                event->Validated_0,
            ) is Reachable)
            &&& action is Save ==> next is Saving
            &&& next is InvalidUrl && !(stage is InvalidUrl) ==> stage is Validating && action is Emit
            &&& action is Archive ==> stage is Saving && article.needs_archive()
        }),
{
}

} // verus!
