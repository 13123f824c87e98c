use bookmark_import::article::Article;
use bookmark_import::outcome::{ErrorKind, OutcomeKind};
use bookmark_import::pipeline::{advance, advance_with_id, Action, Event, Stage};
use bookmark_import::reply::CallReply;

fn article(url: &str, location: &str) -> Article {
    Article {
        title: "A title".to_string(),
        url: url.to_string(),
        document_tags: "rust,verification".to_string(),
        saved_date: "2023-08-01 10:00:00+00:00".to_string(),
        reading_progress: "0".to_string(),
        location: location.to_string(),
        seen: "True".to_string(),
    }
}

fn response(status: u16, body: &str) -> CallReply {
    CallReply::Response { status, body: body.to_string() }
}

const SAVED: &str =
    "{\"data\":{\"saveUrl\":{\"url\":\"https://remote.example/me/page\",\"clientRequestId\":\"id-77\"}}}";

/// Takes a record up to the stage in which the save mutation is under way.
fn up_to_saving(a: &Article) -> Stage {
    let (stage, action) = advance(a, Stage::Pending, Event::Started);
    assert_eq!(stage, Stage::Validating);
    assert_eq!(action, Action::Validate { url: a.url.clone() });
    let (stage, action) = advance(a, stage, Event::Validated(response(200, "<html></html>")));
    assert_eq!(stage, Stage::Saving);
    assert!(matches!(action, Action::Save { .. }));
    stage
}

#[test]
fn reachable_url_and_accepted_save_end_in_success_without_archive() {
    let a = article("https://example.com/a", "inbox");
    let stage = up_to_saving(&a);
    let (stage, action) = advance(&a, stage, Event::Saved(response(200, SAVED)));
    assert_eq!(stage, Stage::Success);
    match action {
        Action::Emit { outcome } => {
            assert_eq!(outcome.kind(), OutcomeKind::Success);
            assert!(outcome.successful);
            assert!(!outcome.is_invalid_url);
            assert_eq!(outcome.url, "https://example.com/a");
            assert_eq!(outcome.error, None);
            assert_eq!(outcome.error_kind, None);
            assert_eq!(outcome.remote_id, Some("id-77".to_string()));
        }
        other => panic!("no outcome was emitted: {:?}", other),
    }
}

#[test]
fn unreachable_url_ends_in_invalid_url_before_any_remote_call() {
    let a = article("https://example.com/gone", "inbox");
    let (stage, _) = advance(&a, Stage::Pending, Event::Started);
    let (stage, action) = advance(&a, stage, Event::Validated(response(404, "not found")));
    assert_eq!(stage, Stage::InvalidUrl);
    match action {
        Action::Emit { outcome } => {
            assert_eq!(outcome.kind(), OutcomeKind::InvalidUrl);
            assert!(!outcome.successful);
            assert!(outcome.is_invalid_url);
            assert_eq!(outcome.url, "https://example.com/gone");
            assert_eq!(outcome.error, None);
            assert_eq!(outcome.error_kind, Some(ErrorKind::InvalidUrl));
            assert_eq!(outcome.remote_id, None);
        }
        other => panic!("no outcome was emitted: {:?}", other),
    }
    // The record is done: a late reply to a save changes nothing.
    let (stage, action) = advance(&a, stage, Event::Saved(response(200, SAVED)));
    assert_eq!(stage, Stage::InvalidUrl);
    assert_eq!(action, Action::Ignore);
}

#[test]
fn failed_check_ends_in_invalid_url_and_keeps_the_cause() {
    let a = article("https://nowhere.invalid/", "inbox");
    let reply = CallReply::TransportError { detail: "dns error".to_string() };
    let (stage, action) = advance(&a, Stage::Validating, Event::Validated(reply));
    assert_eq!(stage, Stage::InvalidUrl);
    match action {
        Action::Emit { outcome } => {
            assert_eq!(outcome.kind(), OutcomeKind::InvalidUrl);
            assert_eq!(outcome.error_kind, Some(ErrorKind::Validation));
            assert_eq!(
                outcome.error,
                Some("URL could not be validated https://nowhere.invalid/: dns error".to_string())
            );
        }
        other => panic!("no outcome was emitted: {:?}", other),
    }
}

#[test]
fn save_answered_with_500_fails_with_status_and_body_in_the_detail() {
    let a = article("https://example.com/a", "inbox");
    let stage = up_to_saving(&a);
    let reply = response(500, "{\"message\":\"server error\"}");
    let (stage, action) = advance(&a, stage, Event::Saved(reply));
    assert_eq!(stage, Stage::Failed);
    match action {
        Action::Emit { outcome } => {
            assert_eq!(outcome.kind(), OutcomeKind::Failed);
            let detail = outcome.error.expect("a failed record has a detail");
            assert_eq!(outcome.error_kind, Some(ErrorKind::RemoteApplication));
            assert!(detail.contains("500"));
            assert!(detail.contains("server error"));
            assert_eq!(
                detail,
                "Error occurred during the saving of the URL https://example.com/a. Server returned \"500\" and the message {\"message\":\"server error\"}"
            );
            assert_eq!(outcome.remote_id, None);
        }
        other => panic!("no outcome was emitted: {:?}", other),
    }
}

#[test]
fn save_that_times_out_fails_the_record_only() {
    let a = article("https://example.com/slow", "inbox");
    let stage = up_to_saving(&a);
    let reply = CallReply::TimedOut { detail: "deadline has elapsed".to_string() };
    let (stage, action) = advance(&a, stage, Event::Saved(reply));
    assert_eq!(stage, Stage::Failed);
    match action {
        Action::Emit { outcome } => {
            assert_eq!(outcome.kind(), OutcomeKind::Failed);
            assert_eq!(outcome.error_kind, Some(ErrorKind::RemoteTimeout));
            assert!(outcome.error.as_ref().is_some_and(|detail| detail.contains("Timeout")));
            assert_eq!(
                outcome.error,
                Some(
                    "Timeout occurred for the saving of the URL https://example.com/slow: deadline has elapsed"
                        .to_string()
                )
            );
        }
        other => panic!("no outcome was emitted: {:?}", other),
    }
    // Another record is not touched by it.
    let b = article("https://example.com/fast", "inbox");
    let stage = up_to_saving(&b);
    let (stage, _) = advance(&b, stage, Event::Saved(response(200, SAVED)));
    assert_eq!(stage, Stage::Success);
}

#[test]
fn save_without_answer_fails_with_a_transport_detail() {
    let a = article("https://example.com/a", "inbox");
    let reply = CallReply::TransportError { detail: "connection refused".to_string() };
    let (stage, action) = advance(&a, Stage::Saving, Event::Saved(reply));
    assert_eq!(stage, Stage::Failed);
    match action {
        Action::Emit { outcome } => {
            assert_eq!(outcome.error_kind, Some(ErrorKind::RemoteTransport));
            assert_eq!(
                outcome.error,
                Some(
                    "Error occurred during the saving of the URL https://example.com/a: connection refused"
                        .to_string()
                )
            );
        }
        other => panic!("no outcome was emitted: {:?}", other),
    }
}

#[test]
fn archived_record_whose_archive_call_fails_is_failed() {
    let a = article("https://example.com/old", "archive");
    let stage = up_to_saving(&a);
    let (stage, action) = advance(&a, stage, Event::Saved(response(200, SAVED)));
    assert_eq!(stage, Stage::Archiving { remote_id: "id-77".to_string() });
    match action {
        Action::Archive { request } => {
            assert_eq!(request.link_id, "id-77");
            assert!(request.archived);
        }
        other => panic!("no archive was asked for: {:?}", other),
    }
    let (stage, action) = advance(&a, stage, Event::Archived(response(503, "busy")));
    assert_eq!(stage, Stage::Failed);
    match action {
        Action::Emit { outcome } => {
            assert_eq!(outcome.kind(), OutcomeKind::Failed);
            assert_eq!(outcome.remote_id, None);
            assert_eq!(
                outcome.error,
                Some(
                    "Error occurred during the archiving of the URL https://example.com/old. Server returned \"503\" and the message busy"
                        .to_string()
                )
            );
        }
        other => panic!("no outcome was emitted: {:?}", other),
    }
}

#[test]
fn archived_record_whose_archive_call_succeeds_is_a_success() {
    let a = article("https://example.com/old", "archive");
    let stage = Stage::Archiving { remote_id: "id-77".to_string() };
    let body = "{\"data\":{\"setLinkArchived\":{\"linkId\":\"id-77\",\"message\":\"link_archived\"}}}";
    let (stage, action) = advance(&a, stage, Event::Archived(response(200, body)));
    assert_eq!(stage, Stage::Success);
    match action {
        Action::Emit { outcome } => {
            assert_eq!(outcome.kind(), OutcomeKind::Success);
            assert_eq!(outcome.remote_id, Some("id-77".to_string()));
            assert_eq!(outcome.error, None);
        }
        other => panic!("no outcome was emitted: {:?}", other),
    }
}

#[test]
fn archived_record_saved_without_identifier_is_failed() {
    let a = article("https://example.com/old", "archive");
    let (stage, action) = advance(&a, Stage::Saving, Event::Saved(response(200, "ok")));
    assert_eq!(stage, Stage::Failed);
    match action {
        Action::Emit { outcome } => assert_eq!(
            outcome.error,
            Some(
                "Error occurred during the archiving of the URL https://example.com/old: the response to the save holds no identifier"
                    .to_string()
            )
        ),
        other => panic!("no outcome was emitted: {:?}", other),
    }
}

#[test]
fn error_payload_in_a_successful_response_fails_the_record() {
    let a = article("https://example.com/a", "inbox");
    let body = "{\"data\":{\"saveUrl\":{\"errorCodes\":[\"UNAUTHORIZED\"],\"message\":\"no access\"}}}";
    let (stage, action) = advance(&a, Stage::Saving, Event::Saved(response(200, body)));
    assert_eq!(stage, Stage::Failed);
    match action {
        Action::Emit { outcome } => assert_eq!(
            outcome.error,
            Some(
                "Error occurred during the saving of the URL https://example.com/a. Server returned the error codes [\"UNAUTHORIZED\"] and the message no access"
                    .to_string()
            )
        ),
        other => panic!("no outcome was emitted: {:?}", other),
    }
}

#[test]
fn event_of_another_stage_is_ignored() {
    let a = article("https://example.com/a", "inbox");
    let (stage, action) = advance(&a, Stage::Pending, Event::Saved(response(200, SAVED)));
    assert_eq!(stage, Stage::Pending);
    assert_eq!(action, Action::Ignore);
    let (stage, action) = advance(&a, Stage::Saving, Event::Started);
    assert_eq!(stage, Stage::Saving);
    assert_eq!(action, Action::Ignore);
    let archiving = Stage::Archiving { remote_id: "id-1".to_string() };
    let (stage, action) = advance(&a, archiving.clone(), Event::Validated(response(200, "")));
    assert_eq!(stage, archiving);
    assert_eq!(action, Action::Ignore);
}

#[test]
fn finished_record_ignores_every_event() {
    let a = article("https://example.com/a", "archive");
    for stage in [Stage::Success, Stage::InvalidUrl, Stage::Failed] {
        for event in [
            Event::Started,
            Event::Validated(response(200, "")),
            Event::Saved(response(200, SAVED)),
            Event::Archived(response(200, "")),
        ] {
            let (next, action) = advance(&a, stage.clone(), event);
            assert_eq!(next, stage);
            assert_eq!(action, Action::Ignore);
        }
    }
}

#[test]
fn save_request_carries_the_given_id() {
    let a = article("https://example.com/a", "archive");
    let (stage, action) = advance_with_id(
        &a,
        Stage::Validating,
        Event::Validated(response(204, "")),
        "0000".to_string(),
    );
    assert_eq!(stage, Stage::Saving);
    match action {
        Action::Save { input } => {
            assert_eq!(input.client_request_id, "0000");
            assert_eq!(input.source, "api");
            assert_eq!(input.url, "https://example.com/a");
            assert_eq!(input.labels, vec!["imported".to_string()]);
            assert_eq!(input.saved_at, Some("2023-08-01 10:00:00+00:00".to_string()));
            assert_eq!(input.state, Some("ARCHIVED".to_string()));
        }
        other => panic!("no save was asked for: {:?}", other),
    }
}

#[test]
fn save_request_of_a_step_has_a_fresh_id() {
    let a = article("https://example.com/a", "inbox");
    let first = advance(&a, Stage::Validating, Event::Validated(response(200, "")));
    let second = advance(&a, Stage::Validating, Event::Validated(response(200, "")));
    match (first.1, second.1) {
        (Action::Save { input: one }, Action::Save { input: two }) => {
            assert_eq!(one.client_request_id.len(), 36);
            assert_ne!(one.client_request_id, two.client_request_id);
            assert_eq!(one.state, None);
        }
        other => panic!("no save was asked for: {:?}", other),
    }
}
