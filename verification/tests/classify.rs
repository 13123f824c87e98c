use bookmark_import::classify::classify;
use bookmark_import::outcome::{create_import_result, ErrorKind, ImportResult, OutcomeKind};

fn run() -> Vec<ImportResult> {
    vec![
        ImportResult::success("https://a.example/1".to_string(), Some("r1".to_string())),
        ImportResult::invalid_url("https://a.example/2".to_string(), ErrorKind::InvalidUrl, None),
        ImportResult::failed("https://a.example/3".to_string(), ErrorKind::RemoteApplication, "boom".to_string()),
        ImportResult::success("https://a.example/4".to_string(), None),
        ImportResult::failed("https://a.example/5".to_string(), ErrorKind::RemoteApplication, "bang".to_string()),
        ImportResult::invalid_url("https://a.example/6".to_string(), ErrorKind::Validation, Some("dns".to_string())),
        ImportResult::success("https://a.example/7".to_string(), Some("r7".to_string())),
    ]
}

fn urls(bucket: &[ImportResult]) -> Vec<String> {
    bucket.iter().map(|o| o.url.clone()).collect()
}

#[test]
fn buckets_keep_the_order_of_the_run() {
    let outcomes = run();
    let c = classify(&outcomes);
    assert_eq!(
        urls(&c.success),
        vec!["https://a.example/1", "https://a.example/4", "https://a.example/7"]
    );
    assert_eq!(urls(&c.invalid_url), vec!["https://a.example/2", "https://a.example/6"]);
    assert_eq!(urls(&c.failed), vec!["https://a.example/3", "https://a.example/5"]);
    assert_eq!(c.success[0], outcomes[0]);
    assert_eq!(c.invalid_url[1], outcomes[5]);
    assert_eq!(c.failed[1], outcomes[4]);
}

#[test]
fn buckets_together_are_as_long_as_the_run() {
    let outcomes = run();
    let c = classify(&outcomes);
    assert_eq!(c.success.len() + c.invalid_url.len() + c.failed.len(), outcomes.len());
    let none = classify(&Vec::new());
    assert_eq!(none.success.len() + none.invalid_url.len() + none.failed.len(), 0);
}

#[test]
fn classifying_twice_gives_the_same_buckets() {
    let outcomes = run();
    let first = classify(&outcomes);
    let second = classify(&outcomes);
    assert_eq!(first, second);
}

#[test]
fn classifying_a_bucket_again_keeps_it() {
    let c = classify(&run());
    let again = classify(&c.failed);
    assert_eq!(again.failed, c.failed);
    assert!(again.success.is_empty());
    assert!(again.invalid_url.is_empty());
    let again = classify(&c.success);
    assert_eq!(again.success, c.success);
    assert!(again.failed.is_empty());
    assert!(again.invalid_url.is_empty());
}

#[test]
fn every_outcome_has_one_kind() {
    assert_eq!(
        create_import_result("u".to_string(), true, false, None).kind(),
        OutcomeKind::Success
    );
    assert_eq!(
        create_import_result("u".to_string(), false, true, None).kind(),
        OutcomeKind::InvalidUrl
    );
    assert_eq!(
        create_import_result("u".to_string(), false, false, Some("e".to_string())).kind(),
        OutcomeKind::Failed
    );
    // Success wins over the other flag.
    assert_eq!(
        create_import_result("u".to_string(), true, true, None).kind(),
        OutcomeKind::Success
    );
}

#[test]
fn created_outcome_holds_what_was_given() {
    let r = create_import_result(
        "https://a.example/1".to_string(),
        false,
        false,
        Some("detail".to_string()),
    );
    assert_eq!(r.url, "https://a.example/1");
    assert!(!r.successful);
    assert!(!r.is_invalid_url);
    assert_eq!(r.error, Some("detail".to_string()));
    assert_eq!(r.remote_id, None);
    assert_eq!(r.duplicate(), r);
}

#[test]
fn outcomes_of_the_three_kinds() {
    let s = ImportResult::success("u".to_string(), Some("r".to_string()));
    assert_eq!(s.kind(), OutcomeKind::Success);
    assert_eq!((s.error.clone(), s.error_kind, s.remote_id.clone()), (None, None, Some("r".to_string())));
    let i = ImportResult::invalid_url("u".to_string(), ErrorKind::Validation, Some("d".to_string()));
    assert_eq!(i.kind(), OutcomeKind::InvalidUrl);
    assert_eq!(i.error_kind, Some(ErrorKind::Validation));
    assert_eq!(i.remote_id, None);
    let f = ImportResult::failed("u".to_string(), ErrorKind::RemoteTimeout, "late".to_string());
    assert_eq!(f.kind(), OutcomeKind::Failed);
    assert_eq!(f.error, Some("late".to_string()));
    assert_eq!(f.error_kind, Some(ErrorKind::RemoteTimeout));
    assert_eq!(f.remote_id, None);
}
