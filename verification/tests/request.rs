use bookmark_import::article::{Arguments, Article};
use bookmark_import::request::{
    archive_query, create_archive_input, create_input, create_input_with_id, endpoint, save_query,
    CALL_TIMEOUT_SECS,
};

fn bookmark(location: &str, saved_date: &str) -> Article {
    Article {
        title: "T".to_string(),
        url: "https://a.example/page".to_string(),
        document_tags: String::new(),
        saved_date: saved_date.to_string(),
        reading_progress: "0.5".to_string(),
        location: location.to_string(),
        seen: "False".to_string(),
    }
}

#[test]
fn save_input_of_an_inbox_record() {
    let input = create_input_with_id(&bookmark("inbox", "2023-01-02"), "id-1".to_string());
    assert_eq!(input.client_request_id, "id-1");
    assert_eq!(input.source, "api");
    assert_eq!(input.url, "https://a.example/page");
    assert_eq!(input.labels, vec!["imported".to_string()]);
    assert_eq!(input.saved_at, Some("2023-01-02".to_string()));
    assert_eq!(input.state, None);
}

#[test]
fn save_input_of_an_archived_record() {
    let input = create_input_with_id(&bookmark("archive", ""), "id-2".to_string());
    assert_eq!(input.saved_at, None);
    assert_eq!(input.state, Some("ARCHIVED".to_string()));
}

#[test]
fn location_is_compared_as_it_is_written() {
    assert!(bookmark("archive", "").is_archived());
    assert!(!bookmark("Archive", "").is_archived());
    assert!(!bookmark("archive ", "").is_archived());
    assert!(!bookmark("inbox", "").is_archived());
    assert!(!bookmark("", "").is_archived());
}

#[test]
fn request_id_is_a_hyphenated_lower_case_id() {
    let input = create_input(&bookmark("inbox", ""));
    let id: Vec<char> = input.client_request_id.chars().collect();
    assert_eq!(id.len(), 36);
    for (i, c) in id.iter().enumerate() {
        if i == 8 || i == 13 || i == 18 || i == 23 {
            assert_eq!(*c, '-');
        } else {
            assert!(c.is_ascii_digit() || ('a'..='f').contains(c));
        }
    }
    assert_eq!(input.url, "https://a.example/page");
    assert_eq!(input.source, "api");
    assert_eq!(input.labels, vec!["imported".to_string()]);
}

#[test]
fn request_ids_differ_from_call_to_call() {
    let a = create_input(&bookmark("inbox", ""));
    let b = create_input(&bookmark("inbox", ""));
    assert_ne!(a.client_request_id, b.client_request_id);
}

#[test]
fn archive_input_names_the_record() {
    let input = create_archive_input("id-9".to_string());
    assert_eq!(input.link_id, "id-9");
    assert!(input.archived);
}

#[test]
fn calls_are_bounded_by_thirty_seconds() {
    assert_eq!(CALL_TIMEOUT_SECS, 30);
}

#[test]
fn mutations_go_to_the_service() {
    assert_eq!(endpoint(), "https://api-prod.omnivore.app/api/graphql");
    assert!(save_query().starts_with("mutation SaveUrl($input: SaveUrlInput!)"));
    assert!(save_query().contains("... on SaveError { errorCodes message }"));
    assert!(archive_query().starts_with("mutation SetLinkArchived($input: ArchiveLinkInput!)"));
}

#[test]
fn settings_hold_key_and_path() {
    let a = Arguments::new("secret".to_string(), "export.csv".to_string());
    assert_eq!(a.key, "secret");
    assert_eq!(a.file_path, "export.csv");
    let d = Arguments::default();
    assert_eq!(d.key, "");
    assert_eq!(d.file_path, "");
}

#[test]
fn copy_of_a_record_is_the_record() {
    let a = bookmark("archive", "2020-02-02");
    assert_eq!(a.duplicate(), a);
}
