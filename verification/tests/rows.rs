use bookmark_import::article::Article;
use bookmark_import::rows::{collect_articles, parse_failure_message};

fn row(url: &str) -> Article {
    Article {
        title: "T".to_string(),
        url: url.to_string(),
        document_tags: String::new(),
        saved_date: String::new(),
        reading_progress: String::new(),
        location: "inbox".to_string(),
        seen: String::new(),
    }
}

#[test]
fn rows_that_could_all_be_read_are_the_records() {
    let rows = vec![Ok(row("u1")), Ok(row("u2")), Ok(row("u3"))];
    let articles = collect_articles(rows).expect("no row is an error");
    assert_eq!(articles, vec![row("u1"), row("u2"), row("u3")]);
}

#[test]
fn no_rows_are_no_records() {
    assert_eq!(collect_articles(Vec::new()), Ok(Vec::new()));
}

#[test]
fn one_bad_row_refuses_the_export_with_every_error() {
    let rows = vec![
        Ok(row("u1")),
        Err("line 3: missing field".to_string()),
        Ok(row("u2")),
        Err("line 5: bad quote".to_string()),
    ];
    let errors = collect_articles(rows).expect_err("two rows are errors");
    assert_eq!(errors, vec!["line 3: missing field".to_string(), "line 5: bad quote".to_string()]);
}

#[test]
fn failure_message_names_the_file_and_lists_the_errors() {
    let errors = vec!["first".to_string(), "second".to_string()];
    assert_eq!(
        parse_failure_message("export.csv", &errors),
        "For the file export.csv the following CSV parsing errors occurred:\nfirst\nsecond"
    );
    assert_eq!(
        parse_failure_message("e.csv", &Vec::new()),
        "For the file e.csv the following CSV parsing errors occurred:"
    );
}
