use trails_api_extraction::json::{normalize_document, ArchiveError};
use trails_api_extraction::report::report_line;
use trails_api_extraction::records::{
    file_names, files_extraction_failed, game_ids, games_extraction_failed,
};

#[test]
fn normalize_pretty_prints() {
    let body = String::from("[1,2]");
    let art = normalize_document(&body).unwrap();
    assert_eq!(art, "[\n  1,\n  2\n]");
}

#[test]
fn normalize_rejects_bad_json() {
    let body = String::from("{\"id\": 1,");
    assert_eq!(normalize_document(&body), Err(ArchiveError::Parse));
}

#[test]
fn normalize_round_trips_values() {
    let body = String::from("{\"b\":[1,2,{\"c\":null}],\"a\":\"x\"}");
    let art = normalize_document(&body).unwrap();
    let before: serde_json::Value = serde_json::from_str(&body).unwrap();
    let after: serde_json::Value = serde_json::from_str(&art).unwrap();
    assert_eq!(before, after);
}

#[test]
fn normalize_is_idempotent() {
    let body = String::from("{\"b\":[1,2,{\"c\":null}],\"a\":\"x\"}");
    let art = normalize_document(&body).unwrap();
    let again = normalize_document(&art).unwrap();
    assert_eq!(art, again);
}

#[test]
fn game_ids_in_document_order() {
    let doc = Some(String::from("[{\"id\":1,\"rows\":4},{\"id\":2,\"rows\":5}]"));
    assert_eq!(game_ids(&doc), vec![1, 2]);
}

#[test]
fn game_ids_of_missing_document() {
    assert_eq!(game_ids(&None), Vec::<u32>::new());
}

#[test]
fn game_ids_of_malformed_document() {
    let doc = Some(String::from("[{\"id\":1},"));
    assert_eq!(game_ids(&doc), Vec::<u32>::new());
}

#[test]
fn game_ids_of_wrong_shape() {
    let doc = Some(String::from("{\"id\":1}"));
    assert_eq!(game_ids(&doc), Vec::<u32>::new());
    let doc = Some(String::from("[{\"id\":\"one\"}]"));
    assert_eq!(game_ids(&doc), Vec::<u32>::new());
    let doc = Some(String::from("[{\"rows\":1}]"));
    assert_eq!(game_ids(&doc), Vec::<u32>::new());
}

#[test]
fn game_ids_of_oversized_id() {
    let doc = Some(String::from("[{\"id\":1},{\"id\":4294967296}]"));
    assert_eq!(game_ids(&doc), Vec::<u32>::new());
}

#[test]
fn file_names_in_document_order() {
    let doc = Some(String::from(
        "[{\"fname\":\"c0100\",\"gameId\":1},{\"fname\":\"c0200\",\"gameId\":1}]",
    ));
    assert_eq!(file_names(&doc), vec!["c0100", "c0200"]);
}

#[test]
fn file_names_of_missing_or_malformed_document() {
    assert_eq!(file_names(&None), Vec::<String>::new());
    let doc = Some(String::from("nonsense"));
    assert_eq!(file_names(&doc), Vec::<String>::new());
    let doc = Some(String::from("[{\"gameId\":1}]"));
    assert_eq!(file_names(&doc), Vec::<String>::new());
}

#[test]
fn game_ids_distinct_in_first_occurrence_order() {
    let doc = Some(String::from("[{\"id\":2},{\"id\":1},{\"id\":2},{\"id\":1}]"));
    assert_eq!(game_ids(&doc), vec![2, 1]);
}

#[test]
fn file_names_distinct_in_first_occurrence_order() {
    let doc = Some(String::from(
        "[{\"fname\":\"c0200\"},{\"fname\":\"c0100\"},{\"fname\":\"c0200\"}]",
    ));
    assert_eq!(file_names(&doc), vec!["c0200", "c0100"]);
}

#[test]
fn extraction_failure_is_distinguished_from_empty() {
    assert!(games_extraction_failed(&None));
    assert!(games_extraction_failed(&Some(String::from("nonsense"))));
    assert!(games_extraction_failed(&Some(String::from("[{\"id\":4294967296}]"))));
    assert!(!games_extraction_failed(&Some(String::from("[]"))));
    assert!(!games_extraction_failed(&Some(String::from("[{\"id\":1}]"))));
    assert!(files_extraction_failed(&None));
    assert!(files_extraction_failed(&Some(String::from("[{\"gameId\":1}]"))));
    assert!(!files_extraction_failed(&Some(String::from("[]"))));
    assert!(!files_extraction_failed(&Some(String::from("[{\"fname\":\"c0100\"}]"))));
}

#[test]
fn report_line_names_stage_keys_and_cause() {
    assert_eq!(
        report_line("fetch-and-store", Some(7), None, &ArchiveError::Transport),
        "fetch-and-store game_id=7: transport failure"
    );
    let name = String::from("c0100");
    assert_eq!(
        report_line("fetch-and-store", Some(1), Some(&name), &ArchiveError::Parse),
        "fetch-and-store game_id=1 file_name=c0100: parse failure"
    );
    assert_eq!(report_line("setup", None, None, &ArchiveError::Setup), "setup: setup failure");
    assert_eq!(ArchiveError::LocalIo.describe(), "local write failure");
}
