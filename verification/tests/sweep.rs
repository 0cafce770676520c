use std::collections::HashMap;

use trails_api_extraction::driver::{Action, Driver, Event, StepNote};
use trails_api_extraction::endpoints::Endpoints;
use trails_api_extraction::file_paths::FileNames;
use trails_api_extraction::json::normalize_document;

/// Runs one full sweep against canned responses: a URL missing from
/// `responses` simulates a transport failure. Returns the fetched URLs in
/// order and the artifacts written, as (path, text) pairs in order.
fn run_sweep(responses: &HashMap<String, String>) -> (Vec<String>, Vec<(String, String)>) {
    let mut driver = Driver::new(Endpoints::new(), FileNames::new());
    let mut store: HashMap<String, String> = HashMap::new();
    let mut fetched: Vec<String> = Vec::new();
    let mut writes: Vec<(String, String)> = Vec::new();
    loop {
        match driver.next_action() {
            Action::Fetch { url, path, .. } => {
                fetched.push(url.clone());
                let mut ok = false;
                if let Some(body) = responses.get(&url) {
                    if let Ok(artifact) = normalize_document(body) {
                        store.insert(path.clone(), artifact.clone());
                        writes.push((path, artifact));
                        ok = true;
                    }
                }
                driver.step(Event::Fetched { ok });
            }
            Action::ReadDoc { path } => {
                let text = store.get(&path).cloned();
                driver.step(Event::DocRead { text });
            }
            Action::Finished => break,
        }
    }
    (fetched, writes)
}

const BASE: &str = "https://trailsinthedatabase.com";

#[test]
fn two_games_two_files_fetches_in_order() {
    let mut responses = HashMap::new();
    responses.insert(format!("{}/api/game", BASE), String::from("[{\"id\":1},{\"id\":2}]"));
    responses.insert(format!("{}/api/chr", BASE), String::from("[]"));
    let (fetched, _) = run_sweep(&responses);
    assert_eq!(fetched.len(), 4);
    assert_eq!(fetched[0], format!("{}/api/game", BASE));
    assert_eq!(fetched[1], format!("{}/api/chr", BASE));
    assert_eq!(fetched[2], format!("{}/api/file?game_id=1", BASE));
    assert_eq!(fetched[3], format!("{}/api/file?game_id=2", BASE));
}

#[test]
fn malformed_games_document_stops_fan_out_only() {
    let mut responses = HashMap::new();
    responses.insert(format!("{}/api/game", BASE), String::from("not json"));
    responses.insert(format!("{}/api/chr", BASE), String::from("[]"));
    let (fetched, writes) = run_sweep(&responses);
    // No files fetch and no scripts fetch, but the run completes ...
    assert_eq!(fetched.len(), 2);
    assert_eq!(fetched[0], format!("{}/api/game", BASE));
    assert_eq!(fetched[1], format!("{}/api/chr", BASE));
    // ... and the characters document was still written.
    assert_eq!(writes.len(), 1);
    assert_eq!(writes[0].0, "data/characters/characters.json");
    assert_eq!(writes[0].1, "[]");
}

#[test]
fn scripts_fan_out_per_file_name() {
    let mut responses = HashMap::new();
    responses.insert(format!("{}/api/game", BASE), String::from("[{\"id\":1}]"));
    responses.insert(format!("{}/api/chr", BASE), String::from("[]"));
    responses.insert(
        format!("{}/api/file?game_id=1", BASE),
        String::from("[{\"fname\":\"c0100\"},{\"fname\":\"c0200\"}]"),
    );
    responses.insert(format!("{}/api/script/detail/1/c0100", BASE), String::from("{}"));
    responses.insert(format!("{}/api/script/detail/1/c0200", BASE), String::from("{}"));
    let (fetched, writes) = run_sweep(&responses);
    assert_eq!(fetched.len(), 5);
    assert_eq!(fetched[3], format!("{}/api/script/detail/1/c0100", BASE));
    assert_eq!(fetched[4], format!("{}/api/script/detail/1/c0200", BASE));
    let script_writes: Vec<&str> = writes
        .iter()
        .filter(|w| w.0.starts_with("data/scripts/"))
        .map(|w| w.0.as_str())
        .collect();
    assert_eq!(
        script_writes,
        vec![
            "data/scripts/scripts_game_id_1_file_name_c0100.json",
            "data/scripts/scripts_game_id_1_file_name_c0200.json",
        ]
    );
}

#[test]
fn transport_failure_skips_only_its_item() {
    let mut responses = HashMap::new();
    responses.insert(format!("{}/api/game", BASE), String::from("[{\"id\":2},{\"id\":3}]"));
    responses.insert(format!("{}/api/chr", BASE), String::from("[]"));
    // files(2) has no response: a simulated transport failure.
    responses.insert(format!("{}/api/file?game_id=3", BASE), String::from("[]"));
    let (fetched, writes) = run_sweep(&responses);
    assert_eq!(fetched[2], format!("{}/api/file?game_id=2", BASE));
    assert_eq!(fetched[3], format!("{}/api/file?game_id=3", BASE));
    assert!(writes.iter().any(|w| w.0 == "data/files/files_game_id_3.json"));
}

#[test]
fn rerun_is_byte_identical() {
    let mut responses = HashMap::new();
    responses.insert(
        format!("{}/api/game", BASE),
        String::from("[{\"id\":1},{\"id\":2}]"),
    );
    responses.insert(format!("{}/api/chr", BASE), String::from("[{\"name\":\"x\"}]"));
    responses.insert(
        format!("{}/api/file?game_id=1", BASE),
        String::from("[{\"fname\":\"c0100\"}]"),
    );
    responses.insert(format!("{}/api/script/detail/1/c0100", BASE), String::from("{\"a\":1}"));
    let first = run_sweep(&responses);
    let second = run_sweep(&responses);
    assert_eq!(first.0, second.0);
    assert_eq!(first.1, second.1);
}

#[test]
fn empty_games_array_completes_with_no_fan_out() {
    let mut responses = HashMap::new();
    responses.insert(format!("{}/api/game", BASE), String::from("[]"));
    responses.insert(format!("{}/api/chr", BASE), String::from("[]"));
    let (fetched, writes) = run_sweep(&responses);
    assert_eq!(fetched.len(), 2);
    assert_eq!(writes.len(), 2);
}

#[test]
fn duplicate_ids_fetched_once() {
    let mut responses = HashMap::new();
    responses.insert(format!("{}/api/game", BASE), String::from("[{\"id\":1},{\"id\":1}]"));
    responses.insert(format!("{}/api/chr", BASE), String::from("[]"));
    let (fetched, _) = run_sweep(&responses);
    assert_eq!(fetched.len(), 3);
    assert_eq!(fetched[2], format!("{}/api/file?game_id=1", BASE));
}

#[test]
fn duplicate_file_names_fetched_once() {
    let mut responses = HashMap::new();
    responses.insert(format!("{}/api/game", BASE), String::from("[{\"id\":1}]"));
    responses.insert(format!("{}/api/chr", BASE), String::from("[]"));
    responses.insert(
        format!("{}/api/file?game_id=1", BASE),
        String::from("[{\"fname\":\"c0100\"},{\"fname\":\"c0100\"}]"),
    );
    let (fetched, _) = run_sweep(&responses);
    assert_eq!(fetched.len(), 4);
    assert_eq!(fetched[3], format!("{}/api/script/detail/1/c0100", BASE));
}

#[test]
fn step_reports_unusable_games_document() {
    let mut driver = Driver::new(Endpoints::new(), FileNames::new());
    driver.step(Event::Fetched { ok: true });
    driver.step(Event::Fetched { ok: true });
    let note = driver.step(Event::DocRead { text: Some(String::from("nonsense")) });
    assert!(matches!(note, Some(StepNote::GamesDocUnusable)));
}

#[test]
fn step_reports_unusable_files_document() {
    let mut driver = Driver::new(Endpoints::new(), FileNames::new());
    driver.step(Event::Fetched { ok: true });
    driver.step(Event::Fetched { ok: true });
    let note = driver.step(Event::DocRead { text: Some(String::from("[{\"id\":9}]")) });
    assert!(note.is_none());
    driver.step(Event::Fetched { ok: false });
    let note = driver.step(Event::DocRead { text: None });
    assert!(matches!(note, Some(StepNote::FilesDocUnusable { game_id: 9 })));
}

#[test]
fn step_reports_nothing_for_an_empty_games_array() {
    let mut driver = Driver::new(Endpoints::new(), FileNames::new());
    driver.step(Event::Fetched { ok: true });
    driver.step(Event::Fetched { ok: true });
    let note = driver.step(Event::DocRead { text: Some(String::from("[]")) });
    assert!(note.is_none());
}
