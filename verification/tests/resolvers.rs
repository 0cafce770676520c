use trails_api_extraction::endpoints::Endpoints;
use trails_api_extraction::file_paths::{data_folder_paths, FileNames};

#[test]
fn games_url() {
    let urls = Endpoints::new();
    assert_eq!(urls.get_games(), "https://trailsinthedatabase.com/api/game");
}

#[test]
fn chars_url() {
    let urls = Endpoints::new();
    assert_eq!(urls.get_chars(), "https://trailsinthedatabase.com/api/chr");
}

#[test]
fn files_url_carries_id() {
    let urls = Endpoints::new();
    let url = urls.get_files(&7);
    assert_eq!(url, "https://trailsinthedatabase.com/api/file?game_id=7");
    assert!(url.contains("game_id=7"));
    assert!(!url.contains('{'));
    assert!(!url.contains('}'));
}

#[test]
fn files_url_largest_id() {
    let urls = Endpoints::new();
    assert_eq!(
        urls.get_files(&u32::MAX),
        "https://trailsinthedatabase.com/api/file?game_id=4294967295"
    );
}

#[test]
fn scripts_url_fully_resolved() {
    let urls = Endpoints::new();
    let url = urls.get_scripts(&3, &String::from("c0100"));
    assert_eq!(url, "https://trailsinthedatabase.com/api/script/detail/3/c0100");
    assert!(!url.contains('{'));
    assert!(!url.contains('}'));
}

#[test]
fn top_level_paths() {
    let paths = FileNames::new();
    assert_eq!(paths.games, "data/games/games.json");
    assert_eq!(paths.chars, "data/characters/characters.json");
}

#[test]
fn file_path_carries_id() {
    let paths = FileNames::new();
    assert_eq!(paths.get_file(&1), "data/files/files_game_id_1.json");
    assert_eq!(paths.get_file(&0), "data/files/files_game_id_0.json");
}

#[test]
fn script_path_fully_resolved() {
    let paths = FileNames::new();
    let p = paths.get_script(&1, &String::from("c0100"));
    assert_eq!(p, "data/scripts/scripts_game_id_1_file_name_c0100.json");
    assert!(!p.contains('{'));
    assert!(!p.contains('}'));
}

#[test]
fn four_data_folders() {
    let folders = data_folder_paths();
    assert_eq!(
        folders,
        vec!["data/games", "data/characters", "data/files", "data/scripts"]
    );
}
