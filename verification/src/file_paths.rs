use vstd::prelude::*;

use crate::decimal::{decimal_of, u32_string};

verus! {

/// Resolves each request kind to the local path its response is stored at,
/// mirroring the identifier shape of the URLs: one subdirectory per entity
/// kind under a fixed `data/` root, so each artifact maps back to the
/// request that produced it.
pub struct FileNames {
    pub games: String,
    pub chars: String,
}

impl FileNames {
    /// The path of the games document.
    pub open spec fn spec_games_path(&self) -> Seq<char> {
        self.games@
    }

    /// The path of the characters document.
    pub open spec fn spec_chars_path(&self) -> Seq<char> {
        self.chars@
    }

    /// The path of the file listing of one game.
    pub open spec fn spec_file_path(&self, game_id: u32) -> Seq<char> {
        "data/files/files_game_id_"@ + decimal_of(game_id as nat) + ".json"@
    }

    /// The path of the script body of one file of one game.
    pub open spec fn spec_script_path(&self, game_id: u32, file_name: Seq<char>) -> Seq<char> {
        "data/scripts/scripts_game_id_"@ + decimal_of(game_id as nat) + "_file_name_"@ + file_name
            + ".json"@
    }

    pub fn new() -> (r: FileNames)
        ensures
            r.games@ == "data/games/games.json"@,
            r.chars@ == "data/characters/characters.json"@,
    {
        FileNames {
            games: String::from_str("data/games/games.json"),
            chars: String::from_str("data/characters/characters.json"),
        }
    }

    pub fn get_file(&self, game_id: &u32) -> (r: String)
        ensures
            r@ == self.spec_file_path(*game_id),
    {
        let mut path = String::from_str("data/files/files_game_id_");
        let id = u32_string(*game_id);
        path.append(id.as_str());
        path.append(".json");
        path
    }

    pub fn get_script(&self, game_id: &u32, file_name: &String) -> (r: String)
        ensures
            r@ == self.spec_script_path(*game_id, file_name@),
    {
        let mut path = String::from_str("data/scripts/scripts_game_id_");
        let id = u32_string(*game_id);
        path.append(id.as_str());
        path.append("_file_name_");
        path.append(file_name.as_str());
        path.append(".json");
        path
    }
}

/// The four destination directories, one per entity kind, in the order the
/// driver prepares them.
pub fn data_folder_paths() -> (v: Vec<String>)
    ensures
        v@.len() == 4,
        v@[0]@ == "data/games"@,
        v@[1]@ == "data/characters"@,
        v@[2]@ == "data/files"@,
        v@[3]@ == "data/scripts"@,
{
    let mut v: Vec<String> = Vec::new();
    v.push(String::from_str("data/games"));
    v.push(String::from_str("data/characters"));
    v.push(String::from_str("data/files"));
    v.push(String::from_str("data/scripts"));
    v
}

} // verus!
