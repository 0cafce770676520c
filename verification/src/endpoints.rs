use vstd::prelude::*;

use crate::decimal::{decimal_of, u32_string};

verus! {

/// Resolves each request kind to the absolute URL to invoke, from a fixed
/// base address. Pure string construction: no network access and no
/// validation of the identifiers beyond treating them as printable values.
pub struct Endpoints {
    base: String,
}

impl Endpoints {
    /// The base address every URL starts with.
    pub closed spec fn base_spec(&self) -> Seq<char> {
        self.base@
    }

    /// The URL of the games listing.
    pub open spec fn spec_games_url(&self) -> Seq<char> {
        self.base_spec() + "/api/game"@
    }

    /// The URL of the characters listing.
    pub open spec fn spec_chars_url(&self) -> Seq<char> {
        self.base_spec() + "/api/chr"@
    }

    /// The URL of the file listing of one game.
    pub open spec fn spec_files_url(&self, game_id: u32) -> Seq<char> {
        self.base_spec() + "/api/file?game_id="@ + decimal_of(game_id as nat)
    }

    /// The URL of the script body of one file of one game.
    pub open spec fn spec_scripts_url(&self, game_id: u32, file_name: Seq<char>) -> Seq<char> {
        self.base_spec() + "/api/script/detail/"@ + decimal_of(game_id as nat) + "/"@ + file_name
    }

    pub fn new() -> (r: Endpoints)
        ensures
            r.base_spec() == "https://trailsinthedatabase.com"@,
    {
        Endpoints { base: String::from_str("https://trailsinthedatabase.com") }
    }

    pub fn get_games(&self) -> (r: String)
        ensures
            r@ == self.spec_games_url(),
    {
        self.base.clone().concat("/api/game")
    }

    pub fn get_chars(&self) -> (r: String)
        ensures
            r@ == self.spec_chars_url(),
    {
        self.base.clone().concat("/api/chr")
    }

    pub fn get_files(&self, game_id: &u32) -> (r: String)
        ensures
            r@ == self.spec_files_url(*game_id),
    {
        let mut url = self.base.clone();
        url.append("/api/file?game_id=");
        let id = u32_string(*game_id);
        url.append(id.as_str());
        url
    }

    pub fn get_scripts(&self, game_id: &u32, file_name: &String) -> (r: String)
        ensures
            r@ == self.spec_scripts_url(*game_id, file_name@),
    {
        let mut url = self.base.clone();
        url.append("/api/script/detail/");
        let id = u32_string(*game_id);
        url.append(id.as_str());
        url.append("/");
        url.append(file_name.as_str());
        url
    }
}

} // verus!
