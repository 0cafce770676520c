use vstd::prelude::*;

use crate::endpoints::Endpoints;
use crate::file_paths::FileNames;
use crate::records::{
    file_names, files_extraction_failed, game_ids, games_extraction_failed, spec_doc_view,
    spec_file_names, spec_files_extraction_failed, spec_game_ids, spec_games_extraction_failed,
};

verus! {

/// What the driver asks its surroundings to do next.
pub enum Action {
    /// Issue an HTTP GET to `url` and store the normalized response at
    /// `path`, creating or truncating the file there. `game_id` and
    /// `file_name` are the keys of the item being archived, as far as it
    /// has them, for failure reports.
    Fetch { url: String, path: String, game_id: Option<u32>, file_name: Option<String> },
    /// Read back the text of the document stored at `path`.
    ReadDoc { path: String },
    /// The sweep is complete.
    Finished,
}

/// What came back from performing an action.
pub enum Event {
    /// A fetch-and-store attempt finished; `ok` says whether it succeeded.
    Fetched { ok: bool },
    /// A document was read back, or could not be (`None`).
    DocRead { text: Option<String> },
}

/// What a read-back step found wrong, handed to the runner so it can
/// report the parse failure; the sweep itself goes on, fanning out over
/// nothing for the unusable document.
pub enum StepNote {
    /// The games document was unreadable or yielded no usable records.
    GamesDocUnusable,
    /// The files document of one game was unreadable or yielded no usable
    /// records.
    FilesDocUnusable { game_id: u32 },
}

/// Where the driver stands in the three-tier sweep: the two top-level
/// fetches, the read-back of the games document, the per-game files tier,
/// and the per-file scripts tier.
pub enum Phase {
    FetchGames,
    FetchChars,
    ReadGames,
    FetchFiles { ids: Vec<u32>, next: usize },
    ReadFilesDoc { ids: Vec<u32>, at: usize },
    FetchScripts { ids: Vec<u32>, at: usize, names: Vec<String>, next: usize },
    Done,
}

/// Every index a phase carries points at an item still to be handled.
pub open spec fn phase_wf(p: Phase) -> bool {
    match p {
        Phase::FetchFiles { ids, next } => next < ids@.len(),
        Phase::ReadFilesDoc { ids, at } => at < ids@.len(),
        Phase::FetchScripts { ids, at, names, next } => at < ids@.len() && next < names@.len(),
        _ => true,
    }
}

/// The event kind a phase waits for.
pub open spec fn expects(p: Phase, e: Event) -> bool {
    match p {
        Phase::FetchGames => e is Fetched,
        Phase::FetchChars => e is Fetched,
        Phase::FetchFiles { .. } => e is Fetched,
        Phase::FetchScripts { .. } => e is Fetched,
        Phase::ReadGames => e is DocRead,
        Phase::ReadFilesDoc { .. } => e is DocRead,
        Phase::Done => true,
    }
}

/// After the scripts of one game are done (or its files document yielded no
/// names), the driver turns to the next game, or finishes.
pub open spec fn scripts_tier_advances(ids: Seq<u32>, at: int, post: Phase) -> bool {
    if at + 1 < ids.len() {
        post matches Phase::ReadFilesDoc { ids: pids, at: pat } && pids@ == ids && pat == at + 1
    } else {
        post is Done
    }
}

/// The note a step owes the runner: exactly when a read-back document's
/// extraction failed, with the game id where there is one.
pub open spec fn note_matches(pre: Phase, e: Event, note: Option<StepNote>) -> bool {
    match pre {
        Phase::ReadGames => {
            if spec_games_extraction_failed(spec_doc_view(e->text)) {
                note matches Some(StepNote::GamesDocUnusable)
            } else {
                note is None
            }
        },
        Phase::ReadFilesDoc { ids, at } => {
            if spec_files_extraction_failed(spec_doc_view(e->text)) {
                note matches Some(StepNote::FilesDocUnusable { game_id }) && game_id == ids@[at as int]
            } else {
                note is None
            }
        },
        _ => note is None,
    }
}

/// How one step moves the sweep on: the two top-level fetches happen
/// unconditionally and in order; the games document gates the files tier;
/// each files document gates the scripts of its game; fetch outcomes are
/// never inspected, so a failure skips only its own item.
pub open spec fn step_post(pre: Phase, e: Event, post: Phase) -> bool {
    match pre {
        Phase::FetchGames => post is FetchChars,
        Phase::FetchChars => post is ReadGames,
        Phase::ReadGames => {
            let ids = spec_game_ids(spec_doc_view(e->text));
            if ids.len() == 0 {
                post is Done
            } else {
                post matches Phase::FetchFiles { ids: pids, next } && pids@ == ids && next == 0
            }
        },
        Phase::FetchFiles { ids, next } => {
            if next + 1 < ids@.len() {
                post matches Phase::FetchFiles { ids: pids, next: pnext } && pids@ == ids@
                    && pnext == next + 1
            } else {
                post matches Phase::ReadFilesDoc { ids: pids, at } && pids@ == ids@ && at == 0
            }
        },
        Phase::ReadFilesDoc { ids, at } => {
            let names = spec_file_names(spec_doc_view(e->text));
            if names.len() == 0 {
                scripts_tier_advances(ids@, at as int, post)
            } else {
                post matches Phase::FetchScripts { ids: pids, at: pat, names: pnames, next }
                    && pids@ == ids@ && pat == at && pnames@.map_values(|s: String| s@) == names
                    && next == 0
            }
        },
        Phase::FetchScripts { ids, at, names, next } => {
            if next + 1 < names@.len() {
                post matches Phase::FetchScripts { ids: pids, at: pat, names: pnames, next: pnext }
                    && pids@ == ids@ && pat == at && pnames@ == names@ && pnext == next + 1
            } else {
                scripts_tier_advances(ids@, at as int, post)
            }
        },
        Phase::Done => post is Done,
    }
}

/// Orchestrates the archival sweep as a step machine: `next_action` says
/// what to do in the current phase, and `step` consumes what came of it.
/// The surroundings perform the actions; every decision is made here.
pub struct Driver {
    pub urls: Endpoints,
    pub paths: FileNames,
    pub phase: Phase,
}

impl Driver {
    pub open spec fn wf(&self) -> bool {
        phase_wf(self.phase)
    }

    /// The exact request owed in the current phase: which URL is fetched,
    /// which path is written or read, pinned down to the character.
    pub open spec fn action_matches(&self, a: Action) -> bool {
        match self.phase {
            Phase::FetchGames => {
                &&& a matches Action::Fetch { url, path, game_id, file_name }
                &&& url@ == self.urls.spec_games_url()
                &&& path@ == self.paths.spec_games_path()
                &&& game_id is None
                &&& file_name is None
            },
            Phase::FetchChars => {
                &&& a matches Action::Fetch { url, path, game_id, file_name }
                &&& url@ == self.urls.spec_chars_url()
                &&& path@ == self.paths.spec_chars_path()
                &&& game_id is None
                &&& file_name is None
            },
            Phase::ReadGames => {
                &&& a matches Action::ReadDoc { path }
                &&& path@ == self.paths.spec_games_path()
            },
            Phase::FetchFiles { ids, next } => {
                &&& a matches Action::Fetch { url, path, game_id, file_name }
                &&& url@ == self.urls.spec_files_url(ids@[next as int])
                &&& path@ == self.paths.spec_file_path(ids@[next as int])
                &&& game_id == Some(ids@[next as int])
                &&& file_name is None
            },
            Phase::ReadFilesDoc { ids, at } => {
                &&& a matches Action::ReadDoc { path }
                &&& path@ == self.paths.spec_file_path(ids@[at as int])
            },
            Phase::FetchScripts { ids, at, names, next } => {
                &&& a matches Action::Fetch { url, path, game_id, file_name }
                &&& url@ == self.urls.spec_scripts_url(ids@[at as int], names@[next as int]@)
                &&& path@ == self.paths.spec_script_path(ids@[at as int], names@[next as int]@)
                &&& game_id == Some(ids@[at as int])
                &&& file_name matches Some(n)
                &&& n@ == names@[next as int]@
            },
            Phase::Done => a is Finished,
        }
    }

    /// A fresh driver, about to begin with the games fetch.
    pub fn new(urls: Endpoints, paths: FileNames) -> (d: Driver)
        ensures
            d.wf(),
            d.phase is FetchGames,
            d.urls == urls,
            d.paths == paths,
    {
        Driver { urls, paths, phase: Phase::FetchGames }
    }

    /// The action to perform in the current phase.
    pub fn next_action(&self) -> (a: Action)
        requires
            self.wf(),
        ensures
            self.action_matches(a),
    {
        match &self.phase {
            Phase::FetchGames => Action::Fetch {
                url: self.urls.get_games(),
                path: self.paths.games.clone(),
                game_id: None,
                file_name: None,
            },
            Phase::FetchChars => Action::Fetch {
                url: self.urls.get_chars(),
                path: self.paths.chars.clone(),
                game_id: None,
                file_name: None,
            },
            Phase::ReadGames => Action::ReadDoc { path: self.paths.games.clone() },
            Phase::FetchFiles { ids, next } => {
                let id: u32 = ids[*next];
                Action::Fetch {
                    url: self.urls.get_files(&id),
                    path: self.paths.get_file(&id),
                    game_id: Some(id),
                    file_name: None,
                }
            },
            Phase::ReadFilesDoc { ids, at } => {
                let id: u32 = ids[*at];
                Action::ReadDoc { path: self.paths.get_file(&id) }
            },
            Phase::FetchScripts { ids, at, names, next } => {
                let id: u32 = ids[*at];
                let name = &names[*next];
                Action::Fetch {
                    url: self.urls.get_scripts(&id, name),
                    path: self.paths.get_script(&id, name),
                    game_id: Some(id),
                    file_name: Some(name.clone()),
                }
            },
            Phase::Done => Action::Finished,
        }
    }

    /// Consumes the outcome of the action just performed and moves to the
    /// next phase. The resolvers are untouched; only the phase advances.
    /// The returned note says whether a read-back document's extraction
    /// failed, so the runner can report it; the sweep goes on either way.
    pub fn step(&mut self, e: Event) -> (note: Option<StepNote>)
        requires
            old(self).wf(),
            expects(old(self).phase, e),
        ensures
            final(self).wf(),
            step_post(old(self).phase, e, final(self).phase),
            note_matches(old(self).phase, e, note),
            final(self).urls == old(self).urls,
            final(self).paths == old(self).paths,
    {
        let mut pre = Phase::Done;
        core::mem::swap(&mut pre, &mut self.phase);
        let outcome: (Phase, Option<StepNote>) = match pre {
            Phase::FetchGames => (Phase::FetchChars, None),
            Phase::FetchChars => (Phase::ReadGames, None),
            Phase::ReadGames => {
                let doc = match e {
                    Event::DocRead { text } => text,
                    Event::Fetched { .. } => None,
                };
                let note = if games_extraction_failed(&doc) {
                    Some(StepNote::GamesDocUnusable)
                } else {
                    None
                };
                let ids = game_ids(&doc);
                if ids.len() == 0 {
                    (Phase::Done, note)
                } else {
                    (Phase::FetchFiles { ids, next: 0 }, note)
                }
            },
            Phase::FetchFiles { ids, next } => {
                let n: usize = ids.len();
                if next + 1 < n {
                    (Phase::FetchFiles { ids, next: next + 1 }, None)
                } else {
                    (Phase::ReadFilesDoc { ids, at: 0 }, None)
                }
            },
            Phase::ReadFilesDoc { ids, at } => {
                let doc = match e {
                    Event::DocRead { text } => text,
                    Event::Fetched { .. } => None,
                };
                let note = if files_extraction_failed(&doc) {
                    Some(StepNote::FilesDocUnusable { game_id: ids[at] })
                } else {
                    None
                };
                let names = file_names(&doc);
                let n: usize = ids.len();
                if names.len() == 0 {
                    if at + 1 < n {
                        (Phase::ReadFilesDoc { ids, at: at + 1 }, note)
                    } else {
                        (Phase::Done, note)
                    }
                } else {
                    (Phase::FetchScripts { ids, at, names, next: 0 }, note)
                }
            },
            Phase::FetchScripts { ids, at, names, next } => {
                let n: usize = ids.len();
                let m: usize = names.len();
                if next + 1 < m {
                    (Phase::FetchScripts { ids, at, names, next: next + 1 }, None)
                } else {
                    if at + 1 < n {
                        (Phase::ReadFilesDoc { ids, at: at + 1 }, None)
                    } else {
                        (Phase::Done, None)
                    }
                }
            },
            Phase::Done => (Phase::Done, None),
        };
        let (next_phase, note) = outcome;
        self.phase = next_phase;
        note
    }
}

} // verus!
