use vstd::prelude::*;

use crate::decimal::{decimal_of, lemma_decimal_of_digits};
use crate::driver::{expects, phase_wf, step_post, Action, Driver, Event, Phase};
use crate::endpoints::Endpoints;
use crate::file_paths::FileNames;
use crate::records::{spec_doc_view, spec_game_ids};

verus! {

/// No character of `s` opens or closes a `{...}` placeholder.
pub open spec fn placeholder_free(s: Seq<char>) -> bool {
    !s.contains('{') && !s.contains('}')
}

/// Concatenation introduces no character that neither part holds.
proof fn lemma_concat_keeps_out(a: Seq<char>, b: Seq<char>, c: char)
    requires
        !a.contains(c),
        !b.contains(c),
    ensures
        !(a + b).contains(c),
{
    assert forall|i: int| 0 <= i < (a + b).len() implies (a + b)[i] != c by {
        if i < a.len() {
            assert((a + b)[i] == a[i]);
        } else {
            assert((a + b)[i] == b[i - a.len()]);
        }
    }
}

/// Concatenating two placeholder-free texts stays placeholder-free.
proof fn lemma_concat_placeholder_free(a: Seq<char>, b: Seq<char>)
    requires
        placeholder_free(a),
        placeholder_free(b),
    ensures
        placeholder_free(a + b),
{
    lemma_concat_keeps_out(a, b, '{');
    lemma_concat_keeps_out(a, b, '}');
}

/// A decimal numeral consists of digits alone, so it is placeholder-free.
proof fn lemma_decimal_placeholder_free(n: nat)
    ensures
        placeholder_free(decimal_of(n)),
{
    lemma_decimal_of_digits(n);
    assert forall|i: int| 0 <= i < decimal_of(n).len() implies decimal_of(n)[i] != '{' by {
        assert('0' <= decimal_of(n)[i] <= '9');
    }
    assert forall|i: int| 0 <= i < decimal_of(n).len() implies decimal_of(n)[i] != '}' by {
        assert('0' <= decimal_of(n)[i] <= '9');
    }
}

/// For every base address and game id, the files URL is exactly the base,
/// the fixed `/api/file?` route and the query `game_id=` followed by the
/// id's decimal numeral: the identifier is substituted in full, the query
/// stands as a literal substring right after the route, and — when the base
/// itself carries no brace — no `{...}` placeholder survives anywhere.
pub proof fn lemma_files_url_carries_id(e: Endpoints, game_id: u32)
    ensures
        e.spec_files_url(game_id) == e.base_spec() + "/api/file?"@ + ("game_id="@ + decimal_of(
            game_id as nat,
        )),
        e.spec_files_url(game_id).subrange(
            e.base_spec().len() as int + 10,
            e.spec_files_url(game_id).len() as int,
        ) == "game_id="@ + decimal_of(game_id as nat),
        placeholder_free(e.base_spec()) ==> placeholder_free(e.spec_files_url(game_id)),
{
    reveal_strlit("/api/file?game_id=");
    reveal_strlit("/api/file?");
    reveal_strlit("game_id=");
    let u = e.spec_files_url(game_id);
    assert("/api/file?game_id="@ =~= "/api/file?"@ + "game_id="@);
    assert(u =~= e.base_spec() + "/api/file?"@ + ("game_id="@ + decimal_of(game_id as nat)));
    assert(u.subrange(e.base_spec().len() as int + 10, u.len() as int) =~= "game_id="@ + decimal_of(
        game_id as nat,
    ));
    if placeholder_free(e.base_spec()) {
        assert(placeholder_free("/api/file?game_id="@));
        lemma_decimal_placeholder_free(game_id as nat);
        lemma_concat_placeholder_free(e.base_spec(), "/api/file?game_id="@);
        lemma_concat_placeholder_free(
            e.base_spec() + "/api/file?game_id="@,
            decimal_of(game_id as nat),
        );
    }
}

/// For every base address, game id and file name free of braces, the
/// scripts URL carries both identifiers substituted in full and keeps no
/// `{...}` placeholder.
pub proof fn lemma_scripts_url_resolved(e: Endpoints, game_id: u32, file_name: Seq<char>)
    requires
        placeholder_free(e.base_spec()),
        placeholder_free(file_name),
    ensures
        placeholder_free(e.spec_scripts_url(game_id, file_name)),
{
    reveal_strlit("/api/script/detail/");
    reveal_strlit("/");
    assert(placeholder_free("/api/script/detail/"@));
    assert(placeholder_free("/"@));
    lemma_decimal_placeholder_free(game_id as nat);
    lemma_concat_placeholder_free(e.base_spec(), "/api/script/detail/"@);
    lemma_concat_placeholder_free(
        e.base_spec() + "/api/script/detail/"@,
        decimal_of(game_id as nat),
    );
    lemma_concat_placeholder_free(
        e.base_spec() + "/api/script/detail/"@ + decimal_of(game_id as nat),
        "/"@,
    );
    lemma_concat_placeholder_free(
        e.base_spec() + "/api/script/detail/"@ + decimal_of(game_id as nat) + "/"@,
        file_name,
    );
}

/// For every game id and file name free of braces, the script path carries
/// both identifiers substituted in full and keeps no `{...}` placeholder.
pub proof fn lemma_script_path_resolved(p: FileNames, game_id: u32, file_name: Seq<char>)
    requires
        placeholder_free(file_name),
    ensures
        placeholder_free(p.spec_script_path(game_id, file_name)),
{
    reveal_strlit("data/scripts/scripts_game_id_");
    reveal_strlit("_file_name_");
    reveal_strlit(".json");
    assert(placeholder_free("data/scripts/scripts_game_id_"@));
    assert(placeholder_free("_file_name_"@));
    assert(placeholder_free(".json"@));
    lemma_decimal_placeholder_free(game_id as nat);
    lemma_concat_placeholder_free("data/scripts/scripts_game_id_"@, decimal_of(game_id as nat));
    lemma_concat_placeholder_free(
        "data/scripts/scripts_game_id_"@ + decimal_of(game_id as nat),
        "_file_name_"@,
    );
    lemma_concat_placeholder_free(
        "data/scripts/scripts_game_id_"@ + decimal_of(game_id as nat) + "_file_name_"@,
        file_name,
    );
    lemma_concat_placeholder_free(
        "data/scripts/scripts_game_id_"@ + decimal_of(game_id as nat) + "_file_name_"@ + file_name,
        ".json"@,
    );
}

/// The fixed base address of `Endpoints::new` carries no brace, so it meets
/// the premise of the placeholder laws above.
pub proof fn lemma_default_base_placeholder_free()
    ensures
        placeholder_free("https://trailsinthedatabase.com"@),
{
    reveal_strlit("https://trailsinthedatabase.com");
    assert(!"https://trailsinthedatabase.com"@.contains('{'));
    assert(!"https://trailsinthedatabase.com"@.contains('}'));
}

/// A fetch failure is isolated to its item: in every phase that awaits a
/// fetch outcome, the driver moves to the same next phase — and so issues
/// the same later requests — whether the fetch succeeded or failed.
pub proof fn lemma_fetch_outcome_isolated(pre: Phase, ok1: bool, ok2: bool, post: Phase)
    requires
        expects(pre, Event::Fetched { ok: ok1 }),
    ensures
        step_post(pre, Event::Fetched { ok: ok1 }, post) == step_post(
            pre,
            Event::Fetched { ok: ok2 },
            post,
        ),
{
}

/// A games document that yields no IDs ends the sweep right after the
/// read-back: no files fetch and no scripts fetch is ever issued, while the
/// games and characters fetches have already taken place.
pub proof fn lemma_no_ids_ends_sweep(e: Event, post: Phase)
    requires
        e matches Event::DocRead { text } && spec_game_ids(spec_doc_view(text)).len() == 0,
        step_post(Phase::ReadGames, e, post),
    ensures
        post is Done,
{
}

/// The files-tier requests still owed from position `next` on: one fetch
/// per remaining game id, in document order.
pub open spec fn files_tier_plan(urls: Endpoints, ids: Seq<u32>, next: int) -> Seq<Seq<char>>
    recommends
        0 <= next <= ids.len(),
{
    Seq::new((ids.len() - next) as nat, |i: int| urls.spec_files_url(ids[next + i]))
}

/// The scripts-tier requests still owed for one game from position `next`
/// on: one fetch per remaining file name, in document order.
pub open spec fn scripts_tier_plan(
    urls: Endpoints,
    game_id: u32,
    names: Seq<Seq<char>>,
    next: int,
) -> Seq<Seq<char>>
    recommends
        0 <= next <= names.len(),
{
    Seq::new((names.len() - next) as nat, |i: int| urls.spec_scripts_url(game_id, names[next + i]))
}

/// The files tier issues exactly one fetch per extracted game id, in
/// document order: in each of its phases the very next fetch is the head of
/// what the tier still owes, and one step leaves exactly the tail — so a
/// games document with ids `i1, ..., in` yields the fetches
/// `files(i1), ..., files(in)` and no others.
pub proof fn lemma_files_tier_in_order(d: Driver, e: Event, post: Phase)
    requires
        d.wf(),
        d.phase matches Phase::FetchFiles { .. },
        step_post(d.phase, e, post),
    ensures
        d.phase matches Phase::FetchFiles { ids, next } ==> {
            let plan = files_tier_plan(d.urls, ids@, next as int);
            &&& plan[0] == d.urls.spec_files_url(ids@[next as int])
            &&& forall|a: Action| d.action_matches(a) ==> (a matches Action::Fetch { url, .. }
                && url@ == plan[0])
            &&& (post matches Phase::FetchFiles { ids: pids, next: pnext } ==> files_tier_plan(
                d.urls,
                pids@,
                pnext as int,
            ) == plan.drop_first())
            &&& (post matches Phase::ReadFilesDoc { .. } ==> plan.len() == 1)
        },
{
    if let Phase::FetchFiles { ids, next } = d.phase {
        let plan = files_tier_plan(d.urls, ids@, next as int);
        if let Phase::FetchFiles { ids: pids, next: pnext } = post {
            assert(files_tier_plan(d.urls, pids@, pnext as int) =~= plan.drop_first());
        }
    }
}

/// The scripts tier issues exactly one fetch per extracted file name of its
/// game, in document order, in the same head-first way as the files tier.
pub proof fn lemma_scripts_tier_in_order(d: Driver, e: Event, post: Phase)
    requires
        d.wf(),
        d.phase matches Phase::FetchScripts { .. },
        step_post(d.phase, e, post),
    ensures
        d.phase matches Phase::FetchScripts { ids, at, names, next } ==> {
            let plan = scripts_tier_plan(
                d.urls,
                ids@[at as int],
                names@.map_values(|s: String| s@),
                next as int,
            );
            &&& plan[0] == d.urls.spec_scripts_url(ids@[at as int], names@[next as int]@)
            &&& forall|a: Action| d.action_matches(a) ==> (a matches Action::Fetch { url, .. }
                && url@ == plan[0])
            &&& (post matches Phase::FetchScripts { ids: pids, at: pat, names: pnames, next: pnext }
                ==> scripts_tier_plan(
                d.urls,
                pids@[pat as int],
                pnames@.map_values(|s: String| s@),
                pnext as int,
            ) == plan.drop_first())
            &&& (!(post matches Phase::FetchScripts { .. }) ==> plan.len() == 1)
        },
{
    if let Phase::FetchScripts { ids, at, names, next } = d.phase {
        let plan = scripts_tier_plan(
            d.urls,
            ids@[at as int],
            names@.map_values(|s: String| s@),
            next as int,
        );
        if let Phase::FetchScripts { ids: pids, at: pat, names: pnames, next: pnext } = post {
            assert(scripts_tier_plan(
                d.urls,
                pids@[pat as int],
                pnames@.map_values(|s: String| s@),
                pnext as int,
            ) =~= plan.drop_first());
        }
    }
}

/// How much of the sweep is still ahead of a phase, as a tuple compared
/// lexicographically: the tier, the games not yet handled in it, the
/// position within one game, the scripts not yet fetched for one file list.
pub open spec fn phase_measure(p: Phase) -> (int, int, int, int) {
    match p {
        Phase::FetchGames => (5, 0, 0, 0),
        Phase::FetchChars => (4, 0, 0, 0),
        Phase::ReadGames => (3, 0, 0, 0),
        Phase::FetchFiles { ids, next } => (2, ids@.len() - next, 0, 0),
        Phase::ReadFilesDoc { ids, at } => (1, ids@.len() - at, 1, 0),
        Phase::FetchScripts { ids, at, names, next } => (
            1,
            ids@.len() - at,
            0,
            names@.len() - next,
        ),
        Phase::Done => (0, 0, 0, 0),
    }
}

/// Lexicographic order on the measure.
pub open spec fn measure_lt(a: (int, int, int, int), b: (int, int, int, int)) -> bool {
    ||| a.0 < b.0
    ||| (a.0 == b.0 && a.1 < b.1)
    ||| (a.0 == b.0 && a.1 == b.1 && a.2 < b.2)
    ||| (a.0 == b.0 && a.1 == b.1 && a.2 == b.2 && a.3 < b.3)
}

/// The sweep always finishes: every step out of a phase that is not yet
/// done strictly shrinks what is still ahead, so a run that answers every
/// action reaches `Done` after finitely many steps.
pub proof fn lemma_step_measures_down(pre: Phase, e: Event, post: Phase)
    requires
        phase_wf(pre),
        step_post(pre, e, post),
        !(pre is Done),
    ensures
        measure_lt(phase_measure(post), phase_measure(pre)),
{
}

/// Two phases that agree on everything observable: same position in the
/// sweep, same extracted identifiers.
pub open spec fn phase_like(p: Phase, q: Phase) -> bool {
    match (p, q) {
        (Phase::FetchGames, Phase::FetchGames) => true,
        (Phase::FetchChars, Phase::FetchChars) => true,
        (Phase::ReadGames, Phase::ReadGames) => true,
        (
            Phase::FetchFiles { ids: i1, next: n1 },
            Phase::FetchFiles { ids: i2, next: n2 },
        ) => i1@ == i2@ && n1 == n2,
        (
            Phase::ReadFilesDoc { ids: i1, at: a1 },
            Phase::ReadFilesDoc { ids: i2, at: a2 },
        ) => i1@ == i2@ && a1 == a2,
        (
            Phase::FetchScripts { ids: i1, at: a1, names: m1, next: n1 },
            Phase::FetchScripts { ids: i2, at: a2, names: m2, next: n2 },
        ) => i1@ == i2@ && a1 == a2 && m1@.map_values(|s: String| s@) == m2@.map_values(
            |s: String| s@,
        ) && n1 == n2,
        (Phase::Done, Phase::Done) => true,
        _ => false,
    }
}

/// Two actions that request the same thing: same kind, same URL text, same
/// path text, same identifying keys.
pub open spec fn action_like(a: Action, b: Action) -> bool {
    match (a, b) {
        (
            Action::Fetch { url: u1, path: p1, game_id: g1, file_name: f1 },
            Action::Fetch { url: u2, path: p2, game_id: g2, file_name: f2 },
        ) => u1@ == u2@ && p1@ == p2@ && g1 == g2 && (match (f1, f2) {
            (Some(n1), Some(n2)) => n1@ == n2@,
            (None, None) => true,
            _ => false,
        }),
        (Action::ReadDoc { path: p1 }, Action::ReadDoc { path: p2 }) => p1@ == p2@,
        (Action::Finished, Action::Finished) => true,
        _ => false,
    }
}

/// The sweep is deterministic: from one phase and one outcome there is only
/// one next phase. With `lemma_action_deterministic` and the fact that the
/// stored artifact is a function of the response text alone, re-running the
/// driver against unchanged responses replays the same requests and writes
/// byte-identical artifacts.
pub proof fn lemma_step_deterministic(pre: Phase, e: Event, post1: Phase, post2: Phase)
    requires
        step_post(pre, e, post1),
        step_post(pre, e, post2),
    ensures
        phase_like(post1, post2),
{
}

/// One phase owes one request: any two actions the current phase admits ask
/// for the same URL and the same path.
pub proof fn lemma_action_deterministic(d: Driver, a: Action, b: Action)
    requires
        d.action_matches(a),
        d.action_matches(b),
    ensures
        action_like(a, b),
{
}

} // verus!
