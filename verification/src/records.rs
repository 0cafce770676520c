use vstd::prelude::*;

verus! {

/// What serde_json finds under `key` across a JSON array of objects: the
/// unsigned integer stored at `key` in each element, in document order, or
/// nothing if the text is not an array of objects each carrying such a value.
pub uninterp spec fn u64_column_of(s: Seq<char>, key: Seq<char>) -> Option<Seq<u64>>;

/// As `u64_column_of`, for string-valued fields.
pub uninterp spec fn str_column_of(s: Seq<char>, key: Seq<char>) -> Option<Seq<Seq<char>>>;

/// Relies on serde_json::from_str for `Vec<Map<String, Value>>`, which
/// succeeds exactly on a JSON array of objects the parser accepts (within
/// its nesting limit), and on Map::get and Value::as_u64 to read one
/// unsigned integer field of each element. All of it is a function of the
/// two arguments alone.
#[verifier::external_body]
fn parse_u64_column(text: &str, key: &str) -> (r: Option<Vec<u64>>)
    ensures
        r is Some <==> u64_column_of(text@, key@) is Some,
        r matches Some(col) ==> Some(col@) == u64_column_of(text@, key@),
{
    let rows: Vec<serde_json::Map<String, serde_json::Value>> = match serde_json::from_str(text) {
        Ok(rows) => rows,
        Err(_) => return None,
    };
    let mut out: Vec<u64> = Vec::new();
    for row in rows.iter() {
        match row.get(key).and_then(serde_json::Value::as_u64) {
            Some(n) => out.push(n),
            None => return None,
        }
    }
    Some(out)
}

/// Relies on serde_json::from_str for `Vec<Map<String, Value>>`, Map::get
/// and Value::as_str, as `parse_u64_column` does for integer fields.
#[verifier::external_body]
fn parse_str_column(text: &str, key: &str) -> (r: Option<Vec<String>>)
    ensures
        r is Some <==> str_column_of(text@, key@) is Some,
        r matches Some(col) ==> Some(col@.map_values(|s: String| s@)) == str_column_of(
            text@,
            key@,
        ),
{
    let rows: Vec<serde_json::Map<String, serde_json::Value>> = match serde_json::from_str(text) {
        Ok(rows) => rows,
        Err(_) => return None,
    };
    let mut out: Vec<String> = Vec::new();
    for row in rows.iter() {
        match row.get(key).and_then(serde_json::Value::as_str) {
            Some(s) => out.push(s.to_string()),
            None => return None,
        }
    }
    Some(out)
}

/// The text a read-back document yielded, if the read succeeded.
pub open spec fn spec_doc_view(doc: Option<String>) -> Option<Seq<char>> {
    match doc {
        Some(s) => Some(s@),
        None => None,
    }
}

/// Keeps the first occurrence of each element and drops the rest, so the
/// result lists the distinct elements of `s` in order of first appearance.
pub open spec fn distinct_in_order<A>(s: Seq<A>) -> Seq<A>
    decreases s.len(),
{
    if s.len() == 0 {
        Seq::empty()
    } else if distinct_in_order(s.drop_last()).contains(s.last()) {
        distinct_in_order(s.drop_last())
    } else {
        distinct_in_order(s.drop_last()).push(s.last())
    }
}

/// The game IDs the driver extracts from the games document: the distinct
/// ids in first-occurrence order, or empty when the document is missing, is
/// not an array of records each carrying an `id` number, or holds an `id`
/// beyond `u32`. A failed parse yields zero discovered games, never an
/// abort.
pub open spec fn spec_game_ids(doc: Option<Seq<char>>) -> Seq<u32> {
    match doc {
        None => Seq::empty(),
        Some(s) => match u64_column_of(s, "id"@) {
            None => Seq::empty(),
            Some(col) => if forall|i: int| 0 <= i < col.len() ==> #[trigger] col[i] <= u32::MAX {
                distinct_in_order(Seq::new(col.len(), |i: int| col[i] as u32))
            } else {
                Seq::empty()
            },
        },
    }
}

/// The file names the driver extracts from one per-game files document: the
/// distinct names in first-occurrence order, or empty when the document is
/// missing or does not list records each carrying an `fname` string.
pub open spec fn spec_file_names(doc: Option<Seq<char>>) -> Seq<Seq<char>> {
    match doc {
        None => Seq::empty(),
        Some(s) => match str_column_of(s, "fname"@) {
            None => Seq::empty(),
            Some(col) => distinct_in_order(col),
        },
    }
}

/// Whether the games document gave the driver nothing to extract: it was
/// unreadable, was not an array of records carrying `id` numbers, or held
/// an `id` beyond `u32`. An empty array is not a failure.
pub open spec fn spec_games_extraction_failed(doc: Option<Seq<char>>) -> bool {
    match doc {
        None => true,
        Some(s) => match u64_column_of(s, "id"@) {
            None => true,
            Some(col) => !(forall|i: int| 0 <= i < col.len() ==> #[trigger] col[i] <= u32::MAX),
        },
    }
}

/// Whether a per-game files document gave the driver nothing to extract.
pub open spec fn spec_files_extraction_failed(doc: Option<Seq<char>>) -> bool {
    match doc {
        None => true,
        Some(s) => str_column_of(s, "fname"@) is None,
    }
}

/// Whether `x` already occurs in `seen`.
fn contains_id(seen: &Vec<u32>, x: u32) -> (r: bool)
    ensures
        r == seen@.contains(x),
{
    let mut i: usize = 0;
    while i < seen.len()
        invariant
            i <= seen@.len(),
            forall|j: int| 0 <= j < i ==> seen@[j] != x,
        decreases seen@.len() - i,
    {
        if seen[i] == x {
            proof {
                assert(seen@.contains(x));
            }
            return true;
        }
        i += 1;
    }
    proof {
        assert(!seen@.contains(x));
    }
    false
}

/// Whether a name with the text of `x` already occurs in `seen`.
fn contains_name(seen: &Vec<String>, x: &String) -> (r: bool)
    ensures
        r == seen@.map_values(|s: String| s@).contains(x@),
{
    let mut i: usize = 0;
    while i < seen.len()
        invariant
            i <= seen@.len(),
            forall|j: int| 0 <= j < i ==> #[trigger] seen@[j]@ != x@,
        decreases seen@.len() - i,
    {
        if seen[i] == *x {
            proof {
                assert(seen@.map_values(|s: String| s@)[i as int] == x@);
                assert(seen@.map_values(|s: String| s@).contains(x@));
            }
            return true;
        }
        i += 1;
    }
    proof {
        let mv = seen@.map_values(|s: String| s@);
        assert forall|j: int| 0 <= j < mv.len() implies #[trigger] mv[j] != x@ by {
            assert(mv[j] == seen@[j]@);
        }
        assert(!mv.contains(x@));
    }
    false
}

/// Extracts the distinct game IDs out of a read-back games document, in
/// first-occurrence order.
pub fn game_ids(doc: &Option<String>) -> (ids: Vec<u32>)
    ensures
        ids@ == spec_game_ids(spec_doc_view(*doc)),
{
    match doc {
        None => Vec::new(),
        Some(text) => match parse_u64_column(text.as_str(), "id") {
            None => Vec::new(),
            Some(col) => {
                let mut all: Vec<u32> = Vec::new();
                let mut k: usize = 0;
                while k < col.len()
                    invariant
                        k <= col@.len(),
                        all@.len() == k as int,
                        forall|i: int| 0 <= i < k ==> #[trigger] col@[i] <= u32::MAX,
                        forall|i: int| 0 <= i < k ==> #[trigger] all@[i] == col@[i] as u32,
                        Some(col@) == u64_column_of(text@, "id"@),
                        spec_doc_view(*doc) == Some(text@),
                    decreases col@.len() - k,
                {
                    let v: u64 = col[k];
                    if v > 0xffff_ffff {
                        proof {
                            match u64_column_of(text@, "id"@) {
                                Some(spec_col) => {
                                    assert(spec_col[k as int] > u32::MAX);
                                    assert(!(forall|i: int|
                                        0 <= i < spec_col.len() ==> #[trigger] spec_col[i]
                                            <= u32::MAX));
                                },
                                None => {
                                    assert(false);
                                },
                            }
                        }
                        return Vec::new();
                    }
                    all.push(v as u32);
                    k += 1;
                }
                proof {
                    assert(all@ =~= Seq::new(col@.len(), |i: int| col@[i] as u32));
                }
                let mut ids: Vec<u32> = Vec::new();
                let mut d: usize = 0;
                while d < all.len()
                    invariant
                        d <= all@.len(),
                        ids@ == distinct_in_order(all@.take(d as int)),
                    decreases all@.len() - d,
                {
                    proof {
                        assert(all@.take(d as int + 1).drop_last() =~= all@.take(d as int));
                        assert(all@.take(d as int + 1).last() == all@[d as int]);
                    }
                    let v: u32 = all[d];
                    if !contains_id(&ids, v) {
                        ids.push(v);
                    }
                    d += 1;
                }
                proof {
                    assert(all@.take(all@.len() as int) =~= all@);
                }
                ids
            },
        },
    }
}

/// Extracts the distinct file names out of a read-back per-game files
/// document, in first-occurrence order.
pub fn file_names(doc: &Option<String>) -> (names: Vec<String>)
    ensures
        names@.map_values(|s: String| s@) == spec_file_names(spec_doc_view(*doc)),
{
    match doc {
        None => {
            let names: Vec<String> = Vec::new();
            proof {
                assert(names@.map_values(|s: String| s@) =~= spec_file_names(
                    spec_doc_view(*doc),
                ));
            }
            names
        },
        Some(text) => match parse_str_column(text.as_str(), "fname") {
            None => {
                let names: Vec<String> = Vec::new();
                proof {
                    assert(names@.map_values(|s: String| s@) =~= spec_file_names(
                        spec_doc_view(*doc),
                    ));
                }
                names
            },
            Some(col) => {
                let ghost cv = col@.map_values(|s: String| s@);
                let mut names: Vec<String> = Vec::new();
                let mut d: usize = 0;
                while d < col.len()
                    invariant
                        d <= col@.len(),
                        cv == col@.map_values(|s: String| s@),
                        names@.map_values(|s: String| s@) == distinct_in_order(cv.take(d as int)),
                    decreases col@.len() - d,
                {
                    proof {
                        assert(cv.take(d as int + 1).drop_last() =~= cv.take(d as int));
                        assert(cv.take(d as int + 1).last() == cv[d as int]);
                        assert(cv[d as int] == col@[d as int]@);
                    }
                    let name = &col[d];
                    if !contains_name(&names, name) {
                        let ghost pre = names@;
                        names.push(name.clone());
                        proof {
                            assert(names@.map_values(|s: String| s@) =~= pre.map_values(
                                |s: String| s@,
                            ).push(cv[d as int]));
                        }
                    }
                    d += 1;
                }
                proof {
                    assert(cv.take(cv.len() as int) =~= cv);
                }
                names
            },
        },
    }
}

/// Says whether the games document's extraction failed, so the runner can
/// report the parse failure; the sweep itself goes on with zero games.
pub fn games_extraction_failed(doc: &Option<String>) -> (r: bool)
    ensures
        r == spec_games_extraction_failed(spec_doc_view(*doc)),
{
    match doc {
        None => true,
        Some(text) => match parse_u64_column(text.as_str(), "id") {
            None => true,
            Some(col) => {
                let mut k: usize = 0;
                while k < col.len()
                    invariant
                        k <= col@.len(),
                        forall|i: int| 0 <= i < k ==> #[trigger] col@[i] <= u32::MAX,
                        Some(col@) == u64_column_of(text@, "id"@),
                        spec_doc_view(*doc) == Some(text@),
                    decreases col@.len() - k,
                {
                    let v: u64 = col[k];
                    if v > 0xffff_ffff {
                        proof {
                            match u64_column_of(text@, "id"@) {
                                Some(spec_col) => {
                                    assert(spec_col[k as int] > u32::MAX);
                                    assert(!(forall|i: int|
                                        0 <= i < spec_col.len() ==> #[trigger] spec_col[i]
                                            <= u32::MAX));
                                },
                                None => {
                                    assert(false);
                                },
                            }
                        }
                        return true;
                    }
                    k += 1;
                }
                false
            },
        },
    }
}

/// Says whether a per-game files document's extraction failed, so the
/// runner can report the parse failure; the game's scripts are skipped.
pub fn files_extraction_failed(doc: &Option<String>) -> (r: bool)
    ensures
        r == spec_files_extraction_failed(spec_doc_view(*doc)),
{
    match doc {
        None => true,
        Some(text) => parse_str_column(text.as_str(), "fname").is_none(),
    }
}

} // verus!
