use vstd::prelude::*;

verus! {

/// Whether a text is a well-formed JSON document.
pub uninterp spec fn is_json(s: Seq<char>) -> bool;

/// The stable pretty-printed form of a JSON text: the document it denotes,
/// re-serialized with human-readable multi-line formatting.
pub uninterp spec fn pretty_of(s: Seq<char>) -> Seq<char>;

/// What can go wrong while archiving one entity. The driver isolates each
/// failure to the item it struck; only `Setup` aborts a run.
#[derive(Clone, Copy, Debug, PartialEq, Eq, Structural)]
pub enum ArchiveError {
    /// The destination directories could not be created.
    Setup,
    /// The HTTP request failed or returned a non-success status.
    Transport,
    /// The response body is not well-formed JSON.
    Parse,
    /// The artifact could not be written to disk.
    LocalIo,
}

/// Relies on serde_json::from_str::<Value>, which succeeds exactly on JSON
/// text the parser accepts (well-formed, within its nesting limit and
/// number ranges), and on serde_json::to_string_pretty, which renders
/// the parsed value in its stable pretty form (infallible for `Value`). Its
/// output is itself well-formed JSON that parses back to an equal value, so
/// pretty-printing an already-pretty document reproduces it unchanged.
#[verifier::external_body]
fn parse_and_pretty(text: &str) -> (r: Option<String>)
    ensures
        r is Some <==> is_json(text@),
        r matches Some(p) ==> p@ == pretty_of(text@) && is_json(p@) && pretty_of(p@) == p@,
{
    match serde_json::from_str::<serde_json::Value>(text) {
        Ok(v) => serde_json::to_string_pretty(&v).ok(),
        Err(_) => None,
    }
}

/// The compute half of the fetch-and-store primitive: checks that a response
/// body is well-formed JSON and renders it in the stable on-disk form. The
/// result is the exact artifact text; re-normalizing it reproduces it
/// byte for byte, so overwriting an archive with an unchanged response is
/// idempotent.
pub fn normalize_document(text: &String) -> (r: Result<String, ArchiveError>)
    ensures
        r is Ok <==> is_json(text@),
        r matches Ok(p) ==> p@ == pretty_of(text@) && is_json(p@) && pretty_of(p@) == p@,
        r matches Err(e) ==> e is Parse,
{
    match parse_and_pretty(text.as_str()) {
        Some(p) => Ok(p),
        None => Err(ArchiveError::Parse),
    }
}

} // verus!
