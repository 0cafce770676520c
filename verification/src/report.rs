use vstd::prelude::*;

use crate::decimal::{decimal_of, u32_string};
use crate::json::ArchiveError;

verus! {

impl ArchiveError {
    /// A short name for the cause.
    pub open spec fn spec_describe(&self) -> Seq<char> {
        match self {
            ArchiveError::Setup => "setup failure"@,
            ArchiveError::Transport => "transport failure"@,
            ArchiveError::Parse => "parse failure"@,
            ArchiveError::LocalIo => "local write failure"@,
        }
    }

    /// Renders the cause for a report line.
    pub fn describe(&self) -> (r: &'static str)
        ensures
            r@ == self.spec_describe(),
    {
        match self {
            ArchiveError::Setup => "setup failure",
            ArchiveError::Transport => "transport failure",
            ArchiveError::Parse => "parse failure",
            ArchiveError::LocalIo => "local write failure",
        }
    }
}

/// The view of an optionally known file name.
pub open spec fn spec_opt_name(file_name: Option<&String>) -> Option<Seq<char>> {
    match file_name {
        Some(n) => Some(n@),
        None => None,
    }
}

/// One uniform failure report: the stage that failed, then whichever of the
/// two identifying keys the item has, then the cause.
pub open spec fn spec_report_line(
    stage: Seq<char>,
    game_id: Option<u32>,
    file_name: Option<Seq<char>>,
    cause: ArchiveError,
) -> Seq<char> {
    stage + (match game_id {
        Some(id) => " game_id="@ + decimal_of(id as nat),
        None => Seq::<char>::empty(),
    }) + (match file_name {
        Some(n) => " file_name="@ + n,
        None => Seq::<char>::empty(),
    }) + ": "@ + cause.spec_describe()
}

/// Builds the one log line every failure is reported through, so that each
/// report names the stage, the offending game id and file name as far as
/// they exist, and the underlying cause, always in the same shape.
pub fn report_line(
    stage: &str,
    game_id: Option<u32>,
    file_name: Option<&String>,
    cause: &ArchiveError,
) -> (r: String)
    ensures
        r@ == spec_report_line(stage@, game_id, spec_opt_name(file_name), *cause),
{
    let mut line = String::from_str(stage);
    match game_id {
        Some(id) => {
            line.append(" game_id=");
            let n = u32_string(id);
            line.append(n.as_str());
        },
        None => {},
    }
    match file_name {
        Some(name) => {
            line.append(" file_name=");
            line.append(name.as_str());
        },
        None => {},
    }
    line.append(": ");
    line.append(cause.describe());
    proof {
        assert(line@ =~= spec_report_line(stage@, game_id, spec_opt_name(file_name), *cause));
    }
    line
}

} // verus!
