//! Decoding of DataVolley scout files: a text of bracketed sections holding match
//! metadata, the teams, the sets, the rosters and the play-by-play action codes.
use vstd::prelude::*;

pub mod code;
pub mod cursor;
pub mod data_formats;
pub mod error;
pub mod lemmas;
pub mod sections;
pub mod text;

pub use code::{ActionType, CodeError, CodeExplanation, Evaluation, Skill, TeamSide};
pub use cursor::LineCursor;
pub use data_formats::{Action, Game, MatchSet, Metadata, Player, ReleaseData, ScoutFile, SetPoints, Team};
pub use error::{DecodeError, ErrorKind, Section};
pub use sections::{
    read_actions,
    read_game,
    read_metadata,
    read_players,
    read_release_data,
    read_scout_file,
    read_set_lines,
    read_sets,
    read_team,
    skip_category,
    skip_until,
};

verus! {

/// Decodes the whole text of a scout file.
pub fn read(input: &str) -> (r: Result<ScoutFile, DecodeError>)
    ensures
        sections::result_view(r) == sections::scout_file_of(input@),
{
    read_scout_file(input)
}

} // verus!
