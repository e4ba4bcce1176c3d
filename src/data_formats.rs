use vstd::prelude::*;
use crate::code::{CodeError, CodeExplanation, decode_code};

verus! {

#[derive(Debug)]
pub struct ReleaseData {
    pub datetime: String,
    pub idp: String,
    pub program: String,
    pub version: String,
    pub license: String,
    pub scouter_name: String,
}

pub struct ReleaseDataView {
    pub datetime: Seq<char>,
    pub idp: Seq<char>,
    pub program: Seq<char>,
    pub version: Seq<char>,
    pub license: Seq<char>,
    pub scouter_name: Seq<char>,
}

impl View for ReleaseData {
    type V = ReleaseDataView;

    open spec fn view(&self) -> ReleaseDataView {
        ReleaseDataView {
            datetime: self.datetime@,
            idp: self.idp@,
            program: self.program@,
            version: self.version@,
            license: self.license@,
            scouter_name: self.scouter_name@,
        }
    }
}

impl ReleaseData {
    pub fn new(
        datetime: String,
        idp: String,
        program: String,
        version: String,
        license: String,
        scouter_name: String,
    ) -> (r: ReleaseData)
        ensures
            r@ == (ReleaseDataView {
                datetime: datetime@,
                idp: idp@,
                program: program@,
                version: version@,
                license: license@,
                scouter_name: scouter_name@,
            }),
    {
        ReleaseData { datetime, idp, program, version, license, scouter_name }
    }
}

#[derive(Debug)]
pub struct Metadata {
    pub file_format: String,
    pub creation_data: ReleaseData,
    pub modification_data: ReleaseData,
}

pub struct MetadataView {
    pub file_format: Seq<char>,
    pub creation_data: ReleaseDataView,
    pub modification_data: ReleaseDataView,
}

impl View for Metadata {
    type V = MetadataView;

    open spec fn view(&self) -> MetadataView {
        MetadataView {
            file_format: self.file_format@,
            creation_data: self.creation_data@,
            modification_data: self.modification_data@,
        }
    }
}

impl Metadata {
    pub fn new(file_format: String, creation_data: ReleaseData, modification_data: ReleaseData) -> (r:
        Metadata)
        ensures
            r@ == (MetadataView {
                file_format: file_format@,
                creation_data: creation_data@,
                modification_data: modification_data@,
            }),
    {
        Metadata { file_format, creation_data, modification_data }
    }
}

#[derive(Debug)]
pub struct Game {
    pub date: String,
    pub time: String,
    pub season: String,
    pub game_type: String,
}

pub struct GameView {
    pub date: Seq<char>,
    pub time: Seq<char>,
    pub season: Seq<char>,
    pub game_type: Seq<char>,
}

impl View for Game {
    type V = GameView;

    open spec fn view(&self) -> GameView {
        GameView {
            date: self.date@,
            time: self.time@,
            season: self.season@,
            game_type: self.game_type@,
        }
    }
}

impl Game {
    pub fn new(date: String, time: String, season: String, game_type: String) -> (r: Game)
        ensures
            r@ == (GameView {
                date: date@,
                time: time@,
                season: season@,
                game_type: game_type@,
            }),
    {
        Game { date, time, season, game_type }
    }
}

#[derive(Debug)]
pub struct Team {
    pub team_id: String,
    pub team_name: String,
    pub sets_won: u8,
    pub head_coach: String,
    pub assistant_coaches: String,
}

pub struct TeamView {
    pub team_id: Seq<char>,
    pub team_name: Seq<char>,
    pub sets_won: u8,
    pub head_coach: Seq<char>,
    pub assistant_coaches: Seq<char>,
}

impl View for Team {
    type V = TeamView;

    open spec fn view(&self) -> TeamView {
        TeamView {
            team_id: self.team_id@,
            team_name: self.team_name@,
            sets_won: self.sets_won,
            head_coach: self.head_coach@,
            assistant_coaches: self.assistant_coaches@,
        }
    }
}

impl Team {
    pub fn new(
        team_id: String,
        team_name: String,
        sets_won: u8,
        head_coach: String,
        assistant_coaches: String,
    ) -> (r: Team)
        ensures
            r@ == (TeamView {
                team_id: team_id@,
                team_name: team_name@,
                sets_won,
                head_coach: head_coach@,
                assistant_coaches: assistant_coaches@,
            }),
    {
        Team { team_id, team_name, sets_won, head_coach, assistant_coaches }
    }
}

/// The points of the home and the visiting team.
#[derive(Clone, Copy, Debug, PartialEq, Eq, Structural)]
pub struct SetPoints {
    pub home: u8,
    pub visiting: u8,
}

impl SetPoints {
    pub fn new(home: u8, visiting: u8) -> (r: SetPoints)
        ensures
            r == (SetPoints { home, visiting }),
    {
        SetPoints { home, visiting }
    }
}

/// One set of the match: its number from 1, the score at four moments of it, and its
/// duration.
#[derive(Debug)]
pub struct MatchSet {
    pub set_number: u8,
    pub first_quarter: SetPoints,
    pub second_quarter: SetPoints,
    pub third_quarter: SetPoints,
    pub fourth_quarter: SetPoints,
    pub duration: String,
}

pub struct MatchSetView {
    pub set_number: u8,
    pub first_quarter: SetPoints,
    pub second_quarter: SetPoints,
    pub third_quarter: SetPoints,
    pub fourth_quarter: SetPoints,
    pub duration: Seq<char>,
}

impl View for MatchSet {
    type V = MatchSetView;

    open spec fn view(&self) -> MatchSetView {
        MatchSetView {
            set_number: self.set_number,
            first_quarter: self.first_quarter,
            second_quarter: self.second_quarter,
            third_quarter: self.third_quarter,
            fourth_quarter: self.fourth_quarter,
            duration: self.duration@,
        }
    }
}

impl MatchSet {
    pub fn new(
        set_number: u8,
        first_quarter: SetPoints,
        second_quarter: SetPoints,
        third_quarter: SetPoints,
        fourth_quarter: SetPoints,
        duration: String,
    ) -> (r: MatchSet)
        ensures
            r@ == (MatchSetView {
                set_number,
                first_quarter,
                second_quarter,
                third_quarter,
                fourth_quarter,
                duration: duration@,
            }),
    {
        MatchSet {
            set_number,
            first_quarter,
            second_quarter,
            third_quarter,
            fourth_quarter,
            duration,
        }
    }
}

#[derive(Debug)]
pub struct Player {
    pub team_id: String,
    pub player_number: u8,
    pub player_id: String,
    pub last_name: String,
    pub name: String,
}

pub struct PlayerView {
    pub team_id: Seq<char>,
    pub player_number: u8,
    pub player_id: Seq<char>,
    pub last_name: Seq<char>,
    pub name: Seq<char>,
}

impl View for Player {
    type V = PlayerView;

    open spec fn view(&self) -> PlayerView {
        PlayerView {
            team_id: self.team_id@,
            player_number: self.player_number,
            player_id: self.player_id@,
            last_name: self.last_name@,
            name: self.name@,
        }
    }
}

impl Player {
    pub fn new(
        team_id: String,
        player_number: u8,
        player_id: String,
        last_name: String,
        name: String,
    ) -> (r: Player)
        ensures
            r@ == (PlayerView {
                team_id: team_id@,
                player_number,
                player_id: player_id@,
                last_name: last_name@,
                name: name@,
            }),
    {
        Player { team_id, player_number, player_id, last_name, name }
    }
}

/// One play of the match: its code, what the code's main part says, and the fields that
/// accompany it.
#[derive(Debug)]
pub struct Action {
    pub code: String,
    pub code_explanation: CodeExplanation,
    pub point_phase: String,
    pub attack_phase: String,
    pub start_coordinate: String,
    pub mid_coordinate: String,
    pub end_coordinate: String,
    pub time: String,
    pub set: u8,
    pub home_rotation: u8,
    pub visiting_rotation: u8,
    pub video_file_number: u8,
    pub video_time: String,
}

pub struct ActionView {
    pub code: Seq<char>,
    pub code_explanation: CodeExplanation,
    pub point_phase: Seq<char>,
    pub attack_phase: Seq<char>,
    pub start_coordinate: Seq<char>,
    pub mid_coordinate: Seq<char>,
    pub end_coordinate: Seq<char>,
    pub time: Seq<char>,
    pub set: u8,
    pub home_rotation: u8,
    pub visiting_rotation: u8,
    pub video_file_number: u8,
    pub video_time: Seq<char>,
}

impl View for Action {
    type V = ActionView;

    open spec fn view(&self) -> ActionView {
        ActionView {
            code: self.code@,
            code_explanation: self.code_explanation,
            point_phase: self.point_phase@,
            attack_phase: self.attack_phase@,
            start_coordinate: self.start_coordinate@,
            mid_coordinate: self.mid_coordinate@,
            end_coordinate: self.end_coordinate@,
            time: self.time@,
            set: self.set,
            home_rotation: self.home_rotation,
            visiting_rotation: self.visiting_rotation,
            video_file_number: self.video_file_number,
            video_time: self.video_time@,
        }
    }
}

impl Action {
    /// An action whose code explanation is decoded from `code`; fails where the code's
    /// main part cannot be decoded.
    pub fn new(
        code: String,
        point_phase: String,
        attack_phase: String,
        start_coordinate: String,
        mid_coordinate: String,
        end_coordinate: String,
        time: String,
        set: u8,
        home_rotation: u8,
        visiting_rotation: u8,
        video_file_number: u8,
        video_time: String,
    ) -> (r: Result<Action, CodeError>)
        ensures
            match decode_code(code@) {
                Err(e) => r == Err::<Action, CodeError>(e),
                Ok(ex) => r matches Ok(a) && a@ == (ActionView {
                    code: code@,
                    code_explanation: ex,
                    point_phase: point_phase@,
                    attack_phase: attack_phase@,
                    start_coordinate: start_coordinate@,
                    mid_coordinate: mid_coordinate@,
                    end_coordinate: end_coordinate@,
                    time: time@,
                    set,
                    home_rotation,
                    visiting_rotation,
                    video_file_number,
                    video_time: video_time@,
                }),
            },
    {
        let chars = crate::text::chars_of(code.as_str());
        let code_explanation = match CodeExplanation::from_chars(&chars) {
            Ok(ex) => ex,
            Err(e) => return Err(e),
        };
        Ok(
            Action {
                code,
                code_explanation,
                point_phase,
                attack_phase,
                start_coordinate,
                mid_coordinate,
                end_coordinate,
                time,
                set,
                home_rotation,
                visiting_rotation,
                video_file_number,
                video_time,
            },
        )
    }
}

pub open spec fn seq_view<T: View>(s: Seq<T>) -> Seq<T::V> {
    s.map_values(|x: T| x@)
}

/// A whole decoded scout file.
#[derive(Debug)]
pub struct ScoutFile {
    pub metadata: Metadata,
    pub game: Game,
    pub home_team: Team,
    pub visiting_team: Team,
    pub sets: Vec<MatchSet>,
    pub home_players: Vec<Player>,
    pub visiting_players: Vec<Player>,
    pub actions: Vec<Action>,
}

pub struct ScoutFileView {
    pub metadata: MetadataView,
    pub game: GameView,
    pub home_team: TeamView,
    pub visiting_team: TeamView,
    pub sets: Seq<MatchSetView>,
    pub home_players: Seq<PlayerView>,
    pub visiting_players: Seq<PlayerView>,
    pub actions: Seq<ActionView>,
}

impl View for ScoutFile {
    type V = ScoutFileView;

    open spec fn view(&self) -> ScoutFileView {
        ScoutFileView {
            metadata: self.metadata@,
            game: self.game@,
            home_team: self.home_team@,
            visiting_team: self.visiting_team@,
            sets: seq_view(self.sets@),
            home_players: seq_view(self.home_players@),
            visiting_players: seq_view(self.visiting_players@),
            actions: seq_view(self.actions@),
        }
    }
}

impl ScoutFile {
    pub fn new(
        metadata: Metadata,
        game: Game,
        home_team: Team,
        visiting_team: Team,
        sets: Vec<MatchSet>,
        home_players: Vec<Player>,
        visiting_players: Vec<Player>,
        actions: Vec<Action>,
    ) -> (r: ScoutFile)
        ensures
            r@ == (ScoutFileView {
                metadata: metadata@,
                game: game@,
                home_team: home_team@,
                visiting_team: visiting_team@,
                sets: seq_view(sets@),
                home_players: seq_view(home_players@),
                visiting_players: seq_view(visiting_players@),
                actions: seq_view(actions@),
            }),
    {
        ScoutFile {
            metadata,
            game,
            home_team,
            visiting_team,
            sets,
            home_players,
            visiting_players,
            actions,
        }
    }
}

} // verus!
