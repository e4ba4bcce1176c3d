use vstd::prelude::*;
use crate::code::decode_code;
use crate::cursor::{
    LineCursor,
    line_at,
    find_from,
    find_char,
    lemma_find_from_bounds,
    lemma_line_at_advances,
};
use crate::data_formats::{
    Game,
    GameView,
    Action,
    ActionView,
    MatchSet,
    MatchSetView,
    Player,
    PlayerView,
    ScoutFile,
    ScoutFileView,
    SetPoints,
    seq_view,
    Metadata,
    MetadataView,
    ReleaseData,
    ReleaseDataView,
    Team,
    TeamView,
};
use crate::error::{DecodeError, ErrorKind, Failure, Section, failure};
use crate::text::{
    chars_between,
    chars_of,
    fields,
    has_prefix,
    parse_number,
    parse_u8,
    same_chars,
    split_fields,
    starts_with,
    string_from,
    trim,
    trimmed,
    views,
};

verus! {

/// What a decoding result stands for: the view of its value, or of its error.
pub open spec fn result_view<T: View>(r: Result<T, DecodeError>) -> Result<T::V, Failure> {
    match r {
        Ok(v) => Ok(v@),
        Err(e) => Err(e@),
    }
}

/// `r`, and the cursor's position `pos` after it, are what the spec step `s` gives.
pub open spec fn outcome<V>(r: Result<V, Failure>, s: Result<(V, nat), Failure>, pos: nat) -> bool {
    match s {
        Ok((v, q)) => r == Ok::<V, Failure>(v) && pos == q,
        Err(f) => r == Err::<V, Failure>(f),
    }
}

pub open spec fn kept(a: LineCursor, b: LineCursor) -> bool {
    b.wf() && b.text() == a.text()
}

/// The next line, or a truncation error of `section` at the end of the text.
pub open spec fn line_in(t: Seq<char>, p: nat, section: Section) -> Result<
    (Seq<char>, nat),
    Failure,
> {
    match line_at(t, p) {
        None => Err(failure(ErrorKind::Truncated, section, Seq::empty())),
        Some(x) => Ok(x),
    }
}

/// A header line matches `expected`: equal to it once trimmed, or, where `exact` is
/// false, beginning with it.
pub open spec fn header_ok(l: Seq<char>, expected: Seq<char>, exact: bool) -> bool {
    if exact {
        trim(l) == expected
    } else {
        starts_with(trim(l), expected)
    }
}

pub open spec fn header_at(
    t: Seq<char>,
    p: nat,
    section: Section,
    expected: Seq<char>,
    exact: bool,
) -> Result<nat, Failure> {
    match line_in(t, p, section) {
        Err(f) => Err(f),
        Ok((l, q)) => if header_ok(l, expected, exact) {
            Ok(q)
        } else {
            Err(failure(ErrorKind::Header, section, l))
        },
    }
}

/// The value of a `key: value` line: what follows its first colon (the whole line where
/// there is none), trimmed.
pub open spec fn meta_value(l: Seq<char>) -> Seq<char> {
    let k = find_from(l, ':', 0);
    if k < l.len() {
        trim(l.subrange(k + 1, l.len() as int))
    } else {
        trim(l)
    }
}

pub open spec fn meta_line_at(t: Seq<char>, p: nat) -> Result<(Seq<char>, nat), Failure> {
    match line_in(t, p, Section::Metadata) {
        Err(f) => Err(f),
        Ok((l, q)) => Ok((meta_value(l), q)),
    }
}

/// Field `k` of the fields `f` of `line`, or the error that it is missing.
pub open spec fn field_in(f: Seq<Seq<char>>, k: int, section: Section, line: Seq<char>) -> Result<
    Seq<char>,
    Failure,
> {
    if 0 <= k < f.len() {
        Ok(f[k])
    } else {
        Err(failure(ErrorKind::MissingField(k as usize), section, line))
    }
}

pub open spec fn release_data_at(t: Seq<char>, p: nat) -> Result<(ReleaseDataView, nat), Failure> {
    match meta_line_at(t, p) {
        Err(f) => Err(f),
        Ok((datetime, p1)) => match meta_line_at(t, p1) {
            Err(f) => Err(f),
            Ok((idp, p2)) => match meta_line_at(t, p2) {
                Err(f) => Err(f),
                Ok((program, p3)) => match meta_line_at(t, p3) {
                    Err(f) => Err(f),
                    Ok((version, p4)) => match meta_line_at(t, p4) {
                        Err(f) => Err(f),
                        Ok((license, p5)) => match meta_line_at(t, p5) {
                            Err(f) => Err(f),
                            Ok((scouter_name, p6)) => Ok(
                                (
                                    ReleaseDataView {
                                        datetime,
                                        idp,
                                        program,
                                        version,
                                        license,
                                        scouter_name,
                                    },
                                    p6,
                                ),
                            ),
                        },
                    },
                },
            },
        },
    }
}

pub open spec fn metadata_at(t: Seq<char>, p: nat) -> Result<(MetadataView, nat), Failure> {
    match header_at(t, p, Section::Metadata, "[3DATAVOLLEYSCOUT]"@, true) {
        Err(f) => Err(f),
        Ok(p1) => match meta_line_at(t, p1) {
            Err(f) => Err(f),
            Ok((file_format, p2)) => match release_data_at(t, p2) {
                Err(f) => Err(f),
                Ok((creation_data, p3)) => match release_data_at(t, p3) {
                    Err(f) => Err(f),
                    Ok((modification_data, p4)) => Ok(
                        (MetadataView { file_format, creation_data, modification_data }, p4),
                    ),
                },
            },
        },
    }
}

/// The match data line: date, time, season and game type at fields 0, 2, 3 and 4.
pub open spec fn game_of_line(l: Seq<char>) -> Result<GameView, Failure> {
    let f = fields(l);
    match field_in(f, 0, Section::Match, l) {
        Err(e) => Err(e),
        Ok(date) => match field_in(f, 2, Section::Match, l) {
            Err(e) => Err(e),
            Ok(time) => match field_in(f, 3, Section::Match, l) {
                Err(e) => Err(e),
                Ok(season) => match field_in(f, 4, Section::Match, l) {
                    Err(e) => Err(e),
                    Ok(game_type) => Ok(GameView { date, time, season, game_type }),
                },
            },
        },
    }
}

pub open spec fn game_at(t: Seq<char>, p: nat) -> Result<(GameView, nat), Failure> {
    match header_at(t, p, Section::Match, "[3MATCH]"@, true) {
        Err(f) => Err(f),
        Ok(p1) => match line_in(t, p1, Section::Match) {
            Err(f) => Err(f),
            Ok((l, p2)) => match game_of_line(l) {
                Err(f) => Err(f),
                Ok(g) => match line_in(t, p2, Section::Match) {
                    Err(f) => Err(f),
                    Ok((_, p3)) => Ok((g, p3)),
                },
            },
        },
    }
}

/// A team data line: all five fields present, then the sets won read as a number.
pub open spec fn team_of_line(l: Seq<char>) -> Result<TeamView, Failure> {
    let f = fields(l);
    match field_in(f, 0, Section::Teams, l) {
        Err(e) => Err(e),
        Ok(team_id) => match field_in(f, 1, Section::Teams, l) {
            Err(e) => Err(e),
            Ok(team_name) => match field_in(f, 2, Section::Teams, l) {
                Err(e) => Err(e),
                Ok(sets_won) => match field_in(f, 3, Section::Teams, l) {
                    Err(e) => Err(e),
                    Ok(head_coach) => match field_in(f, 4, Section::Teams, l) {
                        Err(e) => Err(e),
                        Ok(assistant_coaches) => match parse_u8(sets_won) {
                            None => Err(failure(ErrorKind::Conversion, Section::Teams, l)),
                            Some(n) => Ok(
                                TeamView {
                                    team_id,
                                    team_name,
                                    sets_won: n,
                                    head_coach,
                                    assistant_coaches,
                                },
                            ),
                        },
                    },
                },
            },
        },
    }
}

pub open spec fn team_at(t: Seq<char>, p: nat, skip_header: bool) -> Result<(TeamView, nat), Failure> {
    let start = if skip_header {
        Ok(p)
    } else {
        header_at(t, p, Section::Teams, "[3TEAMS]"@, true)
    };
    match start {
        Err(f) => Err(f),
        Ok(p1) => match line_in(t, p1, Section::Teams) {
            Err(f) => Err(f),
            Ok((l, p2)) => match team_of_line(l) {
                Err(f) => Err(f),
                Ok(team) => Ok((team, p2)),
            },
        },
    }
}

fn error_at(kind: ErrorKind, section: Section, line: &Vec<char>) -> (r: DecodeError)
    ensures
        r@ == failure(kind, section, line@),
{
    DecodeError::new(kind, section, string_from(line))
}

/// Reads the next line, failing as truncated where the text has ended.
pub fn read_line_in(reader: &mut LineCursor, section: Section) -> (r: Result<Vec<char>, DecodeError>)
    requires
        old(reader).wf(),
    ensures
        kept(*old(reader), *final(reader)),
        outcome(result_view(r), line_in(old(reader).text(), old(reader).pos(), section), final(reader).pos()),
        r is Ok ==> final(reader).last() == old(reader).pos(),
{
    match reader.next_line() {
        Some(l) => Ok(l),
        None => Err(DecodeError::new(ErrorKind::Truncated, section, String::new())),
    }
}

/// Reads a header line and checks it against `expected` (see `header_ok`).
pub fn read_header(reader: &mut LineCursor, section: Section, expected: &str, exact: bool) -> (r:
    Result<(), DecodeError>)
    requires
        old(reader).wf(),
    ensures
        kept(*old(reader), *final(reader)),
        match header_at(old(reader).text(), old(reader).pos(), section, expected@, exact) {
            Ok(q) => r is Ok && final(reader).pos() == q,
            Err(f) => r matches Err(e) && e@ == f,
        },
{
    let l = match read_line_in(reader, section) {
        Ok(l) => l,
        Err(e) => return Err(e),
    };
    let t = trimmed(&l);
    let want = chars_of(expected);
    let ok = if exact {
        same_chars(&t, &want)
    } else {
        has_prefix(&t, &want)
    };
    if ok {
        Ok(())
    } else {
        Err(error_at(ErrorKind::Header, section, &l))
    }
}

/// The value of a `key: value` line (see `meta_value`).
pub fn metadata_value(l: &Vec<char>) -> (r: String)
    ensures
        r@ == meta_value(l@),
{
    let k = find_char(l, ':', 0);
    proof {
        lemma_find_from_bounds(l@, ':', 0);
    }
    if k < l.len() {
        let t = trimmed(&chars_between(l, k + 1, l.len()));
        string_from(&t)
    } else {
        let t = trimmed(l);
        string_from(&t)
    }
}

fn read_metadata_field(reader: &mut LineCursor) -> (r: Result<String, DecodeError>)
    requires
        old(reader).wf(),
    ensures
        kept(*old(reader), *final(reader)),
        outcome(result_view(r), meta_line_at(old(reader).text(), old(reader).pos()), final(reader).pos()),
{
    match read_line_in(reader, Section::Metadata) {
        Ok(l) => Ok(metadata_value(&l)),
        Err(e) => Err(e),
    }
}

/// Reads a block of six `key: value` lines: date and time, idp, program, version,
/// license and scouter name.
pub fn read_release_data(reader: &mut LineCursor) -> (r: Result<ReleaseData, DecodeError>)
    requires
        old(reader).wf(),
    ensures
        kept(*old(reader), *final(reader)),
        outcome(result_view(r), release_data_at(old(reader).text(), old(reader).pos()), final(reader).pos()),
{
    let datetime = match read_metadata_field(reader) {
        Ok(v) => v,
        Err(e) => return Err(e),
    };
    let idp = match read_metadata_field(reader) {
        Ok(v) => v,
        Err(e) => return Err(e),
    };
    let program = match read_metadata_field(reader) {
        Ok(v) => v,
        Err(e) => return Err(e),
    };
    let version = match read_metadata_field(reader) {
        Ok(v) => v,
        Err(e) => return Err(e),
    };
    let license = match read_metadata_field(reader) {
        Ok(v) => v,
        Err(e) => return Err(e),
    };
    let scouter_name = match read_metadata_field(reader) {
        Ok(v) => v,
        Err(e) => return Err(e),
    };
    Ok(ReleaseData::new(datetime, idp, program, version, license, scouter_name))
}

/// Reads the metadata section: its header, the file format line and two release blocks.
pub fn read_metadata(reader: &mut LineCursor) -> (r: Result<Metadata, DecodeError>)
    requires
        old(reader).wf(),
    ensures
        kept(*old(reader), *final(reader)),
        outcome(result_view(r), metadata_at(old(reader).text(), old(reader).pos()), final(reader).pos()),
{
    match read_header(reader, Section::Metadata, "[3DATAVOLLEYSCOUT]", true) {
        Ok(()) => {},
        Err(e) => return Err(e),
    }
    let file_format = match read_metadata_field(reader) {
        Ok(v) => v,
        Err(e) => return Err(e),
    };
    let creation_data = match read_release_data(reader) {
        Ok(v) => v,
        Err(e) => return Err(e),
    };
    let modification_data = match read_release_data(reader) {
        Ok(v) => v,
        Err(e) => return Err(e),
    };
    Ok(Metadata::new(file_format, creation_data, modification_data))
}

/// Field `k` of `f`, the fields of `line`, as a string.
fn field_text(f: &Vec<Vec<char>>, k: usize, section: Section, line: &Vec<char>) -> (r: Result<
    String,
    DecodeError,
>)
    ensures
        result_view(r) == field_in(views(f@), k as int, section, line@),
{
    if k < f.len() {
        let v = &f[k];
        Ok(string_from(v))
    } else {
        Err(error_at(ErrorKind::MissingField(k), section, line))
    }
}


/// The match data line: date, time, season and game type.
pub fn game_from_line(l: &Vec<char>) -> (r: Result<Game, DecodeError>)
    ensures
        result_view(r) == game_of_line(l@),
{
    let f = split_fields(l);
    let date = match field_text(&f, 0, Section::Match, l) {
        Ok(v) => v,
        Err(e) => return Err(e),
    };
    let time = match field_text(&f, 2, Section::Match, l) {
        Ok(v) => v,
        Err(e) => return Err(e),
    };
    let season = match field_text(&f, 3, Section::Match, l) {
        Ok(v) => v,
        Err(e) => return Err(e),
    };
    let game_type = match field_text(&f, 4, Section::Match, l) {
        Ok(v) => v,
        Err(e) => return Err(e),
    };
    Ok(Game::new(date, time, season, game_type))
}

/// Reads the match section: its header, the data line and the line after it.
pub fn read_game(reader: &mut LineCursor) -> (r: Result<Game, DecodeError>)
    requires
        old(reader).wf(),
    ensures
        kept(*old(reader), *final(reader)),
        outcome(result_view(r), game_at(old(reader).text(), old(reader).pos()), final(reader).pos()),
{
    match read_header(reader, Section::Match, "[3MATCH]", true) {
        Ok(()) => {},
        Err(e) => return Err(e),
    }
    let l = match read_line_in(reader, Section::Match) {
        Ok(l) => l,
        Err(e) => return Err(e),
    };
    let game = match game_from_line(&l) {
        Ok(g) => g,
        Err(e) => return Err(e),
    };
    match read_line_in(reader, Section::Match) {
        Ok(_) => Ok(game),
        Err(e) => Err(e),
    }
}

/// A team data line: identifier, name, sets won, head coach and assistant coaches.
pub fn team_from_line(l: &Vec<char>) -> (r: Result<Team, DecodeError>)
    ensures
        result_view(r) == team_of_line(l@),
{
    let f = split_fields(l);
    let team_id = match field_text(&f, 0, Section::Teams, l) {
        Ok(v) => v,
        Err(e) => return Err(e),
    };
    let team_name = match field_text(&f, 1, Section::Teams, l) {
        Ok(v) => v,
        Err(e) => return Err(e),
    };
    match field_text(&f, 2, Section::Teams, l) {
        Ok(_) => {},
        Err(e) => return Err(e),
    }
    let head_coach = match field_text(&f, 3, Section::Teams, l) {
        Ok(v) => v,
        Err(e) => return Err(e),
    };
    let assistant_coaches = match field_text(&f, 4, Section::Teams, l) {
        Ok(v) => v,
        Err(e) => return Err(e),
    };
    let sets_won = match parse_number(&f[2]) {
        Some(n) => n,
        None => return Err(error_at(ErrorKind::Conversion, Section::Teams, l)),
    };
    Ok(Team::new(team_id, team_name, sets_won, head_coach, assistant_coaches))
}

/// Reads one team: its header unless `skip_header`, then its data line.
pub fn read_team(reader: &mut LineCursor, skip_header: bool) -> (r: Result<Team, DecodeError>)
    requires
        old(reader).wf(),
    ensures
        kept(*old(reader), *final(reader)),
        outcome(result_view(r), team_at(old(reader).text(), old(reader).pos(), skip_header), final(reader).pos()),
{
    if !skip_header {
        match read_header(reader, Section::Teams, "[3TEAMS]", true) {
            Ok(()) => {},
            Err(e) => return Err(e),
        }
    }
    let l = match read_line_in(reader, Section::Teams) {
        Ok(l) => l,
        Err(e) => return Err(e),
    };
    team_from_line(&l)
}

/// A quarter score, `home-visiting`, already trimmed; empty where the quarter was not
/// played, which counts as 0-0.
pub open spec fn quarter_of(s: Seq<char>) -> Option<SetPoints> {
    if s.len() == 0 {
        Some(SetPoints { home: 0, visiting: 0 })
    } else {
        let k = find_from(s, '-', 0);
        if k >= s.len() {
            None
        } else {
            match (parse_u8(trim(s.subrange(0, k))), parse_u8(trim(s.subrange(k + 1, s.len() as int)))) {
                (Some(h), Some(v)) => Some(SetPoints { home: h, visiting: v }),
                _ => None,
            }
        }
    }
}

pub fn parse_quarter(s: &Vec<char>) -> (r: Option<SetPoints>)
    ensures
        r == quarter_of(s@),
{
    if s.len() == 0 {
        return Some(SetPoints::new(0, 0));
    }
    let k = find_char(s, '-', 0);
    proof {
        lemma_find_from_bounds(s@, '-', 0);
    }
    if k >= s.len() {
        return None;
    }
    let hs = chars_between(s, 0, k);
    let vs = chars_between(s, k + 1, s.len());
    let h = parse_number(&trimmed(&hs));
    let v = parse_number(&trimmed(&vs));
    match (h, v) {
        (Some(h), Some(v)) => Some(SetPoints::new(h, v)),
        _ => None,
    }
}

/// A set data line: quarter scores at fields 1 to 4 and the duration at field 5.
pub open spec fn set_of_line(l: Seq<char>, number: u8) -> Result<MatchSetView, Failure> {
    let f = fields(l);
    let conv = failure(ErrorKind::Conversion, Section::Sets, l);
    match field_in(f, 1, Section::Sets, l) {
        Err(e) => Err(e),
        Ok(q1) => match field_in(f, 2, Section::Sets, l) {
            Err(e) => Err(e),
            Ok(q2) => match field_in(f, 3, Section::Sets, l) {
                Err(e) => Err(e),
                Ok(q3) => match field_in(f, 4, Section::Sets, l) {
                    Err(e) => Err(e),
                    Ok(q4) => match field_in(f, 5, Section::Sets, l) {
                        Err(e) => Err(e),
                        Ok(duration) => match (
                            quarter_of(q1),
                            quarter_of(q2),
                            quarter_of(q3),
                            quarter_of(q4),
                        ) {
                            (Some(a), Some(b), Some(c), Some(d)) => Ok(
                                MatchSetView {
                                    set_number: number,
                                    first_quarter: a,
                                    second_quarter: b,
                                    third_quarter: c,
                                    fourth_quarter: d,
                                    duration,
                                },
                            ),
                            _ => Err(conv),
                        },
                    },
                },
            },
        },
    }
}

pub fn set_from_line(l: &Vec<char>, number: u8) -> (r: Result<MatchSet, DecodeError>)
    ensures
        result_view(r) == set_of_line(l@, number),
{
    let f = split_fields(l);
    match field_text(&f, 1, Section::Sets, l) {
        Ok(_) => {},
        Err(e) => return Err(e),
    }
    match field_text(&f, 2, Section::Sets, l) {
        Ok(_) => {},
        Err(e) => return Err(e),
    }
    match field_text(&f, 3, Section::Sets, l) {
        Ok(_) => {},
        Err(e) => return Err(e),
    }
    match field_text(&f, 4, Section::Sets, l) {
        Ok(_) => {},
        Err(e) => return Err(e),
    }
    match field_text(&f, 5, Section::Sets, l) {
        Ok(_) => {},
        Err(e) => return Err(e),
    }
    let duration = string_from(&f[5]);
    let q1 = parse_quarter(&f[1]);
    let q2 = parse_quarter(&f[2]);
    let q3 = parse_quarter(&f[3]);
    let q4 = parse_quarter(&f[4]);
    match (q1, q2, q3, q4) {
        (Some(a), Some(b), Some(c), Some(d)) => Ok(MatchSet::new(number, a, b, c, d, duration)),
        _ => Err(error_at(ErrorKind::Conversion, Section::Sets, l)),
    }
}

/// The set lines from the `i`-th to the `n`-th, numbered from `i + 1`.
pub open spec fn set_rows_at(t: Seq<char>, p: nat, i: nat, n: nat) -> Result<
    (Seq<MatchSetView>, nat),
    Failure,
>
    decreases n - i,
{
    if i >= n {
        Ok((Seq::empty(), p))
    } else {
        match line_in(t, p, Section::Sets) {
            Err(f) => Err(f),
            Ok((l, q)) => match set_of_line(l, (i + 1) as u8) {
                Err(f) => Err(f),
                Ok(s) => match set_rows_at(t, q, i + 1, n) {
                    Err(f) => Err(f),
                    Ok((rest, r)) => Ok((seq![s] + rest, r)),
                },
            },
        }
    }
}

/// The sets section: its header, then `n` set lines.
pub open spec fn sets_at(t: Seq<char>, p: nat, n: nat) -> Result<(Seq<MatchSetView>, nat), Failure> {
    match header_at(t, p, Section::Sets, "[3SET]"@, true) {
        Err(f) => Err(f),
        Ok(p1) => set_rows_at(t, p1, 0, n),
    }
}

/// The number of set lines that a scout file holds, whether or not all sets were played.
pub const SETS_PER_FILE: u8 = 5;

/// Reads the sets section with `count` set lines, numbered from 1.
pub fn read_set_lines(reader: &mut LineCursor, count: u8) -> (r: Result<Vec<MatchSet>, DecodeError>)
    requires
        old(reader).wf(),
    ensures
        kept(*old(reader), *final(reader)),
        outcome(
            match r {
                Ok(v) => Ok(seq_view(v@)),
                Err(e) => Err(e@),
            },
            sets_at(old(reader).text(), old(reader).pos(), count as nat),
            final(reader).pos(),
        ),
{
    let ghost t = reader.text();
    let ghost p0 = reader.pos();
    match read_header(reader, Section::Sets, "[3SET]", true) {
        Ok(()) => {},
        Err(e) => return Err(e),
    }
    let ghost p1 = reader.pos();
    let mut sets: Vec<MatchSet> = Vec::new();
    let mut i: u8 = 0;
    while i < count
        invariant
            i <= count,
            reader.wf(),
            reader.text() == t,
            t == old(reader).text(),
            p0 == old(reader).pos(),
            sets_at(t, p0, count as nat) == set_rows_at(t, p1, 0, count as nat),
            set_rows_at(t, p1, 0, count as nat) == match set_rows_at(t, reader.pos(), i as nat, count as nat) {
                Ok((rest, q)) => Ok((seq_view(sets@) + rest, q)),
                Err(f) => Err(f),
            },
        decreases count - i,
    {
        let ghost p = reader.pos();
        let l = match read_line_in(reader, Section::Sets) {
            Ok(l) => l,
            Err(e) => return Err(e),
        };
        let s = match set_from_line(&l, i + 1) {
            Ok(s) => s,
            Err(e) => return Err(e),
        };
        let ghost before = seq_view(sets@);
        sets.push(s);
        proof {
            assert(seq_view(sets@) =~= before.push(s@));
            match set_rows_at(t, reader.pos(), (i + 1) as nat, count as nat) {
                Ok((rest, q)) => {
                    assert(before + (seq![s@] + rest) =~= seq_view(sets@) + rest);
                },
                Err(f) => {},
            }
        }
        i = i + 1;
    }
    assert(seq_view(sets@) + Seq::<MatchSetView>::empty() =~= seq_view(sets@));
    Ok(sets)
}

/// Reads the sets section with its five set lines.
pub fn read_sets(reader: &mut LineCursor) -> (r: Result<Vec<MatchSet>, DecodeError>)
    requires
        old(reader).wf(),
    ensures
        kept(*old(reader), *final(reader)),
        outcome(
            match r {
                Ok(v) => Ok(seq_view(v@)),
                Err(e) => Err(e@),
            },
            sets_at(old(reader).text(), old(reader).pos(), SETS_PER_FILE as nat),
            final(reader).pos(),
        ),
{
    read_set_lines(reader, SETS_PER_FILE)
}


/// A roster line: team id, jersey number, player id, last name and given name at fields
/// 0, 1, 8, 9 and 10.
pub open spec fn player_of_line(l: Seq<char>) -> Result<PlayerView, Failure> {
    let f = fields(l);
    match field_in(f, 0, Section::Players, l) {
        Err(e) => Err(e),
        Ok(team_id) => match field_in(f, 1, Section::Players, l) {
            Err(e) => Err(e),
            Ok(number) => match field_in(f, 8, Section::Players, l) {
                Err(e) => Err(e),
                Ok(player_id) => match field_in(f, 9, Section::Players, l) {
                    Err(e) => Err(e),
                    Ok(last_name) => match field_in(f, 10, Section::Players, l) {
                        Err(e) => Err(e),
                        Ok(name) => match parse_u8(number) {
                            None => Err(failure(ErrorKind::Conversion, Section::Players, l)),
                            Some(n) => Ok(
                                PlayerView { team_id, player_number: n, player_id, last_name, name },
                            ),
                        },
                    },
                },
            },
        },
    }
}

pub fn player_from_line(l: &Vec<char>) -> (r: Result<Player, DecodeError>)
    ensures
        result_view(r) == player_of_line(l@),
{
    let f = split_fields(l);
    let team_id = match field_text(&f, 0, Section::Players, l) {
        Ok(v) => v,
        Err(e) => return Err(e),
    };
    match field_text(&f, 1, Section::Players, l) {
        Ok(_) => {},
        Err(e) => return Err(e),
    }
    let player_id = match field_text(&f, 8, Section::Players, l) {
        Ok(v) => v,
        Err(e) => return Err(e),
    };
    let last_name = match field_text(&f, 9, Section::Players, l) {
        Ok(v) => v,
        Err(e) => return Err(e),
    };
    let name = match field_text(&f, 10, Section::Players, l) {
        Ok(v) => v,
        Err(e) => return Err(e),
    };
    let number = match parse_number(&f[1]) {
        Some(n) => n,
        None => return Err(error_at(ErrorKind::Conversion, Section::Players, l)),
    };
    Ok(Player::new(team_id, number, player_id, last_name, name))
}

/// The line starts a new section: once trimmed, it begins with `[`.
pub open spec fn opens_section(l: Seq<char>) -> bool {
    starts_with(trim(l), "["@)
}

fn is_section_start(l: &Vec<char>) -> (r: bool)
    ensures
        r == opens_section(l@),
{
    let t = trimmed(l);
    let b = chars_of("[");
    has_prefix(&t, &b)
}

/// Roster lines up to the next section header, which is left unread.
pub open spec fn player_rows_at(t: Seq<char>, p: nat) -> Result<(Seq<PlayerView>, nat), Failure>
    decreases t.len() - p,
    via player_rows_decreases
{
    match line_at(t, p) {
        None => Err(failure(ErrorKind::Truncated, Section::Players, Seq::empty())),
        Some((l, q)) => if opens_section(l) {
            Ok((Seq::empty(), p))
        } else {
            match player_of_line(l) {
                Err(f) => Err(f),
                Ok(pl) => match player_rows_at(t, q) {
                    Err(f) => Err(f),
                    Ok((rest, r)) => Ok((seq![pl] + rest, r)),
                },
            }
        },
    }
}

#[via_fn]
proof fn player_rows_decreases(t: Seq<char>, p: nat) {
    lemma_line_at_advances(t, p);
}

/// A roster section: a header beginning with `[3PLAYERS`, then its roster lines.
pub open spec fn players_at(t: Seq<char>, p: nat) -> Result<(Seq<PlayerView>, nat), Failure> {
    match header_at(t, p, Section::Players, "[3PLAYERS"@, false) {
        Err(f) => Err(f),
        Ok(p1) => player_rows_at(t, p1),
    }
}

/// Reads a roster section, and leaves the header that ends it to be read next.
pub fn read_players(reader: &mut LineCursor) -> (r: Result<Vec<Player>, DecodeError>)
    requires
        old(reader).wf(),
    ensures
        kept(*old(reader), *final(reader)),
        outcome(
            match r {
                Ok(v) => Ok(seq_view(v@)),
                Err(e) => Err(e@),
            },
            players_at(old(reader).text(), old(reader).pos()),
            final(reader).pos(),
        ),
{
    let ghost t = reader.text();
    let ghost p0 = reader.pos();
    match read_header(reader, Section::Players, "[3PLAYERS", false) {
        Ok(()) => {},
        Err(e) => return Err(e),
    }
    let ghost p1 = reader.pos();
    let mut players: Vec<Player> = Vec::new();
    loop
        invariant
            reader.wf(),
            reader.text() == t,
            t == old(reader).text(),
            p0 == old(reader).pos(),
            players_at(t, p0) == player_rows_at(t, p1),
            player_rows_at(t, p1) == match player_rows_at(t, reader.pos()) {
                Ok((rest, q)) => Ok((seq_view(players@) + rest, q)),
                Err(f) => Err(f),
            },
        decreases t.len() - reader.pos(),
    {
        let ghost p = reader.pos();
        proof {
            lemma_line_at_advances(t, p);
        }
        let l = match read_line_in(reader, Section::Players) {
            Ok(l) => l,
            Err(e) => return Err(e),
        };
        if is_section_start(&l) {
            reader.unread_line();
            assert(seq_view(players@) + Seq::<PlayerView>::empty() =~= seq_view(players@));
            return Ok(players);
        }
        let pl = match player_from_line(&l) {
            Ok(pl) => pl,
            Err(e) => return Err(e),
        };
        let ghost before = seq_view(players@);
        players.push(pl);
        proof {
            assert(seq_view(players@) =~= before.push(pl@));
            match player_rows_at(t, reader.pos()) {
                Ok((rest, q)) => {
                    assert(before + (seq![pl@] + rest) =~= seq_view(players@) + rest);
                },
                Err(f) => {},
            }
        }
    }
}

/// An action line: its code is field 0; the other fields of an action are left empty.
pub open spec fn action_of_line(l: Seq<char>) -> Result<ActionView, Failure> {
    let code = fields(l)[0];
    match decode_code(code) {
        Err(ce) => Err(failure(ErrorKind::Code(ce), Section::Scout, l)),
        Ok(ex) => Ok(
            ActionView {
                code,
                code_explanation: ex,
                point_phase: Seq::empty(),
                attack_phase: Seq::empty(),
                start_coordinate: Seq::empty(),
                mid_coordinate: Seq::empty(),
                end_coordinate: Seq::empty(),
                time: Seq::empty(),
                set: 0,
                home_rotation: 0,
                visiting_rotation: 0,
                video_file_number: 0,
                video_time: Seq::empty(),
            },
        ),
    }
}

pub fn action_from_line(l: &Vec<char>) -> (r: Result<Action, DecodeError>)
    ensures
        result_view(r) == action_of_line(l@),
{
    let f = split_fields(l);
    assert(views(f@).len() >= 1);
    let code = string_from(&f[0]);
    match Action::new(
        code,
        String::new(),
        String::new(),
        String::new(),
        String::new(),
        String::new(),
        String::new(),
        0,
        0,
        0,
        0,
        String::new(),
    ) {
        Ok(a) => Ok(a),
        Err(ce) => Err(error_at(ErrorKind::Code(ce), Section::Scout, l)),
    }
}

/// Action lines up to a blank line, which is consumed, or to the end of the text.
pub open spec fn action_rows_at(t: Seq<char>, p: nat) -> Result<(Seq<ActionView>, nat), Failure>
    decreases t.len() - p,
    via action_rows_decreases
{
    match line_at(t, p) {
        None => Ok((Seq::empty(), p)),
        Some((l, q)) => if trim(l).len() == 0 {
            Ok((Seq::empty(), q))
        } else {
            match action_of_line(l) {
                Err(f) => Err(f),
                Ok(a) => match action_rows_at(t, q) {
                    Err(f) => Err(f),
                    Ok((rest, r)) => Ok((seq![a] + rest, r)),
                },
            }
        },
    }
}

#[via_fn]
proof fn action_rows_decreases(t: Seq<char>, p: nat) {
    lemma_line_at_advances(t, p);
}

/// The scout section: a header beginning with `[3SCOUT]`, then its action lines.
pub open spec fn actions_at(t: Seq<char>, p: nat) -> Result<(Seq<ActionView>, nat), Failure> {
    match header_at(t, p, Section::Scout, "[3SCOUT]"@, false) {
        Err(f) => Err(f),
        Ok(p1) => action_rows_at(t, p1),
    }
}

/// Reads the scout section: one action for each line up to a blank line or the end.
pub fn read_actions(reader: &mut LineCursor) -> (r: Result<Vec<Action>, DecodeError>)
    requires
        old(reader).wf(),
    ensures
        kept(*old(reader), *final(reader)),
        outcome(
            match r {
                Ok(v) => Ok(seq_view(v@)),
                Err(e) => Err(e@),
            },
            actions_at(old(reader).text(), old(reader).pos()),
            final(reader).pos(),
        ),
{
    let ghost t = reader.text();
    let ghost p0 = reader.pos();
    match read_header(reader, Section::Scout, "[3SCOUT]", false) {
        Ok(()) => {},
        Err(e) => return Err(e),
    }
    let ghost p1 = reader.pos();
    let mut actions: Vec<Action> = Vec::new();
    loop
        invariant
            reader.wf(),
            reader.text() == t,
            t == old(reader).text(),
            p0 == old(reader).pos(),
            actions_at(t, p0) == action_rows_at(t, p1),
            action_rows_at(t, p1) == match action_rows_at(t, reader.pos()) {
                Ok((rest, q)) => Ok((seq_view(actions@) + rest, q)),
                Err(f) => Err(f),
            },
        decreases t.len() - reader.pos(),
    {
        let ghost p = reader.pos();
        proof {
            lemma_line_at_advances(t, p);
        }
        let l = match reader.next_line() {
            Some(l) => l,
            None => {
                assert(seq_view(actions@) + Seq::<ActionView>::empty() =~= seq_view(actions@));
                return Ok(actions);
            },
        };
        let tl = trimmed(&l);
        if tl.len() == 0 {
            assert(seq_view(actions@) + Seq::<ActionView>::empty() =~= seq_view(actions@));
            return Ok(actions);
        }
        let a = match action_from_line(&l) {
            Ok(a) => a,
            Err(e) => return Err(e),
        };
        let ghost before = seq_view(actions@);
        actions.push(a);
        proof {
            assert(seq_view(actions@) =~= before.push(a@));
            match action_rows_at(t, reader.pos()) {
                Ok((rest, q)) => {
                    assert(before + (seq![a@] + rest) =~= seq_view(actions@) + rest);
                },
                Err(f) => {},
            }
        }
    }
}


/// Lines up to the first whose trimmed text begins with `category`, which is left unread.
pub open spec fn skip_until_at(t: Seq<char>, p: nat, category: Seq<char>) -> Result<nat, Failure>
    decreases t.len() - p,
    via skip_until_decreases
{
    match line_at(t, p) {
        None => Err(failure(ErrorKind::Truncated, Section::Skipped, category)),
        Some((l, q)) => if starts_with(trim(l), category) {
            Ok(p)
        } else {
            skip_until_at(t, q, category)
        },
    }
}

#[via_fn]
proof fn skip_until_decreases(t: Seq<char>, p: nat, category: Seq<char>) {
    lemma_line_at_advances(t, p);
}

/// Passes over lines up to the one that begins with `category`, and leaves that line to be
/// read next.
pub fn skip_until(reader: &mut LineCursor, category: &str) -> (r: Result<(), DecodeError>)
    requires
        old(reader).wf(),
    ensures
        kept(*old(reader), *final(reader)),
        match skip_until_at(old(reader).text(), old(reader).pos(), category@) {
            Ok(q) => r is Ok && final(reader).pos() == q,
            Err(f) => r matches Err(e) && e@ == f,
        },
{
    let ghost t = reader.text();
    let want = chars_of(category);
    loop
        invariant
            reader.wf(),
            reader.text() == t,
            t == old(reader).text(),
            want@ == category@,
            skip_until_at(t, old(reader).pos(), category@) == skip_until_at(t, reader.pos(), category@),
        decreases t.len() - reader.pos(),
    {
        let ghost p = reader.pos();
        proof {
            lemma_line_at_advances(t, p);
        }
        let l = match reader.next_line() {
            Some(l) => l,
            None => return Err(DecodeError::new(ErrorKind::Truncated, Section::Skipped, category.to_string())),
        };
        if has_prefix(&trimmed(&l), &want) {
            reader.unread_line();
            return Ok(());
        }
    }
}

/// Lines up to the next section header, which is left unread.
pub open spec fn section_rest_at(t: Seq<char>, p: nat, category: Seq<char>) -> Result<nat, Failure>
    decreases t.len() - p,
    via section_rest_decreases
{
    match line_at(t, p) {
        None => Err(failure(ErrorKind::Truncated, Section::Skipped, category)),
        Some((l, q)) => if opens_section(l) {
            Ok(p)
        } else {
            section_rest_at(t, q, category)
        },
    }
}

#[via_fn]
proof fn section_rest_decreases(t: Seq<char>, p: nat, category: Seq<char>) {
    lemma_line_at_advances(t, p);
}

/// A section that is not decoded: a header beginning with `category`, then its lines.
pub open spec fn skip_category_at(t: Seq<char>, p: nat, category: Seq<char>) -> Result<nat, Failure> {
    match header_at(t, p, Section::Skipped, category, false) {
        Err(f) => Err(f),
        Ok(p1) => section_rest_at(t, p1, category),
    }
}

/// Passes over a whole section that begins with `category`, and leaves the next header to
/// be read next.
pub fn skip_category(reader: &mut LineCursor, category: &str) -> (r: Result<(), DecodeError>)
    requires
        old(reader).wf(),
    ensures
        kept(*old(reader), *final(reader)),
        match skip_category_at(old(reader).text(), old(reader).pos(), category@) {
            Ok(q) => r is Ok && final(reader).pos() == q,
            Err(f) => r matches Err(e) && e@ == f,
        },
{
    let ghost t = reader.text();
    let ghost p0 = reader.pos();
    match read_header(reader, Section::Skipped, category, false) {
        Ok(()) => {},
        Err(e) => return Err(e),
    }
    let ghost p1 = reader.pos();
    loop
        invariant
            reader.wf(),
            reader.text() == t,
            t == old(reader).text(),
            p0 == old(reader).pos(),
            skip_category_at(t, p0, category@) == section_rest_at(t, reader.pos(), category@),
        decreases t.len() - reader.pos(),
    {
        let ghost p = reader.pos();
        proof {
            lemma_line_at_advances(t, p);
        }
        let l = match reader.next_line() {
            Some(l) => l,
            None => return Err(DecodeError::new(ErrorKind::Truncated, Section::Skipped, category.to_string())),
        };
        if is_section_start(&l) {
            reader.unread_line();
            return Ok(());
        }
    }
}

/// A whole scout file, its sections in the order the format sets.
pub open spec fn scout_file_of(t: Seq<char>) -> Result<ScoutFileView, Failure> {
    match metadata_at(t, 0) {
        Err(f) => Err(f),
        Ok((metadata, p1)) => match game_at(t, p1) {
            Err(f) => Err(f),
            Ok((game, p2)) => match team_at(t, p2, false) {
                Err(f) => Err(f),
                Ok((home_team, p3)) => match team_at(t, p3, true) {
                    Err(f) => Err(f),
                    Ok((visiting_team, p4)) => match skip_until_at(t, p4, "[3SET]"@) {
                        Err(f) => Err(f),
                        Ok(p5) => match sets_at(t, p5, SETS_PER_FILE as nat) {
                            Err(f) => Err(f),
                            Ok((sets, p6)) => match players_at(t, p6) {
                                Err(f) => Err(f),
                                Ok((home_players, p7)) => match players_at(t, p7) {
                                    Err(f) => Err(f),
                                    Ok((visiting_players, p8)) => match skip_until_at(
                                        t,
                                        p8,
                                        "[3SCOUT]"@,
                                    ) {
                                        Err(f) => Err(f),
                                        Ok(p9) => match actions_at(t, p9) {
                                            Err(f) => Err(f),
                                            Ok((actions, _)) => Ok(
                                                ScoutFileView {
                                                    metadata,
                                                    game,
                                                    home_team,
                                                    visiting_team,
                                                    sets,
                                                    home_players,
                                                    visiting_players,
                                                    actions,
                                                },
                                            ),
                                        },
                                    },
                                },
                            },
                        },
                    },
                },
            },
        },
    }
}

/// Decodes a whole scout file: either every section decodes, or the first error comes
/// back.
pub fn read_scout_file(input: &str) -> (r: Result<ScoutFile, DecodeError>)
    ensures
        result_view(r) == scout_file_of(input@),
{
    let mut reader = LineCursor::new(input);
    let metadata = match read_metadata(&mut reader) {
        Ok(v) => v,
        Err(e) => return Err(e),
    };
    let game = match read_game(&mut reader) {
        Ok(v) => v,
        Err(e) => return Err(e),
    };
    let home_team = match read_team(&mut reader, false) {
        Ok(v) => v,
        Err(e) => return Err(e),
    };
    let visiting_team = match read_team(&mut reader, true) {
        Ok(v) => v,
        Err(e) => return Err(e),
    };
    match skip_until(&mut reader, "[3SET]") {
        Ok(()) => {},
        Err(e) => return Err(e),
    }
    let sets = match read_sets(&mut reader) {
        Ok(v) => v,
        Err(e) => return Err(e),
    };
    let home_players = match read_players(&mut reader) {
        Ok(v) => v,
        Err(e) => return Err(e),
    };
    let visiting_players = match read_players(&mut reader) {
        Ok(v) => v,
        Err(e) => return Err(e),
    };
    match skip_until(&mut reader, "[3SCOUT]") {
        Ok(()) => {},
        Err(e) => return Err(e),
    }
    let actions = match read_actions(&mut reader) {
        Ok(v) => v,
        Err(e) => return Err(e),
    };
    Ok(
        ScoutFile::new(
            metadata,
            game,
            home_team,
            visiting_team,
            sets,
            home_players,
            visiting_players,
            actions,
        ),
    )
}

} // verus!
