use vstd::prelude::*;
use crate::code::{
    TeamSide,
    action_type_of,
    ascii_digit,
    decode_code,
    evaluation_of,
    skill_of,
    team_of,
    two_digits,
};
use crate::cursor::{line_at, lemma_line_at_advances};
use crate::error::{ErrorKind, Section, failure};
use crate::sections::{
    opens_section,
    player_rows_at,
    players_at,
    scout_file_of,
    set_rows_at,
    sets_at,
    team_of_line,
};
use crate::text::{fields, trim, trim_end, trim_start, white_space};

verus! {

proof fn lemma_trim_start_len(s: Seq<char>)
    ensures
        trim_start(s).len() <= s.len(),
    decreases s.len(),
{
    if s.len() > 0 && white_space(s[0]) {
        lemma_trim_start_len(s.drop_first());
    }
}

proof fn lemma_trim_end_len(s: Seq<char>)
    ensures
        trim_end(s).len() <= s.len(),
    decreases s.len(),
{
    if s.len() > 0 && white_space(s.last()) {
        lemma_trim_end_len(s.drop_last());
    }
}

/// Trimming leaves alone a text that neither begins nor ends with white space.
pub proof fn lemma_trim_unchanged(s: Seq<char>)
    requires
        s.len() > 0,
        !white_space(s[0]),
        !white_space(s.last()),
    ensures
        trim(s) == s,
{
}

/// Trimming a text that begins with white space shortens it.
pub proof fn lemma_trim_shortens(s: Seq<char>)
    requires
        s.len() > 0,
        white_space(s[0]),
    ensures
        trim(s).len() < s.len(),
{
    lemma_trim_start_len(s.drop_first());
    lemma_trim_end_len(trim_start(s));
}

/// A six-character code whose positions 1 to 5 are valid decodes, whatever its first
/// character, to the team that character names: `*` the home team, `a` the visiting team;
/// with any other first character decoding fails.
pub proof fn lemma_code_team(c: Seq<char>)
    requires
        c.len() == 6,
        two_digits(c[1], c[2]) is Some,
        skill_of(c[3]) is Some,
        action_type_of(c[4]) is Some,
        evaluation_of(c[5]) is Some,
    ensures
        c[0] == '*' ==> (decode_code(c) matches Ok(e) && e.team == TeamSide::Home),
        c[0] == 'a' ==> (decode_code(c) matches Ok(e) && e.team == TeamSide::Visiting),
        c[0] != '*' && c[0] != 'a' ==> decode_code(c) is Err,
{
    assert(!white_space(c.last()));
    if white_space(c[0]) {
        lemma_trim_shortens(c);
    } else {
        lemma_trim_unchanged(c);
    }
}

/// In a code whose other positions are valid, two digits at positions 1 and 2 decode to
/// the player number they write.
pub proof fn lemma_code_player_number(c: Seq<char>)
    requires
        c.len() == 6,
        team_of(c[0]) is Some,
        ascii_digit(c[1]),
        ascii_digit(c[2]),
        skill_of(c[3]) is Some,
        action_type_of(c[4]) is Some,
        evaluation_of(c[5]) is Some,
    ensures
        decode_code(c) matches Ok(e) && e.player_number == (c[1] as int - '0' as int) * 10 + (
        c[2] as int - '0' as int),
{
    assert(!white_space(c.last()));
    assert(!white_space(c[0]));
    lemma_trim_unchanged(c);
}

/// Decoding depends on the code's text alone: equal texts decode alike.
pub proof fn lemma_decode_deterministic(a: Seq<char>, b: Seq<char>)
    requires
        a == b,
    ensures
        decode_code(a) == decode_code(b),
{
}

proof fn lemma_set_rows_numbered(t: Seq<char>, p: nat, i: nat, n: nat)
    requires
        i <= n <= 255,
    ensures
        set_rows_at(t, p, i, n) matches Ok((v, q)) ==> (v.len() == n - i && forall|k: int|
            0 <= k < v.len() ==> #[trigger] v[k].set_number == i + k + 1),
    decreases n - i,
{
    if i < n {
        if let Some((l, q)) = line_at(t, p) {
            lemma_set_rows_numbered(t, q, i + 1, n);
            if let Ok((v, r)) = set_rows_at(t, p, i, n) {
                let rest = set_rows_at(t, q, i + 1, n)->Ok_0.0;
                assert forall|k: int| 0 <= k < v.len() implies #[trigger] v[k].set_number == i + k
                    + 1 by {
                    if k > 0 {
                        assert(v[k] == rest[k - 1]);
                    }
                }
            }
        }
    }
}

/// A sets section that decodes with `n` set lines gives `n` sets, numbered 1 to `n` in the
/// order of their lines.
pub proof fn lemma_sets_numbered(t: Seq<char>, p: nat, n: nat)
    requires
        n <= 255,
    ensures
        sets_at(t, p, n) matches Ok((v, q)) ==> (v.len() == n && forall|k: int|
            0 <= k < v.len() ==> #[trigger] v[k].set_number == k + 1),
{
    match crate::sections::header_at(t, p, Section::Sets, "[3SET]"@, true) {
        Ok(p1) => lemma_set_rows_numbered(t, p1, 0, n),
        Err(_) => {},
    }
}

proof fn lemma_player_rows_stop_at_header(t: Seq<char>, p: nat)
    ensures
        player_rows_at(t, p) matches Ok((v, q)) ==> (line_at(t, q) matches Some((l, r))
            && opens_section(l)),
    decreases t.len() - p,
{
    lemma_line_at_advances(t, p);
    if let Some((l, q)) = line_at(t, p) {
        if !opens_section(l) {
            lemma_player_rows_stop_at_header(t, q);
        }
    }
}

/// A roster section that decodes stops before the header that ends it: the line at the
/// position it leaves is that header, still to be read.
pub proof fn lemma_players_leave_next_header(t: Seq<char>, p: nat)
    ensures
        players_at(t, p) matches Ok((v, q)) ==> (line_at(t, q) matches Some((l, r))
            && opens_section(l)),
{
    match crate::sections::header_at(t, p, Section::Players, "[3PLAYERS"@, false) {
        Ok(p1) => lemma_player_rows_stop_at_header(t, p1),
        Err(_) => {},
    }
}

/// A team line with only three fields fails on the missing fourth field; no team is made
/// from it.
pub proof fn lemma_team_line_missing_field(l: Seq<char>)
    requires
        fields(l).len() == 3,
    ensures
        team_of_line(l) == Err::<crate::data_formats::TeamView, crate::error::Failure>(
            failure(ErrorKind::MissingField(3), Section::Teams, l),
        ),
{
}

/// A text whose first line is not the metadata header, once trimmed, fails as a whole with
/// a header error on that line.
pub proof fn lemma_bad_metadata_header(t: Seq<char>)
    requires
        line_at(t, 0) matches Some((l, q)) && trim(l) != "[3DATAVOLLEYSCOUT]"@,
    ensures
        scout_file_of(t) == Err::<crate::data_formats::ScoutFileView, crate::error::Failure>(
            failure(ErrorKind::Header, Section::Metadata, line_at(t, 0)->Some_0.0),
        ),
{
}

} // verus!
