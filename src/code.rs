use vstd::prelude::*;
use crate::text::{trim, trimmed, chars_of};

verus! {

#[derive(Clone, Copy, Debug, PartialEq, Eq, Structural)]
pub enum TeamSide {
    Home,
    Visiting,
}

#[derive(Clone, Copy, Debug, PartialEq, Eq, Structural)]
pub enum Skill {
    Serve,
    Reception,
    Attack,
    Block,
    Dig,
    Setting,
    FreeBall,
}

#[derive(Clone, Copy, Debug, PartialEq, Eq, Structural)]
pub enum ActionType {
    High,
    Medium,
    Quick,
    Tense,
    Super,
    Fast,
    Other,
}

/// The six symbolic grades of an action.
#[derive(Clone, Copy, Debug, PartialEq, Eq, Structural)]
pub enum Evaluation {
    Equal,
    Slash,
    Minus,
    Exclamation,
    Plus,
    Hashtag,
}

/// Why an action code could not be decoded: the code is too short, or the named
/// position holds a character outside its alphabet.
#[derive(Clone, Copy, Debug, PartialEq, Eq, Structural)]
pub enum CodeError {
    TooShort,
    Team,
    PlayerNumber,
    Skill,
    ActionType,
    Evaluation,
}

/// The main part of an action code: its first six characters.
#[derive(Clone, Copy, Debug, PartialEq, Eq, Structural)]
pub struct CodeExplanation {
    pub team: TeamSide,
    pub player_number: u8,
    pub skill: Skill,
    pub action_type: ActionType,
    pub evaluation: Evaluation,
}

pub open spec fn team_of(c: char) -> Option<TeamSide> {
    if c == '*' {
        Some(TeamSide::Home)
    } else if c == 'a' {
        Some(TeamSide::Visiting)
    } else {
        None
    }
}

pub open spec fn skill_of(c: char) -> Option<Skill> {
    if c == 'S' {
        Some(Skill::Serve)
    } else if c == 'R' {
        Some(Skill::Reception)
    } else if c == 'A' {
        Some(Skill::Attack)
    } else if c == 'B' {
        Some(Skill::Block)
    } else if c == 'D' {
        Some(Skill::Dig)
    } else if c == 'E' {
        Some(Skill::Setting)
    } else if c == 'F' {
        Some(Skill::FreeBall)
    } else {
        None
    }
}

pub open spec fn action_type_of(c: char) -> Option<ActionType> {
    if c == 'H' {
        Some(ActionType::High)
    } else if c == 'M' {
        Some(ActionType::Medium)
    } else if c == 'Q' {
        Some(ActionType::Quick)
    } else if c == 'T' {
        Some(ActionType::Tense)
    } else if c == 'S' {
        Some(ActionType::Super)
    } else if c == 'N' {
        Some(ActionType::Fast)
    } else if c == 'O' {
        Some(ActionType::Other)
    } else {
        None
    }
}

pub open spec fn evaluation_of(c: char) -> Option<Evaluation> {
    if c == '=' {
        Some(Evaluation::Equal)
    } else if c == '/' {
        Some(Evaluation::Slash)
    } else if c == '-' {
        Some(Evaluation::Minus)
    } else if c == '!' {
        Some(Evaluation::Exclamation)
    } else if c == '+' {
        Some(Evaluation::Plus)
    } else if c == '#' {
        Some(Evaluation::Hashtag)
    } else {
        None
    }
}

pub open spec fn ascii_digit(c: char) -> bool {
    '0' <= c && c <= '9'
}

/// The two-digit player number at positions 1 and 2.
pub open spec fn two_digits(a: char, b: char) -> Option<u8> {
    if ascii_digit(a) && ascii_digit(b) {
        Some(((a as int - '0' as int) * 10 + (b as int - '0' as int)) as u8)
    } else {
        None
    }
}

/// Decoding of a trimmed code, position by position; the first position that fails
/// gives the error.
pub open spec fn decode_chars(c: Seq<char>) -> Result<CodeExplanation, CodeError> {
    if c.len() < 6 {
        Err(CodeError::TooShort)
    } else if team_of(c[0]) is None {
        Err(CodeError::Team)
    } else if two_digits(c[1], c[2]) is None {
        Err(CodeError::PlayerNumber)
    } else if skill_of(c[3]) is None {
        Err(CodeError::Skill)
    } else if action_type_of(c[4]) is None {
        Err(CodeError::ActionType)
    } else if evaluation_of(c[5]) is None {
        Err(CodeError::Evaluation)
    } else {
        Ok(
            CodeExplanation {
                team: team_of(c[0])->Some_0,
                player_number: two_digits(c[1], c[2])->Some_0,
                skill: skill_of(c[3])->Some_0,
                action_type: action_type_of(c[4])->Some_0,
                evaluation: evaluation_of(c[5])->Some_0,
            },
        )
    }
}

/// What an action code decodes to: its trimmed text, read position by position.
pub open spec fn decode_code(s: Seq<char>) -> Result<CodeExplanation, CodeError> {
    decode_chars(trim(s))
}

fn decode_team(c: char) -> (r: Option<TeamSide>)
    ensures
        r == team_of(c),
{
    match c {
        '*' => Some(TeamSide::Home),
        'a' => Some(TeamSide::Visiting),
        _ => None,
    }
}

fn decode_skill(c: char) -> (r: Option<Skill>)
    ensures
        r == skill_of(c),
{
    match c {
        'S' => Some(Skill::Serve),
        'R' => Some(Skill::Reception),
        'A' => Some(Skill::Attack),
        'B' => Some(Skill::Block),
        'D' => Some(Skill::Dig),
        'E' => Some(Skill::Setting),
        'F' => Some(Skill::FreeBall),
        _ => None,
    }
}

fn decode_action_type(c: char) -> (r: Option<ActionType>)
    ensures
        r == action_type_of(c),
{
    match c {
        'H' => Some(ActionType::High),
        'M' => Some(ActionType::Medium),
        'Q' => Some(ActionType::Quick),
        'T' => Some(ActionType::Tense),
        'S' => Some(ActionType::Super),
        'N' => Some(ActionType::Fast),
        'O' => Some(ActionType::Other),
        _ => None,
    }
}

fn decode_evaluation(c: char) -> (r: Option<Evaluation>)
    ensures
        r == evaluation_of(c),
{
    match c {
        '=' => Some(Evaluation::Equal),
        '/' => Some(Evaluation::Slash),
        '-' => Some(Evaluation::Minus),
        '!' => Some(Evaluation::Exclamation),
        '+' => Some(Evaluation::Plus),
        '#' => Some(Evaluation::Hashtag),
        _ => None,
    }
}

fn decode_player_number(a: char, b: char) -> (r: Option<u8>)
    ensures
        r == two_digits(a, b),
{
    if '0' <= a && a <= '9' && '0' <= b && b <= '9' {
        let n = ((a as u32) - ('0' as u32)) * 10 + ((b as u32) - ('0' as u32));
        Some(n as u8)
    } else {
        None
    }
}

impl CodeExplanation {
    /// Decodes the main part of an action code; what follows its sixth character is
    /// not read.
    pub fn new(code: String) -> (r: Result<CodeExplanation, CodeError>)
        ensures
            r == decode_code(code@),
    {
        let all = chars_of(code.as_str());
        CodeExplanation::from_chars(&all)
    }

    /// Decodes the main part of an action code given as characters.
    pub fn from_chars(code: &Vec<char>) -> (r: Result<CodeExplanation, CodeError>)
        ensures
            r == decode_code(code@),
    {
        let c = trimmed(code);
        if c.len() < 6 {
            return Err(CodeError::TooShort);
        }
        let team = match decode_team(c[0]) {
            Some(t) => t,
            None => return Err(CodeError::Team),
        };
        let player_number = match decode_player_number(c[1], c[2]) {
            Some(n) => n,
            None => return Err(CodeError::PlayerNumber),
        };
        let skill = match decode_skill(c[3]) {
            Some(s) => s,
            None => return Err(CodeError::Skill),
        };
        let action_type = match decode_action_type(c[4]) {
            Some(a) => a,
            None => return Err(CodeError::ActionType),
        };
        let evaluation = match decode_evaluation(c[5]) {
            Some(e) => e,
            None => return Err(CodeError::Evaluation),
        };
        Ok(CodeExplanation { team, player_number, skill, action_type, evaluation })
    }
}

} // verus!
