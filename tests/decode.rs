use data_volley_reader::code::CodeExplanation;
use data_volley_reader::sections::{parse_quarter, team_from_line};
use data_volley_reader::{
    read, read_actions, read_game, read_metadata, read_players, read_scout_file, read_sets,
    read_team, skip_category, skip_until, ActionType, CodeError, ErrorKind, Evaluation,
    LineCursor, Section, SetPoints, Skill, TeamSide,
};

const SAMPLE: &str = "[3DATAVOLLEYSCOUT]
FILEFORMAT: 2.0
GENERATOR-DAY: 2021/10/20 11:15:08
GENERATOR-IDP: DVW
GENERATOR-PRG: Data Volley
GENERATOR-REL: 4.03.05
GENERATOR-LIC: Club License
GENERATOR-NAM: Scout A
LASTCHANGE-DAY: 2021/10/21 09:00:00
LASTCHANGE-IDP: DVW
LASTCHANGE-PRG: Data Volley
LASTCHANGE-REL: 4.03.06
LASTCHANGE-LIC: Club License
LASTCHANGE-NAM: Scout B
[3MATCH]
20/10/2021;;20.30.00;2021/2022;League;;;;;;;1;Z;0;
;;;;;;;
[3TEAMS]
HOM;Home Club;3;Coach H;Assistant H;
VIS;Visiting Club;1;Coach V;Assistant V;
[3MORE]
;;;;;
[3COMMENTS]
;;;;;
[3SET]
True;8-5;16-12;21-18;25-20;25:10;
True;8-7;16-14;21-19;25-22;28:40;
True;7-8;14-16;20-21;23-25;30:05;
True;8-4;16-10;21-15;25-19;22:30;
False;;;;;15:20;
[3PLAYERS-H]
0;14;1;*;*;*;*;*;H14;Rossi;Mario;;
0;7;2;*;*;*;*;*;H07;Verdi;Paolo;;
[3PLAYERS-V]
1;5;3;*;*;*;*;*;V05;Bianchi;Luca;;
[3ATTACKCOMBINATION]
X5;2;R;Q;Quick;
[3SCOUT]
*14SQ=;p;s;0;1;2;
a05AH!;
*07DT#;

trailing text
";

fn chars(s: &str) -> Vec<char> {
    s.chars().collect()
}

#[test]
fn test_file() {
    let scout_file = read(SAMPLE).unwrap();
    assert_eq!(scout_file.metadata.file_format, "2.0");
    assert_eq!(scout_file.metadata.creation_data.datetime, "2021/10/20 11:15:08");
    assert_eq!(scout_file.metadata.creation_data.license, "Club License");
    assert_eq!(scout_file.metadata.modification_data.scouter_name, "Scout B");
    assert_eq!(scout_file.game.date, "20/10/2021");
    assert_eq!(scout_file.game.time, "20.30.00");
    assert_eq!(scout_file.game.season, "2021/2022");
    assert_eq!(scout_file.game.game_type, "League");
    assert_eq!(scout_file.home_team.team_name, "Home Club");
    assert_eq!(scout_file.home_team.sets_won, 3);
    assert_eq!(scout_file.visiting_team.team_id, "VIS");
    assert_eq!(scout_file.visiting_team.assistant_coaches, "Assistant V");
    assert_eq!(scout_file.sets.len(), 5);
    assert_eq!(scout_file.home_players.len(), 2);
    assert_eq!(scout_file.home_players[1].last_name, "Verdi");
    assert_eq!(scout_file.visiting_players.len(), 1);
    assert_eq!(scout_file.visiting_players[0].player_number, 5);
    assert_eq!(scout_file.visiting_players[0].name, "Luca");
    assert_eq!(scout_file.actions.len(), 3);
    assert_eq!(scout_file.actions[2].code, "*07DT#");
    assert_eq!(scout_file.actions[2].code_explanation.skill, Skill::Dig);
}

#[test]
fn read_scout_file_matches_read() {
    let a = read_scout_file(SAMPLE).unwrap();
    let b = read(SAMPLE).unwrap();
    assert_eq!(format!("{:?}", a), format!("{:?}", b));
}

#[test]
fn code_home_serve_quick_equal() {
    let e = CodeExplanation::new("*14SQ=".to_string()).unwrap();
    assert_eq!(e.team, TeamSide::Home);
    assert_eq!(e.player_number, 14);
    assert_eq!(e.skill, Skill::Serve);
    assert_eq!(e.action_type, ActionType::Quick);
    assert_eq!(e.evaluation, Evaluation::Equal);
}

#[test]
fn code_visiting_attack_high_exclamation() {
    let e = CodeExplanation::new("a05AH!".to_string()).unwrap();
    assert_eq!(e.team, TeamSide::Visiting);
    assert_eq!(e.player_number, 5);
    assert_eq!(e.skill, Skill::Attack);
    assert_eq!(e.action_type, ActionType::High);
    assert_eq!(e.evaluation, Evaluation::Exclamation);
}

#[test]
fn code_first_character_decides_team() {
    assert_eq!(CodeExplanation::new("*01BM+".to_string()).unwrap().team, TeamSide::Home);
    assert_eq!(CodeExplanation::new("a01BM+".to_string()).unwrap().team, TeamSide::Visiting);
    assert_eq!(CodeExplanation::new("b01BM+".to_string()), Err(CodeError::Team));
    assert_eq!(CodeExplanation::new("A01BM+".to_string()), Err(CodeError::Team));
}

#[test]
fn code_player_number_round_trips() {
    for n in 0..100u8 {
        let code = format!("*{:02}RN/", n);
        assert_eq!(CodeExplanation::new(code).unwrap().player_number, n);
    }
}

#[test]
fn code_decoding_is_repeatable() {
    let a = CodeExplanation::new("a99ES-".to_string());
    let b = CodeExplanation::new("a99ES-".to_string());
    assert_eq!(a, b);
    assert_eq!(a.unwrap().skill, Skill::Setting);
}

#[test]
fn code_errors_by_position() {
    assert_eq!(CodeExplanation::new("*14SQ".to_string()), Err(CodeError::TooShort));
    assert_eq!(CodeExplanation::new("".to_string()), Err(CodeError::TooShort));
    assert_eq!(CodeExplanation::new("*1xSQ=".to_string()), Err(CodeError::PlayerNumber));
    assert_eq!(CodeExplanation::new("*+5SQ=".to_string()), Err(CodeError::PlayerNumber));
    assert_eq!(CodeExplanation::new("*14XQ=".to_string()), Err(CodeError::Skill));
    assert_eq!(CodeExplanation::new("*14SX=".to_string()), Err(CodeError::ActionType));
    assert_eq!(CodeExplanation::new("*14SQx".to_string()), Err(CodeError::Evaluation));
}

#[test]
fn code_trims_and_ignores_extended_part() {
    let e = CodeExplanation::new("  *10FO#X5~47  ".to_string()).unwrap();
    assert_eq!(e.player_number, 10);
    assert_eq!(e.skill, Skill::FreeBall);
    assert_eq!(e.action_type, ActionType::Other);
    assert_eq!(e.evaluation, Evaluation::Hashtag);
    assert_eq!(CodeExplanation::new(" *14SQ".to_string()), Err(CodeError::TooShort));
}

#[test]
fn all_tempo_and_evaluation_letters() {
    let tempos = [
        ('H', ActionType::High),
        ('M', ActionType::Medium),
        ('Q', ActionType::Quick),
        ('T', ActionType::Tense),
        ('S', ActionType::Super),
        ('N', ActionType::Fast),
        ('O', ActionType::Other),
    ];
    for (c, t) in tempos {
        let code = format!("*01A{}=", c);
        assert_eq!(CodeExplanation::new(code).unwrap().action_type, t);
    }
    let grades = [
        ('=', Evaluation::Equal),
        ('/', Evaluation::Slash),
        ('-', Evaluation::Minus),
        ('!', Evaluation::Exclamation),
        ('+', Evaluation::Plus),
        ('#', Evaluation::Hashtag),
    ];
    for (c, g) in grades {
        let code = format!("*01AH{}", c);
        assert_eq!(CodeExplanation::new(code).unwrap().evaluation, g);
    }
    assert_eq!(CodeExplanation::new("*01RH=".to_string()).unwrap().skill, Skill::Reception);
}

#[test]
fn quarter_scores() {
    assert_eq!(parse_quarter(&chars("")), Some(SetPoints { home: 0, visiting: 0 }));
    assert_eq!(parse_quarter(&chars("25-20")), Some(SetPoints { home: 25, visiting: 20 }));
    assert_eq!(parse_quarter(&chars("8 - 12")), Some(SetPoints { home: 8, visiting: 12 }));
    assert_eq!(parse_quarter(&chars("2520")), None);
    assert_eq!(parse_quarter(&chars("25-x")), None);
    assert_eq!(parse_quarter(&chars("256-1")), None);
}

#[test]
fn five_sets_numbered_in_order() {
    let text = "[3SET]
True;8-5;16-12;21-18;25-20;25:10;
True;8-7;16-14;21-19;25-22;28:40;
True;7-8;14-16;20-21;23-25;30:05;
True;8-4;16-10;21-15;25-19;22:30;
False;;;;;15:20;
[3PLAYERS-H]
";
    let mut reader = LineCursor::new(text);
    let sets = read_sets(&mut reader).unwrap();
    assert_eq!(sets.len(), 5);
    let durations = ["25:10", "28:40", "30:05", "22:30", "15:20"];
    for (i, s) in sets.iter().enumerate() {
        assert_eq!(s.set_number as usize, i + 1);
        assert_eq!(s.duration, durations[i]);
    }
    assert_eq!(sets[0].fourth_quarter, SetPoints { home: 25, visiting: 20 });
    assert_eq!(sets[2].first_quarter, SetPoints { home: 7, visiting: 8 });
    assert_eq!(sets[4].second_quarter, SetPoints { home: 0, visiting: 0 });
}

#[test]
fn sets_truncated_and_bad_score() {
    let mut reader = LineCursor::new("[3SET]\nTrue;1-0;;;;1:00;\n");
    let e = read_sets(&mut reader).unwrap_err();
    assert_eq!(e.kind, ErrorKind::Truncated);
    assert_eq!(e.section, Section::Sets);
    let mut reader = LineCursor::new("[3SET]\nTrue;1:0;;;;1:00;\n");
    let e = read_sets(&mut reader).unwrap_err();
    assert_eq!(e.kind, ErrorKind::Conversion);
    assert_eq!(e.line, "True;1:0;;;;1:00;");
    let mut reader = LineCursor::new("[3SETS]\n");
    assert_eq!(read_sets(&mut reader).unwrap_err().kind, ErrorKind::Header);
}

#[test]
fn players_leave_next_header_unread() {
    let text = "[3PLAYERS-H]
0;14;1;*;*;*;*;*;H14;Rossi;Mario;;
[3PLAYERS-V]
1;5;3;*;*;*;*;*;V05;Bianchi;Luca;;
[3ATTACKCOMBINATION]
";
    let mut reader = LineCursor::new(text);
    let home = read_players(&mut reader).unwrap();
    assert_eq!(home.len(), 1);
    assert_eq!(home[0].player_id, "H14");
    assert_eq!(home[0].player_number, 14);
    let next: String = reader.next_line().unwrap().into_iter().collect();
    assert_eq!(next, "[3PLAYERS-V]");
    reader.unread_line();
    let visiting = read_players(&mut reader).unwrap();
    assert_eq!(visiting[0].last_name, "Bianchi");
}

#[test]
fn players_errors() {
    let mut reader = LineCursor::new("[3PLAYERS-H]\n0;14;1;*;*\n[3X]\n");
    let e = read_players(&mut reader).unwrap_err();
    assert_eq!(e.kind, ErrorKind::MissingField(8));
    let mut reader = LineCursor::new("[3PLAYERS-H]\n0;x;1;*;*;*;*;*;H;R;M\n[3X]\n");
    assert_eq!(read_players(&mut reader).unwrap_err().kind, ErrorKind::Conversion);
    let mut reader = LineCursor::new("[3PLAYERS-H]\n0;1;1;*;*;*;*;*;H;R;M\n");
    assert_eq!(read_players(&mut reader).unwrap_err().kind, ErrorKind::Truncated);
    let mut reader = LineCursor::new("[3TEAMS]\n");
    assert_eq!(read_players(&mut reader).unwrap_err().kind, ErrorKind::Header);
}

#[test]
fn team_line_with_three_fields_is_missing_a_field() {
    let e = team_from_line(&chars("HOM;Home Club;3")).unwrap_err();
    assert_eq!(e.kind, ErrorKind::MissingField(3));
    assert_eq!(e.section, Section::Teams);
    assert_eq!(e.line, "HOM;Home Club;3");
}

#[test]
fn team_sets_won_must_be_a_number() {
    let e = team_from_line(&chars("HOM;Home Club;three;C;A")).unwrap_err();
    assert_eq!(e.kind, ErrorKind::Conversion);
    let mut reader = LineCursor::new("[3TEAMS]\n H ; Name ; +2 ; C ; A \n");
    let t = read_team(&mut reader, false).unwrap();
    assert_eq!(t.team_id, "H");
    assert_eq!(t.sets_won, 2);
    let mut reader = LineCursor::new("[3TEAM]\nH;N;1;C;A\n");
    assert_eq!(read_team(&mut reader, false).unwrap_err().kind, ErrorKind::Header);
}

#[test]
fn bad_metadata_header_fails_whole_decode() {
    let text = SAMPLE.replacen("[3DATAVOLLEYSCOUT]", "[3DATAVOLLEY]", 1);
    let e = read(&text).unwrap_err();
    assert_eq!(e.kind, ErrorKind::Header);
    assert_eq!(e.section, Section::Metadata);
    assert_eq!(e.line, "[3DATAVOLLEY]");
    assert_eq!(read("").unwrap_err().kind, ErrorKind::Truncated);
}

#[test]
fn metadata_value_follows_first_colon() {
    let mut reader = LineCursor::new(SAMPLE);
    let m = read_metadata(&mut reader).unwrap();
    assert_eq!(m.creation_data.datetime, "2021/10/20 11:15:08");
    assert_eq!(m.creation_data.idp, "DVW");
    assert_eq!(m.creation_data.program, "Data Volley");
    assert_eq!(m.creation_data.version, "4.03.05");
    assert_eq!(m.creation_data.scouter_name, "Scout A");
    assert_eq!(m.modification_data.datetime, "2021/10/21 09:00:00");
    let g = read_game(&mut reader).unwrap();
    assert_eq!(g.season, "2021/2022");
}

#[test]
fn game_line_needs_five_fields() {
    let mut reader = LineCursor::new("[3MATCH]\n20/10/2021;;20.30.00;2021\n\n");
    let e = read_game(&mut reader).unwrap_err();
    assert_eq!(e.kind, ErrorKind::MissingField(4));
    assert_eq!(e.section, Section::Match);
    let mut reader = LineCursor::new("[3MATCH]\n1;2;3;4;5\n");
    assert_eq!(read_game(&mut reader).unwrap_err().kind, ErrorKind::Truncated);
}

#[test]
fn actions_stop_at_blank_line_or_end() {
    let mut reader = LineCursor::new("[3SCOUT]\n*14SQ=;x\n  \n*01SQ=\n");
    let actions = read_actions(&mut reader).unwrap();
    assert_eq!(actions.len(), 1);
    assert_eq!(actions[0].code, "*14SQ=");
    assert_eq!(actions[0].code_explanation.player_number, 14);
    let mut reader = LineCursor::new("[3SCOUT]\na05AH!");
    assert_eq!(read_actions(&mut reader).unwrap().len(), 1);
}

#[test]
fn action_with_bad_code_fails() {
    let mut reader = LineCursor::new("[3SCOUT]\n*14SQ=\n*p25:24\n");
    let e = read_actions(&mut reader).unwrap_err();
    assert_eq!(e.kind, ErrorKind::Code(CodeError::PlayerNumber));
    assert_eq!(e.section, Section::Scout);
    assert_eq!(e.line, "*p25:24");
}

#[test]
fn skipping_sections() {
    let mut reader = LineCursor::new("[3MORE]\na\nb\n[3SET]\n");
    skip_until(&mut reader, "[3SET]").unwrap();
    let line: String = reader.next_line().unwrap().into_iter().collect();
    assert_eq!(line, "[3SET]");
    let mut reader = LineCursor::new("[3MORE]\na\n[3COMMENTS]\n");
    skip_category(&mut reader, "[3MORE]").unwrap();
    let line: String = reader.next_line().unwrap().into_iter().collect();
    assert_eq!(line, "[3COMMENTS]");
    let mut reader = LineCursor::new("[3MORE]\na\n");
    let e = skip_until(&mut reader, "[3SET]").unwrap_err();
    assert_eq!(e.kind, ErrorKind::Truncated);
    assert_eq!(e.line, "[3SET]");
    let mut reader = LineCursor::new("[3MORE]\na\n");
    assert_eq!(skip_category(&mut reader, "[3COMMENTS]").unwrap_err().kind, ErrorKind::Header);
}

#[test]
fn crlf_lines_and_unicode_names() {
    let text = "[3PLAYERS-H]\r\n0;3;1;*;*;*;*;*;H03;Müller\u{a0};José;\r\n[3X]\r\n";
    let mut reader = LineCursor::new(text);
    let players = read_players(&mut reader).unwrap();
    assert_eq!(players[0].last_name, "Müller");
    assert_eq!(players[0].name, "José");
}
