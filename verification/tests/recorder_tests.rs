use tlcs::events::{TlcsConnectOptions, TlcsStatus};
use tlcs::notation::{FenError, Position};
use tlcs::recorder::{
    is_result_token, tlcs_analysis_options, tlcs_status, write_san, RecorderError, TlcsRecorder,
};

const START: &str = "rnbqkbnr/pppppppp/8/8/8/8/PPPPPPPP/RNBQKBNR w KQkq - 0 1";

fn options() -> TlcsConnectOptions {
    TlcsConnectOptions {
        host: "relay.example".to_string(),
        port: 5000,
        event: None,
        site: None,
        white: None,
        black: None,
        initial_fen: None,
        pgn_path: None,
    }
}

fn recorder() -> TlcsRecorder {
    TlcsRecorder::with_date("game.pgn".to_string(), &options(), "2024.01.02").unwrap().0
}

fn replayed(start: &Position, moves: &[String]) -> Position {
    let mut position = start.clone();
    for m in moves {
        position = position.play(m).unwrap();
    }
    position
}

#[test]
fn initial_position_is_the_standard_one() {
    let p = Position::initial();
    assert_eq!(p.fen, START);
    assert!(!p.chess960);
}

#[test]
fn fen_is_written_back_in_full() {
    let p = Position::from_fen("rnbqkbnr/pppppppp/8/8/8/8/PPPPPPPP/RNBQKBNR_w_KQkq").unwrap();
    assert_eq!(p.fen, START);
    assert!(p.chess960);
    let q = Position::from_fen("8/8/8/8/8/8/4K3/7k w - - 3 40").unwrap();
    assert_eq!(q.fen, "8/8/8/8/8/8/4K3/7k w - - 3 40");
}

#[test]
fn bad_fens_are_told_apart() {
    assert_eq!(Position::from_fen("not a fen"), Err(FenError::Syntax));
    assert_eq!(Position::from_fen("8/8/8/8/8/8/8/8 w - - 0 1"), Err(FenError::Illegal));
    assert_eq!(Position::from_fen("kK6/8/8/8/8/8/8/8 w - - 0 1"), Err(FenError::Illegal));
}

#[test]
fn algebraic_tokens_resolve_to_both_notations() {
    let p = Position::initial();
    assert_eq!(p.resolve("e4"), Some(("e2e4".to_string(), "e4".to_string())));
    assert_eq!(p.resolve("Nf3"), Some(("g1f3".to_string(), "Nf3".to_string())));
    assert_eq!(p.resolve("Nf6"), None);
    assert_eq!(p.resolve("e5"), None);
    assert_eq!(p.resolve("hello"), None);
    assert_eq!(p.resolve(""), None);
}

#[test]
fn coordinate_tokens_resolve_to_both_notations() {
    let p = Position::initial();
    assert_eq!(p.resolve("g1f3"), Some(("g1f3".to_string(), "Nf3".to_string())));
    assert_eq!(p.resolve("b1c3"), Some(("b1c3".to_string(), "Nc3".to_string())));
    assert_eq!(p.resolve("g1g3"), None);
    assert_eq!(p.resolve("e7e5"), None);
}

#[test]
fn castling_is_written_by_the_mode_of_the_position() {
    let fen = "r3k2r/pppppppp/8/8/8/8/PPPPPPPP/R3K2R w KQkq - 0 1";
    let wide = Position::from_fen(fen).unwrap();
    assert_eq!(wide.resolve("O-O"), Some(("e1h1".to_string(), "O-O".to_string())));
    let standard = Position { fen: fen.to_string(), chess960: false };
    assert_eq!(standard.resolve("O-O"), Some(("e1g1".to_string(), "O-O".to_string())));
    assert_eq!(standard.resolve("e1g1"), Some(("e1g1".to_string(), "O-O".to_string())));
    let next = standard.play("e1g1").unwrap();
    assert_eq!(next.fen, "r3k2r/pppppppp/8/8/8/8/PPPPPPPP/R4RK1 b kq - 1 1");
    assert!(!next.chess960);
}

#[test]
fn playing_a_move_changes_the_position() {
    let p = Position::initial();
    let next = p.play("e2e4").unwrap();
    assert_eq!(next.fen, "rnbqkbnr/pppppppp/8/8/4P3/8/PPPP1PPP/RNBQKBNR b KQkq - 0 1");
    assert_eq!(p.play("e2e5"), None);
    assert_eq!(p.play("e4"), None);
    let broken = Position { fen: "nonsense".to_string(), chess960: false };
    assert_eq!(broken.play("e2e4"), None);
    assert_eq!(broken.resolve("e4"), None);
}

#[test]
fn check_and_mate_are_marked() {
    let p = Position::from_fen("rnbqkbnr/pppp1ppp/8/4p3/6P1/5P2/PPPPP2P/RNBQKBNR b KQkq - 0 2").unwrap();
    assert_eq!(p.resolve("d8h4"), Some(("d8h4".to_string(), "Qh4#".to_string())));
    assert_eq!(p.resolve("Qh4#"), Some(("d8h4".to_string(), "Qh4#".to_string())));
    assert_eq!(p.resolve("Qh4"), Some(("d8h4".to_string(), "Qh4#".to_string())));
}

#[test]
fn algebraic_form_is_the_one_of_the_move_not_of_the_token() {
    let p = Position::initial();
    assert_eq!(p.resolve("e2e4"), Some(("e2e4".to_string(), "e4".to_string())));
    assert_eq!(p.resolve("Pe4"), Some(("e2e4".to_string(), "e4".to_string())));
    assert_eq!(p.resolve("Ng1f3"), Some(("g1f3".to_string(), "Nf3".to_string())));
    assert_eq!(p.resolve("e4+"), Some(("e2e4".to_string(), "e4".to_string())));
}

#[test]
fn coordinate_pawn_moves_are_written_in_algebraic_notation() {
    let mut r = recorder();
    let mut body = String::new();
    for token in ["e2e4", "e7e5", "g1f3", "1/2-1/2"] {
        body.push_str(&r.append_token(token));
    }
    assert_eq!(r.moves(), vec!["e2e4", "e7e5", "g1f3"]);
    assert_eq!(body, "1. e4 e5 2. Nf3 1/2-1/2");
}

#[test]
fn finishing_writes_the_outcome_alone() {
    let mut r = recorder();
    assert_eq!(r.append_token("*"), "*");
    assert_eq!(r.append_token("*"), "");
    let mut q = recorder();
    assert_eq!(q.append_moves_from_line("e4 0-1"), "1. e4 0-1");
    assert_eq!(q.moves(), vec!["e2e4"]);
}

#[test]
fn tokens_build_the_record() {
    let mut r = recorder();
    let mut body = String::new();
    for token in ["1.", "e4", "e5", "2.", "Nf3", "1-0"] {
        body.push_str(&r.append_token(token));
    }
    assert_eq!(r.moves(), vec!["e2e4", "e7e5", "g1f3"]);
    assert_eq!(r.result(), Some("1-0".to_string()));
    assert_eq!(body, "1. e4 e5 2. Nf3 1-0");
    assert_eq!(r.moves_recorded(), 3);
}

#[test]
fn a_line_builds_the_record() {
    let mut r = recorder();
    let body = r.append_moves_from_line("1. e4 e5 2. Nf3 1-0");
    assert_eq!(r.moves(), vec!["e2e4", "e7e5", "g1f3"]);
    assert_eq!(r.result(), Some("1-0".to_string()));
    assert_eq!(body, "1. e4 e5 2. Nf3 1-0");
}

#[test]
fn coordinate_tokens_build_the_same_moves() {
    let mut r = recorder();
    let mut body = String::new();
    for token in ["g1f3", "g8f6"] {
        body.push_str(&r.append_token(token));
    }
    assert_eq!(r.moves(), vec!["g1f3", "g8f6"]);
    assert_eq!(body, "1. Nf3 Nf6 ");
}

#[test]
fn tokens_are_cut_at_whitespace_and_full_stops() {
    assert_eq!(
        TlcsRecorder::tokens_from_line(" 12.e4  e5 13...Nf3\t1/2-1/2 * 007 a1 "),
        vec!["e4", "e5", "Nf3", "1/2-1/2", "*", "a1"]
    );
    assert_eq!(TlcsRecorder::tokens_from_line(""), Vec::<String>::new());
    assert_eq!(TlcsRecorder::tokens_from_line("1. 2. 3."), Vec::<String>::new());
}

#[test]
fn tokens_that_are_no_moves_are_dropped() {
    let mut r = recorder();
    let before = r.clone();
    for token in ["", "hello", "e5", "Ke2", "12.", "O-O", "e2e5", "--", "0000"] {
        assert_eq!(r.append_token(token), "");
    }
    assert_eq!(r, before);
}

#[test]
fn move_list_length_is_the_number_of_legal_tokens() {
    let mut r = recorder();
    let tokens = ["1.", "e4", "zz", "e5", "2.", "Nf3", "Nf3", "b8c6", "3", "Bb5", "a6", "O-O"];
    let mut legal = 0;
    for token in tokens {
        let before = r.moves_recorded();
        let known = r.position().resolve(token).is_some();
        r.append_token(token);
        assert_eq!(r.moves_recorded(), before + if known { 1 } else { 0 });
        if known {
            legal += 1;
        }
    }
    assert_eq!(legal, 7);
    assert_eq!(r.moves(), vec!["e2e4", "e7e5", "g1f3", "b8c6", "f1b5", "a7a6", "e1g1"]);
}

#[test]
fn replaying_the_moves_gives_the_position() {
    let mut r = recorder();
    r.append_moves_from_line("1. e4 e5 2. Nf3 Nc6 3. Bb5 a6 4. Ba4 Nf6 5. O-O Be7");
    assert_eq!(r.moves_recorded(), 10);
    assert_eq!(replayed(&Position::initial(), &r.moves()), r.position());
    assert_eq!(
        r.position().fen,
        "r1bqk2r/1pppbppp/p1n2n2/4p3/B3P3/5N2/PPPP1PPP/RNBQ1RK1 w kq - 4 6"
    );
}

#[test]
fn replaying_from_a_given_start_gives_the_position() {
    let mut o = options();
    let fen = "r3k2r/pppppppp/8/8/8/8/PPPPPPPP/R3K2R w KQkq - 0 1";
    o.initial_fen = Some(fen.to_string());
    let (mut r, _) = TlcsRecorder::with_date("x.pgn".to_string(), &o, "2024.01.02").unwrap();
    let body = r.append_moves_from_line("1. O-O O-O-O 2. e4");
    assert_eq!(body, "1. O-O O-O-O 2. e4 ");
    assert_eq!(r.moves(), vec!["e1h1", "e8a8", "e2e4"]);
    let start = Position::from_fen(fen).unwrap();
    assert_eq!(replayed(&start, &r.moves()), r.position());
}

#[test]
fn finish_keeps_the_first_result() {
    let mut r = recorder();
    assert_eq!(r.finish("1-0"), "1-0");
    assert_eq!(r.finish("0-1"), "");
    assert_eq!(r.result(), Some("1-0".to_string()));
    assert_eq!(r.append_token("1/2-1/2"), "");
    assert_eq!(r.result(), Some("1-0".to_string()));
}

#[test]
fn moves_after_a_result_are_still_recorded() {
    let mut r = recorder();
    r.append_moves_from_line("1. e4 *");
    assert_eq!(r.result(), Some("*".to_string()));
    assert_eq!(r.append_token("e5"), "e5 ");
    assert_eq!(r.moves(), vec!["e2e4", "e7e5"]);
    let after = r.position().play("g1f3").unwrap();
    assert_eq!(r.record_move("g1f3".to_string(), "Nf3", after.clone()), "2. Nf3 ");
    assert_eq!(r.moves(), vec!["e2e4", "e7e5", "g1f3"]);
    assert_eq!(r.position(), after);
    assert_eq!(r.result(), Some("*".to_string()));
    assert_eq!(replayed(&Position::initial(), &r.moves()), r.position());
}

#[test]
fn a_result_in_the_middle_of_a_line_loses_no_move() {
    let mut r = recorder();
    let body = r.append_moves_from_line("e4 * e5 Nf3 1-0 Nc6");
    assert_eq!(r.moves(), vec!["e2e4", "e7e5", "g1f3", "b8c6"]);
    assert_eq!(r.result(), Some("*".to_string()));
    assert_eq!(body, "1. e4 *e5 2. Nf3 Nc6 ");
}

#[test]
fn record_move_adds_what_it_is_given() {
    let mut r = recorder();
    let next = Position { fen: "somewhere".to_string(), chess960: false };
    assert_eq!(r.record_move("a1a2".to_string(), "Ra2", next.clone()), "1. Ra2 ");
    assert_eq!(r.record_move("h8h7".to_string(), "Rh7+", next.clone()), "Rh7+ ");
    assert_eq!(r.record_move("a2a3".to_string(), "Ra3", next.clone()), "2. Ra3 ");
    assert_eq!(r.moves(), vec!["a1a2", "h8h7", "a2a3"]);
    assert_eq!(r.position(), next);
}

#[test]
fn move_numbers_follow_the_ply() {
    assert_eq!(write_san(0, "e4"), "1. e4 ");
    assert_eq!(write_san(1, "e5"), "e5 ");
    assert_eq!(write_san(2, "Nf3"), "2. Nf3 ");
    assert_eq!(write_san(19, "Qd8"), "Qd8 ");
    assert_eq!(write_san(198, "Kg1"), "100. Kg1 ");
    assert_eq!(write_san(usize::MAX, "a3"), "a3 ");
    assert_eq!(write_san(usize::MAX - 1, "a3"), format!("{}. a3 ", usize::MAX / 2 + 1));
}

#[test]
fn result_markers_are_the_four_symbols() {
    for t in ["1-0", "0-1", "1/2-1/2", "*"] {
        assert!(is_result_token(t));
    }
    for t in ["", "1-1", "0-0", "1/2", "**", " 1-0", "1-0 "] {
        assert!(!is_result_token(t));
    }
}

#[test]
fn header_has_the_seven_tags_in_order() {
    let (r, header) =
        TlcsRecorder::with_date("game.pgn".to_string(), &options(), "2024.01.02").unwrap();
    assert_eq!(
        header,
        "[Event \"TLCS Live\"]\n[Site \"TLCS\"]\n[Date \"2024.01.02\"]\n[White \"Unknown\"]\n[Black \"Unknown\"]\n[Round \"1\"]\n[Result \"*\"]\n\n"
    );
    assert_eq!(r.pgn_path(), "game.pgn");
    assert_eq!(r.moves_recorded(), 0);
    assert_eq!(r.result(), None);
    assert_eq!(r.position(), Position::initial());
}

#[test]
fn header_names_players_and_a_start_that_is_not_standard() {
    let mut o = options();
    o.event = Some("Final".to_string());
    o.site = Some("Oslo".to_string());
    o.white = Some("A".to_string());
    o.black = Some("B".to_string());
    o.initial_fen = Some("8/8/8/8/8/8/4K3/7k w - - 0 1".to_string());
    let (r, header) = TlcsRecorder::with_date("g.pgn".to_string(), &o, "2030.12.31").unwrap();
    assert_eq!(
        header,
        "[Event \"Final\"]\n[Site \"Oslo\"]\n[Date \"2030.12.31\"]\n[White \"A\"]\n[Black \"B\"]\n[Round \"1\"]\n[Result \"*\"]\n[SetUp \"1\"]\n[FEN \"8/8/8/8/8/8/4K3/7k w - - 0 1\"]\n\n"
    );
    assert_eq!(r.analysis_options().fen, "8/8/8/8/8/8/4K3/7k w - - 0 1");
    assert!(r.position().chess960);
}

#[test]
fn header_leaves_out_a_start_that_is_standard() {
    let mut o = options();
    o.initial_fen = Some(START.to_string());
    let (_, header) = TlcsRecorder::with_date("g.pgn".to_string(), &o, "2030.12.31").unwrap();
    assert!(!header.contains("SetUp"));
    assert!(!header.contains("FEN"));
    assert!(header.ends_with("[Result \"*\"]\n\n"));
}

#[test]
fn a_bad_start_is_refused() {
    let mut o = options();
    o.initial_fen = Some("rubbish".to_string());
    assert_eq!(
        TlcsRecorder::with_date("g.pgn".to_string(), &o, "2030.12.31").err(),
        Some(RecorderError::InvalidFen)
    );
    assert_eq!(TlcsRecorder::new("g.pgn".to_string(), &o).err(), Some(RecorderError::InvalidFen));
    o.initial_fen = Some("8/8/8/8/8/8/8/8 w - - 0 1".to_string());
    assert_eq!(
        TlcsRecorder::with_date("g.pgn".to_string(), &o, "2030.12.31").err(),
        Some(RecorderError::IllegalPosition)
    );
    assert_eq!(RecorderError::InvalidFen.message(), "invalid fen");
    assert_eq!(RecorderError::IllegalPosition.message(), "illegal position");
}

#[test]
fn a_new_record_is_dated_today() {
    let (r, header) = TlcsRecorder::new("game.pgn".to_string(), &options()).unwrap();
    let lines: Vec<&str> = header.lines().collect();
    assert_eq!(lines.len(), 8);
    assert_eq!(lines[0], "[Event \"TLCS Live\"]");
    let date = lines[2];
    assert!(date.starts_with("[Date \""));
    assert!(date.ends_with("\"]"));
    let stamp = &date[7..date.len() - 2];
    let parts: Vec<&str> = stamp.split('.').collect();
    assert_eq!(parts.len(), 3);
    assert!(parts.iter().all(|p| !p.is_empty() && p.chars().all(|c| c.is_ascii_digit())));
    assert_eq!(parts[1].len(), 2);
    assert_eq!(parts[2].len(), 2);
    assert_eq!(r.moves_recorded(), 0);
}

#[test]
fn analysis_starts_from_the_record() {
    let mut r = recorder();
    r.append_moves_from_line("e4 e5");
    let a = r.analysis_options();
    assert_eq!(a.fen, START);
    assert_eq!(a.moves, vec!["e2e4", "e7e5"]);
    assert!(!a.annotate_novelties);
    assert_eq!(a.reference_db, None);
    assert!(!a.reversed);
    assert_eq!(tlcs_analysis_options(Some(&r)), Some(a));
    assert_eq!(tlcs_analysis_options(None), None);
}

#[test]
fn status_tells_of_the_recording() {
    let mut r = recorder();
    r.append_moves_from_line("e4 e5 Nf3");
    assert_eq!(
        tlcs_status(Some(&r)),
        TlcsStatus { recording: true, pgn_path: Some("game.pgn".to_string()), moves_recorded: 3 }
    );
    assert_eq!(
        tlcs_status(None),
        TlcsStatus { recording: false, pgn_path: None, moves_recorded: 0 }
    );
}
