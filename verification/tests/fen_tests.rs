use vortex::fen::{
    board_to_fen, get_chess_position, get_file_letter, parse_complete_fen,
    parse_fen_board, state_to_fen, update_fen, update_fen_with_timing, update_in_range,
    CellPosition, Position,
};

const START: &str = "rnbqkbnr/pppppppp/8/8/8/8/PPPPPPPP/RNBQKBNR w KQkq - 0 1";

fn chars(s: &str) -> Vec<char> {
    s.chars().collect()
}

#[test]
fn pawn_double_step_sets_en_passant_and_passes_the_turn() {
    let r = update_fen(START, 'P', "e2", "e4", None);
    assert_eq!(
        r.as_deref(),
        Some("rnbqkbnr/pppppppp/8/8/4P3/8/PPPP1PPP/RNBQKBNR b KQkq e3 0 1")
    );
}

#[test]
fn black_reply_raises_the_full_move_number() {
    let after_white = "rnbqkbnr/pppppppp/8/8/4P3/8/PPPP1PPP/RNBQKBNR b KQkq e3 0 1";
    let r = update_fen(after_white, 'p', "e7", "e5", None);
    assert_eq!(
        r.as_deref(),
        Some("rnbqkbnr/pppp1ppp/8/4p3/4P3/8/PPPP1PPP/RNBQKBNR w KQkq e6 0 2")
    );
}

#[test]
fn knight_move_counts_a_half_move() {
    let r = update_fen(START, 'N', "g1", "f3", None);
    assert_eq!(
        r.as_deref(),
        Some("rnbqkbnr/pppppppp/8/8/8/5N2/PPPPPPPP/RNBQKB1R b KQkq - 1 1")
    );
}

#[test]
fn moving_a_piece_of_the_other_side_is_refused() {
    assert_eq!(update_fen(START, 'p', "e7", "e5", None), None);
}

#[test]
fn king_move_drops_both_castling_rights_of_its_side() {
    let r = update_fen("4k3/8/8/8/8/8/8/4K3 w KQkq - 5 10", 'K', "e1", "e2", None);
    assert_eq!(r.as_deref(), Some("4k3/8/8/8/8/8/4K3/8 b kq - 6 10"));
}

#[test]
fn rook_leaving_a1_drops_the_right_the_record_names_q() {
    let r = update_fen("r3k2r/8/8/8/8/8/8/R3K2R w KQkq - 0 1", 'R', "a1", "a2", None);
    assert_eq!(r.as_deref(), Some("r3k2r/8/8/8/8/8/R7/4K2R b KQk - 1 1"));
}

#[test]
fn last_castling_right_gone_leaves_a_dash() {
    let r = update_fen("4k3/8/8/8/8/8/8/4K3 w K - 0 1", 'K', "e1", "d1", None);
    assert_eq!(r.as_deref(), Some("4k3/8/8/8/8/8/8/3K4 b - - 1 1"));
}

#[test]
fn promotion_takes_the_colour_of_the_pawn() {
    let r = update_fen("8/4P3/8/8/8/8/8/4k2K w - - 0 1", 'P', "e7", "e8", Some('q'));
    assert_eq!(r.as_deref(), Some("4Q3/8/8/8/8/8/8/4k2K b - - 0 1"));
}

#[test]
fn promotion_short_of_the_last_rank_is_refused() {
    assert_eq!(update_fen(START, 'P', "e2", "e3", Some('q')), None);
}

#[test]
fn promotion_of_a_piece_that_is_not_a_pawn_is_refused() {
    assert_eq!(update_fen("8/4P3/8/8/8/8/8/4k2K w - - 0 1", 'N', "e7", "e8", Some('q')), None);
}

#[test]
fn malformed_records_and_squares_are_refused() {
    assert_eq!(update_fen("8/8/8/8/8/8/8/8 w - - 0", 'P', "e2", "e4", None), None);
    assert_eq!(update_fen("8/8/8/8/8/8/8 w - - 0 1", 'P', "e2", "e4", None), None);
    assert_eq!(update_fen(START, 'P', "e2", "e9", None), None);
    assert_eq!(update_fen(START, 'P', "i2", "e4", None), None);
    assert_eq!(update_fen(START, 'P', "e22", "e4", None), None);
}

#[test]
fn timed_update_gives_the_same_record() {
    let r = update_fen_with_timing(START, 'P', "d2", "d4", None).unwrap();
    assert_eq!(r.fen, "rnbqkbnr/pppppppp/8/8/3P4/8/PPP1PPPP/RNBQKBNR b KQkq d3 0 1");
    assert!(update_fen_with_timing(START, 'p', "d7", "d5", None).is_none());
}

#[test]
fn counters_at_their_limit_are_reported() {
    let fen = "4k3/8/8/8/8/8/8/4K2N w - - 4294967295 1";
    assert!(!update_in_range(fen, 'N', "h1", "g3", None));
    assert!(update_in_range(fen, 'K', "e1", "e2", None) == false);
    let black = "4k3/8/8/8/8/8/8/4K3 b - - 0 4294967295";
    assert!(!update_in_range(black, 'k', "e8", "e7", None));
    assert!(update_in_range(START, 'P', "e2", "e4", None));
    assert!(update_in_range("junk", 'P', "e2", "e4", None));
}

#[test]
fn pawn_move_resets_the_clock_even_at_its_limit() {
    let fen = "4k3/8/8/8/8/8/4P3/4K3 w - - 4294967295 7";
    assert!(update_in_range(fen, 'P', "e2", "e3", None));
    assert_eq!(update_fen(fen, 'P', "e2", "e3", None).as_deref(), Some("4k3/8/8/8/8/4P3/8/4K3 b - - 0 7"));
}

#[test]
fn coordinates_name_squares() {
    assert_eq!(Position::from_algebraic("e4"), Some(Position { rank: 3, file: 4 }));
    assert_eq!(Position::from_algebraic("a1"), Some(Position { rank: 0, file: 0 }));
    assert_eq!(Position::from_algebraic("h8"), Some(Position { rank: 7, file: 7 }));
    assert_eq!(Position::from_algebraic("i1"), None);
    assert_eq!(Position::from_algebraic("a9"), None);
    assert_eq!(Position::from_algebraic("a"), None);
    assert_eq!(Position::from_algebraic("a10"), None);
}

#[test]
fn board_prints_back_as_it_was_read() {
    let text = "rnbqkbnr/pppppppp/8/8/4P3/8/PPPP1PPP/RNBQKBNR";
    let board = parse_fen_board(&chars(text)).unwrap();
    assert_eq!(board.len(), 8);
    assert_eq!(board[3][4], 'P');
    assert_eq!(board[1][4], ' ');
    assert_eq!(board[7][0], 'r');
    assert_eq!(board_to_fen(&board), text);
}

#[test]
fn board_text_with_a_bad_rank_is_refused() {
    assert!(parse_fen_board(&chars("rnbqkbnr/ppppppppp/8/8/8/8/PPPPPPPP/RNBQKBNR")).is_none());
    assert!(parse_fen_board(&chars("rnbqkbnr/ppppppp/8/8/8/8/PPPPPPPP/RNBQKBNR")).is_none());
    assert!(parse_fen_board(&chars("8/8/8/8/8/8/8/9")).is_none());
    assert!(parse_fen_board(&chars("8/8/8/8/8/8/8")).is_none());
}

#[test]
fn full_record_prints_back_in_canonical_form() {
    let state = parse_complete_fen(&chars("  rnbqkbnr/pppppppp/8/8/8/8/PPPPPPPP/RNBQKBNR   w KQkq -  0 1 ")).unwrap();
    assert_eq!(state.active_color, 'w');
    assert_eq!(state.halfmove_clock, 0);
    assert_eq!(state.fullmove_number, 1);
    assert_eq!(state_to_fen(&state), START);
}

#[test]
fn record_counters_must_be_numbers() {
    assert!(parse_complete_fen(&chars("8/8/8/8/8/8/8/8 w - - x 1")).is_none());
    assert!(parse_complete_fen(&chars("8/8/8/8/8/8/8/8 w - - 0 4294967296")).is_none());
    assert!(parse_complete_fen(&chars("8/8/8/8/8/8/8/8 w - - +3 1")).is_some());
    assert!(parse_complete_fen(&chars("8/8/8/8/8/8/8/8 w - - + 1")).is_none());
    assert!(parse_complete_fen(&chars("8/8/8/8/8/8/8/8 w - - -1 1")).is_none());
    let st = parse_complete_fen(&chars("8/8/8/8/8/8/8/8 white - - 00012 3")).unwrap();
    assert_eq!(st.active_color, 'w');
    assert_eq!(st.halfmove_clock, 12);
    assert_eq!(state_to_fen(&st), "8/8/8/8/8/8/8/8 w - - 12 3");
}

#[test]
fn file_letters() {
    assert_eq!(get_file_letter(0), "a");
    assert_eq!(get_file_letter(4), "e");
    assert_eq!(get_file_letter(7), "h");
    assert_eq!(get_file_letter(8), "a");
    assert_eq!(get_file_letter(-1), "a");
}

#[test]
fn client_cells_become_coordinates() {
    assert_eq!(get_chess_position(&CellPosition { x: 4, y: 4 }), "e4");
    assert_eq!(get_chess_position(&CellPosition { x: 0, y: 0 }), "a8");
    assert_eq!(get_chess_position(&CellPosition { x: 7, y: 7 }), "h1");
    assert_eq!(get_chess_position(&CellPosition { x: 9, y: 10 }), "a-2");
}

#[test]
fn boards_with_unusual_pieces_print_back_as_read() {
    let mut board = vec![vec![' '; 8]; 8];
    board[0][0] = '\t';
    board[3][5] = 'x';
    board[7][7] = 'k';
    let text = board_to_fen(&board);
    assert_eq!(text, "7k/8/8/8/5x2/8/8/\t7");
    assert_eq!(parse_fen_board(&chars(&text)), Some(board));
}

#[test]
fn canonical_fields_read_and_print_back_unchanged() {
    for text in [
        "rnbqkbnr/pppppppp/8/8/4P3/8/PPPP1PPP/RNBQKBNR",
        "8/8/8/8/8/8/8/8",
        "r3k2r/p1ppqpb1/bn2pnp1/3PN3/1p2P3/2N2Q1p/PPPBBPPP/R3K2R",
    ] {
        let b = parse_fen_board(&chars(text)).unwrap();
        assert_eq!(board_to_fen(&b), text);
    }
    let record = "r3k2r/p1ppqpb1/bn2pnp1/3PN3/1p2P3/2N2Q1p/PPPBBPPP/R3K2R w KQkq - 0 1";
    let st = parse_complete_fen(&chars(record)).unwrap();
    assert_eq!(state_to_fen(&st), record);
    let split_run = parse_fen_board(&chars("44/8/8/8/8/8/8/8")).unwrap();
    assert_eq!(board_to_fen(&split_run), "8/8/8/8/8/8/8/8");
}
