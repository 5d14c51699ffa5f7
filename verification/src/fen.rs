//! Forsyth–Edwards Notation: reading a chess position, applying one move to it, and
//! writing it back.
use vstd::prelude::*;
use vstd::string::*;
use crate::decimal::{
    decimal, decimal_int, digit_val, is_digit, parse_u32, push_decimal, push_decimal_i64,
    spec_parse_u32,
};
use crate::text::{
    lemma_chars_deep_view, lemma_ws_split_words_nonempty, split_on, split_on_char,
    split_whitespace, string_from_chars, ws_split, str_chars, char_uppercase, char_is_uppercase,
    ascii_upper, ascii_lower, to_ascii_upper, to_ascii_lower, remove_char, without_char,
};

verus! {

/// A square of the board: `rank` 0 is the first rank (white's side), `file` 0 is file `a`.
#[derive(Clone, Copy, Debug, PartialEq, Eq, Structural)]
pub struct Position {
    pub rank: usize,
    pub file: usize,
}

/// A full FEN record. `board[rank][file]` holds a piece letter, or `' '` for an empty square.
#[derive(Debug)]
pub struct ChessState {
    pub board: Vec<Vec<char>>,
    pub active_color: char,
    pub castling_rights: Vec<char>,
    pub en_passant: Vec<char>,
    pub halfmove_clock: u32,
    pub fullmove_number: u32,
}

/// The mathematical content of a [`ChessState`].
pub struct ChessStateView {
    pub board: Seq<Seq<char>>,
    pub active_color: char,
    pub castling_rights: Seq<char>,
    pub en_passant: Seq<char>,
    pub halfmove_clock: u32,
    pub fullmove_number: u32,
}

impl View for ChessState {
    type V = ChessStateView;

    open spec fn view(&self) -> ChessStateView {
        ChessStateView {
            board: self.board.deep_view(),
            active_color: self.active_color,
            castling_rights: self.castling_rights@,
            en_passant: self.en_passant@,
            halfmove_clock: self.halfmove_clock,
            fullmove_number: self.fullmove_number,
        }
    }
}

/// The square that a two-character coordinate such as `e4` names.
pub open spec fn spec_from_algebraic(s: Seq<char>) -> Option<Position> {
    if s.len() == 2 && 'a' <= s[0] && s[0] <= 'h' && '1' <= s[1] && s[1] <= '8' {
        Some(
            Position {
                rank: ((s[1] as int) - ('1' as int)) as usize,
                file: ((s[0] as int) - ('a' as int)) as usize,
            },
        )
    } else {
        None
    }
}

/// A rank with every square empty.
pub open spec fn empty_row() -> Seq<char> {
    Seq::new(8, |i: int| ' ')
}

/// Reading the rest of one rank's text, with `fi` squares of it already placed in `row`.
pub open spec fn parse_rank_rest(rest: Seq<char>, fi: int, row: Seq<char>) -> Option<Seq<char>>
    decreases rest.len(),
{
    if rest.len() == 0 {
        if fi == 8 {
            Some(row)
        } else {
            None
        }
    } else if fi >= 8 {
        None
    } else if is_digit(rest[0]) {
        parse_rank_rest(rest.drop_first(), fi + digit_val(rest[0]), row)
    } else {
        parse_rank_rest(rest.drop_first(), fi + 1, row.update(fi, rest[0]))
    }
}

/// The eight squares that one rank's text describes: a digit skips that many empty squares,
/// any other character is a piece; the squares must add up to exactly eight.
pub open spec fn parse_rank(rank: Seq<char>) -> Option<Seq<char>> {
    parse_rank_rest(rank, 0, empty_row())
}

/// The board that the placement field describes: eight ranks separated by `/`, the first one
/// being the eighth rank.
pub open spec fn spec_parse_board(b: Seq<char>) -> Option<Seq<Seq<char>>> {
    let ranks = split_on(b, '/');
    if ranks.len() != 8 {
        None
    } else if forall|r: int| 0 <= r < 8 ==> (#[trigger] parse_rank(ranks[r])) is Some {
        Some(Seq::new(8, |k: int| parse_rank(ranks[7 - k])->0))
    } else {
        None
    }
}

/// The position that a FEN record describes: six whitespace-separated fields.
pub open spec fn spec_parse_fen(s: Seq<char>) -> Option<ChessStateView> {
    let parts = ws_split(s);
    if parts.len() != 6 {
        None
    } else {
        match (spec_parse_board(parts[0]), spec_parse_u32(parts[4]), spec_parse_u32(parts[5])) {
            (Some(board), Some(half), Some(full)) => Some(
                ChessStateView {
                    board,
                    active_color: parts[1][0],
                    castling_rights: parts[2],
                    en_passant: parts[3],
                    halfmove_clock: half,
                    fullmove_number: full,
                },
            ),
            _ => None,
        }
    }
}

/// The text of the rest of a rank's squares, with `empty` empty squares not yet written.
pub open spec fn rank_fen_rest(cells: Seq<char>, empty: nat) -> Seq<char>
    decreases cells.len(),
{
    if cells.len() == 0 {
        if empty > 0 {
            decimal(empty)
        } else {
            seq![]
        }
    } else if cells[0] == ' ' {
        rank_fen_rest(cells.drop_first(), empty + 1)
    } else {
        (if empty > 0 {
            decimal(empty)
        } else {
            seq![]
        }) + seq![cells[0]] + rank_fen_rest(cells.drop_first(), 0)
    }
}

/// The text of one rank: pieces as they are, runs of empty squares as their count.
pub open spec fn rank_fen(row: Seq<char>) -> Seq<char> {
    rank_fen_rest(row, 0)
}

/// The ranks `k` down to the first one, separated by `/`.
pub open spec fn board_fen_from(board: Seq<Seq<char>>, k: int) -> Seq<char>
    decreases k,
{
    if k <= 0 {
        rank_fen(board[0])
    } else {
        rank_fen(board[k]) + seq!['/'] + board_fen_from(board, k - 1)
    }
}

/// The placement field of a board: the eighth rank first.
pub open spec fn spec_board_fen(board: Seq<Seq<char>>) -> Seq<char> {
    board_fen_from(board, 7)
}

/// The FEN record of a position: the six fields separated by single spaces.
pub open spec fn spec_state_fen(st: ChessStateView) -> Seq<char> {
    spec_board_fen(st.board) + seq![' ', st.active_color, ' '] + st.castling_rights + seq![' ']
        + st.en_passant + seq![' '] + decimal(st.halfmove_clock as nat) + seq![' '] + decimal(
        st.fullmove_number as nat,
    )
}

/// The board has eight ranks of eight squares.
pub open spec fn board_shaped(board: Seq<Seq<char>>) -> bool {
    &&& board.len() == 8
    &&& forall|r: int| 0 <= r < 8 ==> (#[trigger] board[r]).len() == 8
}

impl Position {
    /// The square that a two-character coordinate names (`e4` is rank 3, file 4).
    pub fn from_algebraic(notation: &str) -> (r: Option<Position>)
        ensures
            r == spec_from_algebraic(notation@),
    {
        let n = notation.unicode_len();
        if n != 2 {
            return None;
        }
        let f = notation.get_char(0);
        let k = notation.get_char(1);
        if 'a' <= f && f <= 'h' && '1' <= k && k <= '8' {
            Some(Position { rank: (k as u32 - '1' as u32) as usize, file: (f as u32 - 'a' as u32) as usize })
        } else {
            None
        }
    }
}

/// The eight squares of one rank's text, or `None` where the text is not a rank.
pub fn parse_rank_text(rank: &Vec<char>) -> (r: Option<Vec<char>>)
    ensures
        match r {
            Some(row) => parse_rank(rank@) == Some(row@) && row@.len() == 8,
            None => parse_rank(rank@) is None,
        },
{
    let mut row: Vec<char> = Vec::new();
    let mut k: usize = 0;
    while k < 8
        invariant
            k <= 8,
            row@ == Seq::new(k as nat, |i: int| ' '),
        decreases 8 - k,
    {
        row.push(' ');
        k = k + 1;
        assert(row@ =~= Seq::new(k as nat, |i: int| ' '));
    }
    assert(row@ =~= empty_row());
    let mut fi: usize = 0;
    let mut i: usize = 0;
    assert(rank@.skip(0) =~= rank@);
    while i < rank.len()
        invariant
            i <= rank.len(),
            fi <= 17,
            row@.len() == 8,
            parse_rank(rank@) == parse_rank_rest(rank@.skip(i as int), fi as int, row@),
        decreases rank.len() - i,
    {
        let c = rank[i];
        assert(rank@.skip(i as int)[0] == c);
        assert(rank@.skip(i as int).drop_first() =~= rank@.skip(i + 1));
        if fi >= 8 {
            return None;
        }
        if '0' <= c && c <= '9' {
            fi = fi + (c as u32 - '0' as u32) as usize;
        } else {
            row.set(fi, c);
            fi = fi + 1;
        }
        i = i + 1;
    }
    assert(rank@.skip(i as int) =~= Seq::<char>::empty());
    if fi != 8 {
        return None;
    }
    Some(row)
}

/// The board of a placement field, indexed `[rank][file]` with the first rank at index 0.
pub fn parse_fen_board(fen_board: &Vec<char>) -> (r: Option<Vec<Vec<char>>>)
    ensures
        match r {
            Some(b) => spec_parse_board(fen_board@) == Some(b.deep_view()) && board_shaped(
                b.deep_view(),
            ),
            None => spec_parse_board(fen_board@) is None,
        },
{
    let ranks = split_on_char(fen_board, '/');
    let ghost rs = ranks.deep_view();
    if ranks.len() != 8 {
        return None;
    }
    let mut board: Vec<Vec<char>> = Vec::new();
    let mut k: usize = 0;
    while k < 8
        invariant
            k <= 8,
            ranks.len() == 8,
            rs == split_on(fen_board@, '/'),
            rs == ranks.deep_view(),
            board.deep_view().len() == k,
            forall|j: int|
                0 <= j < k ==> (#[trigger] parse_rank(rs[7 - j])) == Some(board.deep_view()[j]),
            forall|j: int| 0 <= j < k ==> (#[trigger] board.deep_view()[j]).len() == 8,
        decreases 8 - k,
    {
        proof {
            lemma_chars_deep_view(ranks[7 - k as int]);
        }
        match parse_rank_text(&ranks[7 - k]) {
            None => {
                assert(parse_rank(rs[7 - k as int]) is None);
                return None;
            },
            Some(row) => {
                let ghost old_board = board.deep_view();
                proof {
                    lemma_chars_deep_view(row);
                }
                board.push(row);
                assert(board.deep_view() =~= old_board.push(row@));
            },
        }
        k = k + 1;
    }
    assert forall|r: int| 0 <= r < 8 implies (#[trigger] parse_rank(rs[r])) is Some by {
        assert(parse_rank(rs[7 - (7 - r)]) == Some(board.deep_view()[7 - r]));
    }
    assert(board.deep_view() =~= Seq::new(8, |k: int| parse_rank(rs[7 - k])->0));
    Some(board)
}

/// The position of a FEN record, or `None` where the text is not one.
pub fn parse_complete_fen(fen: &Vec<char>) -> (r: Option<ChessState>)
    ensures
        match r {
            Some(st) => spec_parse_fen(fen@) == Some(st@) && board_shaped(st@.board),
            None => spec_parse_fen(fen@) is None,
        },
{
    let parts = split_whitespace(fen);
    let ghost ps = parts.deep_view();
    if parts.len() != 6 {
        return None;
    }
    proof {
        lemma_chars_deep_view(parts[0]);
        lemma_chars_deep_view(parts[1]);
        lemma_chars_deep_view(parts[2]);
        lemma_chars_deep_view(parts[3]);
        lemma_chars_deep_view(parts[4]);
        lemma_chars_deep_view(parts[5]);
        lemma_ws_split_words_nonempty(fen@);
    }
    let board = match parse_fen_board(&parts[0]) {
        Some(b) => b,
        None => return None,
    };
    let half = match parse_u32(&parts[4]) {
        Some(h) => h,
        None => return None,
    };
    let full = match parse_u32(&parts[5]) {
        Some(f) => f,
        None => return None,
    };
    let active_color = parts[1][0];
    let castling_rights = copy_chars(&parts[2]);
    let en_passant = copy_chars(&parts[3]);
    Some(
        ChessState {
            board,
            active_color,
            castling_rights,
            en_passant,
            halfmove_clock: half,
            fullmove_number: full,
        },
    )
}

/// A copy of a vector of characters.
pub fn copy_chars(v: &Vec<char>) -> (r: Vec<char>)
    ensures
        r@ == v@,
{
    let mut r: Vec<char> = Vec::new();
    let mut i: usize = 0;
    while i < v.len()
        invariant
            i <= v.len(),
            r@ == v@.subrange(0, i as int),
        decreases v.len() - i,
    {
        r.push(v[i]);
        i = i + 1;
    }
    r
}


/// Appends the text of one rank.
fn push_rank_fen(row: &Vec<char>, out: &mut Vec<char>)
    requires
        row@.len() == 8,
    ensures
        final(out)@ == old(out)@ + rank_fen(row@),
{
    let mut empty_count: u64 = 0;
    let mut file: usize = 0;
    assert(row@.skip(0) =~= row@);
    while file < 8
        invariant
            file <= 8,
            row@.len() == 8,
            empty_count <= file,
            old(out)@ + rank_fen(row@) == out@ + rank_fen_rest(row@.skip(file as int), empty_count as nat),
        decreases 8 - file,
    {
        let piece = row[file];
        assert(row@.skip(file as int)[0] == piece);
        assert(row@.skip(file as int).drop_first() =~= row@.skip(file + 1));
        if piece == ' ' {
            empty_count = empty_count + 1;
        } else {
            let ghost before = out@;
            if empty_count > 0 {
                push_decimal(empty_count, out);
            }
            out.push(piece);
            assert(out@ =~= before + (if empty_count > 0 {
                decimal(empty_count as nat)
            } else {
                seq![]
            }) + seq![piece]);
            empty_count = 0;
        }
        file = file + 1;
    }
    assert(row@.skip(8) =~= Seq::<char>::empty());
    if empty_count > 0 {
        push_decimal(empty_count, out);
    } else {
        assert(out@ =~= out@ + Seq::<char>::empty());
    }
}

/// Appends the placement field of a board.
fn push_board_fen(board: &Vec<Vec<char>>, out: &mut Vec<char>)
    requires
        board_shaped(board.deep_view()),
    ensures
        final(out)@ == old(out)@ + spec_board_fen(board.deep_view()),
{
    let ghost b = board.deep_view();
    let mut rank: usize = 8;
    while rank > 0
        invariant
            rank <= 8,
            b == board.deep_view(),
            board_shaped(b),
            rank == 8 ==> out@ == old(out)@,
            0 < rank < 8 ==> old(out)@ + spec_board_fen(b) == out@ + board_fen_from(b, rank as int - 1),
            rank == 0 ==> out@ == old(out)@ + spec_board_fen(b),
        decreases rank,
    {
        rank = rank - 1;
        proof {
            lemma_chars_deep_view(board[rank as int]);
        }
        assert(board[rank as int]@ == b[rank as int]);
        let ghost before = out@;
        push_rank_fen(&board[rank], out);
        if rank > 0 {
            out.push('/');
            assert(board_fen_from(b, rank as int) == rank_fen(b[rank as int]) + seq!['/'] + board_fen_from(b, rank as int - 1));
            assert(before + board_fen_from(b, rank as int) =~= out@ + board_fen_from(b, rank as int - 1));
        } else {
            assert(out@ =~= before + board_fen_from(b, 0));
        }
    }
}

/// The placement field of a board, the eighth rank first.
pub fn board_to_fen(board: &Vec<Vec<char>>) -> (r: String)
    requires
        board_shaped(board.deep_view()),
    ensures
        r@ == spec_board_fen(board.deep_view()),
{
    let mut out: Vec<char> = Vec::new();
    push_board_fen(board, &mut out);
    assert(out@ =~= spec_board_fen(board.deep_view()));
    string_from_chars(&out)
}

/// The characters of the FEN record of a position.
fn state_fen_chars(state: &ChessState) -> (r: Vec<char>)
    requires
        board_shaped(state@.board),
    ensures
        r@ == spec_state_fen(state@),
{
    let mut out: Vec<char> = Vec::new();
    push_board_fen(&state.board, &mut out);
    out.push(' ');
    out.push(state.active_color);
    out.push(' ');
    let mut i: usize = 0;
    let ghost p1 = out@;
    while i < state.castling_rights.len()
        invariant
            i <= state.castling_rights.len(),
            out@ == p1 + state.castling_rights@.subrange(0, i as int),
        decreases state.castling_rights.len() - i,
    {
        out.push(state.castling_rights[i]);
        i = i + 1;
    }
    out.push(' ');
    let mut j: usize = 0;
    let ghost p2 = out@;
    while j < state.en_passant.len()
        invariant
            j <= state.en_passant.len(),
            out@ == p2 + state.en_passant@.subrange(0, j as int),
        decreases state.en_passant.len() - j,
    {
        out.push(state.en_passant[j]);
        j = j + 1;
    }
    out.push(' ');
    push_decimal(state.halfmove_clock as u64, &mut out);
    out.push(' ');
    push_decimal(state.fullmove_number as u64, &mut out);
    assert(out@ =~= spec_state_fen(state@));
    out
}

/// The FEN record of a position: the six fields separated by single spaces.
pub fn state_to_fen(state: &ChessState) -> (r: String)
    requires
        board_shaped(state@.board),
    ensures
        r@ == spec_state_fen(state@),
{
    let chars = state_fen_chars(state);
    string_from_chars(&chars)
}


/// Castling rights once `piece`, of the side `active`, leaves `from`: a king gives up both
/// of its side's rights, a rook leaving a corner gives up one.
pub open spec fn castling_after(c: Seq<char>, active: char, piece: char, from: Position) -> Seq<char> {
    if ascii_upper(piece) == 'K' {
        if active == 'w' {
            remove_char(remove_char(c, 'K'), 'Q')
        } else {
            remove_char(remove_char(c, 'k'), 'q')
        }
    } else if ascii_upper(piece) == 'R' {
        if from.rank == 0 && from.file == 0 {
            remove_char(c, 'q')
        } else if from.rank == 0 && from.file == 7 {
            remove_char(c, 'k')
        } else if from.rank == 7 && from.file == 0 {
            remove_char(c, 'Q')
        } else if from.rank == 7 && from.file == 7 {
            remove_char(c, 'K')
        } else {
            c
        }
    } else {
        c
    }
}

/// The letter of a file (`a` for file 0).
pub open spec fn file_char(file: int) -> char {
    ((file + 97) as u8) as char
}

/// The digit of a rank (`1` for rank 0).
pub open spec fn rank_char(rank: int) -> char {
    ((rank + 49) as u8) as char
}

/// The mover owns the piece on `from`, and a promotion, if any, is a pawn reaching the
/// first or last rank.
pub open spec fn move_allowed(
    st: ChessStateView,
    piece: char,
    from: Position,
    to: Position,
    promotion: Option<char>,
) -> bool {
    let white = char_uppercase(st.board[from.rank as int][from.file as int]);
    &&& !((st.active_color == 'w' && !white) || (st.active_color == 'b' && white))
    &&& promotion is Some ==> (ascii_upper(piece) == 'P' && (to.rank == 0 || to.rank == 7))
}

/// The halfmove clock after the move: reset by a pawn move or a capture.
pub open spec fn halfmove_after(st: ChessStateView, piece: char, to: Position) -> int {
    if ascii_upper(piece) == 'P' || st.board[to.rank as int][to.file as int] != ' ' {
        0
    } else {
        st.halfmove_clock + 1
    }
}

/// The fullmove number after the move: it grows once black has moved.
pub open spec fn fullmove_after(st: ChessStateView) -> int {
    if st.active_color == 'b' {
        st.fullmove_number + 1
    } else {
        st.fullmove_number as int
    }
}

/// The en passant field after the move: the square that a pawn's double step passed over.
pub open spec fn en_passant_after(piece: char, from: Position, to: Position) -> Seq<char> {
    let d = to.rank - from.rank;
    if ascii_upper(piece) == 'P' && (d == 2 || d == -2) {
        seq![file_char(from.file as int), rank_char((from.rank + to.rank) / 2)]
    } else {
        seq!['-']
    }
}

/// The position after `piece` moves from `from` to `to`, or `None` where the move is refused.
pub open spec fn spec_apply_move(
    st: ChessStateView,
    piece: char,
    from: Position,
    to: Position,
    promotion: Option<char>,
) -> Option<ChessStateView> {
    if !move_allowed(st, piece, from, to, promotion) {
        None
    } else {
        let source = st.board[from.rank as int][from.file as int];
        let white = char_uppercase(source);
        let placed = match promotion {
            Some(p) => if white {
                ascii_upper(p)
            } else {
                ascii_lower(p)
            },
            None => source,
        };
        let castling = castling_after(st.castling_rights, st.active_color, piece, from);
        let board1 = st.board.update(
            from.rank as int,
            st.board[from.rank as int].update(from.file as int, ' '),
        );
        let board2 = board1.update(to.rank as int, board1[to.rank as int].update(to.file as int, placed));
        Some(
            ChessStateView {
                board: board2,
                active_color: if st.active_color == 'w' {
                    'b'
                } else {
                    'w'
                },
                castling_rights: if castling.len() == 0 {
                    seq!['-']
                } else {
                    castling
                },
                en_passant: en_passant_after(piece, from, to),
                halfmove_clock: halfmove_after(st, piece, to) as u32,
                fullmove_number: fullmove_after(st) as u32,
            },
        )
    }
}

/// The FEN record after applying one move to the record `fen`, or `None` where the record,
/// either coordinate or the move is refused.
pub open spec fn spec_update_fen(
    fen: Seq<char>,
    piece: char,
    from: Seq<char>,
    to: Seq<char>,
    promotion: Option<char>,
) -> Option<Seq<char>> {
    match (spec_parse_fen(fen), spec_from_algebraic(from), spec_from_algebraic(to)) {
        (Some(st), Some(f), Some(t)) => match spec_apply_move(st, piece, f, t, promotion) {
            Some(st2) => Some(spec_state_fen(st2)),
            None => None,
        },
        _ => None,
    }
}

/// The counters of the record stay within 32 bits after the move (a larger count would
/// overflow them).
pub open spec fn spec_update_in_range(
    fen: Seq<char>,
    piece: char,
    from: Seq<char>,
    to: Seq<char>,
    promotion: Option<char>,
) -> bool {
    match (spec_parse_fen(fen), spec_from_algebraic(from), spec_from_algebraic(to)) {
        (Some(st), Some(f), Some(t)) => move_allowed(st, piece, f, t, promotion) ==> (
        halfmove_after(st, piece, t) <= u32::MAX && fullmove_after(st) <= u32::MAX),
        _ => true,
    }
}

/// A copy of `row` with the square `file` set to `c`.
fn row_with(row: &Vec<char>, file: usize, c: char) -> (r: Vec<char>)
    requires
        file < row@.len(),
    ensures
        r@ == row@.update(file as int, c),
{
    let mut r = copy_chars(row);
    r.set(file, c);
    r
}

/// Applies one move to the FEN record `fen` and returns the new record, or `None` where the
/// record, either coordinate or the move is refused.
pub fn update_fen(fen: &str, piece: char, from: &str, to: &str, promotion: Option<char>) -> (r:
    Option<String>)
    requires
        spec_update_in_range(fen@, piece, from@, to@, promotion),
    ensures
        match r {
            Some(s) => spec_update_fen(fen@, piece, from@, to@, promotion) == Some(s@),
            None => spec_update_fen(fen@, piece, from@, to@, promotion) is None,
        },
{
    let chars = str_chars(fen);
    let state = match parse_complete_fen(&chars) {
        Some(s) => s,
        None => return None,
    };
    let from_pos = match Position::from_algebraic(from) {
        Some(p) => p,
        None => return None,
    };
    let to_pos = match Position::from_algebraic(to) {
        Some(p) => p,
        None => return None,
    };
    let ghost st = state@;
    proof {
        lemma_chars_deep_view(state.board[from_pos.rank as int]);
        lemma_chars_deep_view(state.board[to_pos.rank as int]);
    }
    let source_piece = state.board[from_pos.rank][from_pos.file];
    let is_white_piece = char_is_uppercase(source_piece);
    if (state.active_color == 'w' && !is_white_piece) || (state.active_color == 'b'
        && is_white_piece) {
        return None;
    }
    let piece_upper = to_ascii_upper(piece);
    let piece_to_place = match promotion {
        Some(promoted_piece) => {
            if piece_upper != 'P' {
                return None;
            }
            if to_pos.rank != 0 && to_pos.rank != 7 {
                return None;
            }
            if is_white_piece {
                to_ascii_upper(promoted_piece)
            } else {
                to_ascii_lower(promoted_piece)
            }
        },
        None => source_piece,
    };
    let is_pawn = piece_upper == 'P';
    let mut en_passant: Vec<char> = vec!['-'];
    if is_pawn {
        let rank_diff = if to_pos.rank >= from_pos.rank {
            to_pos.rank - from_pos.rank
        } else {
            from_pos.rank - to_pos.rank
        };
        if rank_diff == 2 {
            let ep_rank = (from_pos.rank + to_pos.rank) / 2;
            let file_c = (97u8 + from_pos.file as u8) as char;
            let rank_c = (49u8 + ep_rank as u8) as char;
            en_passant = vec![file_c, rank_c];
        }
    }
    assert(en_passant@ =~= en_passant_after(piece, from_pos, to_pos));
    let halfmove_clock = if is_pawn || state.board[to_pos.rank][to_pos.file] != ' ' {
        0
    } else {
        state.halfmove_clock + 1
    };
    let fullmove_number = if state.active_color == 'b' {
        state.fullmove_number + 1
    } else {
        state.fullmove_number
    };
    let mut castling_rights = if piece_upper == 'K' {
        if state.active_color == 'w' {
            without_char(&without_char(&state.castling_rights, 'K'), 'Q')
        } else {
            without_char(&without_char(&state.castling_rights, 'k'), 'q')
        }
    } else if piece_upper == 'R' {
        if from_pos.rank == 0 && from_pos.file == 0 {
            without_char(&state.castling_rights, 'q')
        } else if from_pos.rank == 0 && from_pos.file == 7 {
            without_char(&state.castling_rights, 'k')
        } else if from_pos.rank == 7 && from_pos.file == 0 {
            without_char(&state.castling_rights, 'Q')
        } else if from_pos.rank == 7 && from_pos.file == 7 {
            without_char(&state.castling_rights, 'K')
        } else {
            copy_chars(&state.castling_rights)
        }
    } else {
        copy_chars(&state.castling_rights)
    };
    if castling_rights.len() == 0 {
        castling_rights = vec!['-'];
    }
    let mut board = state.board;
    let cleared = row_with(&board[from_pos.rank], from_pos.file, ' ');
    let ghost b0 = board.deep_view();
    proof {
        lemma_chars_deep_view(cleared);
        lemma_chars_deep_view(board[from_pos.rank as int]);
    }
    board.set(from_pos.rank, cleared);
    assert(board.deep_view() =~= b0.update(from_pos.rank as int, b0[from_pos.rank as int].update(from_pos.file as int, ' ')));
    let ghost b1 = board.deep_view();
    proof {
        lemma_chars_deep_view(board[to_pos.rank as int]);
    }
    let placed = row_with(&board[to_pos.rank], to_pos.file, piece_to_place);
    proof {
        lemma_chars_deep_view(placed);
    }
    board.set(to_pos.rank, placed);
    assert(board.deep_view() =~= b1.update(to_pos.rank as int, b1[to_pos.rank as int].update(to_pos.file as int, piece_to_place)));
    let new_state = ChessState {
        board,
        active_color: if state.active_color == 'w' {
            'b'
        } else {
            'w'
        },
        castling_rights,
        en_passant,
        halfmove_clock,
        fullmove_number,
    };
    let ghost expect = spec_apply_move(st, piece, from_pos, to_pos, promotion)->0;
    assert(b0 == st.board);
    assert(new_state@.board == expect.board);
    assert(new_state@.active_color == expect.active_color);
    assert(new_state@.castling_rights == expect.castling_rights);
    assert(new_state@.en_passant == expect.en_passant);
    assert(new_state@.halfmove_clock == expect.halfmove_clock);
    assert(new_state@.fullmove_number == expect.fullmove_number);
    assert(new_state@ == expect);
    Some(state_to_fen(&new_state))
}


#[verifier::external_type_specification]
#[verifier::external_body]
pub struct ExInstant(std::time::Instant);

/// Calls `Instant::now`. The reading depends on the clock, so nothing is stated of it.
#[verifier::external_body]
fn instant_now() -> std::time::Instant {
    std::time::Instant::now()
}

/// Calls `Instant::elapsed`. The duration depends on the clock, so nothing is stated of it.
#[verifier::external_body]
fn elapsed_since(start: &std::time::Instant) -> std::time::Duration {
    start.elapsed()
}

/// An updated FEN record and the time that computing it took.
#[derive(Debug)]
pub struct TimedResult {
    pub fen: String,
    pub duration: std::time::Duration,
}

/// Applies one move to a FEN record, as [`update_fen`] does, and measures how long that took.
pub fn update_fen_with_timing(
    fen: &str,
    piece: char,
    from: &str,
    to: &str,
    promotion: Option<char>,
) -> (r: Option<TimedResult>)
    requires
        spec_update_in_range(fen@, piece, from@, to@, promotion),
    ensures
        match r {
            Some(t) => spec_update_fen(fen@, piece, from@, to@, promotion) == Some(t.fen@),
            None => spec_update_fen(fen@, piece, from@, to@, promotion) is None,
        },
{
    let start = instant_now();
    let result = match update_fen(fen, piece, from, to, promotion) {
        Some(s) => s,
        None => return None,
    };
    let duration = elapsed_since(&start);
    Some(TimedResult { fen: result, duration })
}

/// Whether the counters of the record stay within 32 bits after the move, that is, whether
/// [`update_fen`] may be called with these arguments.
pub fn update_in_range(fen: &str, piece: char, from: &str, to: &str, promotion: Option<char>) -> (r:
    bool)
    ensures
        r == spec_update_in_range(fen@, piece, from@, to@, promotion),
{
    let chars = str_chars(fen);
    let state = match parse_complete_fen(&chars) {
        Some(s) => s,
        None => return true,
    };
    let from_pos = match Position::from_algebraic(from) {
        Some(p) => p,
        None => return true,
    };
    let to_pos = match Position::from_algebraic(to) {
        Some(p) => p,
        None => return true,
    };
    let ghost st = state@;
    proof {
        lemma_chars_deep_view(state.board[from_pos.rank as int]);
        lemma_chars_deep_view(state.board[to_pos.rank as int]);
    }
    assert(st.board[from_pos.rank as int].len() == 8);
    assert(st.board[to_pos.rank as int].len() == 8);
    let is_white_piece = char_is_uppercase(state.board[from_pos.rank][from_pos.file]);
    if (state.active_color == 'w' && !is_white_piece) || (state.active_color == 'b'
        && is_white_piece) {
        return true;
    }
    let piece_upper = to_ascii_upper(piece);
    if promotion.is_some() && !(piece_upper == 'P' && (to_pos.rank == 0 || to_pos.rank == 7)) {
        return true;
    }
    let half_fits = piece_upper == 'P' || state.board[to_pos.rank][to_pos.file] != ' '
        || state.halfmove_clock < u32::MAX;
    let full_fits = state.active_color != 'b' || state.fullmove_number < u32::MAX;
    half_fits && full_fits
}

/// A square as the game client sends it: `x` counts files from `a`, `y` counts ranks down
/// from the eighth.
#[derive(Clone, Copy, Debug, PartialEq, Eq, Structural)]
pub struct CellPosition {
    pub x: i64,
    pub y: i64,
}

/// The letter of a file number, `a` for any number outside 0 to 7.
pub open spec fn file_letter(num: i64) -> Seq<char> {
    if 0 <= num && num <= 7 {
        seq![file_char(num as int)]
    } else {
        seq!['a']
    }
}

/// The coordinate text of a client cell: its file letter, then `8 - y` in decimal.
pub open spec fn chess_position(cell: CellPosition) -> Seq<char> {
    file_letter(cell.x) + decimal_int(8 - cell.y)
}

/// The letter of a file number (`0` is `a`); numbers outside 0 to 7 give `a`.
pub fn get_file_letter(num: i64) -> (r: String)
    ensures
        r@ == file_letter(num),
{
    let c = if 0 <= num && num <= 7 {
        (97u8 + num as u8) as char
    } else {
        'a'
    };
    let v = vec![c];
    assert(v@ =~= file_letter(num));
    string_from_chars(&v)
}

/// The coordinate text (such as `e4`) of a client cell.
pub fn get_chess_position(cell: &CellPosition) -> (r: String)
    requires
        cell.y > i64::MIN + 8,
    ensures
        r@ == chess_position(*cell),
{
    let letter = str_chars(get_file_letter(cell.x).as_str());
    let mut out = letter;
    push_decimal_i64(8 - cell.y, &mut out);
    string_from_chars(&out)
}

} // verus!
