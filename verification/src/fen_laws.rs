//! What holds of FEN records across reading, writing and moving.
use vstd::prelude::*;
use crate::decimal::{spec_parse_u32, decimal, decimal_int, digit_char, digit_val, is_digit, lemma_decimal, lemma_digit_char, lemma_parse_decimal_u32};
use crate::fen::{board_fen_from, board_shaped, castling_after, chess_position, empty_row, en_passant_after, file_char, fullmove_after, halfmove_after, parse_rank, parse_rank_rest, rank_fen, rank_fen_rest, spec_apply_move, spec_board_fen, spec_from_algebraic, spec_parse_board, spec_parse_fen, spec_state_fen, spec_update_fen, CellPosition, ChessStateView, Position};
use crate::text::{ascii_lower, ascii_upper, is_ws, join_with, lemma_join_front, lemma_join_split, lemma_ws_split_words_nonempty, remove_char, split_on, split_on_rest, ws_split, ws_split_rest};

verus! {

/// A square's content that a FEN record can carry: empty, or a piece letter that is not a
/// digit, not `/` and not whitespace.
pub open spec fn cell_ok(c: char) -> bool {
    c == ' ' || (!is_digit(c) && c != '/' && !is_ws(c))
}

/// A square's content that the placement field can carry: empty, or any character that is
/// neither a digit nor `/`.
pub open spec fn board_cell(c: char) -> bool {
    c == ' ' || (!is_digit(c) && c != '/')
}

/// Every square of an eight-by-eight board is a [`board_cell`] content.
pub open spec fn board_cells_ok(b: Seq<Seq<char>>) -> bool {
    &&& board_shaped(b)
    &&& forall|r: int, f: int| 0 <= r < 8 && 0 <= f < 8 ==> board_cell(#[trigger] b[r][f])
}

/// Every square of an eight-by-eight board is a [`cell_ok`] content.
pub open spec fn board_wf(b: Seq<Seq<char>>) -> bool {
    &&& board_shaped(b)
    &&& forall|r: int, f: int| 0 <= r < 8 && 0 <= f < 8 ==> cell_ok(#[trigger] b[r][f])
}

/// A board that a FEN record can carry is a board that the placement field can carry.
proof fn lemma_wf_cells(b: Seq<Seq<char>>)
    requires
        board_wf(b),
    ensures
        board_cells_ok(b),
{
    assert forall|r: int, f: int| 0 <= r < 8 && 0 <= f < 8 implies board_cell(#[trigger] b[r][f]) by {
        assert(cell_ok(b[r][f]));
    }
}

/// No character of `s` is whitespace.
pub open spec fn no_ws(s: Seq<char>) -> bool {
    forall|i: int| 0 <= i < s.len() ==> !is_ws(#[trigger] s[i])
}

/// A position that a FEN record can carry: a well-formed board, a non-whitespace side to
/// move, and non-empty castling and en passant fields without whitespace.
pub open spec fn state_wf(st: ChessStateView) -> bool {
    &&& board_wf(st.board)
    &&& !is_ws(st.active_color)
    &&& st.castling_rights.len() > 0
    &&& no_ws(st.castling_rights)
    &&& st.en_passant.len() > 0
    &&& no_ws(st.en_passant)
}

// ----- writing a rank, then reading it -----

proof fn lemma_rank_rt(row: Seq<char>, k: int, e: int, prow: Seq<char>)
    requires
        row.len() == 8,
        forall|j: int| 0 <= j < 8 ==> board_cell(#[trigger] row[j]),
        0 <= e <= k <= 8,
        prow.len() == 8,
        forall|j: int| 0 <= j < k - e ==> prow[j] == row[j],
        forall|j: int| k - e <= j < 8 ==> prow[j] == ' ',
        forall|j: int| k - e <= j < k ==> row[j] == ' ',
    ensures
        parse_rank_rest(rank_fen_rest(row.skip(k), e as nat), k - e, prow) == Some(row),
    decreases 8 - k,
{
    if k == 8 {
        assert(row.skip(k) =~= Seq::<char>::empty());
        assert(prow =~= row);
        if e > 0 {
            lemma_digit_char(e as nat);
            let d = decimal(e as nat);
            assert(d == seq![digit_char(e as nat)]);
            assert(d.drop_first() =~= Seq::<char>::empty());
            assert(parse_rank_rest(d, k - e, prow) == parse_rank_rest(
                Seq::<char>::empty(),
                k - e + e,
                prow,
            ));
        }
    } else {
        let cells = row.skip(k);
        assert(cells[0] == row[k]);
        assert(cells.drop_first() =~= row.skip(k + 1));
        if row[k] == ' ' {
            lemma_rank_rt(row, k + 1, e + 1, prow);
        } else {
            let c = row[k];
            let prow2 = prow.update(k, c);
            lemma_rank_rt(row, k + 1, 0, prow2);
            let rest = rank_fen_rest(row.skip(k + 1), 0);
            assert((seq![c] + rest).drop_first() =~= rest);
            assert(parse_rank_rest(seq![c] + rest, k, prow) == parse_rank_rest(rest, k + 1, prow2));
            if e > 0 {
                lemma_digit_char(e as nat);
                let d = decimal(e as nat);
                assert(d == seq![digit_char(e as nat)]);
                let s = d + seq![c] + rest;
                assert(s[0] == digit_char(e as nat));
                assert(s.drop_first() =~= seq![c] + rest);
                assert(parse_rank_rest(s, k - e, prow) == parse_rank_rest(seq![c] + rest, k, prow));
            } else {
                assert(Seq::<char>::empty() + seq![c] + rest =~= seq![c] + rest);
            }
        }
    }
}

/// Reading back the text of a well-formed rank gives the rank.
proof fn lemma_rank_roundtrip(row: Seq<char>)
    requires
        row.len() == 8,
        forall|j: int| 0 <= j < 8 ==> board_cell(#[trigger] row[j]),
    ensures
        parse_rank(rank_fen(row)) == Some(row),
{
    assert(row.skip(0) =~= row);
    lemma_rank_rt(row, 0, 0, empty_row());
}

/// The text of a rank holds digits and piece letters only, and is not empty.
proof fn lemma_rank_fen_chars(cells: Seq<char>, e: nat)
    requires
        forall|j: int| 0 <= j < cells.len() ==> cell_ok(#[trigger] cells[j]),
        e <= 8,
        cells.len() + e > 0,
        cells.len() + e <= 8,
    ensures
        rank_fen_rest(cells, e).len() > 0,
        forall|i: int|
            0 <= i < rank_fen_rest(cells, e).len() ==> {
                let c = #[trigger] rank_fen_rest(cells, e)[i];
                c != '/' && !is_ws(c) && c != ' '
            },
    decreases cells.len(),
{
    if cells.len() == 0 {
        lemma_digit_char(e);
        assert(decimal(e) == seq![digit_char(e)]);
    } else if cells[0] == ' ' {
        lemma_rank_fen_chars(cells.drop_first(), e + 1);
    } else {
        let d = if e > 0 {
            decimal(e)
        } else {
            seq![]
        };
        if e > 0 {
            lemma_digit_char(e);
            assert(decimal(e) == seq![digit_char(e)]);
        }
        let rest = rank_fen_rest(cells.drop_first(), 0);
        let s = d + seq![cells[0]] + rest;
        if cells.len() > 1 {
            lemma_rank_fen_chars(cells.drop_first(), 0);
        } else {
            assert(cells.drop_first() =~= Seq::<char>::empty());
        }
        assert forall|i: int| 0 <= i < s.len() implies {
            let c = #[trigger] s[i];
            c != '/' && !is_ws(c) && c != ' '
        } by {
            if i < d.len() {
            } else if i == d.len() {
            } else {
                assert(s[i] == rest[i - d.len() - 1]);
            }
        }
    }
}

/// The text of a rank holds no `/`, and is not empty.
proof fn lemma_rank_fen_no_slash(cells: Seq<char>, e: nat)
    requires
        forall|j: int| 0 <= j < cells.len() ==> board_cell(#[trigger] cells[j]),
        e <= 8,
        cells.len() + e > 0,
        cells.len() + e <= 8,
    ensures
        rank_fen_rest(cells, e).len() > 0,
        forall|i: int| 0 <= i < rank_fen_rest(cells, e).len() ==> #[trigger] rank_fen_rest(cells, e)[i] != '/',
    decreases cells.len(),
{
    if cells.len() == 0 {
        lemma_digit_char(e);
        assert(decimal(e) == seq![digit_char(e)]);
    } else if cells[0] == ' ' {
        lemma_rank_fen_no_slash(cells.drop_first(), e + 1);
    } else {
        let d = if e > 0 {
            decimal(e)
        } else {
            seq![]
        };
        if e > 0 {
            lemma_digit_char(e);
            assert(decimal(e) == seq![digit_char(e)]);
        }
        let rest = rank_fen_rest(cells.drop_first(), 0);
        let s = d + seq![cells[0]] + rest;
        if cells.len() > 1 {
            lemma_rank_fen_no_slash(cells.drop_first(), 0);
        } else {
            assert(cells.drop_first() =~= Seq::<char>::empty());
        }
        assert forall|i: int| 0 <= i < s.len() implies #[trigger] s[i] != '/' by {
            if i < d.len() {
            } else if i == d.len() {
                assert(board_cell(cells[0]));
            } else {
                assert(s[i] == rest[i - d.len() - 1]);
            }
        }
    }
}

// ----- splitting at '/' -----

proof fn lemma_split_on_word(w: Seq<char>, rest: Seq<char>, sep: char, cur: Seq<char>, acc: Seq<Seq<char>>)
    requires
        forall|i: int| 0 <= i < w.len() ==> #[trigger] w[i] != sep,
    ensures
        split_on_rest(w + rest, sep, cur, acc) == split_on_rest(rest, sep, cur + w, acc),
    decreases w.len(),
{
    if w.len() == 0 {
        assert(w + rest =~= rest);
        assert(cur + w =~= cur);
    } else {
        assert((w + rest)[0] == w[0]);
        assert((w + rest).drop_first() =~= w.drop_first() + rest);
        lemma_split_on_word(w.drop_first(), rest, sep, cur.push(w[0]), acc);
        assert(cur.push(w[0]) + w.drop_first() =~= cur + w);
    }
}

/// The ranks `k` down to 0 of a board, in that order.
pub open spec fn ranks_desc(b: Seq<Seq<char>>, k: int) -> Seq<Seq<char>> {
    Seq::new((k + 1) as nat, |i: int| rank_fen(b[k - i]))
}

proof fn lemma_split_board(b: Seq<Seq<char>>, k: int, acc: Seq<Seq<char>>)
    requires
        board_cells_ok(b),
        0 <= k <= 7,
    ensures
        split_on_rest(board_fen_from(b, k), '/', seq![], acc) == acc + ranks_desc(b, k),
    decreases k,
{
    assert forall|j: int| 0 <= j < b[k].len() implies board_cell(#[trigger] b[k][j]) by {
        assert(board_cell(b[k][j]));
    }
    lemma_rank_fen_no_slash(b[k], 0);
    assert(b[k].len() == 8);
    let w = rank_fen(b[k]);
    if k == 0 {
        lemma_split_on_word(w, Seq::<char>::empty(), '/', seq![], acc);
        assert(w + Seq::<char>::empty() =~= w);
        assert(Seq::<char>::empty() + w =~= w);
        assert(acc.push(w) =~= acc + ranks_desc(b, 0));
    } else {
        let rest = board_fen_from(b, k - 1);
        assert(board_fen_from(b, k) =~= w + (seq!['/'] + rest));
        lemma_split_on_word(w, seq!['/'] + rest, '/', seq![], acc);
        assert(Seq::<char>::empty() + w =~= w);
        assert((seq!['/'] + rest)[0] == '/');
        assert((seq!['/'] + rest).drop_first() =~= rest);
        lemma_split_board(b, k - 1, acc.push(w));
        assert(acc.push(w) + ranks_desc(b, k - 1) =~= acc + ranks_desc(b, k));
    }
}

/// Law: reading back the placement field of an eight-by-eight board gives the board, for
/// every board whose squares are empty or hold a character that is neither a digit nor `/`.
pub proof fn law_board_roundtrip(b: Seq<Seq<char>>)
    requires
        board_cells_ok(b),
    ensures
        spec_parse_board(spec_board_fen(b)) == Some(b),
{
    lemma_split_board(b, 7, seq![]);
    let ranks = split_on(spec_board_fen(b), '/');
    assert(ranks =~= ranks_desc(b, 7));
    assert forall|r: int| 0 <= r < 8 implies (#[trigger] parse_rank(ranks[r])) is Some
        && parse_rank(ranks[r]) == Some(b[7 - r]) by {
        assert(ranks[r] == rank_fen(b[7 - r]));
        assert(b[7 - r].len() == 8);
        assert forall|j: int| 0 <= j < 8 implies board_cell(#[trigger] b[7 - r][j]) by {
            assert(board_cell(b[7 - r][j]));
        }
        lemma_rank_roundtrip(b[7 - r]);
    }
    assert forall|k: int| 0 <= k < 8 implies parse_rank(ranks[7 - k])->0 == b[k] by {
        assert(parse_rank(ranks[7 - k]) == Some(b[7 - (7 - k)]));
    }
    assert(Seq::new(8, |k: int| parse_rank(ranks[7 - k])->0) =~= b);
}


// ----- splitting at whitespace -----

proof fn lemma_ws_word(w: Seq<char>, rest: Seq<char>, cur: Seq<char>, acc: Seq<Seq<char>>)
    requires
        no_ws(w),
    ensures
        ws_split_rest(w + rest, cur, acc) == ws_split_rest(rest, cur + w, acc),
    decreases w.len(),
{
    if w.len() == 0 {
        assert(w + rest =~= rest);
        assert(cur + w =~= cur);
    } else {
        assert((w + rest)[0] == w[0]);
        assert(!is_ws(w[0]));
        assert((w + rest).drop_first() =~= w.drop_first() + rest);
        assert forall|i: int| 0 <= i < w.drop_first().len() implies !is_ws(
            #[trigger] w.drop_first()[i],
        ) by {
            assert(w.drop_first()[i] == w[i + 1]);
        }
        lemma_ws_word(w.drop_first(), rest, cur.push(w[0]), acc);
        assert(cur.push(w[0]) + w.drop_first() =~= cur + w);
    }
}

/// A word followed by a space, then the rest.
proof fn lemma_ws_word_space(w: Seq<char>, rest: Seq<char>, acc: Seq<Seq<char>>)
    requires
        no_ws(w),
        w.len() > 0,
    ensures
        ws_split_rest(w + (seq![' '] + rest), seq![], acc) == ws_split_rest(rest, seq![], acc.push(w)),
{
    lemma_ws_word(w, seq![' '] + rest, seq![], acc);
    assert(Seq::<char>::empty() + w =~= w);
    assert((seq![' '] + rest)[0] == ' ');
    assert(is_ws(' '));
    assert((seq![' '] + rest).drop_first() =~= rest);
}

/// A last word.
proof fn lemma_ws_last_word(w: Seq<char>, acc: Seq<Seq<char>>)
    requires
        no_ws(w),
        w.len() > 0,
    ensures
        ws_split_rest(w, seq![], acc) == acc.push(w),
{
    lemma_ws_word(w, Seq::<char>::empty(), seq![], acc);
    assert(w + Seq::<char>::empty() =~= w);
    assert(Seq::<char>::empty() + w =~= w);
}

proof fn lemma_board_fen_chars(b: Seq<Seq<char>>, k: int)
    requires
        board_wf(b),
        0 <= k <= 7,
    ensures
        board_fen_from(b, k).len() > 0,
        no_ws(board_fen_from(b, k)),
    decreases k,
{
    lemma_rank_fen_chars(b[k], 0);
    assert(b[k].len() == 8);
    if k > 0 {
        lemma_board_fen_chars(b, k - 1);
        let w = rank_fen(b[k]);
        let s = w + seq!['/'] + board_fen_from(b, k - 1);
        assert forall|i: int| 0 <= i < s.len() implies !is_ws(#[trigger] s[i]) by {
            if i < w.len() {
            } else if i == w.len() {
            } else {
                assert(s[i] == board_fen_from(b, k - 1)[i - w.len() - 1]);
            }
        }
    }
}

proof fn lemma_decimal_no_ws(n: nat)
    ensures
        no_ws(decimal(n)),
        decimal(n).len() > 0,
{
    lemma_decimal(n);
    assert forall|i: int| 0 <= i < decimal(n).len() implies !is_ws(#[trigger] decimal(n)[i]) by {
        assert(is_digit(decimal(n)[i]));
    }
}

/// The six fields of the record of a well-formed position are its board's placement field,
/// its side to move, castling and en passant fields, and its two counters in decimal.
proof fn lemma_state_fields(st: ChessStateView)
    requires
        state_wf(st),
    ensures
        ws_split(spec_state_fen(st)) == seq![
            spec_board_fen(st.board),
            seq![st.active_color],
            st.castling_rights,
            st.en_passant,
            decimal(st.halfmove_clock as nat),
            decimal(st.fullmove_number as nat),
        ],
{
    let bf = spec_board_fen(st.board);
    let a = seq![st.active_color];
    let c = st.castling_rights;
    let ep = st.en_passant;
    let dh = decimal(st.halfmove_clock as nat);
    let df = decimal(st.fullmove_number as nat);
    lemma_board_fen_chars(st.board, 7);
    lemma_decimal_no_ws(st.halfmove_clock as nat);
    lemma_decimal_no_ws(st.fullmove_number as nat);
    let sp = seq![' '];
    let s = spec_state_fen(st);
    assert(s =~= bf + (sp + (a + (sp + (c + (sp + (ep + (sp + (dh + (sp + df))))))))));
    let e = Seq::<Seq<char>>::empty();
    lemma_ws_word_space(bf, a + (sp + (c + (sp + (ep + (sp + (dh + (sp + df))))))), e);
    lemma_ws_word_space(a, c + (sp + (ep + (sp + (dh + (sp + df))))), e.push(bf));
    lemma_ws_word_space(c, ep + (sp + (dh + (sp + df))), e.push(bf).push(a));
    lemma_ws_word_space(ep, dh + (sp + df), e.push(bf).push(a).push(c));
    lemma_ws_word_space(dh, df, e.push(bf).push(a).push(c).push(ep));
    lemma_ws_last_word(df, e.push(bf).push(a).push(c).push(ep).push(dh));
    let parts = ws_split(s);
    assert(parts =~= seq![bf, a, c, ep, dh, df]);
}

/// Law: reading back the FEN record of a well-formed position gives the position.
pub proof fn law_state_roundtrip(st: ChessStateView)
    requires
        state_wf(st),
    ensures
        spec_parse_fen(spec_state_fen(st)) == Some(st),
{
    lemma_state_fields(st);
    let parts = ws_split(spec_state_fen(st));
    assert(parts[0] == spec_board_fen(st.board));
    assert(parts[4] == decimal(st.halfmove_clock as nat));
    assert(parts[5] == decimal(st.fullmove_number as nat));
    lemma_wf_cells(st.board);
    law_board_roundtrip(st.board);
    lemma_parse_decimal_u32(st.halfmove_clock);
    lemma_parse_decimal_u32(st.fullmove_number);
}


// ----- what reading yields -----

/// Every piece is free of whitespace and of the separator.
pub open spec fn pieces_clean(ps: Seq<Seq<char>>, sep: char) -> bool {
    forall|k: int, j: int|
        0 <= k < ps.len() && 0 <= j < ps[k].len() ==> {
            let c = #[trigger] ps[k][j];
            !is_ws(c) && c != sep
        }
}

proof fn lemma_split_on_clean(rest: Seq<char>, sep: char, cur: Seq<char>, acc: Seq<Seq<char>>)
    requires
        no_ws(rest),
        pieces_clean(acc, sep),
        forall|j: int| 0 <= j < cur.len() ==> !is_ws(#[trigger] cur[j]) && cur[j] != sep,
    ensures
        pieces_clean(split_on_rest(rest, sep, cur, acc), sep),
    decreases rest.len(),
{
    if rest.len() == 0 {
        assert forall|k: int, j: int| 0 <= k < acc.push(cur).len() && 0 <= j < acc.push(cur)[k].len() implies {
            let c = #[trigger] acc.push(cur)[k][j];
            !is_ws(c) && c != sep
        } by {
            if k < acc.len() {
                assert(acc.push(cur)[k] == acc[k]);
            }
        }
    } else {
        assert forall|i: int| 0 <= i < rest.drop_first().len() implies !is_ws(
            #[trigger] rest.drop_first()[i],
        ) by {
            assert(rest.drop_first()[i] == rest[i + 1]);
        }
        if rest[0] == sep {
            assert forall|k: int, j: int| 0 <= k < acc.push(cur).len() && 0 <= j < acc.push(cur)[k].len() implies {
                let c = #[trigger] acc.push(cur)[k][j];
                !is_ws(c) && c != sep
            } by {
                if k < acc.len() {
                    assert(acc.push(cur)[k] == acc[k]);
                }
            }
            lemma_split_on_clean(rest.drop_first(), sep, seq![], acc.push(cur));
        } else {
            let c2 = cur.push(rest[0]);
            assert(!is_ws(rest[0]));
            assert forall|j: int| 0 <= j < c2.len() implies !is_ws(#[trigger] c2[j]) && c2[j] != sep by {
                if j < cur.len() {
                    assert(c2[j] == cur[j]);
                }
            }
            lemma_split_on_clean(rest.drop_first(), sep, c2, acc);
        }
    }
}

proof fn lemma_parse_rank_cells(rest: Seq<char>, fi: int, row: Seq<char>)
    requires
        forall|i: int| 0 <= i < rest.len() ==> !is_ws(#[trigger] rest[i]) && rest[i] != '/',
        row.len() == 8,
        forall|j: int| 0 <= j < 8 ==> cell_ok(#[trigger] row[j]),
        fi >= 0,
    ensures
        parse_rank_rest(rest, fi, row) matches Some(r) ==> r.len() == 8 && forall|j: int|
            0 <= j < 8 ==> cell_ok(#[trigger] r[j]),
    decreases rest.len(),
{
    if rest.len() > 0 && fi < 8 {
        assert forall|i: int| 0 <= i < rest.drop_first().len() implies !is_ws(
            #[trigger] rest.drop_first()[i],
        ) && rest.drop_first()[i] != '/' by {
            assert(rest.drop_first()[i] == rest[i + 1]);
        }
        if is_digit(rest[0]) {
            lemma_parse_rank_cells(rest.drop_first(), fi + digit_val(rest[0]), row);
        } else {
            assert(!is_ws(rest[0]) && rest[0] != '/');
            let r2 = row.update(fi, rest[0]);
            assert forall|j: int| 0 <= j < 8 implies cell_ok(#[trigger] r2[j]) by {
                if j != fi {
                    assert(r2[j] == row[j]);
                }
            }
            lemma_parse_rank_cells(rest.drop_first(), fi + 1, r2);
        }
    }
}

proof fn lemma_parsed_board_wf(s: Seq<char>)
    requires
        no_ws(s),
    ensures
        spec_parse_board(s) matches Some(b) ==> board_wf(b),
{
    let ranks = split_on(s, '/');
    lemma_split_on_clean(s, '/', seq![], seq![]);
    if let Some(b) = spec_parse_board(s) {
        assert forall|r: int| 0 <= r < 8 implies (#[trigger] b[r]).len() == 8 && forall|f: int|
            0 <= f < 8 ==> cell_ok(#[trigger] b[r][f]) by {
            let rk = ranks[7 - r];
            assert forall|i: int| 0 <= i < rk.len() implies !is_ws(#[trigger] rk[i]) && rk[i] != '/' by {
                assert(!is_ws(ranks[7 - r][i]) && ranks[7 - r][i] != '/');
            }
            assert forall|j: int| 0 <= j < 8 implies cell_ok(#[trigger] empty_row()[j]) by {}
            lemma_parse_rank_cells(rk, 0, empty_row());
            assert(parse_rank(ranks[7 - r]) is Some);
        }
    }
}

/// Law: a position read from a FEN record is well-formed.
pub proof fn law_parsed_state_wf(s: Seq<char>)
    ensures
        spec_parse_fen(s) matches Some(st) ==> state_wf(st),
{
    let parts = ws_split(s);
    lemma_ws_split_words_nonempty(s);
    if let Some(st) = spec_parse_fen(s) {
        assert(parts.len() == 6);
        assert(parts[0].len() > 0);
        assert forall|i: int| 0 <= i < parts[0].len() implies !is_ws(#[trigger] parts[0][i]) by {}
        lemma_parsed_board_wf(parts[0]);
        assert(parts[1].len() > 0);
        assert(!is_ws(parts[1][0]));
        assert(parts[2].len() > 0);
        assert(parts[3].len() > 0);
        assert forall|i: int| 0 <= i < parts[2].len() implies !is_ws(#[trigger] parts[2][i]) by {}
        assert forall|i: int| 0 <= i < parts[3].len() implies !is_ws(#[trigger] parts[3][i]) by {}
    }
}


// ----- moving -----

proof fn lemma_remove_char_no_ws(s: Seq<char>, c: char)
    requires
        no_ws(s),
    ensures
        no_ws(remove_char(s, c)),
    decreases s.len(),
{
    if s.len() > 0 {
        assert forall|i: int| 0 <= i < s.drop_last().len() implies !is_ws(#[trigger] s.drop_last()[i]) by {
            assert(s.drop_last()[i] == s[i]);
        }
        lemma_remove_char_no_ws(s.drop_last(), c);
        let r = remove_char(s.drop_last(), c);
        if s.last() != c {
            assert(!is_ws(s.last()));
            assert forall|i: int| 0 <= i < r.push(s.last()).len() implies !is_ws(#[trigger] r.push(s.last())[i]) by {
                if i < r.len() {
                    assert(r.push(s.last())[i] == r[i]);
                }
            }
        }
    }
}

proof fn lemma_castling_no_ws(c: Seq<char>, active: char, piece: char, from: Position)
    requires
        no_ws(c),
    ensures
        no_ws(castling_after(c, active, piece, from)),
{
    lemma_remove_char_no_ws(c, 'K');
    lemma_remove_char_no_ws(c, 'k');
    lemma_remove_char_no_ws(c, 'Q');
    lemma_remove_char_no_ws(c, 'q');
    lemma_remove_char_no_ws(remove_char(c, 'K'), 'Q');
    lemma_remove_char_no_ws(remove_char(c, 'k'), 'q');
}

/// A move that the rules accept keeps a well-formed position well-formed, provided that a
/// promotion names an acceptable piece letter.
proof fn lemma_move_keeps_wf(
    st: ChessStateView,
    piece: char,
    from: Position,
    to: Position,
    promotion: Option<char>,
)
    requires
        state_wf(st),
        from.rank < 8 && from.file < 8 && to.rank < 8 && to.file < 8,
        promotion matches Some(p) ==> cell_ok(p),
    ensures
        spec_apply_move(st, piece, from, to, promotion) matches Some(st2) ==> state_wf(st2),
{
    if let Some(st2) = spec_apply_move(st, piece, from, to, promotion) {
        let source = st.board[from.rank as int][from.file as int];
        assert(cell_ok(source));
        let b = st.board;
        let b1 = b.update(from.rank as int, b[from.rank as int].update(from.file as int, ' '));
        let placed = st2.board[to.rank as int][to.file as int];
        assert(cell_ok(placed)) by {
            if let Some(p) = promotion {
                assert(cell_ok(p));
            }
        }
        assert forall|r: int| 0 <= r < 8 implies (#[trigger] st2.board[r]).len() == 8 && forall|f: int|
            0 <= f < 8 ==> cell_ok(#[trigger] st2.board[r][f]) by {
            assert(b[r].len() == 8);
            assert forall|f: int| 0 <= f < 8 implies cell_ok(#[trigger] st2.board[r][f]) by {
                assert(cell_ok(b[r][f]));
                if r == to.rank && f == to.file {
                } else if r == to.rank {
                    assert(st2.board[r][f] == b1[r][f]);
                } else {
                    assert(st2.board[r] == b1[r]);
                }
            }
        }
        assert(st2.board.len() == 8);
        lemma_castling_no_ws(st.castling_rights, st.active_color, piece, from);
        let ep = en_passant_after(piece, from, to);
        assert(no_ws(ep));
        assert(no_ws(seq!['-']));
    }
}

/// Law: when a move is accepted, the record that comes out reads back as the moved position.
pub proof fn law_update_reparses(
    fen: Seq<char>,
    piece: char,
    from: Seq<char>,
    to: Seq<char>,
    promotion: Option<char>,
)
    requires
        promotion matches Some(p) ==> cell_ok(p),
    ensures
        spec_update_fen(fen, piece, from, to, promotion) matches Some(out) ==> spec_parse_fen(out)
            == spec_apply_move(
            spec_parse_fen(fen)->0,
            piece,
            spec_from_algebraic(from)->0,
            spec_from_algebraic(to)->0,
            promotion,
        ),
{
    if let Some(out) = spec_update_fen(fen, piece, from, to, promotion) {
        let st = spec_parse_fen(fen)->0;
        law_parsed_state_wf(fen);
        let f = spec_from_algebraic(from)->0;
        let t = spec_from_algebraic(to)->0;
        lemma_move_keeps_wf(st, piece, f, t, promotion);
        let st2 = spec_apply_move(st, piece, f, t, promotion)->0;
        law_state_roundtrip(st2);
    }
}

/// Law: the record that an accepted move gives has six fields: the placement field of the
/// moved board, the other side to move, the castling rights after the move (`-` when none is
/// left), the square a pawn's double step passed over (else `-`), the halfmove clock (reset
/// by a pawn move or a capture, else raised by one) and the fullmove number (raised after
/// black's move), each counter in decimal wherever it stays within 32 bits.
pub proof fn law_update_fields(
    fen: Seq<char>,
    piece: char,
    from: Seq<char>,
    to: Seq<char>,
    promotion: Option<char>,
)
    requires
        promotion matches Some(p) ==> cell_ok(p),
    ensures
        spec_update_fen(fen, piece, from, to, promotion) matches Some(out) ==> {
            let st = spec_parse_fen(fen)->0;
            let f = spec_from_algebraic(from)->0;
            let t = spec_from_algebraic(to)->0;
            let castling = castling_after(st.castling_rights, st.active_color, piece, f);
            let parts = ws_split(out);
            &&& parts.len() == 6
            &&& spec_parse_board(parts[0]) == Some(
                spec_apply_move(st, piece, f, t, promotion)->0.board,
            )
            &&& parts[1] == seq![if st.active_color == 'w' { 'b' } else { 'w' }]
            &&& parts[2] == (if castling.len() == 0 { seq!['-'] } else { castling })
            &&& parts[3] == en_passant_after(piece, f, t)
            &&& halfmove_after(st, piece, t) <= u32::MAX ==> parts[4] == decimal(
                halfmove_after(st, piece, t) as nat,
            )
            &&& fullmove_after(st) <= u32::MAX ==> parts[5] == decimal(fullmove_after(st) as nat)
        },
{
    if let Some(out) = spec_update_fen(fen, piece, from, to, promotion) {
        let st = spec_parse_fen(fen)->0;
        law_parsed_state_wf(fen);
        let f = spec_from_algebraic(from)->0;
        let t = spec_from_algebraic(to)->0;
        lemma_move_keeps_wf(st, piece, f, t, promotion);
        let st2 = spec_apply_move(st, piece, f, t, promotion)->0;
        lemma_state_fields(st2);
        lemma_wf_cells(st2.board);
        law_board_roundtrip(st2.board);
        if halfmove_after(st, piece, t) <= u32::MAX {
            assert(st2.halfmove_clock as nat == halfmove_after(st, piece, t) as nat);
        }
        if fullmove_after(st) <= u32::MAX {
            assert(st2.fullmove_number as nat == fullmove_after(st) as nat);
        }
    }
}

/// Law: an accepted move hands the turn to the other side, empties the square it left, puts
/// the moved (or promoted) piece on its target, and leaves every other square as it was.
pub proof fn law_move_effects(
    st: ChessStateView,
    piece: char,
    from: Position,
    to: Position,
    promotion: Option<char>,
)
    requires
        board_shaped(st.board),
        from.rank < 8 && from.file < 8 && to.rank < 8 && to.file < 8,
    ensures
        spec_apply_move(st, piece, from, to, promotion) matches Some(st2) ==> {
            &&& st2.active_color == (if st.active_color == 'w' {
                'b'
            } else {
                'w'
            })
            &&& board_shaped(st2.board)
            &&& st2.board[to.rank as int][to.file as int] == (match promotion {
                Some(p) => if st.active_color == 'w' {
                    ascii_upper(p)
                } else if st.active_color == 'b' {
                    ascii_lower(p)
                } else {
                    st2.board[to.rank as int][to.file as int]
                },
                None => st.board[from.rank as int][from.file as int],
            })
            &&& (from != to ==> st2.board[from.rank as int][from.file as int] == ' ')
            &&& forall|r: int, f: int|
                0 <= r < 8 && 0 <= f < 8 && !(r == from.rank && f == from.file) && !(r == to.rank
                    && f == to.file) ==> #[trigger] st2.board[r][f] == st.board[r][f]
        },
{
    if let Some(st2) = spec_apply_move(st, piece, from, to, promotion) {
        let b = st.board;
        let b1 = b.update(from.rank as int, b[from.rank as int].update(from.file as int, ' '));
        assert(b[from.rank as int].len() == 8);
        assert(b[to.rank as int].len() == 8);
        assert forall|r: int| 0 <= r < 8 implies (#[trigger] st2.board[r]).len() == 8 by {
            assert(b[r].len() == 8);
        }
        assert forall|r: int, f: int|
            0 <= r < 8 && 0 <= f < 8 && !(r == from.rank && f == from.file) && !(r == to.rank && f
                == to.file) implies #[trigger] st2.board[r][f] == st.board[r][f] by {
            assert(b[r].len() == 8);
            if r == to.rank {
                assert(st2.board[r][f] == b1[r][f]);
            }
        }
        if from != to {
            if from.rank == to.rank {
                assert(st2.board[from.rank as int][from.file as int] == b1[from.rank as int][from.file as int]);
            } else {
                assert(st2.board[from.rank as int] == b1[from.rank as int]);
            }
        }
    }
}

/// Law: the coordinate text of a client cell on the board names the square it stands for,
/// counting ranks from the first: `y` counts down from the eighth rank.
pub proof fn law_cell_coordinates(cell: CellPosition)
    requires
        0 <= cell.x <= 7,
        0 <= cell.y <= 7,
    ensures
        spec_from_algebraic(chess_position(cell)) == Some(
            Position { rank: (7 - cell.y) as usize, file: cell.x as usize },
        ),
{
    let n = (8 - cell.y) as nat;
    lemma_digit_char(n);
    assert(decimal(n) == seq![digit_char(n)]);
    assert(decimal_int(8 - cell.y) == decimal(n));
    assert(chess_position(cell) =~= seq![file_char(cell.x as int), digit_char(n)]);
}

} // verus!

verus! {

// ----- reading canonical text, then writing it -----

/// A digit denotes a value below ten, whose digit it is.
proof fn lemma_digit_roundtrip(c: char)
    requires
        is_digit(c),
    ensures
        digit_val(c) < 10,
        digit_char(digit_val(c)) == c,
{
}


/// Text in the form the printer writes it: no `0`, no space, and no two digits in a row.
pub open spec fn canon(s: Seq<char>) -> bool {
    &&& forall|i: int| 0 <= i < s.len() ==> #[trigger] s[i] != '0' && s[i] != ' '
    &&& forall|i: int| 0 <= i < s.len() - 1 ==> !(is_digit(#[trigger] s[i]) && is_digit(s[i + 1]))
}

/// The text of a rank as the printer writes it: [`canon`] and without `/`.
pub open spec fn canonical_rank(s: Seq<char>) -> bool {
    &&& canon(s)
    &&& forall|i: int| 0 <= i < s.len() ==> #[trigger] s[i] != '/'
}

/// `k` empty squares.
pub open spec fn spaces(k: nat) -> Seq<char> {
    Seq::new(k, |i: int| ' ')
}

/// Empty squares in front are counted into the pending run.
proof fn lemma_spaces_rank(k: nat, tail: Seq<char>, e: nat)
    ensures
        rank_fen_rest(spaces(k) + tail, e) == rank_fen_rest(tail, e + k),
    decreases k,
{
    if k > 0 {
        let s = spaces(k) + tail;
        assert(s[0] == ' ');
        assert(s.drop_first() =~= spaces((k - 1) as nat) + tail);
        lemma_spaces_rank((k - 1) as nat, tail, e + 1);
    } else {
        assert(spaces(k) + tail =~= tail);
    }
}

/// Reading a rank only writes squares at or after the current one.
proof fn lemma_parse_frame(rest: Seq<char>, fi: int, prow: Seq<char>)
    requires
        prow.len() == 8,
        0 <= fi,
    ensures
        parse_rank_rest(rest, fi, prow) matches Some(row) ==> row.len() == 8 && forall|j: int|
            0 <= j < fi && j < 8 ==> row[j] == prow[j],
    decreases rest.len(),
{
    if rest.len() == 0 {
    } else if fi >= 8 {
    } else if is_digit(rest[0]) {
        lemma_parse_frame(rest.drop_first(), fi + digit_val(rest[0]), prow);
    } else {
        lemma_parse_frame(rest.drop_first(), fi + 1, prow.update(fi, rest[0]));
    }
}

/// What is left of a canonical rank text is canonical.
proof fn lemma_canonical_tail(s: Seq<char>)
    requires
        canonical_rank(s),
        s.len() > 0,
    ensures
        canonical_rank(s.drop_first()),
{
    let t = s.drop_first();
    assert forall|i: int| 0 <= i < t.len() implies #[trigger] t[i] != '0' && t[i] != ' ' && t[i] != '/' by {
        assert(t[i] == s[i + 1]);
    }
    assert forall|i: int| 0 <= i < t.len() - 1 implies !(is_digit(#[trigger] t[i]) && is_digit(t[i + 1])) by {
        assert(t[i] == s[i + 1]);
        assert(t[i + 1] == s[i + 2]);
    }
}

/// Reading the rest of a canonical rank text and writing the squares it gave back yields the
/// text again.
proof fn lemma_canonical_rank_rt(rest: Seq<char>, fi: int, prow: Seq<char>, row: Seq<char>)
    requires
        parse_rank_rest(rest, fi, prow) == Some(row),
        prow.len() == 8,
        0 <= fi <= 8,
        forall|j: int| fi <= j < 8 ==> prow[j] == ' ',
        canonical_rank(rest),
    ensures
        rank_fen_rest(row.skip(fi), 0) == rest,
    decreases rest.len(),
{
    lemma_parse_frame(rest, fi, prow);
    if rest.len() == 0 {
        assert(row.skip(fi) =~= Seq::<char>::empty());
    } else {
        let c = rest[0];
        let tail = rest.drop_first();
        lemma_canonical_tail(rest);
        assert(fi < 8);
        if is_digit(c) {
            lemma_digit_roundtrip(c);
            let n = digit_val(c);
            assert(c != '0');
            assert(n >= 1);
            let fi2 = fi + n;
            lemma_parse_frame(tail, fi2, prow);
            lemma_digit_char(n);
            assert(decimal(n) == seq![digit_char(n)]);
            if tail.len() == 0 {
                assert(fi2 == 8);
                assert(row.skip(fi) =~= spaces(n) + Seq::<char>::empty()) by {
                    assert forall|j: int| 0 <= j < n implies row.skip(fi)[j] == ' ' by {
                        assert(row[fi + j] == prow[fi + j]);
                    }
                }
                lemma_spaces_rank(n, Seq::<char>::empty(), 0);
                assert(rest =~= seq![c]);
            } else {
                let d = tail[0];
                assert(!is_digit(d));
                assert(fi2 < 8);
                let tail2 = tail.drop_first();
                let prow2 = prow.update(fi2, d);
                lemma_canonical_tail(tail);
                lemma_parse_frame(tail2, fi2 + 1, prow2);
                lemma_canonical_rank_rt(tail2, fi2 + 1, prow2, row);
                assert(row[fi2] == d);
                assert(row.skip(fi) =~= spaces(n) + row.skip(fi2)) by {
                    assert forall|j: int| 0 <= j < n implies row.skip(fi)[j] == ' ' by {
                        assert(row[fi + j] == prow[fi + j]);
                    }
                }
                lemma_spaces_rank(n, row.skip(fi2), 0);
                let cells = row.skip(fi2);
                assert(cells[0] == d);
                assert(d != ' ');
                assert(cells.drop_first() =~= row.skip(fi2 + 1));
                assert(rest =~= decimal(n) + seq![d] + tail2);
            }
        } else {
            let prow2 = prow.update(fi, c);
            lemma_parse_frame(tail, fi + 1, prow2);
            lemma_canonical_rank_rt(tail, fi + 1, prow2, row);
            let cells = row.skip(fi);
            assert(cells[0] == c);
            assert(c != ' ');
            assert(cells.drop_first() =~= row.skip(fi + 1));
            assert(rest =~= Seq::<char>::empty() + seq![c] + tail);
        }
    }
}

/// Reading a canonical rank text and writing the rank back yields the text.
proof fn lemma_canonical_rank(w: Seq<char>)
    requires
        canonical_rank(w),
        parse_rank(w) is Some,
    ensures
        rank_fen(parse_rank(w)->0) == w,
{
    let row = parse_rank(w)->0;
    lemma_canonical_rank_rt(w, 0, empty_row(), row);
    assert(row.skip(0) =~= row);
}

/// Every piece of a list is a canonical rank text.
pub open spec fn pieces_canonical(ps: Seq<Seq<char>>) -> bool {
    forall|k: int| 0 <= k < ps.len() ==> canonical_rank(#[trigger] ps[k])
}

/// A prefix of canonical text is canonical.
proof fn lemma_canon_prefix(s: Seq<char>, k: int)
    requires
        canon(s),
        0 <= k <= s.len(),
    ensures
        canon(s.subrange(0, k)),
{
    let t = s.subrange(0, k);
    assert forall|i: int| 0 <= i < t.len() implies #[trigger] t[i] != '0' && t[i] != ' ' by {
        assert(t[i] == s[i]);
    }
    assert forall|i: int| 0 <= i < t.len() - 1 implies !(is_digit(#[trigger] t[i]) && is_digit(t[i + 1])) by {
        assert(t[i] == s[i]);
        assert(t[i + 1] == s[i + 1]);
    }
}

/// A suffix of canonical text is canonical.
proof fn lemma_canon_suffix(s: Seq<char>, k: int)
    requires
        canon(s),
        0 <= k <= s.len(),
    ensures
        canon(s.subrange(k, s.len() as int)),
{
    let t = s.subrange(k, s.len() as int);
    assert forall|i: int| 0 <= i < t.len() implies #[trigger] t[i] != '0' && t[i] != ' ' by {
        assert(t[i] == s[k + i]);
    }
    assert forall|i: int| 0 <= i < t.len() - 1 implies !(is_digit(#[trigger] t[i]) && is_digit(t[i + 1])) by {
        assert(t[i] == s[k + i]);
        assert(t[i + 1] == s[k + i + 1]);
    }
}

/// What follows the first character of canonical text is canonical.
proof fn lemma_canon_drop(s: Seq<char>)
    requires
        canon(s),
        s.len() > 0,
    ensures
        canon(s.drop_first()),
{
    let t = s.drop_first();
    assert forall|i: int| 0 <= i < t.len() implies #[trigger] t[i] != '0' && t[i] != ' ' by {
        assert(t[i] == s[i + 1]);
    }
    assert forall|i: int| 0 <= i < t.len() - 1 implies !(is_digit(#[trigger] t[i]) && is_digit(t[i + 1])) by {
        assert(t[i] == s[i + 1]);
        assert(t[i + 1] == s[i + 2]);
    }
}

/// Splitting canonical text at `/` gives canonical rank texts.
proof fn lemma_split_canonical(rest: Seq<char>, cur: Seq<char>, acc: Seq<Seq<char>>)
    requires
        canon(cur + rest),
        forall|i: int| 0 <= i < cur.len() ==> #[trigger] cur[i] != '/',
        pieces_canonical(acc),
    ensures
        pieces_canonical(split_on_rest(rest, '/', cur, acc)),
    decreases rest.len(),
{
    let whole = cur + rest;
    if rest.len() == 0 {
        assert(whole =~= cur);
        assert(canonical_rank(cur));
        assert forall|k: int| 0 <= k < acc.push(cur).len() implies canonical_rank(#[trigger] acc.push(cur)[k]) by {
            if k < acc.len() {
                assert(acc.push(cur)[k] == acc[k]);
            }
        }
    } else if rest[0] == '/' {
        lemma_canon_prefix(whole, cur.len() as int);
        assert(whole.subrange(0, cur.len() as int) =~= cur);
        assert(canonical_rank(cur));
        let after = rest.drop_first();
        lemma_canon_suffix(whole, cur.len() as int);
        assert(whole.subrange(cur.len() as int, whole.len() as int) =~= rest);
        lemma_canon_drop(rest);
        assert(Seq::<char>::empty() + after =~= after);
        assert forall|k: int| 0 <= k < acc.push(cur).len() implies canonical_rank(#[trigger] acc.push(cur)[k]) by {
            if k < acc.len() {
                assert(acc.push(cur)[k] == acc[k]);
            }
        }
        lemma_split_canonical(after, seq![], acc.push(cur));
    } else {
        assert(cur.push(rest[0]) + rest.drop_first() =~= whole);
        lemma_split_canonical(rest.drop_first(), cur.push(rest[0]), acc);
    }
}

/// The placement field of a board, from rank `k` down, is its canonical rank texts joined by `/`.
proof fn lemma_board_join(b: Seq<Seq<char>>, ranks: Seq<Seq<char>>, k: int)
    requires
        ranks.len() == 8,
        0 <= k <= 7,
        forall|r: int| 0 <= r < 8 ==> rank_fen(#[trigger] b[r]) == ranks[7 - r],
    ensures
        board_fen_from(b, k) == join_with(ranks.subrange(7 - k, 8), '/'),
    decreases k,
{
    assert(rank_fen(b[k]) == ranks[7 - k]);
    if k == 0 {
        assert(ranks.subrange(7, 8) =~= seq![ranks[7]]);
    } else {
        lemma_board_join(b, ranks, k - 1);
        assert(ranks.subrange(7 - k, 8) =~= seq![ranks[7 - k]] + ranks.subrange(7 - (k - 1), 8));
        lemma_join_front(ranks[7 - k], ranks.subrange(7 - (k - 1), 8), '/');
    }
}

/// Law: a placement field in the form the printer writes (no `0`, no space, no two digits in
/// a row) that reads as a board is written back as the same text.
pub proof fn law_canonical_board(s: Seq<char>)
    requires
        canon(s),
        spec_parse_board(s) is Some,
    ensures
        spec_board_fen(spec_parse_board(s)->0) == s,
{
    let b = spec_parse_board(s)->0;
    let ranks = split_on(s, '/');
    assert(Seq::<char>::empty() + s =~= s);
    lemma_split_canonical(s, seq![], seq![]);
    assert forall|r: int| 0 <= r < 8 implies rank_fen(#[trigger] b[r]) == ranks[7 - r] by {
        assert(b[r] == parse_rank(ranks[7 - r])->0);
        assert(canonical_rank(ranks[7 - r]));
        lemma_canonical_rank(ranks[7 - r]);
    }
    lemma_board_join(b, ranks, 7);
    assert(ranks.subrange(0, 8) =~= ranks);
    lemma_join_split(s, '/', seq![]);
}

/// Six fields joined by single spaces.
pub open spec fn fields_text(f: Seq<Seq<char>>) -> Seq<char> {
    f[0] + seq![' '] + f[1] + seq![' '] + f[2] + seq![' '] + f[3] + seq![' '] + f[4] + seq![' ']
        + f[5]
}

/// A counter field as the printer writes it: the decimal text of the number it reads as.
pub open spec fn canonical_counter(t: Seq<char>) -> bool {
    spec_parse_u32(t) matches Some(n) && t == decimal(n as nat)
}

/// Law: a FEN record in the form the printer writes (six non-empty fields joined by single
/// spaces, a canonical placement field, a one-character side to move, and counters without
/// sign or leading zeros) that reads as a position is written back as the same text.
pub proof fn law_canonical_record(f: Seq<Seq<char>>)
    requires
        f.len() == 6,
        forall|k: int| 0 <= k < 6 ==> (#[trigger] f[k]).len() > 0 && no_ws(f[k]),
        canon(f[0]),
        f[1].len() == 1,
        canonical_counter(f[4]),
        canonical_counter(f[5]),
        spec_parse_fen(fields_text(f)) is Some,
    ensures
        spec_state_fen(spec_parse_fen(fields_text(f))->0) == fields_text(f),
{
    let sp = seq![' '];
    let s = fields_text(f);
    assert(f[0].len() > 0 && no_ws(f[0]));
    assert(f[1].len() > 0 && no_ws(f[1]));
    assert(f[2].len() > 0 && no_ws(f[2]));
    assert(f[3].len() > 0 && no_ws(f[3]));
    assert(f[4].len() > 0 && no_ws(f[4]));
    assert(f[5].len() > 0 && no_ws(f[5]));
    assert(s =~= f[0] + (sp + (f[1] + (sp + (f[2] + (sp + (f[3] + (sp + (f[4] + (sp + f[5]))))))))));
    let e = Seq::<Seq<char>>::empty();
    lemma_ws_word_space(f[0], f[1] + (sp + (f[2] + (sp + (f[3] + (sp + (f[4] + (sp + f[5]))))))), e);
    lemma_ws_word_space(f[1], f[2] + (sp + (f[3] + (sp + (f[4] + (sp + f[5]))))), e.push(f[0]));
    lemma_ws_word_space(f[2], f[3] + (sp + (f[4] + (sp + f[5]))), e.push(f[0]).push(f[1]));
    lemma_ws_word_space(f[3], f[4] + (sp + f[5]), e.push(f[0]).push(f[1]).push(f[2]));
    lemma_ws_word_space(f[4], f[5], e.push(f[0]).push(f[1]).push(f[2]).push(f[3]));
    lemma_ws_last_word(f[5], e.push(f[0]).push(f[1]).push(f[2]).push(f[3]).push(f[4]));
    let parts = ws_split(s);
    assert(parts =~= f);
    let st = spec_parse_fen(s)->0;
    law_canonical_board(f[0]);
    assert(seq![st.active_color] =~= f[1]);
    assert(spec_state_fen(st) =~= s);
}

}

verus! {

// ----- the fields of an updated record, read as text -----

/// Only `P` and `p` name a pawn.
proof fn lemma_pawn_letter(piece: char)
    ensures
        (ascii_upper(piece) == 'P') <==> (piece == 'P' || piece == 'p'),
        (ascii_upper(piece) == 'K') <==> (piece == 'K' || piece == 'k'),
{
    if 'a' <= piece && piece <= 'z' {
        assert(ascii_upper(piece) as u32 == (piece as u32) - 32);
    }
}

/// Law: the halfmove clock of the record that an accepted move gives is `0` when the move
/// captures (its target square is occupied) or moves a pawn (`P` or `p`), whichever piece
/// moves; on any other move it is the old clock plus one, where that stays within 32 bits.
pub proof fn law_update_halfmove_clock(
    fen: Seq<char>,
    piece: char,
    from: Seq<char>,
    to: Seq<char>,
    promotion: Option<char>,
)
    requires
        promotion matches Some(p) ==> cell_ok(p),
    ensures
        spec_update_fen(fen, piece, from, to, promotion) matches Some(out) ==> {
            let st = spec_parse_fen(fen)->0;
            let t = spec_from_algebraic(to)->0;
            let target = st.board[t.rank as int][t.file as int];
            &&& (target != ' ' || piece == 'P' || piece == 'p') ==> ws_split(out)[4] == seq!['0']
            &&& (target == ' ' && piece != 'P' && piece != 'p' && st.halfmove_clock < 0xffff_ffff)
                ==> ws_split(out)[4] == decimal((st.halfmove_clock + 1) as nat)
        },
{
    if let Some(out) = spec_update_fen(fen, piece, from, to, promotion) {
        law_update_fields(fen, piece, from, to, promotion);
        lemma_pawn_letter(piece);
        lemma_digit_char(0);
        assert(decimal(0) == seq![digit_char(0)]);
        assert(digit_char(0) == '0');
    }
}

/// Law: the record that an accepted move gives names the other side to move (`b` after `w`,
/// else `w`), and its fullmove number is the old one plus one after black's move (where that
/// stays within 32 bits) and the old one otherwise.
pub proof fn law_update_turn(
    fen: Seq<char>,
    piece: char,
    from: Seq<char>,
    to: Seq<char>,
    promotion: Option<char>,
)
    requires
        promotion matches Some(p) ==> cell_ok(p),
    ensures
        spec_update_fen(fen, piece, from, to, promotion) matches Some(out) ==> {
            let st = spec_parse_fen(fen)->0;
            &&& ws_split(out)[1] == (if st.active_color == 'w' { seq!['b'] } else { seq!['w'] })
            &&& (st.active_color == 'b' && st.fullmove_number < 0xffff_ffff) ==> ws_split(out)[5]
                == decimal((st.fullmove_number + 1) as nat)
            &&& st.active_color != 'b' ==> ws_split(out)[5] == decimal(st.fullmove_number as nat)
        },
{
    if let Some(out) = spec_update_fen(fen, piece, from, to, promotion) {
        law_update_fields(fen, piece, from, to, promotion);
    }
}

/// Law: the en passant field of the record that an accepted move gives is the square that a
/// pawn (`P` or `p`) passed over when it moved two ranks (the file of `from`, and the rank
/// between the two), and `-` after any other move.
pub proof fn law_update_en_passant(
    fen: Seq<char>,
    piece: char,
    from: Seq<char>,
    to: Seq<char>,
    promotion: Option<char>,
)
    requires
        promotion matches Some(p) ==> cell_ok(p),
    ensures
        spec_update_fen(fen, piece, from, to, promotion) matches Some(out) ==> {
            let double = (piece == 'P' || piece == 'p') && ((to[1] as int) - (from[1] as int) == 2
                || (to[1] as int) - (from[1] as int) == -2);
            &&& double ==> ws_split(out)[3] == seq![from[0], (((from[1] as int) + (to[1] as int)) / 2) as char]
            &&& !double ==> ws_split(out)[3] == seq!['-']
        },
{
    if let Some(out) = spec_update_fen(fen, piece, from, to, promotion) {
        law_update_fields(fen, piece, from, to, promotion);
        lemma_pawn_letter(piece);
        let f = spec_from_algebraic(from)->0;
        let t = spec_from_algebraic(to)->0;
        assert(f.rank as int == (from[1] as int) - 49);
        assert(t.rank as int == (to[1] as int) - 49);
        assert(f.file as int == (from[0] as int) - 97);
        assert(file_char(f.file as int) == from[0]);
        let d = t.rank - f.rank;
        if d == 2 || d == -2 {
            let m = (f.rank + t.rank) / 2;
            assert(m + 49 == ((from[1] as int) + (to[1] as int)) / 2);
            assert(crate::fen::rank_char(m) == (((from[1] as int) + (to[1] as int)) / 2) as char);
        }
    }
}

/// Removing a character leaves none of it, and every other character that was absent stays
/// absent.
proof fn lemma_remove_char(s: Seq<char>, c: char, d: char)
    ensures
        !remove_char(s, c).contains(c),
        !s.contains(d) ==> !remove_char(s, c).contains(d),
    decreases s.len(),
{
    if s.len() > 0 {
        lemma_remove_char(s.drop_last(), c, d);
        if !s.contains(d) {
            assert forall|i: int| 0 <= i < s.drop_last().len() implies s.drop_last()[i] != d by {
                assert(s.drop_last()[i] == s[i]);
            }
            assert(s.last() == s[s.len() - 1]);
        }
        let r = remove_char(s.drop_last(), c);
        if s.last() != c {
            assert forall|i: int| 0 <= i < r.push(s.last()).len() implies r.push(s.last())[i] != c by {
                if i < r.len() {
                    assert(r.push(s.last())[i] == r[i]);
                }
            }
            if !s.contains(d) {
                assert forall|i: int| 0 <= i < r.push(s.last()).len() implies r.push(s.last())[i] != d by {
                    if i < r.len() {
                        assert(r.push(s.last())[i] == r[i]);
                    } else {
                        assert(s.last() == s[s.len() - 1]);
                    }
                }
            }
        }
    }
}

/// Law: after an accepted king move (`K` or `k`), the castling field of the record holds
/// neither castling right of the side that moved (`K` and `Q` for white, `k` and `q` for
/// black).
pub proof fn law_update_king_castling(
    fen: Seq<char>,
    piece: char,
    from: Seq<char>,
    to: Seq<char>,
    promotion: Option<char>,
)
    requires
        promotion matches Some(p) ==> cell_ok(p),
    ensures
        spec_update_fen(fen, piece, from, to, promotion) matches Some(out) ==> {
            let st = spec_parse_fen(fen)->0;
            &&& ((piece == 'K' || piece == 'k') && st.active_color == 'w') ==> !ws_split(out)[2].contains('K')
                && !ws_split(out)[2].contains('Q')
            &&& ((piece == 'K' || piece == 'k') && st.active_color != 'w') ==> !ws_split(out)[2].contains('k')
                && !ws_split(out)[2].contains('q')
        },
{
    if let Some(out) = spec_update_fen(fen, piece, from, to, promotion) {
        law_update_fields(fen, piece, from, to, promotion);
        lemma_pawn_letter(piece);
        let st = spec_parse_fen(fen)->0;
        let c = st.castling_rights;
        lemma_remove_char(c, 'K', 'Q');
        lemma_remove_char(remove_char(c, 'K'), 'Q', 'K');
        lemma_remove_char(c, 'k', 'q');
        lemma_remove_char(remove_char(c, 'k'), 'q', 'k');
        assert(!seq!['-'].contains('K') && !seq!['-'].contains('Q'));
        assert(!seq!['-'].contains('k') && !seq!['-'].contains('q'));
    }
}

}

verus! {

/// Law: a promotion is refused unless a pawn (`P` or `p`) moves to the first or the eighth
/// rank.
pub proof fn law_promotion_refused(
    fen: Seq<char>,
    piece: char,
    from: Seq<char>,
    to: Seq<char>,
    promoted: char,
)
    ensures
        !(piece == 'P' || piece == 'p') ==> spec_update_fen(fen, piece, from, to, Some(promoted)) is None,
        (to.len() == 2 && to[1] != '1' && to[1] != '8') ==> spec_update_fen(fen, piece, from, to, Some(promoted))
            is None,
{
    lemma_pawn_letter(piece);
    if let Some(t) = spec_from_algebraic(to) {
        assert(t.rank as int == (to[1] as int) - 49);
    }
}

}
