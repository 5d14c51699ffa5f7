//! Character and string helpers shared by the parsers and printers of the library.
use vstd::prelude::*;
use vstd::string::*;

verus! {

/// The characters that carry the Unicode `White_Space` property.
pub open spec fn is_ws(c: char) -> bool {
    let v = c as u32;
    ||| (0x09 <= v && v <= 0x0d)
    ||| v == 0x20
    ||| v == 0x85
    ||| v == 0xa0
    ||| v == 0x1680
    ||| (0x2000 <= v && v <= 0x200a)
    ||| v == 0x2028
    ||| v == 0x2029
    ||| v == 0x202f
    ||| v == 0x205f
    ||| v == 0x3000
}

/// Whether `c` has the Unicode `White_Space` property.
pub fn is_whitespace(c: char) -> (r: bool)
    ensures
        r == is_ws(c),
{
    let v = c as u32;
    (0x09 <= v && v <= 0x0d) || v == 0x20 || v == 0x85 || v == 0xa0 || v == 0x1680 || (0x2000
        <= v && v <= 0x200a) || v == 0x2028 || v == 0x2029 || v == 0x202f || v == 0x205f || v
        == 0x3000
}

/// Appends one character to a `String` (`String::push`).
#[verifier::external_body]
pub(crate) fn push_char(s: &mut String, c: char)
    ensures
        final(s)@ == old(s)@.push(c),
{
    s.push(c);
}

/// The characters of a string slice, in order.
pub fn str_chars(s: &str) -> (v: Vec<char>)
    ensures
        v@ == s@,
{
    let n = s.unicode_len();
    let mut v: Vec<char> = Vec::new();
    let mut i: usize = 0;
    while i < n
        invariant
            n == s@.len(),
            i <= n,
            v@ == s@.subrange(0, i as int),
        decreases n - i,
    {
        let c = s.get_char(i);
        v.push(c);
        i = i + 1;
    }
    v
}

/// A `String` holding the given characters, in order.
pub fn string_from_chars(v: &Vec<char>) -> (s: String)
    ensures
        s@ == v@,
{
    let mut s = String::new();
    let mut i: usize = 0;
    while i < v.len()
        invariant
            i <= v.len(),
            s@ == v@.subrange(0, i as int),
        decreases v.len() - i,
    {
        push_char(&mut s, v[i]);
        i = i + 1;
    }
    s
}

} // verus!

verus! {

/// Closes the word being read: a non-empty word joins the list, an empty one is dropped.
pub open spec fn flush_word(cur: Seq<char>, acc: Seq<Seq<char>>) -> Seq<Seq<char>> {
    if cur.len() > 0 {
        acc.push(cur)
    } else {
        acc
    }
}

/// Reading `rest` with the word `cur` open and the words `acc` already found: the words
/// that `str::split_whitespace` yields.
pub open spec fn ws_split_rest(rest: Seq<char>, cur: Seq<char>, acc: Seq<Seq<char>>) -> Seq<
    Seq<char>,
>
    decreases rest.len(),
{
    if rest.len() == 0 {
        flush_word(cur, acc)
    } else if is_ws(rest[0]) {
        ws_split_rest(rest.drop_first(), seq![], flush_word(cur, acc))
    } else {
        ws_split_rest(rest.drop_first(), cur.push(rest[0]), acc)
    }
}

/// The maximal runs of non-whitespace characters of `s`, in order (`str::split_whitespace`).
pub open spec fn ws_split(s: Seq<char>) -> Seq<Seq<char>> {
    ws_split_rest(s, seq![], seq![])
}

/// Reading `rest` with the piece `cur` open and the pieces `acc` already closed: the
/// pieces that `str::split(sep)` yields, empty ones included.
pub open spec fn split_on_rest(rest: Seq<char>, sep: char, cur: Seq<char>, acc: Seq<Seq<char>>) -> Seq<
    Seq<char>,
>
    decreases rest.len(),
{
    if rest.len() == 0 {
        acc.push(cur)
    } else if rest[0] == sep {
        split_on_rest(rest.drop_first(), sep, seq![], acc.push(cur))
    } else {
        split_on_rest(rest.drop_first(), sep, cur.push(rest[0]), acc)
    }
}

/// The pieces of `s` between occurrences of `sep` (`str::split`).
pub open spec fn split_on(s: Seq<char>, sep: char) -> Seq<Seq<char>> {
    split_on_rest(s, sep, seq![], seq![])
}

/// The deep view of a vector of characters is its view.
pub proof fn lemma_chars_deep_view(v: Vec<char>)
    ensures
        v.deep_view() == v@,
{
    assert(v.deep_view() =~= v@);
}

/// Splits at whitespace, as `str::split_whitespace` does.
pub fn split_whitespace(s: &Vec<char>) -> (r: Vec<Vec<char>>)
    ensures
        r.deep_view() == ws_split(s@),
{
    let mut acc: Vec<Vec<char>> = Vec::new();
    let mut cur: Vec<char> = Vec::new();
    let mut i: usize = 0;
    assert(s@.skip(0) =~= s@);
    assert(acc.deep_view() =~= Seq::<Seq<char>>::empty());
    assert(cur@ =~= Seq::<char>::empty());
    while i < s.len()
        invariant
            i <= s.len(),
            ws_split(s@) == ws_split_rest(s@.skip(i as int), cur@, acc.deep_view()),
        decreases s.len() - i,
    {
        let c = s[i];
        assert(s@.skip(i as int)[0] == c);
        assert(s@.skip(i as int).drop_first() =~= s@.skip(i + 1));
        if is_whitespace(c) {
            if cur.len() > 0 {
                let ghost old_acc = acc.deep_view();
                proof { lemma_chars_deep_view(cur); }
                acc.push(cur);
                assert(acc.deep_view() =~= old_acc.push(cur@));
            }
            cur = Vec::new();
            assert(cur@ =~= Seq::<char>::empty());
        } else {
            cur.push(c);
        }
        i = i + 1;
    }
    assert(s@.skip(i as int) =~= Seq::<char>::empty());
    if cur.len() > 0 {
        let ghost old_acc = acc.deep_view();
        proof { lemma_chars_deep_view(cur); }
        acc.push(cur);
        assert(acc.deep_view() =~= old_acc.push(cur@));
    }
    acc
}

/// Splits at every `sep`, as `str::split` does with a character pattern.
pub fn split_on_char(s: &Vec<char>, sep: char) -> (r: Vec<Vec<char>>)
    ensures
        r.deep_view() == split_on(s@, sep),
{
    let mut acc: Vec<Vec<char>> = Vec::new();
    let mut cur: Vec<char> = Vec::new();
    let mut i: usize = 0;
    assert(s@.skip(0) =~= s@);
    assert(acc.deep_view() =~= Seq::<Seq<char>>::empty());
    assert(cur@ =~= Seq::<char>::empty());
    while i < s.len()
        invariant
            i <= s.len(),
            split_on(s@, sep) == split_on_rest(s@.skip(i as int), sep, cur@, acc.deep_view()),
        decreases s.len() - i,
    {
        let c = s[i];
        assert(s@.skip(i as int)[0] == c);
        assert(s@.skip(i as int).drop_first() =~= s@.skip(i + 1));
        if c == sep {
            let ghost old_acc = acc.deep_view();
            proof { lemma_chars_deep_view(cur); }
            acc.push(cur);
            assert(acc.deep_view() =~= old_acc.push(cur@));
            cur = Vec::new();
            assert(cur@ =~= Seq::<char>::empty());
        } else {
            cur.push(c);
        }
        i = i + 1;
    }
    assert(s@.skip(i as int) =~= Seq::<char>::empty());
    let ghost old_acc = acc.deep_view();
    proof { lemma_chars_deep_view(cur); }
    acc.push(cur);
    assert(acc.deep_view() =~= old_acc.push(cur@));
    acc
}

} // verus!

verus! {

/// Every word that the whitespace split yields is non-empty and holds no whitespace.
pub open spec fn words_ok(ws: Seq<Seq<char>>) -> bool {
    forall|k: int|
        0 <= k < ws.len() ==> (#[trigger] ws[k]).len() > 0 && forall|j: int|
            0 <= j < ws[k].len() ==> !is_ws(#[trigger] ws[k][j])
}

proof fn lemma_ws_split_rest_words(rest: Seq<char>, cur: Seq<char>, acc: Seq<Seq<char>>)
    requires
        words_ok(acc),
        forall|j: int| 0 <= j < cur.len() ==> !is_ws(#[trigger] cur[j]),
    ensures
        words_ok(ws_split_rest(rest, cur, acc)),
    decreases rest.len(),
{
    if rest.len() == 0 {
        assert(words_ok(flush_word(cur, acc))) by {
            if cur.len() > 0 {
                assert forall|k: int| 0 <= k < acc.push(cur).len() implies (#[trigger] acc.push(
                    cur,
                )[k]).len() > 0 && forall|j: int|
                    0 <= j < acc.push(cur)[k].len() ==> !is_ws(#[trigger] acc.push(cur)[k][j]) by {
                    if k < acc.len() {
                        assert(acc.push(cur)[k] == acc[k]);
                    }
                }
            }
        }
    } else if is_ws(rest[0]) {
        assert(words_ok(flush_word(cur, acc))) by {
            if cur.len() > 0 {
                assert forall|k: int| 0 <= k < acc.push(cur).len() implies (#[trigger] acc.push(
                    cur,
                )[k]).len() > 0 && forall|j: int|
                    0 <= j < acc.push(cur)[k].len() ==> !is_ws(#[trigger] acc.push(cur)[k][j]) by {
                    if k < acc.len() {
                        assert(acc.push(cur)[k] == acc[k]);
                    }
                }
            }
        }
        lemma_ws_split_rest_words(rest.drop_first(), seq![], flush_word(cur, acc));
    } else {
        let c2 = cur.push(rest[0]);
        assert forall|j: int| 0 <= j < c2.len() implies !is_ws(#[trigger] c2[j]) by {
            if j < cur.len() {
                assert(c2[j] == cur[j]);
            }
        }
        lemma_ws_split_rest_words(rest.drop_first(), c2, acc);
    }
}

/// The words of a whitespace split are non-empty and free of whitespace.
pub proof fn lemma_ws_split_words_nonempty(s: Seq<char>)
    ensures
        words_ok(ws_split(s)),
{
    lemma_ws_split_rest_words(s, seq![], seq![]);
}

} // verus!

verus! {

/// What `char::is_uppercase` returns: whether `c` has the Unicode `Uppercase` property.
pub uninterp spec fn char_uppercase(c: char) -> bool;

/// Calls `char::is_uppercase`. Its result is named by [`char_uppercase`]; for ASCII characters
/// the contract also states that exactly `A` to `Z` are uppercase.
#[verifier::external_body]
pub(crate) fn char_is_uppercase(c: char) -> (r: bool)
    ensures
        r == char_uppercase(c),
        (c as u32) < 128 ==> (r <==> ('A' <= c && c <= 'Z')),
{
    c.is_uppercase()
}

/// `c` with an ASCII lowercase letter mapped to its uppercase letter (`char::to_ascii_uppercase`).
pub open spec fn ascii_upper(c: char) -> char {
    if 'a' <= c && c <= 'z' {
        ((c as u32) - 32) as char
    } else {
        c
    }
}

/// `c` with an ASCII uppercase letter mapped to its lowercase letter (`char::to_ascii_lowercase`).
pub open spec fn ascii_lower(c: char) -> char {
    if 'A' <= c && c <= 'Z' {
        ((c as u32) + 32) as char
    } else {
        c
    }
}

/// The ASCII uppercase form of `c`.
pub fn to_ascii_upper(c: char) -> (r: char)
    ensures
        r == ascii_upper(c),
{
    if 'a' <= c && c <= 'z' {
        ((c as u8) - 32) as char
    } else {
        c
    }
}

/// The ASCII lowercase form of `c`.
pub fn to_ascii_lower(c: char) -> (r: char)
    ensures
        r == ascii_lower(c),
{
    if 'A' <= c && c <= 'Z' {
        ((c as u8) + 32) as char
    } else {
        c
    }
}

/// `s` without any occurrence of `c`.
pub open spec fn remove_char(s: Seq<char>, c: char) -> Seq<char>
    decreases s.len(),
{
    if s.len() == 0 {
        s
    } else if s.last() == c {
        remove_char(s.drop_last(), c)
    } else {
        remove_char(s.drop_last(), c).push(s.last())
    }
}

/// A copy of `s` without any occurrence of `c` (`str::replace` with an empty replacement).
pub fn without_char(s: &Vec<char>, c: char) -> (r: Vec<char>)
    ensures
        r@ == remove_char(s@, c),
{
    let mut r: Vec<char> = Vec::new();
    let mut i: usize = 0;
    assert(s@.subrange(0, 0) =~= Seq::<char>::empty());
    while i < s.len()
        invariant
            i <= s.len(),
            r@ == remove_char(s@.subrange(0, i as int), c),
        decreases s.len() - i,
    {
        assert(s@.subrange(0, i + 1).drop_last() =~= s@.subrange(0, i as int));
        if s[i] != c {
            r.push(s[i]);
        }
        i = i + 1;
    }
    assert(s@.subrange(0, i as int) =~= s@);
    r
}

} // verus!

verus! {

/// A text takes at most four UTF-8 bytes per character.
pub proof fn lemma_utf8_len_bound(s: Seq<char>)
    ensures
        vstd::utf8::encode_utf8(s).len() <= 4 * s.len(),
    decreases s.len(),
{
    if s.len() > 0 {
        lemma_utf8_len_bound(s.drop_first());
    }
}

} // verus!

verus! {

/// `sub` occurs in `s` at some position.
pub open spec fn has_substring(s: Seq<char>, sub: Seq<char>) -> bool {
    exists|i: int| 0 <= i && i + sub.len() <= s.len() && #[trigger] s.subrange(i, i + sub.len()) == sub
}

/// Whether `sub` occurs in `s` (`str::contains`).
pub fn contains_str(s: &str, sub: &str) -> (r: bool)
    ensures
        r == has_substring(s@, sub@),
{
    let sv = str_chars(s);
    let tv = str_chars(sub);
    if tv.len() > sv.len() {
        return false;
    }
    let mut i: usize = 0;
    while i <= sv.len() - tv.len()
        invariant
            sv@ == s@,
            tv@ == sub@,
            tv.len() <= sv.len(),
            i <= sv.len() - tv.len() + 1,
            forall|k: int| 0 <= k < i ==> #[trigger] sv@.subrange(k, k + tv@.len()) != tv@,
        decreases sv.len() - i,
    {
        let mut j: usize = 0;
        let mut same = true;
        while j < tv.len()
            invariant
                i + tv.len() <= sv.len(),
                j <= tv.len(),
                same == (forall|m: int| 0 <= m < j ==> sv@[i + m] == tv@[m]),
            decreases tv.len() - j,
        {
            if sv[i + j] != tv[j] {
                same = false;
            }
            j = j + 1;
        }
        if same {
            assert(sv@.subrange(i as int, i + tv@.len()) =~= tv@);
            return true;
        }
        assert(sv@.subrange(i as int, i + tv@.len()) != tv@) by {
            let m = choose|m: int| 0 <= m < tv.len() && sv@[i + m] != tv@[m];
            assert(sv@.subrange(i as int, i + tv@.len())[m] == sv@[i + m]);
        }
        i = i + 1;
    }
    assert forall|k: int| 0 <= k && k + sub@.len() <= s@.len() implies #[trigger] s@.subrange(k, k + sub@.len()) != sub@ by {
        assert(k < i);
    }
    false
}

/// The pieces joined with `sep` between them (`slice::join`).
pub open spec fn join_with(ps: Seq<Seq<char>>, sep: char) -> Seq<char>
    decreases ps.len(),
{
    if ps.len() == 0 {
        seq![]
    } else if ps.len() == 1 {
        ps[0]
    } else {
        join_with(ps.drop_last(), sep) + seq![sep] + ps.last()
    }
}

/// Joins pieces with a separator between them.
pub fn join_chars(ps: &Vec<Vec<char>>, from: usize, sep: char) -> (r: Vec<char>)
    requires
        from <= ps.len(),
    ensures
        r@ == join_with(ps.deep_view().skip(from as int), sep),
{
    let mut out: Vec<char> = Vec::new();
    let mut i: usize = from;
    assert(ps.deep_view().skip(from as int).take(0) =~= Seq::<Seq<char>>::empty());
    while i < ps.len()
        invariant
            from <= i <= ps.len(),
            out@ == join_with(ps.deep_view().skip(from as int).take(i - from), sep),
        decreases ps.len() - i,
    {
        let ghost pieces = ps.deep_view().skip(from as int);
        let ghost next = pieces.take(i - from + 1);
        assert(next.drop_last() =~= pieces.take(i - from));
        proof {
            lemma_chars_deep_view(ps[i as int]);
        }
        assert(next.last() == ps[i as int]@);
        if i > from {
            out.push(sep);
        } else {
            assert(next =~= seq![ps[i as int]@]);
        }
        let mut k: usize = 0;
        let ghost base = out@;
        let piece = &ps[i];
        while k < piece.len()
            invariant
                k <= piece@.len(),
                out@ == base + piece@.subrange(0, k as int),
            decreases piece@.len() - k,
        {
            out.push(piece[k]);
            k = k + 1;
        }
        assert(ps[i as int]@.subrange(0, ps[i as int]@.len() as int) =~= ps[i as int]@);
        if i > from {
            assert(out@ =~= join_with(next, sep));
        } else {
            assert(out@ =~= join_with(next, sep));
        }
        i = i + 1;
    }
    assert(ps.deep_view().skip(from as int).take(ps.len() - from) =~= ps.deep_view().skip(from as int));
    out
}

} // verus!

verus! {

/// Whether the UTF-8 encoding of `s` takes at least `n` bytes.
pub fn utf8_len_at_least(s: &str, n: usize) -> (r: bool)
    requires
        n <= usize::MAX - 4,
    ensures
        r == (vstd::utf8::encode_utf8(s@).len() >= n),
{
    let v = str_chars(s);
    let mut acc: usize = 0;
    let mut i: usize = 0;
    assert(v@.skip(0) =~= v@);
    while i < v.len()
        invariant
            v@ == s@,
            i <= v.len(),
            acc <= n + 3,
            n <= usize::MAX - 4,
            vstd::utf8::encode_utf8(s@).len() == acc + vstd::utf8::encode_utf8(v@.skip(i as int)).len(),
        decreases v.len() - i,
    {
        if acc >= n {
            return true;
        }
        let c = v[i];
        let cv = c as u32;
        let w: usize = if cv <= 0x7f {
            1
        } else if cv <= 0x7ff {
            2
        } else if cv <= 0xffff && !(0xd800 <= cv && cv <= 0xdfff) {
            3
        } else {
            4
        };
        assert(v@.skip(i as int)[0] == c);
        assert(v@.skip(i as int).drop_first() =~= v@.skip(i + 1));
        assert(vstd::utf8::encode_scalar(cv).len() == w);
        assert(w <= 4);
        assert(acc < n);
        acc = acc + w;
        i = i + 1;
    }
    assert(v@.skip(i as int) =~= Seq::<char>::empty());
    acc >= n
}

} // verus!

verus! {

/// Reading a run without the separator extends the open piece.
pub proof fn lemma_split_on_word(w: Seq<char>, rest: Seq<char>, sep: char, cur: Seq<char>, acc: Seq<Seq<char>>)
    requires
        forall|i: int| 0 <= i < w.len() ==> #[trigger] w[i] != sep,
    ensures
        split_on_rest(w + rest, sep, cur, acc) == split_on_rest(rest, sep, cur + w, acc),
    decreases w.len(),
{
    if w.len() == 0 {
        assert(w + rest =~= rest);
        assert(cur + w =~= cur);
    } else {
        assert((w + rest)[0] == w[0]);
        assert((w + rest).drop_first() =~= w.drop_first() + rest);
        lemma_split_on_word(w.drop_first(), rest, sep, cur.push(w[0]), acc);
        assert(cur.push(w[0]) + w.drop_first() =~= cur + w);
    }
}

/// The pieces already closed stay in front of those still to come.
pub proof fn lemma_split_acc(s: Seq<char>, sep: char, cur: Seq<char>, acc: Seq<Seq<char>>)
    ensures
        split_on_rest(s, sep, cur, acc) == acc + split_on_rest(s, sep, cur, seq![]),
    decreases s.len(),
{
    if s.len() == 0 {
        assert(acc.push(cur) =~= acc + seq![cur]);
    } else if s[0] == sep {
        lemma_split_acc(s.drop_first(), sep, seq![], acc.push(cur));
        lemma_split_acc(s.drop_first(), sep, seq![], seq![cur]);
        assert(acc.push(cur) + split_on_rest(s.drop_first(), sep, seq![], seq![]) =~= acc + (seq![cur]
            + split_on_rest(s.drop_first(), sep, seq![], seq![])));
    } else {
        lemma_split_acc(s.drop_first(), sep, cur.push(s[0]), acc);
    }
}

/// After the last separator, the last piece is what follows it.
pub proof fn lemma_split_last(a: Seq<char>, b: Seq<char>, sep: char, cur: Seq<char>, acc: Seq<Seq<char>>)
    requires
        forall|i: int| 0 <= i < b.len() ==> #[trigger] b[i] != sep,
    ensures
        split_on_rest(a + seq![sep] + b, sep, cur, acc).last() == b,
    decreases a.len(),
{
    let s = a + seq![sep] + b;
    if a.len() == 0 {
        assert(s[0] == sep);
        assert(s.drop_first() =~= b);
        lemma_split_on_word(b, Seq::<char>::empty(), sep, seq![], acc.push(cur));
        assert(b + Seq::<char>::empty() =~= b);
        assert(Seq::<char>::empty() + b =~= b);
    } else {
        assert(s[0] == a[0]);
        assert(s.drop_first() =~= a.drop_first() + seq![sep] + b);
        if a[0] == sep {
            lemma_split_last(a.drop_first(), b, sep, seq![], acc.push(cur));
        } else {
            lemma_split_last(a.drop_first(), b, sep, cur.push(a[0]), acc);
        }
    }
}

/// Joining a piece in front of at least one more puts a separator after it.
pub proof fn lemma_join_front(c: Seq<char>, ps: Seq<Seq<char>>, sep: char)
    requires
        ps.len() >= 1,
    ensures
        join_with(seq![c] + ps, sep) == c + seq![sep] + join_with(ps, sep),
    decreases ps.len(),
{
    let whole = seq![c] + ps;
    if ps.len() == 1 {
        assert(whole.drop_last() =~= seq![c]);
        assert(join_with(whole, sep) == join_with(seq![c], sep) + seq![sep] + ps[0]);
    } else {
        assert(whole.drop_last() =~= seq![c] + ps.drop_last());
        lemma_join_front(c, ps.drop_last(), sep);
        assert(whole.last() == ps.last());
        assert(join_with(whole, sep) =~= c + seq![sep] + join_with(ps, sep));
    }
}

/// A split has at least one piece.
pub proof fn lemma_split_len(s: Seq<char>, sep: char, cur: Seq<char>)
    ensures
        split_on_rest(s, sep, cur, seq![]).len() >= 1,
    decreases s.len(),
{
    if s.len() > 0 {
        if s[0] == sep {
            lemma_split_acc(s.drop_first(), sep, seq![], seq![cur]);
            lemma_split_len(s.drop_first(), sep, seq![]);
        } else {
            lemma_split_len(s.drop_first(), sep, cur.push(s[0]));
        }
    }
}

/// Joining the pieces of a split with the separator gives the text back.
pub proof fn lemma_join_split(s: Seq<char>, sep: char, cur: Seq<char>)
    ensures
        join_with(split_on_rest(s, sep, cur, seq![]), sep) == cur + s,
    decreases s.len(),
{
    if s.len() == 0 {
        assert(cur + s =~= cur);
    } else if s[0] == sep {
        let tail = split_on_rest(s.drop_first(), sep, seq![], seq![]);
        lemma_split_acc(s.drop_first(), sep, seq![], seq![cur]);
        lemma_split_len(s.drop_first(), sep, seq![]);
        lemma_join_front(cur, tail, sep);
        lemma_join_split(s.drop_first(), sep, seq![]);
        assert(cur + seq![sep] + (Seq::<char>::empty() + s.drop_first()) =~= cur + s);
    } else {
        lemma_join_split(s.drop_first(), sep, cur.push(s[0]));
        assert(cur.push(s[0]) + s.drop_first() =~= cur + s);
    }
}



} // verus!
