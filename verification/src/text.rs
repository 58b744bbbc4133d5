use vstd::prelude::*;
use vstd::utf8::{valid_utf8, decode_utf8};

verus! {

/// What `String::from_utf8_lossy` makes of a byte sequence: the decoded text,
/// with each ill-formed part replaced by U+FFFD.
pub uninterp spec fn utf8_lossy(bytes: Seq<u8>) -> Seq<char>;

/// Decodes `bytes` with `String::from_utf8_lossy`. Claimed: the result is
/// `utf8_lossy(bytes)`, and, as std's documentation says, it is the plain
/// UTF-8 decoding where the bytes are valid UTF-8.
#[verifier::external_body]
pub(crate) fn decode_lossy(bytes: &[u8]) -> (r: String)
    ensures
        r@ == utf8_lossy(bytes@),
        valid_utf8(bytes@) ==> r@ == decode_utf8(bytes@),
{
    String::from_utf8_lossy(bytes).into_owned()
}

/// Appends one character with `String::push`.
#[verifier::external_body]
pub(crate) fn push_char(s: &mut String, c: char)
    ensures
        final(s)@ == old(s)@.push(c),
{
    s.push(c);
}

/// Whether `c` has Unicode's White_Space property, which `char::is_whitespace`
/// tests: U+0009..=U+000D, U+0020, U+0085, U+00A0, U+1680, U+2000..=U+200A,
/// U+2028, U+2029, U+202F, U+205F and U+3000.
pub open spec fn white_space(c: char) -> bool {
    let u = c as u32;
    ||| 0x09 <= u <= 0x0D
    ||| u == 0x20
    ||| u == 0x85
    ||| u == 0xA0
    ||| u == 0x1680
    ||| 0x2000 <= u <= 0x200A
    ||| u == 0x2028
    ||| u == 0x2029
    ||| u == 0x202F
    ||| u == 0x205F
    ||| u == 0x3000
}

/// Whether `c` is white space, as `white_space` says.
pub fn is_white_space(c: char) -> (r: bool)
    ensures
        r == white_space(c),
{
    let u = c as u32;
    (0x09 <= u && u <= 0x0D) || u == 0x20 || u == 0x85 || u == 0xA0 || u == 0x1680
        || (0x2000 <= u && u <= 0x200A) || u == 0x2028 || u == 0x2029 || u == 0x202F
        || u == 0x205F || u == 0x3000
}

/// Whether `c` separates pieces: white space when `words`, else `'\n'`.
pub open spec fn separates(c: char, words: bool) -> bool {
    if words {
        white_space(c)
    } else {
        c == '\n'
    }
}

/// The pieces collected when a piece ends: none when it is empty.
pub open spec fn close_piece(cur: Seq<char>) -> Seq<Seq<char>> {
    if cur.len() == 0 {
        seq![]
    } else {
        seq![cur]
    }
}

/// The non-empty pieces of `cur + s` between separators, in order, where
/// `cur` is a piece already begun.
pub open spec fn pieces_from(s: Seq<char>, cur: Seq<char>, words: bool) -> Seq<Seq<char>>
    decreases s.len(),
{
    if s.len() == 0 {
        close_piece(cur)
    } else if separates(s[0], words) {
        close_piece(cur) + pieces_from(s.drop_first(), seq![], words)
    } else {
        pieces_from(s.drop_first(), cur.push(s[0]), words)
    }
}

/// The non-empty pieces of `s` between `'\n'` characters, in order.
pub open spec fn nonempty_lines(s: Seq<char>) -> Seq<Seq<char>> {
    pieces_from(s, seq![], false)
}

/// The words of `s`: its non-empty pieces between white space, in order.
pub open spec fn words_of(s: Seq<char>) -> Seq<Seq<char>> {
    pieces_from(s, seq![], true)
}

/// The texts of a sequence of strings.
pub open spec fn texts(v: Seq<String>) -> Seq<Seq<char>> {
    v.map_values(|x: String| x@)
}

fn split_pieces(s: &str, words: bool) -> (r: Vec<String>)
    ensures
        texts(r@) == pieces_from(s@, seq![], words),
{
    let mut out: Vec<String> = Vec::new();
    let mut cur = String::new();
    let ghost whole = s@;
    assert(whole.skip(0) =~= whole);
    assert(texts(out@) =~= Seq::<Seq<char>>::empty());
    assert(texts(out@) + pieces_from(whole, cur@, words) =~= pieces_from(whole, cur@, words));
    for c in it: s.chars()
        invariant
            whole == s@,
            it.seq() == whole,
            texts(out@) + pieces_from(whole.skip(it.index() as int), cur@, words)
                == pieces_from(whole, seq![], words),
    {
        let ghost i = it.index() as int;
        assert(whole.skip(i).drop_first() =~= whole.skip(i + 1));
        assert(whole.skip(i)[0] == c);
        let sep = if words {
            is_white_space(c)
        } else {
            c == '\n'
        };
        if sep {
            if !cur.as_str().is_empty() {
                out.push(cur);
            }
            cur = String::new();
        } else {
            push_char(&mut cur, c);
        }
    }
    if !cur.as_str().is_empty() {
        out.push(cur);
    }
    out
}

/// Splits `s` at each `'\n'` and keeps the non-empty pieces.
pub fn split_nonempty_lines(s: &str) -> (r: Vec<String>)
    ensures
        texts(r@) == nonempty_lines(s@),
{
    split_pieces(s, false)
}

/// Splits `s` at white space and keeps the non-empty pieces, as
/// `str::split_whitespace` does.
pub fn split_words(s: &str) -> (r: Vec<String>)
    ensures
        texts(r@) == words_of(s@),
{
    split_pieces(s, true)
}

/// A piece is non-empty and holds no separator.
pub open spec fn clean_piece(p: Seq<char>, words: bool) -> bool {
    &&& p.len() > 0
    &&& forall|j: int| 0 <= j < p.len() ==> !separates(#[trigger] p[j], words)
}

proof fn pieces_from_clean(s: Seq<char>, cur: Seq<char>, words: bool)
    requires
        forall|j: int| 0 <= j < cur.len() ==> !separates(#[trigger] cur[j], words),
    ensures
        forall|i: int| 0 <= i < pieces_from(s, cur, words).len()
            ==> clean_piece(#[trigger] pieces_from(s, cur, words)[i], words),
    decreases s.len(),
{
    if s.len() == 0 {
        if cur.len() > 0 {
            assert(close_piece(cur)[0] == cur);
            assert(clean_piece(cur, words));
        }
    } else if separates(s[0], words) {
        pieces_from_clean(s.drop_first(), seq![], words);
        let head = close_piece(cur);
        let tail = pieces_from(s.drop_first(), seq![], words);
        assert forall|i: int| 0 <= i < (head + tail).len() implies clean_piece(#[trigger] (head + tail)[i], words) by {
            if i < head.len() {
                assert((head + tail)[i] == cur);
                assert(clean_piece(cur, words));
            } else {
                assert((head + tail)[i] == tail[i - head.len()]);
            }
        }
        assert(pieces_from(s, cur, words) == head + tail);
    } else {
        let next = cur.push(s[0]);
        assert forall|j: int| 0 <= j < next.len() implies !separates(#[trigger] next[j], words) by {
            if j < cur.len() {
                assert(next[j] == cur[j]);
            }
        }
        pieces_from_clean(s.drop_first(), next, words);
        assert(pieces_from(s, cur, words) == pieces_from(s.drop_first(), next, words));
    }
}

/// Every line and every word a text splits into is non-empty and holds no
/// separator: no `'\n'` in a line, no white space in a word.
pub proof fn split_pieces_are_clean(s: Seq<char>)
    ensures
        forall|i: int| 0 <= i < nonempty_lines(s).len() ==> clean_piece(#[trigger] nonempty_lines(s)[i], false),
        forall|i: int| 0 <= i < words_of(s).len() ==> clean_piece(#[trigger] words_of(s)[i], true),
{
    pieces_from_clean(s, seq![], false);
    pieces_from_clean(s, seq![], true);
}

proof fn run_then_rest(a: Seq<char>, t: Seq<char>, cur: Seq<char>, words: bool)
    requires
        forall|j: int| 0 <= j < a.len() ==> !separates(#[trigger] a[j], words),
    ensures
        pieces_from(a + t, cur, words) == pieces_from(t, cur + a, words),
    decreases a.len(),
{
    if a.len() == 0 {
        assert(a + t =~= t);
        assert(cur + a =~= cur);
    } else {
        let a1 = a.drop_first();
        assert forall|j: int| 0 <= j < a1.len() implies !separates(#[trigger] a1[j], words) by {
            assert(a1[j] == a[j + 1]);
        }
        run_then_rest(a1, t, cur.push(a[0]), words);
        assert((a + t)[0] == a[0]);
        assert((a + t).drop_first() =~= a1 + t);
        assert(cur.push(a[0]) + a1 =~= cur + a);
    }
}

/// Words are split at white space only: a run of characters with no white
/// space is a single word (none if empty), and a text made of such a run, one
/// white-space character and a rest has that run as its first word followed
/// by the words of the rest.
pub proof fn words_split_only_at_white_space(a: Seq<char>, c: char, b: Seq<char>)
    requires
        forall|j: int| 0 <= j < a.len() ==> !white_space(#[trigger] a[j]),
        white_space(c),
    ensures
        words_of(a) == (if a.len() == 0 { Seq::<Seq<char>>::empty() } else { seq![a] }),
        words_of(a + seq![c] + b) == words_of(a) + words_of(b),
{
    assert forall|j: int| 0 <= j < a.len() implies !separates(#[trigger] a[j], true) by {}
    run_then_rest(a, Seq::<char>::empty(), Seq::<char>::empty(), true);
    assert(a + Seq::<char>::empty() =~= a);
    assert(Seq::<char>::empty() + a =~= a);
    let t = seq![c] + b;
    run_then_rest(a, t, Seq::<char>::empty(), true);
    assert(a + seq![c] + b =~= a + t);
    assert(t[0] == c);
    assert(t.drop_first() =~= b);
}

/// Lines are split at `'\n'` only: a run of characters with no `'\n'` is a
/// single line (none if empty), and a text made of such a run, a `'\n'` and a
/// rest has that run as its first line followed by the lines of the rest.
pub proof fn lines_split_only_at_newline(a: Seq<char>, b: Seq<char>)
    requires
        forall|j: int| 0 <= j < a.len() ==> #[trigger] a[j] != '\n',
    ensures
        nonempty_lines(a) == (if a.len() == 0 { Seq::<Seq<char>>::empty() } else { seq![a] }),
        nonempty_lines(a + seq!['\n'] + b) == nonempty_lines(a) + nonempty_lines(b),
{
    assert forall|j: int| 0 <= j < a.len() implies !separates(#[trigger] a[j], false) by {}
    run_then_rest(a, Seq::<char>::empty(), Seq::<char>::empty(), false);
    assert(a + Seq::<char>::empty() =~= a);
    assert(Seq::<char>::empty() + a =~= a);
    let t = seq!['\n'] + b;
    run_then_rest(a, t, Seq::<char>::empty(), false);
    assert(a + seq!['\n'] + b =~= a + t);
    assert(t[0] == '\n');
    assert(t.drop_first() =~= b);
}

} // verus!
