//! Text primitives over sequences of characters: comparing, searching,
//! splitting into pieces, words and lines, and reading decimal numbers.
//!
//! Each executable function comes with a specification function over
//! `Seq<char>` that says what it returns.

use vstd::prelude::*;
use vstd::string::*;

verus! {

/// The characters of `s`, in order.
pub fn chars_of(s: &str) -> (r: Vec<char>)
    ensures
        r@ == s@,
{
    let mut out: Vec<char> = Vec::new();
    for c in it: s.chars()
        invariant
            out@ == it.seq().take(it.index() as int),
            it.seq() == s@,
    {
        out.push(c);
    }
    out
}

/// Tells whether two strings hold the same characters.
pub fn same_text(a: &str, b: &str) -> (r: bool)
    ensures
        r == (a@ == b@),
{
    String::from_str(a) == String::from_str(b)
}

/// `prefix` followed by `rest`.
pub fn joined(prefix: &str, rest: &str) -> (r: String)
    ensures
        r@ == prefix@ + rest@,
{
    String::from_str(prefix).concat(rest)
}

/// The characters that Unicode counts as white space.
pub open spec fn is_whitespace(c: char) -> bool {
    let n = c as u32;
    ||| 0x09 <= n <= 0x0D
    ||| n == 0x20
    ||| n == 0x85
    ||| n == 0xA0
    ||| n == 0x1680
    ||| 0x2000 <= n <= 0x200A
    ||| n == 0x2028
    ||| n == 0x2029
    ||| n == 0x202F
    ||| n == 0x205F
    ||| n == 0x3000
}

/// Tells whether Unicode counts `c` as white space.
pub fn char_is_whitespace(c: char) -> (r: bool)
    ensures
        r == is_whitespace(c),
{
    let n: u32 = c as u32;
    (0x09 <= n && n <= 0x0D) || n == 0x20 || n == 0x85 || n == 0xA0 || n == 0x1680 || (0x2000 <= n
        && n <= 0x200A) || n == 0x2028 || n == 0x2029 || n == 0x202F || n == 0x205F || n == 0x3000
}

/// What parts a text into pieces.
#[derive(Debug, Clone, Copy, PartialEq, Eq, Structural)]
pub enum Separator {
    /// One given character.
    Char(char),
    /// Any white-space character.
    Whitespace,
}

impl Separator {
    /// Whether `c` separates.
    pub open spec fn holds(self, c: char) -> bool {
        match self {
            Separator::Char(x) => c == x,
            Separator::Whitespace => is_whitespace(c),
        }
    }

    /// Tells whether `c` separates.
    pub fn test(self, c: char) -> (r: bool)
        ensures
            r == self.holds(c),
    {
        match self {
            Separator::Char(x) => c == x,
            Separator::Whitespace => char_is_whitespace(c),
        }
    }
}

/// The number of characters of `s` before its first separator.
pub open spec fn run_len(s: Seq<char>, sep: Separator) -> nat
    decreases s.len(),
{
    if s.len() == 0 || sep.holds(s[0]) {
        0
    } else {
        1 + run_len(s.drop_first(), sep)
    }
}

/// The pieces of `s` between its separators, in order. A text with `n`
/// separators has `n + 1` pieces, some of which may be empty.
pub open spec fn pieces(s: Seq<char>, sep: Separator) -> Seq<Seq<char>>
    decreases s.len(),
{
    let n = run_len(s, sep) as int;
    if n >= s.len() {
        seq![s]
    } else {
        seq![s.take(n)] + pieces(s.skip(n + 1), sep)
    }
}

/// `run_len` is the place of the first separator, or the length where
/// there is none.
pub proof fn lemma_run_len(s: Seq<char>, sep: Separator, k: int)
    requires
        0 <= k <= s.len(),
        forall|j: int| 0 <= j < k ==> !sep.holds(s[j]),
        k == s.len() || sep.holds(s[k]),
    ensures
        run_len(s, sep) == k,
    decreases k,
{
    if k > 0 {
        let rest = s.drop_first();
        assert forall|j: int| 0 <= j < k - 1 implies !sep.holds(rest[j]) by {
            assert(rest[j] == s[j + 1]);
        }
        lemma_run_len(rest, sep, k - 1);
    }
}

/// A text always has a first piece.
pub proof fn lemma_pieces_nonempty(s: Seq<char>, sep: Separator)
    ensures
        pieces(s, sep).len() >= 1,
{
}

/// With no separator from `start` up to `i` and one at `i`, the piece from
/// `start` ends at `i`.
proof fn lemma_pieces_at_separator(s: Seq<char>, sep: Separator, start: int, i: int)
    requires
        0 <= start <= i < s.len(),
        forall|j: int| start <= j < i ==> !sep.holds(s[j]),
        sep.holds(s[i]),
    ensures
        pieces(s.skip(start), sep) == seq![s.subrange(start, i)] + pieces(s.skip(i + 1), sep),
{
    let t = s.skip(start);
    lemma_run_len(t, sep, i - start);
    assert(t.take(i - start) =~= s.subrange(start, i));
    assert(t.skip(i - start + 1) =~= s.skip(i + 1));
}

/// With no separator from `start` on, the rest of the text is one piece.
proof fn lemma_pieces_at_end(s: Seq<char>, sep: Separator, start: int)
    requires
        0 <= start <= s.len(),
        forall|j: int| start <= j < s.len() ==> !sep.holds(s[j]),
    ensures
        pieces(s.skip(start), sep) == seq![s.subrange(start, s.len() as int)],
{
    let t = s.skip(start);
    lemma_run_len(t, sep, s.len() - start);
    assert(t =~= s.subrange(start, s.len() as int));
}

/// Parts `s` at every separator.
pub fn split_pieces(s: &str, sep: Separator) -> (r: Vec<String>)
    ensures
        r.deep_view() == pieces(s@, sep),
{
    let chars = chars_of(s);
    let n = chars.len();
    let mut out: Vec<String> = Vec::new();
    let mut start: usize = 0;
    let mut i: usize = 0;
    assert(s@.skip(0) =~= s@);
    assert(out.deep_view() + pieces(s@, sep) =~= pieces(s@, sep));
    while i < n
        invariant
            chars@ == s@,
            n == chars.len(),
            0 <= start <= i <= n,
            forall|j: int| start <= j < i ==> !sep.holds(s@[j]),
            pieces(s@, sep) == out.deep_view() + pieces(s@.skip(start as int), sep),
        decreases n - i,
    {
        if sep.test(chars[i]) {
            let ghost before = out.deep_view();
            let piece = String::from_str(s.substring_char(start, i));
            out.push(piece);
            proof {
                lemma_pieces_at_separator(s@, sep, start as int, i as int);
                assert(out.deep_view() =~= before.push(s@.subrange(start as int, i as int)));
                assert(out.deep_view() + pieces(s@.skip(i + 1), sep) =~= before + (seq![
                    s@.subrange(start as int, i as int),
                ] + pieces(s@.skip(i + 1), sep)));
            }
            start = i + 1;
        }
        i += 1;
    }
    let ghost before = out.deep_view();
    let piece = String::from_str(s.substring_char(start, n));
    out.push(piece);
    proof {
        lemma_pieces_at_end(s@, sep, start as int);
        assert(out.deep_view() =~= before.push(s@.subrange(start as int, n as int)));
        assert(out.deep_view() =~= before + seq![s@.subrange(start as int, n as int)]);
    }
    out
}

/// The pieces of `s` between the occurrences of `c`.
pub open spec fn split_on(s: Seq<char>, c: char) -> Seq<Seq<char>> {
    pieces(s, Separator::Char(c))
}

/// Parts `s` at every occurrence of `c`.
pub fn split(s: &str, c: char) -> (r: Vec<String>)
    ensures
        r.deep_view() == split_on(s@, c),
{
    split_pieces(s, Separator::Char(c))
}

/// What follows the last occurrence of `c` in `s`; all of `s` where `c`
/// does not occur.
pub open spec fn last_piece(s: Seq<char>, c: char) -> Seq<char> {
    split_on(s, c).last()
}

/// What follows the last occurrence of `c` in `s`.
pub fn last_segment(s: &str, c: char) -> (r: String)
    ensures
        r@ == last_piece(s@, c),
{
    let parts = split(s, c);
    proof {
        lemma_pieces_nonempty(s@, Separator::Char(c));
    }
    parts[parts.len() - 1].clone()
}

/// A piece that holds at least one character.
pub open spec fn is_word() -> spec_fn(Seq<char>) -> bool {
    |piece: Seq<char>| piece.len() > 0
}

/// The words of `s`: its maximal runs of characters that are no white
/// space, in order.
pub open spec fn words_of(s: Seq<char>) -> Seq<Seq<char>> {
    pieces(s, Separator::Whitespace).filter(is_word())
}

/// Parts `s` into its words.
pub fn split_whitespace(s: &str) -> (r: Vec<String>)
    ensures
        r.deep_view() == words_of(s@),
{
    let parts = split_pieces(s, Separator::Whitespace);
    let ghost all = parts.deep_view();
    let mut out: Vec<String> = Vec::new();
    let mut k: usize = 0;
    assert(all.take(0) =~= Seq::<Seq<char>>::empty());
    assert(all.take(0).filter(is_word()) =~= Seq::<Seq<char>>::empty()) by {
        reveal(Seq::filter);
    }
    while k < parts.len()
        invariant
            0 <= k <= parts.len(),
            all == parts.deep_view(),
            out.deep_view() == all.take(k as int).filter(is_word()),
        decreases parts.len() - k,
    {
        let ghost before = out.deep_view();
        let part = &parts[k];
        proof {
            all.take(k as int).lemma_filter_push(all[k as int], is_word());
            assert(all.take(k + 1) =~= all.take(k as int).push(all[k as int]));
        }
        if !part.as_str().is_empty() {
            out.push(part.clone());
            assert(out.deep_view() =~= before.push(all[k as int]));
        }
        k += 1;
    }
    assert(all.take(k as int) =~= all);
    out
}

/// `line` without one carriage return at its end.
pub open spec fn strip_cr(line: Seq<char>) -> Seq<char> {
    if line.len() > 0 && line.last() == '\r' {
        line.drop_last()
    } else {
        line
    }
}

/// `line` without one carriage return at its end.
pub fn strip_carriage_return(line: &str) -> (r: String)
    ensures
        r@ == strip_cr(line@),
{
    let n = line.unicode_len();
    if n > 0 && line.get_char(n - 1) == '\r' {
        String::from_str(line.substring_char(0, n - 1))
    } else {
        String::from_str(line)
    }
}

/// `strip_cr` of every line in `lines`.
pub open spec fn stripped(lines: Seq<Seq<char>>) -> Seq<Seq<char>> {
    lines.map_values(|line: Seq<char>| strip_cr(line))
}

/// The lines of `s`. A line ends at a line feed; the line feed, and one
/// carriage return before it, are not part of the line. What follows the
/// last line feed is a line of its own unless it is empty, and is taken as
/// it stands.
pub open spec fn lines_of(s: Seq<char>) -> Seq<Seq<char>> {
    let parts = split_on(s, '\n');
    let ended = stripped(parts.drop_last());
    if parts.last().len() > 0 {
        ended.push(parts.last())
    } else {
        ended
    }
}

/// Parts `s` into its lines.
pub fn lines(s: &str) -> (r: Vec<String>)
    ensures
        r.deep_view() == lines_of(s@),
{
    let parts = split(s, '\n');
    let ghost all = parts.deep_view();
    proof {
        lemma_pieces_nonempty(s@, Separator::Char('\n'));
    }
    let n = parts.len() - 1;
    let mut out: Vec<String> = Vec::new();
    let mut k: usize = 0;
    while k < n
        invariant
            0 <= k <= n,
            n == parts.len() - 1,
            all == parts.deep_view(),
            out.deep_view() == stripped(all.take(k as int)),
        decreases n - k,
    {
        let ghost before = out.deep_view();
        out.push(strip_carriage_return(parts[k].as_str()));
        proof {
            assert(out.deep_view() =~= before.push(strip_cr(all[k as int])));
            assert(all.take(k + 1) =~= all.take(k as int).push(all[k as int]));
            assert(stripped(all.take(k + 1)) =~= stripped(all.take(k as int)).push(
                strip_cr(all[k as int]),
            ));
        }
        k += 1;
    }
    assert(all.take(n as int) =~= all.drop_last());
    let ghost ended = out.deep_view();
    let rest = &parts[n];
    if !rest.as_str().is_empty() {
        out.push(rest.clone());
        assert(out.deep_view() =~= ended.push(all.last()));
    }
    out
}

/// Whether `pattern` stands in `s` from place `i` on.
pub open spec fn occurs_at(s: Seq<char>, pattern: Seq<char>, i: int) -> bool {
    &&& 0 <= i
    &&& i + pattern.len() <= s.len()
    &&& s.subrange(i, i + pattern.len()) == pattern
}

/// Whether `pattern` stands somewhere in `s`.
pub open spec fn contains_text(s: Seq<char>, pattern: Seq<char>) -> bool {
    exists|i: int| occurs_at(s, pattern, i)
}

/// Tells whether `needle` stands in `hay` from place `i` on.
fn matches_at(hay: &Vec<char>, needle: &Vec<char>, i: usize) -> (r: bool)
    requires
        i + needle.len() <= hay.len(),
    ensures
        r == occurs_at(hay@, needle@, i as int),
{
    let mut k: usize = 0;
    while k < needle.len()
        invariant
            0 <= k <= needle.len(),
            i + needle.len() <= hay.len(),
            forall|j: int| 0 <= j < k ==> hay@[i + j] == needle@[j],
        decreases needle.len() - k,
    {
        if hay[i + k] != needle[k] {
            assert(hay@.subrange(i as int, i + needle.len())[k as int] == hay@[i + k]);
            return false;
        }
        k += 1;
    }
    assert(hay@.subrange(i as int, i + needle.len()) =~= needle@);
    true
}

/// Tells whether `pattern` stands somewhere in `s`.
pub fn contains(s: &str, pattern: &str) -> (r: bool)
    ensures
        r == contains_text(s@, pattern@),
{
    let hay = chars_of(s);
    let needle = chars_of(pattern);
    if needle.len() > hay.len() {
        return false;
    }
    let last = hay.len() - needle.len();
    let mut i: usize = 0;
    while i < last
        invariant
            0 <= i <= last,
            last == hay.len() - needle.len(),
            hay@ == s@,
            needle@ == pattern@,
            forall|j: int| 0 <= j < i ==> !occurs_at(s@, pattern@, j),
        decreases last - i,
    {
        if matches_at(&hay, &needle, i) {
            return true;
        }
        i += 1;
    }
    matches_at(&hay, &needle, last)
}

/// A decimal digit.
pub open spec fn is_digit(c: char) -> bool {
    '0' <= c && c <= '9'
}

/// What a decimal digit counts for.
pub open spec fn digit_value(c: char) -> nat {
    (c as u32 - '0' as u32) as nat
}

/// Whether `s` is made of decimal digits alone.
pub open spec fn all_digits(s: Seq<char>) -> bool {
    forall|i: int| 0 <= i < s.len() ==> is_digit(#[trigger] s[i])
}

/// The number that the digits of `s` write in base ten.
pub open spec fn decimal_value(s: Seq<char>) -> nat
    decreases s.len(),
{
    if s.len() == 0 {
        0
    } else {
        decimal_value(s.drop_last()) * 10 + digit_value(s.last())
    }
}

/// `s` without a plus sign at its front.
pub open spec fn unsigned_part(s: Seq<char>) -> Seq<char> {
    if s.len() > 0 && s[0] == '+' {
        s.drop_first()
    } else {
        s
    }
}

/// The number that `s` writes, where `s` is one or more decimal digits,
/// with or without a plus sign before them, and the number fits 64 bits.
pub open spec fn decimal_u64(s: Seq<char>) -> Option<u64> {
    let digits = unsigned_part(s);
    if digits.len() > 0 && all_digits(digits) && decimal_value(digits) <= u64::MAX {
        Some(decimal_value(digits) as u64)
    } else {
        None
    }
}

/// A number is at least what any of its leading digits write.
pub proof fn lemma_decimal_value_grows(s: Seq<char>, k: int)
    requires
        0 <= k <= s.len(),
    ensures
        decimal_value(s.take(k)) <= decimal_value(s),
    decreases s.len() - k,
{
    if k == s.len() {
        assert(s.take(k) =~= s);
    } else {
        lemma_decimal_value_grows(s.drop_last(), k);
        assert(s.drop_last().take(k) =~= s.take(k));
    }
}

/// Reads the number that `s` writes.
pub fn parse_u64(s: &str) -> (r: Option<u64>)
    ensures
        r == decimal_u64(s@),
{
    let chars = chars_of(s);
    let n = chars.len();
    let start: usize = if n > 0 && chars[0] == '+' {
        1
    } else {
        0
    };
    let ghost digits = unsigned_part(s@);
    assert(digits =~= s@.skip(start as int));
    if start == n {
        return None;
    }
    let mut value: u64 = 0;
    let mut i: usize = start;
    assert(digits.take(0) =~= Seq::<char>::empty());
    while i < n
        invariant
            start <= i <= n,
            n == chars.len(),
            chars@ == s@,
            digits == s@.skip(start as int),
            digits == unsigned_part(s@),
            all_digits(digits.take(i - start)),
            value == decimal_value(digits.take(i - start)),
        decreases n - i,
    {
        let c = chars[i];
        let ghost k = i - start;
        assert(digits[k] == c);
        if !(c >= '0' && c <= '9') {
            assert(!is_digit(digits[k]));
            return None;
        }
        let d: u64 = (c as u32 - '0' as u32) as u64;
        proof {
            assert(digits.take(k + 1).drop_last() =~= digits.take(k));
            assert(digits.take(k + 1).last() == c);
            assert(decimal_value(digits.take(k + 1)) == value * 10 + d);
            lemma_decimal_value_grows(digits, k + 1);
        }
        if value > (u64::MAX - d) / 10 {
            assert(value * 10 + d > u64::MAX);
            return None;
        }
        value = value * 10 + d;
        i += 1;
    }
    assert(digits.take(n - start) =~= digits);
    Some(value)
}

/// Before the place that `run_len` gives stands no separator, and at that
/// place stands one, unless the text ends there.
pub proof fn lemma_run_len_bounds(s: Seq<char>, sep: Separator)
    ensures
        run_len(s, sep) <= s.len(),
        forall|j: int| 0 <= j < run_len(s, sep) ==> !sep.holds(#[trigger] s[j]),
        run_len(s, sep) < s.len() ==> sep.holds(s[run_len(s, sep) as int]),
    decreases s.len(),
{
    if s.len() > 0 && !sep.holds(s[0]) {
        let rest = s.drop_first();
        lemma_run_len_bounds(rest, sep);
        assert forall|j: int| 0 <= j < run_len(s, sep) implies !sep.holds(#[trigger] s[j]) by {
            if j > 0 {
                assert(s[j] == rest[j - 1]);
            }
        }
        if run_len(s, sep) < s.len() {
            assert(s[run_len(s, sep) as int] == rest[run_len(rest, sep) as int]);
        }
    }
}

/// No piece holds a separator.
pub proof fn lemma_pieces_hold_no_separator(s: Seq<char>, sep: Separator)
    ensures
        forall|k: int, j: int|
            0 <= k < pieces(s, sep).len() && 0 <= j < pieces(s, sep)[k].len() ==> !sep.holds(
                #[trigger] pieces(s, sep)[k][j],
            ),
    decreases s.len(),
{
    let n = run_len(s, sep) as int;
    lemma_run_len_bounds(s, sep);
    if n < s.len() {
        let rest = pieces(s.skip(n + 1), sep);
        lemma_pieces_hold_no_separator(s.skip(n + 1), sep);
        assert forall|k: int, j: int|
            0 <= k < pieces(s, sep).len() && 0 <= j < pieces(s, sep)[k].len() implies !sep.holds(
            #[trigger] pieces(s, sep)[k][j],
        ) by {
            if k == 0 {
                assert(pieces(s, sep)[0] == s.take(n));
                assert(s.take(n)[j] == s[j]);
            } else {
                assert(pieces(s, sep)[k] == rest[k - 1]);
            }
        }
    }
}

/// `parts` in a row, with `c` between every two of them.
pub open spec fn joined_by(parts: Seq<Seq<char>>, c: char) -> Seq<char>
    decreases parts.len(),
{
    if parts.len() == 0 {
        Seq::empty()
    } else if parts.len() == 1 {
        parts[0]
    } else {
        parts[0] + seq![c] + joined_by(parts.drop_first(), c)
    }
}

/// Splitting loses nothing: the pieces of a text, joined again by the
/// separating character, are the text.
pub proof fn lemma_split_rejoins(s: Seq<char>, c: char)
    ensures
        joined_by(split_on(s, c), c) == s,
    decreases s.len(),
{
    let sep = Separator::Char(c);
    let n = run_len(s, sep) as int;
    lemma_run_len_bounds(s, sep);
    if n < s.len() {
        let rest = pieces(s.skip(n + 1), sep);
        lemma_split_rejoins(s.skip(n + 1), c);
        lemma_pieces_nonempty(s.skip(n + 1), sep);
        let all = split_on(s, c);
        assert(all.drop_first() =~= rest);
        assert(all[0] == s.take(n));
        assert(s.take(n) + seq![c] + s.skip(n + 1) =~= s);
    }
}

/// A word holds at least one character and no white space.
pub proof fn lemma_words_are_words(s: Seq<char>)
    ensures
        forall|k: int|
            0 <= k < words_of(s).len() ==> (#[trigger] words_of(s)[k]).len() > 0 && forall|j: int|
                0 <= j < words_of(s)[k].len() ==> !is_whitespace(#[trigger] words_of(s)[k][j]),
{
    let all = pieces(s, Separator::Whitespace);
    lemma_pieces_hold_no_separator(s, Separator::Whitespace);
    assert forall|k: int| 0 <= k < words_of(s).len() implies (#[trigger] words_of(s)[k]).len() > 0
        && forall|j: int|
        0 <= j < words_of(s)[k].len() ==> !is_whitespace(#[trigger] words_of(s)[k][j]) by {
        let word = words_of(s)[k];
        all.lemma_filter_pred(is_word(), k);
        assert(all.filter(is_word()).contains(word));
        all.lemma_filter_contains_rev(is_word(), word);
        let i = choose|i: int| 0 <= i < all.len() && all[i] == word;
        assert forall|j: int| 0 <= j < word.len() implies !is_whitespace(#[trigger] word[j]) by {
            assert(!Separator::Whitespace.holds(all[i][j]));
        }
    }
}

/// No line holds a line feed.
pub proof fn lemma_lines_hold_no_line_feed(s: Seq<char>)
    ensures
        forall|k: int, j: int|
            0 <= k < lines_of(s).len() && 0 <= j < lines_of(s)[k].len() ==> #[trigger] lines_of(
                s,
            )[k][j] != '\n',
{
    let sep = Separator::Char('\n');
    let parts = split_on(s, '\n');
    lemma_pieces_nonempty(s, sep);
    lemma_pieces_hold_no_separator(s, sep);
    assert forall|k: int, j: int|
        0 <= k < lines_of(s).len() && 0 <= j < lines_of(s)[k].len() implies #[trigger] lines_of(
        s,
    )[k][j] != '\n' by {
        if k < parts.len() - 1 {
            assert(lines_of(s)[k] == strip_cr(parts[k]));
            assert(strip_cr(parts[k])[j] == parts[k][j]);
            assert(!sep.holds(parts[k][j]));
        } else {
            assert(lines_of(s)[k] == parts.last());
            assert(!sep.holds(parts[parts.len() - 1][j]));
        }
    }
}

/// Every text holds itself, and the empty text.
pub proof fn lemma_contains_whole_and_empty(s: Seq<char>)
    ensures
        contains_text(s, s),
        contains_text(s, Seq::empty()),
{
    assert(s.subrange(0, s.len() as int) =~= s);
    assert(occurs_at(s, s, 0));
    assert(s.subrange(0, 0) =~= Seq::<char>::empty());
    assert(occurs_at(s, Seq::empty(), 0));
}

} // verus!
