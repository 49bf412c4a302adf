//! Character-level text utilities over `Seq<char>` models of strings.
//!
//! Every operation here is stated over the `Seq<char>` view of its
//! arguments, so that callers can speak of prefixes, occurrences, lines and
//! decimal renderings without reference to byte encodings.

use vstd::prelude::*;
use vstd::string::StringExecFns;

verus! {

/// `p` is a prefix of `s`.
pub open spec fn is_prefix_of(p: Seq<char>, s: Seq<char>) -> bool {
    p.len() <= s.len() && s.subrange(0, p.len() as int) == p
}

/// `p` is a suffix of `s`.
pub open spec fn is_suffix_of(p: Seq<char>, s: Seq<char>) -> bool {
    p.len() <= s.len() && s.subrange(s.len() - p.len(), s.len() as int) == p
}

/// `p` occurs in `s` starting at index `i`.
pub open spec fn occurs_at(s: Seq<char>, p: Seq<char>, i: int) -> bool {
    0 <= i && i + p.len() <= s.len() && s.subrange(i, i + p.len()) == p
}

/// `p` occurs somewhere in `s` (the empty pattern occurs in every text).
pub open spec fn contains_seq(s: Seq<char>, p: Seq<char>) -> bool {
    exists|i: int| occurs_at(s, p, i)
}

/// Copies the characters of a string slice into a vector.
pub fn chars_of(s: &str) -> (v: Vec<char>)
    ensures
        v@ == s@,
{
    let mut v: Vec<char> = Vec::new();
    for c in it: s.chars()
        invariant
            v@ == it.seq().take(it.index()),
    {
        v.push(c);
    }
    v
}

/// Builds a `String` from a slice of characters (std's `FromIterator<char>`
/// for `String`); the result holds exactly those characters in order.
#[verifier::external_body]
pub fn string_from_chars(v: &[char]) -> (s: String)
    ensures
        s@ == v@,
{
    v.iter().collect()
}

/// Whether `p` occurs in `s` at position `i`.
pub fn occurs_at_exec(s: &[char], p: &[char], i: usize) -> (res: bool)
    ensures
        res == occurs_at(s@, p@, i as int),
{
    if i > s.len() || p.len() > s.len() - i {
        return false;
    }
    let mut k: usize = 0;
    while k < p.len()
        invariant
            i + p@.len() <= s@.len(),
            s@.len() == s.len(),
            k <= p@.len(),
            forall|j: int| 0 <= j < k ==> s@[i + j] == p@[j],
        decreases p.len() - k,
    {
        if s[i + k] != p[k] {
            assert(s@.subrange(i as int, i + p@.len())[k as int] != p@[k as int]);
            return false;
        }
        k = k + 1;
    }
    assert(s@.subrange(i as int, i + p@.len()) =~= p@);
    true
}

/// Whether `p` is a prefix of `s`.
pub fn starts_with(s: &[char], p: &str) -> (res: bool)
    ensures
        res == is_prefix_of(p@, s@),
{
    let pv = chars_of(p);
    let r = occurs_at_exec(s, pv.as_slice(), 0);
    r
}

/// Whether the first character of `s` is `c`.
pub fn starts_with_char(s: &[char], c: char) -> (res: bool)
    ensures
        res == (s@.len() > 0 && s@[0] == c),
{
    s.len() > 0 && s[0] == c
}

/// Whether `p` is a suffix of `s`.
pub fn ends_with(s: &[char], p: &str) -> (res: bool)
    ensures
        res == is_suffix_of(p@, s@),
{
    let pv = chars_of(p);
    if pv.len() > s.len() {
        return false;
    }
    let r = occurs_at_exec(s, pv.as_slice(), s.len() - pv.len());
    r
}

/// The first position at or after `from` where `p` occurs in `s`.
pub fn find_from(s: &[char], p: &[char], from: usize) -> (res: Option<usize>)
    ensures
        match res {
            Some(i) => from <= i && occurs_at(s@, p@, i as int) && forall|j: int|
                from <= j < i ==> !occurs_at(s@, p@, j),
            None => forall|j: int| from <= j ==> !occurs_at(s@, p@, j),
        },
{
    if from > s.len() {
        return None;
    }
    let mut i = from;
    while i < s.len()
        invariant
            from <= i <= s@.len(),
            forall|j: int| from <= j < i ==> !occurs_at(s@, p@, j),
        decreases s.len() - i,
    {
        if occurs_at_exec(s, p, i) {
            return Some(i);
        }
        i = i + 1;
    }
    if occurs_at_exec(s, p, i) {
        return Some(i);
    }
    None
}

/// Whether `p` occurs anywhere in `s`.
pub fn contains_chars(s: &[char], p: &[char]) -> (res: bool)
    ensures
        res == contains_seq(s@, p@),
{
    match find_from(s, p, 0) {
        Some(i) => true,
        None => false,
    }
}

/// Whether the literal `p` occurs anywhere in `s`.
pub fn contains_str(s: &[char], p: &str) -> (res: bool)
    ensures
        res == contains_seq(s@, p@),
{
    let pv = chars_of(p);
    contains_chars(s, pv.as_slice())
}

/// Whether the character `c` occurs in `s`.
pub fn contains_char(s: &[char], c: char) -> (res: bool)
    ensures
        res == s@.contains(c),
{
    let mut i: usize = 0;
    while i < s.len()
        invariant
            i <= s@.len(),
            forall|j: int| 0 <= j < i ==> s@[j] != c,
        decreases s.len() - i,
    {
        if s[i] == c {
            return true;
        }
        i = i + 1;
    }
    false
}

/// Whether two character slices are equal.
pub fn chars_eq(a: &[char], b: &[char]) -> (res: bool)
    ensures
        res == (a@ == b@),
{
    if a.len() != b.len() {
        return false;
    }
    let r = occurs_at_exec(a, b, 0);
    if r {
        assert(a@.subrange(0, a@.len() as int) =~= a@);
    } else {
        assert(a@.subrange(0, a@.len() as int) =~= a@);
    }
    r
}

/// Whether `s` holds exactly the characters of the literal `p`.
pub fn chars_eq_str(s: &[char], p: &str) -> (res: bool)
    ensures
        res == (s@ == p@),
{
    let pv = chars_of(p);
    chars_eq(s, pv.as_slice())
}

/// Copies the characters `s[from..to]` into a new vector.
pub fn slice_chars(s: &[char], from: usize, to: usize) -> (res: Vec<char>)
    requires
        from <= to <= s@.len(),
    ensures
        res@ == s@.subrange(from as int, to as int),
{
    let mut res: Vec<char> = Vec::new();
    let mut i = from;
    while i < to
        invariant
            from <= i <= to <= s@.len(),
            res@ == s@.subrange(from as int, i as int),
        decreases to - i,
    {
        res.push(s[i]);
        assert(s@.subrange(from as int, i + 1) =~= s@.subrange(from as int, i as int).push(
            s@[i as int],
        ));
        i = i + 1;
    }
    res
}

/// Appends the characters of `t` to `v`.
pub fn extend_chars(v: &mut Vec<char>, t: &[char])
    ensures
        final(v)@ == old(v)@ + t@,
{
    let ghost v0 = v@;
    let mut i: usize = 0;
    while i < t.len()
        invariant
            i <= t@.len(),
            v@ == v0 + t@.subrange(0, i as int),
        decreases t.len() - i,
    {
        v.push(t[i]);
        assert(t@.subrange(0, i + 1) =~= t@.subrange(0, i as int).push(t@[i as int]));
        i = i + 1;
    }
    assert(t@.subrange(0, t@.len() as int) =~= t@);
}

/// Appends the characters of the literal `t` to `v`.
pub fn extend_str(v: &mut Vec<char>, t: &str)
    ensures
        final(v)@ == old(v)@ + t@,
{
    let tv = chars_of(t);
    extend_chars(v, tv.as_slice());
}

// ---------------------------------------------------------------------------
// Whitespace and trimming
// ---------------------------------------------------------------------------

/// Unicode `White_Space`, the property behind `char::is_whitespace`.
pub open spec fn is_ws(c: char) -> bool {
    ||| ('\u{9}' <= c && c <= '\u{d}')
    ||| c == ' '
    ||| c == '\u{85}'
    ||| c == '\u{a0}'
    ||| c == '\u{1680}'
    ||| ('\u{2000}' <= c && c <= '\u{200a}')
    ||| c == '\u{2028}'
    ||| c == '\u{2029}'
    ||| c == '\u{202f}'
    ||| c == '\u{205f}'
    ||| c == '\u{3000}'
}

/// Whether `c` is Unicode white space.
pub fn is_whitespace(c: char) -> (res: bool)
    ensures
        res == is_ws(c),
{
    ('\u{9}' <= c && c <= '\u{d}') || c == ' ' || c == '\u{85}' || c == '\u{a0}' || c
        == '\u{1680}' || ('\u{2000}' <= c && c <= '\u{200a}') || c == '\u{2028}' || c
        == '\u{2029}' || c == '\u{202f}' || c == '\u{205f}' || c == '\u{3000}'
}

/// Number of leading white-space characters of `s`.
pub open spec fn leading_ws(s: Seq<char>) -> nat
    decreases s.len(),
{
    if s.len() > 0 && is_ws(s[0]) {
        1 + leading_ws(s.drop_first())
    } else {
        0
    }
}

/// Number of trailing white-space characters of `s`.
pub open spec fn trailing_ws(s: Seq<char>) -> nat
    decreases s.len(),
{
    if s.len() > 0 && is_ws(s.last()) {
        1 + trailing_ws(s.drop_last())
    } else {
        0
    }
}

/// `s` without its leading white space (`str::trim_start`).
pub open spec fn trim_start_seq(s: Seq<char>) -> Seq<char> {
    s.subrange(leading_ws(s) as int, s.len() as int)
}

/// `s` without its trailing white space (`str::trim_end`).
pub open spec fn trim_end_seq(s: Seq<char>) -> Seq<char> {
    s.subrange(0, s.len() - trailing_ws(s))
}

/// `s` without leading and trailing white space (`str::trim`).
pub open spec fn trim_seq(s: Seq<char>) -> Seq<char> {
    trim_end_seq(trim_start_seq(s))
}

/// The number of leading white-space characters is bounded by the length, and
/// the characters after them begin with a non-space (if any).
pub proof fn lemma_leading_ws(s: Seq<char>)
    ensures
        leading_ws(s) <= s.len(),
        forall|j: int| 0 <= j < leading_ws(s) ==> is_ws(#[trigger] s[j]),
        leading_ws(s) < s.len() ==> !is_ws(s[leading_ws(s) as int]),
    decreases s.len(),
{
    if s.len() > 0 && is_ws(s[0]) {
        lemma_leading_ws(s.drop_first());
        assert forall|j: int| 0 <= j < leading_ws(s) implies is_ws(#[trigger] s[j]) by {
            if j > 0 {
                assert(s[j] == s.drop_first()[j - 1]);
            }
        }
    }
}

/// Counterpart of `lemma_leading_ws` for the end of the text.
pub proof fn lemma_trailing_ws(s: Seq<char>)
    ensures
        trailing_ws(s) <= s.len(),
        forall|j: int| s.len() - trailing_ws(s) <= j < s.len() ==> is_ws(#[trigger] s[j]),
        trailing_ws(s) < s.len() ==> !is_ws(s[s.len() - trailing_ws(s) - 1]),
    decreases s.len(),
{
    if s.len() > 0 && is_ws(s.last()) {
        lemma_trailing_ws(s.drop_last());
        assert forall|j: int| s.len() - trailing_ws(s) <= j < s.len() implies is_ws(
            #[trigger] s[j],
        ) by {
            if j < s.len() - 1 {
                assert(s[j] == s.drop_last()[j]);
            }
        }
    }
}

proof fn lemma_leading_ws_exact(s: Seq<char>, k: int)
    requires
        0 <= k <= s.len(),
        forall|j: int| 0 <= j < k ==> is_ws(#[trigger] s[j]),
        k < s.len() ==> !is_ws(s[k]),
    ensures
        leading_ws(s) == k,
    decreases s.len(),
{
    if k > 0 {
        assert(is_ws(s[0]));
        let t = s.drop_first();
        assert forall|j: int| 0 <= j < k - 1 implies is_ws(#[trigger] t[j]) by {
            assert(t[j] == s[j + 1]);
        }
        if k - 1 < t.len() {
            assert(t[k - 1] == s[k]);
        }
        lemma_leading_ws_exact(t, k - 1);
    } else {
        if s.len() > 0 {
            assert(!is_ws(s[0]));
        }
    }
}

proof fn lemma_trailing_ws_exact(s: Seq<char>, k: int)
    requires
        0 <= k <= s.len(),
        forall|j: int| s.len() - k <= j < s.len() ==> is_ws(#[trigger] s[j]),
        k < s.len() ==> !is_ws(s[s.len() - k - 1]),
    ensures
        trailing_ws(s) == k,
    decreases s.len(),
{
    if k > 0 {
        assert(is_ws(s[s.len() - 1]));
        let t = s.drop_last();
        assert forall|j: int| t.len() - (k - 1) <= j < t.len() implies is_ws(#[trigger] t[j]) by {
            assert(t[j] == s[j]);
        }
        if k - 1 < t.len() {
            assert(t[t.len() - (k - 1) - 1] == s[s.len() - k - 1]);
        }
        lemma_trailing_ws_exact(t, k - 1);
    } else {
        if s.len() > 0 {
            assert(!is_ws(s[s.len() - 1]));
        }
    }
}

/// Index of the first non-space character of `s` (or its length).
pub fn leading_ws_exec(s: &[char]) -> (res: usize)
    ensures
        res == leading_ws(s@),
{
    let mut i: usize = 0;
    while i < s.len() && is_whitespace(s[i])
        invariant
            i <= s@.len(),
            forall|j: int| 0 <= j < i ==> is_ws(#[trigger] s@[j]),
        decreases s.len() - i,
    {
        i = i + 1;
    }
    proof {
        lemma_leading_ws_exact(s@, i as int);
    }
    i
}

/// Number of trailing white-space characters of `s`.
pub fn trailing_ws_exec(s: &[char]) -> (res: usize)
    ensures
        res == trailing_ws(s@),
{
    let mut k: usize = 0;
    while k < s.len() && is_whitespace(s[s.len() - 1 - k])
        invariant
            k <= s@.len(),
            forall|j: int| s@.len() - k <= j < s@.len() ==> is_ws(#[trigger] s@[j]),
        decreases s.len() - k,
    {
        k = k + 1;
    }
    proof {
        lemma_trailing_ws_exact(s@, k as int);
    }
    k
}

/// `s` with leading and trailing white space removed.
pub fn trim_chars(s: &[char]) -> (res: Vec<char>)
    ensures
        res@ == trim_seq(s@),
{
    let a = leading_ws_exec(s);
    proof {
        lemma_leading_ws(s@);
    }
    let t = slice_chars(s, a, s.len());
    let b = trailing_ws_exec(t.as_slice());
    proof {
        lemma_trailing_ws(t@);
    }
    slice_chars(t.as_slice(), 0, t.len() - b)
}

/// Whether `s` consists of white space only (`s.trim().is_empty()`).
pub fn is_blank(s: &[char]) -> (res: bool)
    ensures
        res == (trim_seq(s@).len() == 0),
{
    let t = trim_chars(s);
    t.len() == 0
}


// ---------------------------------------------------------------------------
// Lines and splitting
// ---------------------------------------------------------------------------

/// Views of a sequence of character vectors.
pub open spec fn views(v: Seq<Vec<char>>) -> Seq<Seq<char>> {
    v.map_values(|l: Vec<char>| l@)
}

/// A line without its trailing carriage return, if it has one.
pub open spec fn strip_cr(l: Seq<char>) -> Seq<char> {
    if l.len() > 0 && l.last() == '\r' {
        l.drop_last()
    } else {
        l
    }
}

/// The lines of `s[start..]`, scanning for line feeds from index `i`.
pub open spec fn lines_from(s: Seq<char>, i: int, start: int) -> Seq<Seq<char>>
    decreases s.len() - i,
{
    if i >= s.len() {
        if start < s.len() {
            seq![s.subrange(start, s.len() as int)]
        } else {
            seq![]
        }
    } else if s[i] == '\n' {
        seq![strip_cr(s.subrange(start, i))] + lines_from(s, i + 1, i + 1)
    } else {
        lines_from(s, i + 1, start)
    }
}

/// The lines of a text, as `str::lines` yields them: split at `\n`, a `\r`
/// directly before a `\n` dropped, and no empty line after a final `\n`.
pub open spec fn lines_of(s: Seq<char>) -> Seq<Seq<char>> {
    lines_from(s, 0, 0)
}

/// Splits a text into its lines.
pub fn split_lines(s: &[char]) -> (res: Vec<Vec<char>>)
    ensures
        views(res@) == lines_of(s@),
{
    let mut res: Vec<Vec<char>> = Vec::new();
    let mut start: usize = 0;
    let mut i: usize = 0;
    while i < s.len()
        invariant
            start <= i <= s@.len(),
            views(res@) + lines_from(s@, i as int, start as int) == lines_of(s@),
        decreases s.len() - i,
    {
        if s[i] == '\n' {
            let mut line = slice_chars(s, start, i);
            if line.len() > 0 && line[line.len() - 1] == '\r' {
                line.pop();
            }
            let ghost old_res = res@;
            res.push(line);
            proof {
                assert(views(res@) =~= views(old_res) + seq![
                    strip_cr(s@.subrange(start as int, i as int)),
                ]);
            }
            i = i + 1;
            start = i;
        } else {
            i = i + 1;
        }
    }
    if start < s.len() {
        let line = slice_chars(s, start, s.len());
        let ghost old_res = res@;
        res.push(line);
        proof {
            assert(views(res@) =~= views(old_res) + seq![s@.subrange(start as int, s@.len() as int)]);
        }
    } else {
        assert(views(res@) =~= views(res@) + lines_from(s@, i as int, start as int));
    }
    res
}

/// The pieces of `s[start..]` separated by `p`, scanning for `p` from `i`.
pub open spec fn split_from(s: Seq<char>, p: Seq<char>, i: int, start: int) -> Seq<Seq<char>>
    decreases s.len() - i,
{
    if p.len() == 0 || i + p.len() > s.len() {
        seq![s.subrange(start, s.len() as int)]
    } else if s.subrange(i, i + p.len()) == p {
        seq![s.subrange(start, i)] + split_from(s, p, i + p.len(), i + p.len())
    } else {
        split_from(s, p, i + 1, start)
    }
}

/// The pieces of `s` separated by the non-overlapping, leftmost occurrences
/// of `p`, as `str::split` with a string pattern yields them.
pub open spec fn split_seq(s: Seq<char>, p: Seq<char>) -> Seq<Seq<char>> {
    split_from(s, p, 0, 0)
}

/// Splits `s` at every non-overlapping occurrence of the non-empty `p`.
pub fn split_chars(s: &[char], p: &[char]) -> (res: Vec<Vec<char>>)
    requires
        p@.len() > 0,
    ensures
        views(res@) == split_seq(s@, p@),
        res@.len() > 0,
{
    let mut res: Vec<Vec<char>> = Vec::new();
    let mut start: usize = 0;
    let mut i: usize = 0;
    while i < s.len() && p.len() <= s.len() - i
        invariant
            p@.len() > 0,
            start <= i <= s@.len(),
            views(res@) + split_from(s@, p@, i as int, start as int) == split_seq(s@, p@),
        decreases s.len() - i,
    {
        if occurs_at_exec(s, p, i) {
            let piece = slice_chars(s, start, i);
            let ghost old_res = res@;
            res.push(piece);
            proof {
                assert(views(res@) =~= views(old_res) + seq![s@.subrange(start as int, i as int)]);
            }
            i = i + p.len();
            start = i;
        } else {
            i = i + 1;
        }
    }
    let piece = slice_chars(s, start, s.len());
    let ghost old_res = res@;
    res.push(piece);
    proof {
        assert(views(res@) =~= views(old_res) + seq![s@.subrange(start as int, s@.len() as int)]);
    }
    res
}

/// Splits `s` at every occurrence of the literal `p`.
pub fn split_str(s: &[char], p: &str) -> (res: Vec<Vec<char>>)
    requires
        p@.len() > 0,
    ensures
        views(res@) == split_seq(s@, p@),
        res@.len() > 0,
{
    let pv = chars_of(p);
    split_chars(s, pv.as_slice())
}

/// Splits `s` at every occurrence of the character `c`.
pub fn split_char(s: &[char], c: char) -> (res: Vec<Vec<char>>)
    ensures
        views(res@) == split_seq(s@, seq![c]),
        res@.len() > 0,
{
    let mut pv: Vec<char> = Vec::new();
    pv.push(c);
    assert(pv@ =~= seq![c]);
    split_chars(s, pv.as_slice())
}

/// The white-space separated words of `s[..]` from index `i`, where `ts` is
/// the start of the word being read (or negative when between words).
pub open spec fn words_from(s: Seq<char>, i: int, ts: int) -> Seq<Seq<char>>
    decreases s.len() - i,
{
    if i >= s.len() {
        if ts >= 0 {
            seq![s.subrange(ts, s.len() as int)]
        } else {
            seq![]
        }
    } else if is_ws(s[i]) {
        if ts >= 0 {
            seq![s.subrange(ts, i)] + words_from(s, i + 1, -1)
        } else {
            words_from(s, i + 1, -1)
        }
    } else {
        words_from(s, i + 1, if ts >= 0 { ts } else { i })
    }
}

/// The words of `s` as `str::split_whitespace` yields them.
pub open spec fn words_of(s: Seq<char>) -> Seq<Seq<char>> {
    words_from(s, 0, -1)
}

/// Splits `s` into its white-space separated words.
pub fn split_words(s: &[char]) -> (res: Vec<Vec<char>>)
    ensures
        views(res@) == words_of(s@),
{
    let mut res: Vec<Vec<char>> = Vec::new();
    let mut i: usize = 0;
    let mut in_word = false;
    let mut ts: usize = 0;
    while i < s.len()
        invariant
            i <= s@.len(),
            in_word ==> ts < i,
            views(res@) + words_from(s@, i as int, if in_word { ts as int } else { -1 })
                == words_of(s@),
        decreases s.len() - i,
    {
        if is_whitespace(s[i]) {
            if in_word {
                let w = slice_chars(s, ts, i);
                let ghost old_res = res@;
                res.push(w);
                proof {
                    assert(views(res@) =~= views(old_res) + seq![s@.subrange(ts as int, i as int)]);
                }
                in_word = false;
            }
        } else {
            if !in_word {
                in_word = true;
                ts = i;
            }
        }
        i = i + 1;
    }
    if in_word {
        let w = slice_chars(s, ts, s.len());
        let ghost old_res = res@;
        res.push(w);
        proof {
            assert(views(res@) =~= views(old_res) + seq![s@.subrange(ts as int, s@.len() as int)]);
        }
    } else {
        assert(views(res@) =~= views(res@) + words_from(s@, i as int, -1));
    }
    res
}


// ---------------------------------------------------------------------------
// Numbers
// ---------------------------------------------------------------------------

/// The character of a digit value below 16 (lower-case for values above 9).
pub open spec fn digit_char(d: nat) -> char {
    if d < 10 {
        ((d + 48) as u8) as char
    } else {
        ((d + 87) as u8) as char
    }
}

/// Decimal rendering of a natural number, without leading zeros.
pub open spec fn decimal(n: nat) -> Seq<char>
    decreases n,
{
    if n < 10 {
        seq![digit_char(n)]
    } else {
        decimal(n / 10).push(digit_char(n % 10))
    }
}

/// Lower-case hexadecimal rendering of a natural number, without leading zeros.
pub open spec fn hexadecimal(n: nat) -> Seq<char>
    decreases n,
{
    if n < 16 {
        seq![digit_char(n)]
    } else {
        hexadecimal(n / 16).push(digit_char(n % 16))
    }
}

fn digit_to_char(d: u64) -> (c: char)
    requires
        d < 16,
    ensures
        c == digit_char(d as nat),
{
    if d < 10 {
        ((d as u8) + 48u8) as char
    } else {
        ((d as u8) + 87u8) as char
    }
}

/// Decimal digits of `n`.
pub fn decimal_chars(n: u64) -> (res: Vec<char>)
    ensures
        res@ == decimal(n as nat),
    decreases n,
{
    if n < 10 {
        let mut v: Vec<char> = Vec::new();
        v.push(digit_to_char(n));
        assert(v@ =~= seq![digit_char(n as nat)]);
        v
    } else {
        let mut v = decimal_chars(n / 10);
        v.push(digit_to_char(n % 10));
        v
    }
}

/// Lower-case hexadecimal digits of `n`.
pub fn hex_chars(n: u64) -> (res: Vec<char>)
    ensures
        res@ == hexadecimal(n as nat),
    decreases n,
{
    if n < 16 {
        let mut v: Vec<char> = Vec::new();
        v.push(digit_to_char(n));
        assert(v@ =~= seq![digit_char(n as nat)]);
        v
    } else {
        let mut v = hex_chars(n / 16);
        v.push(digit_to_char(n % 16));
        v
    }
}

/// Appends the decimal rendering of `n` to `v`.
pub fn push_decimal(v: &mut Vec<char>, n: usize)
    ensures
        final(v)@ == old(v)@ + decimal(n as nat),
{
    let d = decimal_chars(n as u64);
    extend_chars(v, d.as_slice());
}

/// An ASCII decimal digit.
pub open spec fn is_digit(c: char) -> bool {
    '0' <= c && c <= '9'
}

/// The value of a string of decimal digits.
pub open spec fn digits_value(s: Seq<char>) -> nat
    decreases s.len(),
{
    if s.len() == 0 {
        0
    } else {
        digits_value(s.drop_last()) * 10 + ((s.last() as int - 48) as nat)
    }
}

/// The digits of an unsigned number: the text without one leading `+`.
pub open spec fn unsigned_body(s: Seq<char>) -> Seq<char> {
    if s.len() > 0 && s[0] == '+' {
        s.drop_first()
    } else {
        s
    }
}

/// The value that `str::parse` gives for an unsigned integer type of
/// unbounded width: an optional `+` followed by at least one ASCII digit.
pub open spec fn parse_nat(s: Seq<char>) -> Option<nat> {
    let b = unsigned_body(s);
    if b.len() > 0 && (forall|i: int| 0 <= i < b.len() ==> is_digit(#[trigger] b[i])) {
        Some(digits_value(b))
    } else {
        None
    }
}

/// The value that `str::parse` gives for an unsigned type whose largest value
/// is `max`.
pub open spec fn parse_bounded(s: Seq<char>, max: nat) -> Option<nat> {
    match parse_nat(s) {
        Some(v) => if v <= max {
            Some(v)
        } else {
            None
        },
        None => None,
    }
}

proof fn lemma_digits_value_prefix_mono(b: Seq<char>, k: int)
    requires
        0 <= k <= b.len(),
        forall|i: int| 0 <= i < b.len() ==> is_digit(#[trigger] b[i]),
    ensures
        digits_value(b.take(k)) <= digits_value(b),
    decreases b.len() - k,
{
    if k < b.len() {
        lemma_digits_value_prefix_mono(b, k + 1);
        assert(b.take(k + 1).drop_last() =~= b.take(k));
        assert(b.take(k + 1).last() == b[k]);
        assert(is_digit(b[k]));
    } else {
        assert(b.take(k) =~= b);
    }
}

/// Parses an unsigned decimal integer no larger than `u64::MAX`.
pub fn parse_u64(s: &[char]) -> (res: Option<u64>)
    ensures
        res == (match parse_bounded(s@, u64::MAX as nat) {
            Some(v) => Some(v as u64),
            None => None::<u64>,
        }),
{
    let mut i: usize = 0;
    if s.len() > 0 && s[0] == '+' {
        i = 1;
    }
    let ghost b = unsigned_body(s@);
    assert(b =~= s@.subrange(i as int, s@.len() as int));
    if i >= s.len() {
        return None;
    }
    let mut v: u64 = 0;
    let mut k: usize = i;
    while k < s.len()
        invariant
            i <= k <= s@.len(),
            b == s@.subrange(i as int, s@.len() as int),
            b == unsigned_body(s@),
            forall|j: int| 0 <= j < k - i ==> is_digit(#[trigger] b[j]),
            v as nat == digits_value(b.take(k - i)),
        decreases s.len() - k,
    {
        let c = s[k];
        if !('0' <= c && c <= '9') {
            assert(b[k - i] == c);
            assert(!is_digit(b[k - i]));
            assert(!(forall|j: int| 0 <= j < b.len() ==> is_digit(#[trigger] b[j])));
            assert(parse_nat(s@) is None);
            return None;
        }
        let d = (c as u64) - 48;
        assert(b.take(k - i + 1).drop_last() =~= b.take(k - i));
        assert(b.take(k - i + 1).last() == c);
        if v > (u64::MAX - d) / 10 {
            // The value already exceeds the bound; it only grows with more digits.
            let ghost rest_digits = forall|j: int| 0 <= j < b.len() ==> is_digit(#[trigger] b[j]);
            proof {
                if rest_digits {
                    lemma_digits_value_prefix_mono(b, k - i + 1);
                    assert(digits_value(b.take(k - i + 1)) == v * 10 + d);
                    assert(v * 10 + d > u64::MAX) by (nonlinear_arith)
                        requires v > (u64::MAX - d) / 10, d <= 9;
                    assert(digits_value(b) > u64::MAX);
                    assert(b.len() > 0);
                    assert(parse_nat(s@) == Some(digits_value(b)));
                }
                assert(parse_bounded(s@, u64::MAX as nat) is None);
            }
            return None;
        }
        assert(v * 10 + d <= u64::MAX) by (nonlinear_arith)
            requires v <= (u64::MAX - d) / 10, d <= 9;
        v = v * 10 + d;
        k = k + 1;
    }
    assert(b.take(k - i) =~= b);
    Some(v)
}

/// Parses an unsigned decimal integer into a `usize`.
pub fn parse_usize(s: &[char]) -> (res: Option<usize>)
    ensures
        res == (match parse_bounded(s@, usize::MAX as nat) {
            Some(v) => Some(v as usize),
            None => None::<usize>,
        }),
{
    match parse_u64(s) {
        Some(v) => if v <= usize::MAX as u64 {
            Some(v as usize)
        } else {
            None
        },
        None => {
            None
        },
    }
}

/// Parses an unsigned decimal integer into a `u32`.
pub fn parse_u32(s: &[char]) -> (res: Option<u32>)
    ensures
        res == (match parse_bounded(s@, u32::MAX as nat) {
            Some(v) => Some(v as u32),
            None => None::<u32>,
        }),
{
    match parse_u64(s) {
        Some(v) => if v <= u32::MAX as u64 {
            Some(v as u32)
        } else {
            None
        },
        None => None,
    }
}


/// `s` with every leading repetition of `p` removed (`str::trim_start_matches`).
pub open spec fn strip_prefixes(s: Seq<char>, p: Seq<char>) -> Seq<char>
    decreases s.len(),
{
    if p.len() > 0 && is_prefix_of(p, s) {
        strip_prefixes(s.subrange(p.len() as int, s.len() as int), p)
    } else {
        s
    }
}

/// Removes every leading repetition of `p` from `s`.
pub fn strip_prefixes_chars(s: &[char], p: &[char]) -> (res: Vec<char>)
    ensures
        res@ == strip_prefixes(s@, p@),
{
    let mut i: usize = 0;
    assert(s@.subrange(0, s@.len() as int) =~= s@);
    while p.len() > 0 && occurs_at_exec(s, p, i)
        invariant
            i <= s@.len(),
            strip_prefixes(s@.subrange(i as int, s@.len() as int), p@) == strip_prefixes(s@, p@),
        decreases s.len() - i,
    {
        let ghost t = s@.subrange(i as int, s@.len() as int);
        assert(t.subrange(0, p@.len() as int) =~= s@.subrange(i as int, i + p@.len()));
        assert(t.subrange(p@.len() as int, t.len() as int) =~= s@.subrange(
            i + p@.len(),
            s@.len() as int,
        ));
        i = i + p.len();
    }
    let ghost t = s@.subrange(i as int, s@.len() as int);
    if p.len() > 0 && p.len() <= s.len() - i {
        assert(t.subrange(0, p@.len() as int) =~= s@.subrange(i as int, i + p@.len()));
    }
    slice_chars(s, i, s.len())
}

/// Removes every leading repetition of the literal `p` from `s`.
pub fn strip_prefixes_str(s: &[char], p: &str) -> (res: Vec<char>)
    ensures
        res@ == strip_prefixes(s@, p@),
{
    let pv = chars_of(p);
    strip_prefixes_chars(s, pv.as_slice())
}

/// Removes every leading occurrence of the character `c` from `s`.
pub fn strip_leading_char(s: &[char], c: char) -> (res: Vec<char>)
    ensures
        res@ == strip_prefixes(s@, seq![c]),
{
    let mut pv: Vec<char> = Vec::new();
    pv.push(c);
    assert(pv@ =~= seq![c]);
    strip_prefixes_chars(s, pv.as_slice())
}

/// Builds a `String` from a vector of characters.
pub fn to_string(v: &Vec<char>) -> (s: String)
    ensures
        s@ == v@,
{
    string_from_chars(v.as_slice())
}


/// The views of a sequence of strings.
pub open spec fn string_views(v: Seq<String>) -> Seq<Seq<char>> {
    v.map_values(|s: String| s@)
}

/// The view of an optional string.
pub open spec fn opt_string_view(o: Option<String>) -> Option<Seq<char>> {
    match o {
        Some(s) => Some(s@),
        None => None,
    }
}

/// Whether the string `s` holds exactly the characters of the literal `p`.
pub fn string_eq_str(s: &String, p: &str) -> (res: bool)
    ensures
        res == (s@ == p@),
{
    let v = chars_of(s.as_str());
    chars_eq_str(v.as_slice(), p)
}

/// Copies a string.
pub fn copy_string(s: &String) -> (res: String)
    ensures
        res@ == s@,
{
    s.clone()
}

/// A copy of a vector of strings.
pub fn copy_strings(v: &Vec<String>) -> (res: Vec<String>)
    ensures
        string_views(res@) == string_views(v@),
{
    let mut res: Vec<String> = Vec::new();
    let mut i: usize = 0;
    while i < v.len()
        invariant
            i <= v@.len(),
            string_views(res@) == string_views(v@).take(i as int),
        decreases v.len() - i,
    {
        let ghost before = string_views(res@);
        let t = v[i].clone();
        let ghost tv = t@;
        res.push(t);
        assert(string_views(res@) =~= before.push(tv));
        assert(string_views(v@)[i as int] == tv);
        assert(string_views(res@) =~= string_views(v@).take(i + 1));
        i = i + 1;
    }
    assert(string_views(v@).take(i as int) =~= string_views(v@));
    res
}

/// Whether two strings hold the same characters.
pub fn strs_eq(a: &str, b: &str) -> (res: bool)
    ensures
        res == (a@ == b@),
{
    let av = chars_of(a);
    let bv = chars_of(b);
    chars_eq(av.as_slice(), bv.as_slice())
}

/// The number of non-overlapping occurrences of the non-empty pattern `p`
/// in `s[i..]`, found left to right as `str::matches` finds them.
pub open spec fn count_from(s: Seq<char>, p: Seq<char>, i: int) -> nat
    decreases s.len() - i,
{
    if p.len() == 0 || i < 0 || i + p.len() > s.len() {
        0
    } else if occurs_at(s, p, i) {
        1 + count_from(s, p, i + p.len())
    } else {
        count_from(s, p, i + 1)
    }
}

/// The number of non-overlapping occurrences of `p` in `s`.
pub open spec fn count_matches(s: Seq<char>, p: Seq<char>) -> nat {
    count_from(s, p, 0)
}

/// Counts the non-overlapping occurrences of the non-empty pattern `p` in `s`.
pub fn count_occurrences(s: &[char], p: &[char]) -> (res: usize)
    requires
        p@.len() > 0,
    ensures
        res == count_matches(s@, p@),
{
    let mut i: usize = 0;
    let mut n: usize = 0;
    while i <= s.len() && p.len() <= s.len() - i
        invariant
            p@.len() > 0,
            i <= s@.len(),
            n <= i,
            n + count_from(s@, p@, i as int) == count_matches(s@, p@),
        decreases s.len() - i,
    {
        if occurs_at_exec(s, p, i) {
            n = n + 1;
            i = i + p.len();
        } else {
            i = i + 1;
        }
    }
    assert(count_from(s@, p@, i as int) == 0);
    n
}

/// The result of `str::to_lowercase`: the Unicode lower-case mapping of
/// every character, a function of the text alone.
pub uninterp spec fn lowercase_of(s: Seq<char>) -> Seq<char>;

/// std's `str::to_lowercase`. The contract only ties the result to the
/// argument through `lowercase_of`; the Unicode case mapping is not stated.
#[verifier::external_body]
pub fn to_lowercase(s: &str) -> (res: String)
    ensures
        res@ == lowercase_of(s@),
{
    s.to_lowercase()
}

/// The result of `Path::new(p).extension()` read as UTF-8: the part of the
/// file name after its last `.`, a function of the path text alone.
pub uninterp spec fn path_extension_of(path: Seq<char>) -> Option<Seq<char>>;

/// std's `Path::extension` on the path spelled by `path`. The contract only
/// ties the result to the argument through `path_extension_of`; the rules
/// for file names and dots are not stated.
#[verifier::external_body]
pub fn path_extension(path: &str) -> (res: Option<String>)
    ensures
        opt_string_view(res) == path_extension_of(path@),
{
    std::path::Path::new(path).extension().and_then(|e| e.to_str()).map(|e| e.to_string())
}

/// The result of `Path::new(p).file_stem()` read as UTF-8: the file name
/// without its last extension, a function of the path text alone.
pub uninterp spec fn path_file_stem_of(path: Seq<char>) -> Option<Seq<char>>;

/// std's `Path::file_stem` on the path spelled by `path`. The contract only
/// ties the result to the argument through `path_file_stem_of`; the rules
/// for file names and dots are not stated.
#[verifier::external_body]
pub fn path_file_stem(path: &str) -> (res: Option<String>)
    ensures
        opt_string_view(res) == path_file_stem_of(path@),
{
    std::path::Path::new(path).file_stem().and_then(|n| n.to_str()).map(|n| n.to_string())
}


/// Decimal rendering of an integer, with a leading `-` when negative.
pub open spec fn int_decimal(n: int) -> Seq<char> {
    if n < 0 {
        seq!['-'] + decimal((-n) as nat)
    } else {
        decimal(n as nat)
    }
}

/// Appends the decimal rendering of `n` to `v`.
pub fn push_i32_decimal(v: &mut Vec<char>, n: i32)
    ensures
        final(v)@ == old(v)@ + int_decimal(n as int),
{
    if n < 0 {
        let ghost v0 = v@;
        v.push('-');
        let m: i64 = -(n as i64);
        let d = decimal_chars(m as u64);
        extend_chars(v, d.as_slice());
        assert(v@ =~= v0 + (seq!['-'] + decimal((-n) as nat)));
    } else {
        let d = decimal_chars(n as u64);
        extend_chars(v, d.as_slice());
    }
}

/// Appends the characters of a string to `v`.
pub fn extend_string(v: &mut Vec<char>, t: &String)
    ensures
        final(v)@ == old(v)@ + t@,
{
    let tv = chars_of(t.as_str());
    extend_chars(v, tv.as_slice());
}


/// The length in bytes of the UTF-8 encoding of a text, as `str::len`
/// reports it.
pub open spec fn byte_len(s: Seq<char>) -> usize {
    vstd::utf8::encode_utf8(s).len() as usize
}

/// The length in bytes of a string.
pub fn string_byte_len(s: &String) -> (res: usize)
    ensures
        res == byte_len(s@),
{
    s.as_str().len()
}

/// The length in bytes of a sequence of characters.
pub fn chars_byte_len(v: &[char]) -> (res: usize)
    ensures
        res == byte_len(v@),
{
    let s = string_from_chars(v);
    s.as_str().len()
}


/// Appends the decimal rendering of `n` to the string `s`.
pub fn push_decimal_string(s: &mut String, n: usize)
    ensures
        final(s)@ == old(s)@ + decimal(n as nat),
{
    let d = decimal_chars(n as u64);
    let t = string_from_chars(d.as_slice());
    s.append(t.as_str());
}

/// The parts joined with `sep` between consecutive parts (`[T]::join`).
pub open spec fn join_seqs(parts: Seq<Seq<char>>, sep: Seq<char>) -> Seq<char>
    decreases parts.len(),
{
    if parts.len() == 0 {
        seq![]
    } else if parts.len() == 1 {
        parts[0]
    } else {
        join_seqs(parts.drop_last(), sep) + sep + parts.last()
    }
}

/// Joins the parts with the literal `sep` between consecutive parts.
pub fn join_parts(parts: &Vec<Vec<char>>, sep: &str) -> (res: Vec<char>)
    ensures
        res@ == join_seqs(views(parts@), sep@),
{
    let ghost ps = views(parts@);
    let mut res: Vec<char> = Vec::new();
    let mut i: usize = 0;
    while i < parts.len()
        invariant
            ps == views(parts@),
            i <= parts.len(),
            res@ == join_seqs(ps.take(i as int), sep@),
        decreases parts.len() - i,
    {
        proof {
            assert(ps.take(i + 1).drop_last() =~= ps.take(i as int));
        }
        if i > 0 {
            extend_str(&mut res, sep);
        }
        extend_chars(&mut res, parts[i].as_slice());
        i = i + 1;
    }
    proof {
        assert(ps.take(i as int) =~= ps);
    }
    res
}

/// The first position at or after `k` where `p` occurs in `s`, or -1.
pub open spec fn first_occurrence_from(s: Seq<char>, p: Seq<char>, k: int) -> int
    decreases s.len() + 1 - k,
{
    if k < 0 || k + p.len() > s.len() {
        -1
    } else if occurs_at(s, p, k) {
        k
    } else {
        first_occurrence_from(s, p, k + 1)
    }
}

/// A found occurrence lies inside the text.
pub proof fn lemma_first_occurrence_bounds(s: Seq<char>, p: Seq<char>, k: int)
    ensures
        first_occurrence_from(s, p, k) >= 0 ==> k <= first_occurrence_from(s, p, k)
            && first_occurrence_from(s, p, k) + p.len() <= s.len() && occurs_at(
            s,
            p,
            first_occurrence_from(s, p, k),
        ),
        first_occurrence_from(s, p, k) < 0 ==> first_occurrence_from(s, p, k) == -1,
    decreases s.len() + 1 - k,
{
    if k < 0 || k + p.len() > s.len() {
    } else if occurs_at(s, p, k) {
    } else {
        lemma_first_occurrence_bounds(s, p, k + 1);
    }
}

/// The first occurrence from `k` on is `i` when `p` occurs at `i` and
/// nowhere in between.
pub proof fn lemma_first_occurrence_is(s: Seq<char>, p: Seq<char>, k: int, i: int)
    requires
        0 <= k <= i,
        occurs_at(s, p, i),
        forall|j: int| k <= j < i ==> !occurs_at(s, p, j),
    ensures
        first_occurrence_from(s, p, k) == i,
    decreases i - k,
{
    if k < i {
        lemma_first_occurrence_is(s, p, k + 1, i);
    }
}

/// There is no first occurrence from `k` on when `p` occurs nowhere from
/// `k` on.
pub proof fn lemma_first_occurrence_none(s: Seq<char>, p: Seq<char>, k: int)
    requires
        0 <= k,
        forall|j: int| k <= j ==> !occurs_at(s, p, j),
    ensures
        first_occurrence_from(s, p, k) == -1,
    decreases s.len() + 1 - k,
{
    if k + p.len() <= s.len() {
        lemma_first_occurrence_none(s, p, k + 1);
    }
}

/// The first position where `p` occurs in `s` (`str::find`).
pub fn find_first(s: &[char], p: &[char]) -> (res: Option<usize>)
    ensures
        match res {
            Some(i) => first_occurrence_from(s@, p@, 0) == i as int,
            None => first_occurrence_from(s@, p@, 0) == -1,
        },
{
    let r = find_from(s, p, 0);
    proof {
        match r {
            Some(i) => lemma_first_occurrence_is(s@, p@, 0, i as int),
            None => lemma_first_occurrence_none(s@, p@, 0),
        }
    }
    r
}

} // verus!
