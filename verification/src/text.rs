//! Text primitives over sequences of characters: trimming, searching,
//! splitting into lines and fields, and decimal numbers.
use vstd::prelude::*;

verus! {

broadcast use vstd::string::group_string_axioms;

/// The sequences viewed through a vector of character vectors.
pub open spec fn seqs_of(v: Seq<Vec<char>>) -> Seq<Seq<char>> {
    v.map_values(|x: Vec<char>| x@)
}

// ----------------------------------------------------------------------
// Whitespace and trimming
// ----------------------------------------------------------------------
/// The characters with the Unicode property White_Space.
pub open spec fn is_whitespace(c: char) -> bool {
    ||| ('\u{9}' <= c && c <= '\u{d}')
    ||| c == ' '
    ||| c == '\u{85}'
    ||| c == '\u{a0}'
    ||| c == '\u{1680}'
    ||| ('\u{2000}' <= c && c <= '\u{200a}')
    ||| c == '\u{2028}'
    ||| c == '\u{2029}'
    ||| c == '\u{202f}'
    ||| c == '\u{205f}'
    ||| c == '\u{3000}'
}

/// `s` without its leading whitespace.
pub open spec fn trim_start(s: Seq<char>) -> Seq<char>
    decreases s.len(),
{
    if s.len() > 0 && is_whitespace(s[0]) {
        trim_start(s.drop_first())
    } else {
        s
    }
}

/// `s` without its trailing whitespace.
pub open spec fn trim_end(s: Seq<char>) -> Seq<char>
    decreases s.len(),
{
    if s.len() > 0 && is_whitespace(s.last()) {
        trim_end(s.drop_last())
    } else {
        s
    }
}

/// `s` without leading and trailing whitespace.
pub open spec fn trim(s: Seq<char>) -> Seq<char> {
    trim_end(trim_start(s))
}

pub fn char_is_whitespace(c: char) -> (b: bool)
    ensures
        b == is_whitespace(c),
{
    ('\u{9}' <= c && c <= '\u{d}') || c == ' ' || c == '\u{85}' || c == '\u{a0}' || c == '\u{1680}'
        || ('\u{2000}' <= c && c <= '\u{200a}') || c == '\u{2028}' || c == '\u{2029}' || c
        == '\u{202f}' || c == '\u{205f}' || c == '\u{3000}'
}

// ----------------------------------------------------------------------
// Conversions between strings and character vectors
// ----------------------------------------------------------------------
/// The characters of `s`, in order.
pub fn chars_of(s: &str) -> (out: Vec<char>)
    ensures
        out@ == s@,
{
    let mut out: Vec<char> = Vec::new();
    for c in it: s.chars()
        invariant
            out@ == it.seq().take(it.index() as int),
    {
        out.push(c);
    }
    out
}

/// The string made of `chars`, through std's `FromIterator<&char>` for `String`,
/// which collects the characters in the order the iterator yields them.
#[verifier::external_body]
pub(crate) fn string_of(chars: &[char]) -> (s: String)
    ensures
        s@ == chars@,
{
    chars.iter().collect()
}

/// The characters of `s` from `lo` up to `hi`.
pub fn slice_chars(s: &[char], lo: usize, hi: usize) -> (out: Vec<char>)
    requires
        lo <= hi <= s@.len(),
    ensures
        out@ == s@.subrange(lo as int, hi as int),
{
    let mut out: Vec<char> = Vec::new();
    let mut i = lo;
    while i < hi
        invariant
            lo <= i <= hi <= s@.len(),
            out@ == s@.subrange(lo as int, i as int),
        decreases hi - i,
    {
        out.push(s[i]);
        i += 1;
    }
    out
}

/// Appends the characters of `s` from `lo` up to `hi` to `out`.
pub fn push_range(out: &mut Vec<char>, s: &[char], lo: usize, hi: usize)
    requires
        lo <= hi <= s@.len(),
    ensures
        final(out)@ == old(out)@ + s@.subrange(lo as int, hi as int),
{
    let ghost start = out@;
    let mut i = lo;
    while i < hi
        invariant
            lo <= i <= hi <= s@.len(),
            out@ == start + s@.subrange(lo as int, i as int),
        decreases hi - i,
    {
        out.push(s[i]);
        i += 1;
    }
}

/// Appends all of `s` to `out`.
pub fn push_all(out: &mut Vec<char>, s: &[char])
    ensures
        final(out)@ == old(out)@ + s@,
{
    push_range(out, s, 0, s.len());
    assert(s@.subrange(0, s@.len() as int) =~= s@);
}

/// Appends the characters of `s` to `out`.
pub fn push_str(out: &mut Vec<char>, s: &str)
    ensures
        final(out)@ == old(out)@ + s@,
{
    let cs = chars_of(s);
    push_all(out, cs.as_slice());
}

/// `s` without leading and trailing whitespace.
pub fn trim_chars(s: &[char]) -> (t: Vec<char>)
    ensures
        t@ == trim(s@),
{
    let n = s.len();
    let mut lo: usize = 0;
    assert(s@.skip(0) =~= s@);
    while lo < n && char_is_whitespace(s[lo])
        invariant
            lo <= n,
            n == s@.len(),
            trim_start(s@) == trim_start(s@.skip(lo as int)),
        decreases n - lo,
    {
        assert(s@.skip(lo as int).drop_first() =~= s@.skip(lo + 1));
        lo += 1;
    }
    assert(trim_start(s@.skip(lo as int)) == s@.skip(lo as int));
    assert(s@.skip(lo as int) =~= s@.subrange(lo as int, n as int));
    let mut hi: usize = n;
    while hi > lo && char_is_whitespace(s[hi - 1])
        invariant
            lo <= hi <= n,
            n == s@.len(),
            trim(s@) == trim_end(s@.subrange(lo as int, hi as int)),
        decreases hi,
    {
        assert(s@.subrange(lo as int, hi as int).drop_last() =~= s@.subrange(
            lo as int,
            hi - 1,
        ));
        hi -= 1;
    }
    slice_chars(s, lo, hi)
}

/// `s` without leading and trailing whitespace, as `str::trim` gives it.
pub fn trim_str(s: &str) -> (t: String)
    ensures
        t@ == trim(s@),
{
    let cs = chars_of(s);
    let t = trim_chars(cs.as_slice());
    string_of(t.as_slice())
}

/// Whether `a` and `b` hold the same characters.
pub fn chars_eq(a: &[char], b: &[char]) -> (r: bool)
    ensures
        r == (a@ == b@),
{
    if a.len() != b.len() {
        return false;
    }
    let n = a.len();
    let mut i: usize = 0;
    while i < n
        invariant
            i <= n,
            n == a@.len(),
            n == b@.len(),
            forall|k: int| 0 <= k < i ==> a@[k] == b@[k],
        decreases n - i,
    {
        if a[i] != b[i] {
            return false;
        }
        i += 1;
    }
    assert(a@ =~= b@);
    true
}

// ----------------------------------------------------------------------
// Searching
// ----------------------------------------------------------------------
/// The index of the first `c` in `s`.
pub open spec fn find_char(s: Seq<char>, c: char) -> Option<int>
    decreases s.len(),
{
    if s.len() == 0 {
        None
    } else if s[0] == c {
        Some(0)
    } else {
        match find_char(s.drop_first(), c) {
            Some(i) => Some(i + 1),
            None => None,
        }
    }
}

/// What `find_char` gives: the first index holding `c`, or none where `c` is absent.
pub proof fn lemma_find_char(s: Seq<char>, c: char)
    ensures
        match find_char(s, c) {
            Some(i) => 0 <= i < s.len() && s[i] == c && forall|j: int| 0 <= j < i ==> s[j] != c,
            None => forall|j: int| 0 <= j < s.len() ==> s[j] != c,
        },
    decreases s.len(),
{
    if s.len() > 0 {
        lemma_find_char(s.drop_first(), c);
        if s[0] != c {
            match find_char(s.drop_first(), c) {
                Some(i) => {
                    assert forall|j: int| 0 <= j < i + 1 implies s[j] != c by {
                        if j > 0 {
                            assert(s[j] == s.drop_first()[j - 1]);
                        }
                    }
                },
                None => {
                    assert forall|j: int| 0 <= j < s.len() implies s[j] != c by {
                        if j > 0 {
                            assert(s[j] == s.drop_first()[j - 1]);
                        }
                    }
                },
            }
        }
    }
}

/// The index of the first `c` in `s` at or after `from`.
pub fn find_char_from(s: &[char], c: char, from: usize) -> (r: Option<usize>)
    requires
        from <= s@.len(),
    ensures
        match r {
            Some(i) => from <= i < s@.len() && find_char(s@.skip(from as int), c) == Some(
                i - from,
            ),
            None => find_char(s@.skip(from as int), c) is None,
        },
{
    let n = s.len();
    let mut i = from;
    proof {
        lemma_find_char(s@.skip(from as int), c);
    }
    while i < n
        invariant
            from <= i <= n,
            n == s@.len(),
            forall|j: int| from <= j < i ==> s@[j] != c,
        decreases n - i,
    {
        if s[i] == c {
            proof {
                let t = s@.skip(from as int);
                assert(t[i - from] == c);
                assert forall|j: int| 0 <= j < i - from implies t[j] != c by {
                    assert(t[j] == s@[from + j]);
                }
                lemma_find_char(t, c);
            }
            return Some(i);
        }
        i += 1;
    }
    None
}

/// `p` occurs in `s` at index `i`.
pub open spec fn matches_at(s: Seq<char>, p: Seq<char>, i: int) -> bool {
    &&& 0 <= i
    &&& i + p.len() <= s.len()
    &&& forall|k: int| 0 <= k < p.len() ==> s[i + k] == p[k]
}

/// The index of the first occurrence of `p` in `s`.
pub open spec fn find_seq(s: Seq<char>, p: Seq<char>) -> Option<int>
    decreases s.len(),
{
    if matches_at(s, p, 0) {
        Some(0)
    } else if s.len() == 0 {
        None
    } else {
        match find_seq(s.drop_first(), p) {
            Some(i) => Some(i + 1),
            None => None,
        }
    }
}

/// What `find_seq` gives: the first index where `p` occurs, or none where it never does.
pub proof fn lemma_find_seq(s: Seq<char>, p: Seq<char>)
    ensures
        match find_seq(s, p) {
            Some(i) => matches_at(s, p, i) && forall|j: int| 0 <= j < i ==> !matches_at(s, p, j),
            None => forall|j: int| 0 <= j ==> !matches_at(s, p, j),
        },
    decreases s.len(),
{
    if !matches_at(s, p, 0) && s.len() > 0 {
        lemma_find_seq(s.drop_first(), p);
        let t = s.drop_first();
        assert forall|j: int| 0 <= j implies (matches_at(s, p, j + 1) == matches_at(t, p, j)) by {
            if matches_at(t, p, j) {
                assert forall|k: int| 0 <= k < p.len() implies s[j + 1 + k] == p[k] by {
                    assert(t[j + k] == p[k]);
                }
            }
        }
        match find_seq(t, p) {
            Some(i) => {
                assert forall|j: int| 0 <= j < i + 1 implies !matches_at(s, p, j) by {
                    if j > 0 {
                        assert(matches_at(s, p, (j - 1) + 1) == matches_at(t, p, j - 1));
                    }
                }
                assert(matches_at(s, p, i + 1) == matches_at(t, p, i));
            },
            None => {
                assert forall|j: int| 0 <= j implies !matches_at(s, p, j) by {
                    if j > 0 {
                        assert(matches_at(s, p, (j - 1) + 1) == matches_at(t, p, j - 1));
                    }
                }
            },
        }
    } else if !matches_at(s, p, 0) {
        assert forall|j: int| 0 <= j implies !matches_at(s, p, j) by {
            if j > 0 && matches_at(s, p, j) {
                assert(j + p.len() <= s.len());
            }
        }
    }
}

/// The first occurrence of `p` is what `find_seq` finds.
pub proof fn lemma_find_seq_first(s: Seq<char>, p: Seq<char>, i: int)
    requires
        matches_at(s, p, i),
        forall|j: int| 0 <= j < i ==> !matches_at(s, p, j),
    ensures
        find_seq(s, p) == Some(i),
{
    lemma_find_seq(s, p);
}

/// The first occurrence of `c` is what `find_char` finds.
pub proof fn lemma_find_char_first(s: Seq<char>, c: char, i: int)
    requires
        0 <= i < s.len(),
        s[i] == c,
        forall|j: int| 0 <= j < i ==> s[j] != c,
    ensures
        find_char(s, c) == Some(i),
{
    lemma_find_char(s, c);
}

/// `p` occurs in `s` at index `i`: checked character by character.
pub fn occurs_at(s: &[char], p: &[char], i: usize) -> (b: bool)
    ensures
        b == matches_at(s@, p@, i as int),
{
    if i > s.len() || p.len() > s.len() - i {
        return false;
    }
    let mut k: usize = 0;
    let m = p.len();
    let n = s.len();
    while k < m
        invariant
            m == p@.len(),
            n == s@.len(),
            k <= m,
            i + m <= s@.len(),
            forall|m: int| 0 <= m < k ==> s@[i + m] == p@[m],
        decreases p@.len() - k,
    {
        if s[i + k] != p[k] {
            return false;
        }
        k += 1;
    }
    true
}

/// The index of the first occurrence of `p` in `s` at or after `from`.
pub fn find_seq_from(s: &[char], p: &[char], from: usize) -> (r: Option<usize>)
    requires
        from <= s@.len(),
    ensures
        match r {
            Some(i) => from <= i && i + p@.len() <= s@.len() && find_seq(
                s@.skip(from as int),
                p@,
            ) == Some(i - from),
            None => find_seq(s@.skip(from as int), p@) is None,
        },
{
    let n = s.len();
    let ghost t = s@.skip(from as int);
    proof {
        lemma_find_seq(t, p@);
        assert forall|j: int| 0 <= j implies matches_at(t, p@, j) == matches_at(
            s@,
            p@,
            from + j,
        ) by {
            if matches_at(s@, p@, from + j) {
                assert forall|k: int| 0 <= k < p@.len() implies t[j + k] == p@[k] by {
                    assert(s@[from + j + k] == p@[k]);
                }
            }
        }
    }
    let mut i = from;
    while i < n
        invariant
            from <= i <= n,
            n == s@.len(),
            t == s@.skip(from as int),
            forall|j: int| 0 <= j ==> matches_at(t, p@, j) == matches_at(s@, p@, from + j),
            forall|j: int| from <= j < i ==> !matches_at(s@, p@, j),
        decreases n - i,
    {
        if occurs_at(s, p, i) {
            proof {
                assert(matches_at(t, p@, i - from) == matches_at(s@, p@, from + (i - from)));
                assert forall|j: int| 0 <= j < i - from implies !matches_at(t, p@, j) by {
                    assert(matches_at(t, p@, j) == matches_at(s@, p@, from + j));
                }
                lemma_find_seq(t, p@);
            }
            return Some(i);
        }
        i += 1;
    }
    if occurs_at(s, p, n) {
        proof {
            assert(matches_at(t, p@, n - from) == matches_at(s@, p@, from + (n - from)));
            assert forall|j: int| 0 <= j < n - from implies !matches_at(t, p@, j) by {
                assert(matches_at(t, p@, j) == matches_at(s@, p@, from + j));
            }
            lemma_find_seq(t, p@);
        }
        return Some(n);
    }
    proof {
        assert forall|j: int| 0 <= j implies !matches_at(t, p@, j) by {
            assert(matches_at(t, p@, j) == matches_at(s@, p@, from + j));
            if from + j > n {
                assert(!matches_at(s@, p@, from + j));
            }
        }
        lemma_find_seq(t, p@);
    }
    None
}

// ----------------------------------------------------------------------
// Splitting
// ----------------------------------------------------------------------
/// The fields of `s` between occurrences of `c`, as `str::split` with a
/// character pattern yields them (empty fields included).
pub open spec fn split(s: Seq<char>, c: char) -> Seq<Seq<char>>
    decreases s.len(),
{
    match find_char(s, c) {
        None => seq![s],
        Some(i) => {
            proof {
                lemma_find_char(s, c);
            }
            seq![s.take(i)] + split(s.skip(i + 1), c)
        },
    }
}

/// `s` without one trailing carriage return.
pub open spec fn strip_cr(s: Seq<char>) -> Seq<char> {
    if s.len() > 0 && s.last() == '\r' {
        s.drop_last()
    } else {
        s
    }
}

/// The lines of `s`, as `str::lines` yields them: split at each line feed, a
/// carriage return just before a line feed dropped, and no empty line after a
/// final line feed.
pub open spec fn lines(s: Seq<char>) -> Seq<Seq<char>>
    decreases s.len(),
{
    if s.len() == 0 {
        seq![]
    } else {
        match find_char(s, '\n') {
            None => seq![s],
            Some(i) => {
                proof {
                    lemma_find_char(s, '\n');
                }
                seq![strip_cr(s.take(i))] + lines(s.skip(i + 1))
            },
        }
    }
}

/// The fields of `s` between occurrences of `c`.
pub fn split_chars(s: &[char], c: char) -> (parts: Vec<Vec<char>>)
    ensures
        seqs_of(parts@) == split(s@, c),
{
    let n = s.len();
    let mut parts: Vec<Vec<char>> = Vec::new();
    let mut i: usize = 0;
    assert(s@.skip(0) =~= s@);
    loop
        invariant
            i <= n,
            n == s@.len(),
            split(s@, c) == seqs_of(parts@) + split(s@.skip(i as int), c),
        decreases n - i,
    {
        let ghost t = s@.skip(i as int);
        match find_char_from(s, c, i) {
            Some(j) => {
                let piece = slice_chars(s, i, j);
                assert(t.take(j - i) =~= piece@);
                assert(t.skip(j - i + 1) =~= s@.skip(j + 1));
                assert(seqs_of(parts@.push(piece)) =~= seqs_of(parts@).push(piece@));
                parts.push(piece);
                i = j + 1;
            },
            None => {
                let piece = slice_chars(s, i, n);
                assert(t =~= piece@);
                assert(seqs_of(parts@.push(piece)) =~= seqs_of(parts@).push(piece@));
                parts.push(piece);
                assert(split(s@, c) =~= seqs_of(parts@));
                return parts;
            },
        }
    }
}

/// The lines of `s`.
pub fn lines_of(s: &[char]) -> (out: Vec<Vec<char>>)
    ensures
        seqs_of(out@) == lines(s@),
{
    let n = s.len();
    let mut out: Vec<Vec<char>> = Vec::new();
    let mut i: usize = 0;
    assert(s@.skip(0) =~= s@);
    loop
        invariant
            i <= n,
            n == s@.len(),
            lines(s@) == seqs_of(out@) + lines(s@.skip(i as int)),
        decreases n - i,
    {
        let ghost t = s@.skip(i as int);
        if i == n {
            assert(t.len() == 0);
            assert(lines(s@) =~= seqs_of(out@));
            return out;
        }
        match find_char_from(s, '\n', i) {
            Some(j) => {
                let end = if j > i && s[j - 1] == '\r' {
                    j - 1
                } else {
                    j
                };
                let piece = slice_chars(s, i, end);
                assert(strip_cr(t.take(j - i)) =~= piece@);
                assert(t.skip(j - i + 1) =~= s@.skip(j + 1));
                assert(seqs_of(out@.push(piece)) =~= seqs_of(out@).push(piece@));
                out.push(piece);
                i = j + 1;
            },
            None => {
                let piece = slice_chars(s, i, n);
                assert(t =~= piece@);
                assert(seqs_of(out@.push(piece)) =~= seqs_of(out@).push(piece@));
                out.push(piece);
                assert(lines(s@) =~= seqs_of(out@));
                return out;
            },
        }
    }
}

} // verus!
