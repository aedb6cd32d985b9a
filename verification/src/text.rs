//! Character-level views of strings: their characters, blankness, and
//! substring search.

use vstd::prelude::*;

verus! {

broadcast use vstd::string::group_string_axioms;

/// Whether `c` has the Unicode `White_Space` property (the property that
/// `char::is_whitespace` tests): the controls U+0009 to U+000D, the space
/// U+0020, U+0085, the no-break space U+00A0, U+1680, the spaces U+2000 to
/// U+200A, the separators U+2028 and U+2029, U+202F, U+205F and U+3000.
pub open spec fn white_space(c: char) -> bool {
    ||| ('\u{9}' <= c && c <= '\u{d}')
    ||| c == ' '
    ||| c == '\u{85}'
    ||| c == '\u{a0}'
    ||| c == '\u{1680}'
    ||| ('\u{2000}' <= c && c <= '\u{200a}')
    ||| c == '\u{2028}'
    ||| c == '\u{2029}'
    ||| c == '\u{202f}'
    ||| c == '\u{205f}'
    ||| c == '\u{3000}'
}

/// Whether `c` has the Unicode `White_Space` property.
fn char_is_whitespace(c: char) -> (r: bool)
    ensures r == white_space(c),
{
    ('\u{9}' <= c && c <= '\u{d}') || c == ' ' || c == '\u{85}' || c == '\u{a0}'
        || c == '\u{1680}' || ('\u{2000}' <= c && c <= '\u{200a}') || c == '\u{2028}'
        || c == '\u{2029}' || c == '\u{202f}' || c == '\u{205f}' || c == '\u{3000}'
}

/// The characters of `s`, in order.
pub fn str_chars(s: &str) -> (v: Vec<char>)
    ensures v@ == s@,
{
    let ghost all: Seq<char> = s@;
    let mut v: Vec<char> = Vec::new();
    for c in it: s.chars()
        invariant
            it.seq() == all,
            v@.len() == it.index(),
            v@ == all.take(v@.len() as int),
    {
        v.push(c);
    }
    assert(all.take(all.len() as int) == all);
    v
}

/// Every character of `s` is white space (so `s` trims to nothing).
pub open spec fn is_blank(s: Seq<char>) -> bool {
    forall|i: int| 0 <= i < s.len() ==> white_space(#[trigger] s[i])
}

/// Whether every character of `s` is white space.
pub fn blank(s: &Vec<char>) -> (r: bool)
    ensures r == is_blank(s@),
{
    let n = s.len();
    let mut i: usize = 0;
    while i < n
        invariant
            n == s@.len(),
            i <= n,
            forall|j: int| 0 <= j < i ==> white_space(#[trigger] s@[j]),
        decreases n - i,
    {
        if !char_is_whitespace(s[i]) {
            return false;
        }
        i = i + 1;
    }
    true
}

/// `pattern` occurs in `s` at position `i`.
pub open spec fn occurs_at(s: Seq<char>, pattern: Seq<char>, i: int) -> bool {
    0 <= i && i + pattern.len() <= s.len() && s.subrange(i, i + pattern.len()) == pattern
}

/// `pattern` occurs somewhere in `s`.
pub open spec fn contains_seq(s: Seq<char>, pattern: Seq<char>) -> bool {
    exists|i: int| occurs_at(s, pattern, i)
}

/// Whether `pattern` occurs at position `i` of `s`.
fn matches_at(s: &Vec<char>, pattern: &Vec<char>, i: usize) -> (r: bool)
    requires i + pattern@.len() <= s@.len(),
    ensures r == occurs_at(s@, pattern@, i as int),
{
    let m = pattern.len();
    let n = s.len();
    let mut j: usize = 0;
    while j < m
        invariant
            m == pattern@.len(),
            n == s@.len(),
            i + m <= s@.len(),
            j <= m,
            forall|k: int| 0 <= k < j ==> s@[i + k] == pattern@[k],
        decreases m - j,
    {
        if s[i + j] != pattern[j] {
            assert(s@.subrange(i as int, i + m)[j as int] != pattern@[j as int]);
            return false;
        }
        j = j + 1;
    }
    assert(s@.subrange(i as int, i + m) =~= pattern@);
    true
}

/// Whether `pattern` occurs somewhere in `s`.
pub fn contains(s: &Vec<char>, pattern: &Vec<char>) -> (r: bool)
    ensures r == contains_seq(s@, pattern@),
{
    let n = s.len();
    let m = pattern.len();
    if m > n {
        assert forall|i: int| !occurs_at(s@, pattern@, i) by {}
        return false;
    }
    if m == 0 {
        assert(s@.subrange(0, 0) =~= pattern@);
        assert(occurs_at(s@, pattern@, 0));
        return true;
    }
    let mut i: usize = 0;
    while i <= n - m
        invariant
            n == s@.len(),
            m == pattern@.len(),
            1 <= m <= n,
            i <= n - m + 1,
            forall|k: int| 0 <= k < i ==> !occurs_at(s@, pattern@, k),
        decreases n - i,
    {
        if matches_at(s, pattern, i) {
            return true;
        }
        i = i + 1;
    }
    assert forall|k: int| !occurs_at(s@, pattern@, k) by {
        if 0 <= k && k + m <= n {
            assert(k < i);
        }
    }
    false
}

/// The lowercase hexadecimal digit of `n`, for `n < 16`.
pub open spec fn hex_digit(n: int) -> char {
    seq!['0', '1', '2', '3', '4', '5', '6', '7', '8', '9', 'a', 'b', 'c', 'd', 'e', 'f'][n]
}

/// The bytes of `s` as two lowercase hexadecimal digits each, separated by
/// single spaces.
pub open spec fn hex_line_of(s: Seq<u8>) -> Seq<char>
    decreases s.len(),
{
    if s.len() == 0 {
        Seq::empty()
    } else {
        let b = s.last();
        let digits = seq![hex_digit((b / 16) as int), hex_digit((b % 16) as int)];
        if s.len() == 1 {
            digits
        } else {
            hex_line_of(s.drop_last()) + seq![' '] + digits
        }
    }
}

/// The line of `s` has three characters per byte but the last, which has two:
/// byte `i` is written at `3 * i` as its high then its low half, each as the
/// lowercase digit of that value (`'0'` to `'9'`, then `'a'` to `'f'`), and a
/// space follows every byte but the last.
pub proof fn lemma_hex_line_layout(s: Seq<u8>, i: int)
    ensures
        s.len() > 0 ==> hex_line_of(s).len() == 3 * s.len() - 1,
        0 <= i < s.len() ==> {
            let hi = s[i] / 16;
            let lo = s[i] % 16;
            &&& hex_line_of(s)[3 * i] as int == if hi < 10 { 48 + hi } else { 87 + hi }
            &&& hex_line_of(s)[3 * i + 1] as int == if lo < 10 { 48 + lo } else { 87 + lo }
            &&& i + 1 < s.len() ==> hex_line_of(s)[3 * i + 2] == ' '
        },
    decreases s.len(),
{
    if s.len() > 1 {
        lemma_hex_line_layout(s.drop_last(), i);
        lemma_hex_line_layout(s.drop_last(), 0);
    }
    if 0 <= i < s.len() {
        let hi = s[i] / 16;
        let lo = s[i] % 16;
        assert(seq!['0', '1', '2', '3', '4', '5', '6', '7', '8', '9', 'a', 'b', 'c', 'd', 'e', 'f'][hi as int] as int
            == if hi < 10 { 48 + hi } else { 87 + hi });
        assert(seq!['0', '1', '2', '3', '4', '5', '6', '7', '8', '9', 'a', 'b', 'c', 'd', 'e', 'f'][lo as int] as int
            == if lo < 10 { 48 + lo } else { 87 + lo });
    }
}

/// The bytes of `bytes` as two lowercase hexadecimal digits each, separated
/// by single spaces.
pub fn hex_line(bytes: &[u8]) -> (r: Vec<char>)
    ensures r@ == hex_line_of(bytes@),
{
    let digits: [char; 16] = [
        '0', '1', '2', '3', '4', '5', '6', '7', '8', '9', 'a', 'b', 'c', 'd', 'e', 'f',
    ];
    assert(digits@ == seq!['0', '1', '2', '3', '4', '5', '6', '7', '8', '9', 'a', 'b', 'c', 'd', 'e', 'f']);
    let mut r: Vec<char> = Vec::new();
    let n = bytes.len();
    let mut i: usize = 0;
    while i < n
        invariant
            n == bytes@.len(),
            i <= n,
            digits@ == seq!['0', '1', '2', '3', '4', '5', '6', '7', '8', '9', 'a', 'b', 'c', 'd', 'e', 'f'],
            r@ == hex_line_of(bytes@.take(i as int)),
        decreases n - i,
    {
        let b: u8 = bytes[i];
        if i > 0 {
            r.push(' ');
        }
        r.push(digits[(b / 16) as usize]);
        r.push(digits[(b % 16) as usize]);
        assert(bytes@.take(i + 1).drop_last() == bytes@.take(i as int));
        assert(bytes@.take(i + 1).last() == b);
        i = i + 1;
    }
    assert(bytes@.take(n as int) == bytes@);
    r
}

} // verus!
