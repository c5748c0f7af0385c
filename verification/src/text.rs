//! Sequences of characters: classes, runs, search and trimming.

use crate::chars::{char_is_numeric, is_numeric, string_from_chars};
use vstd::prelude::*;
use vstd::slice::slice_subrange;

verus! {

/// The classes of characters that the grammar tells apart.
#[derive(Clone, Copy, Debug, PartialEq, Eq, Structural)]
pub enum CharClass {
    /// Space, tab, carriage return, line feed.
    Blank,
    /// Space and tab.
    Inline,
    /// Every character with the Unicode property White_Space.
    Whitespace,
    /// The numeric characters.
    Numeric,
    /// The character `#`.
    Hash,
    /// Everything but carriage return and line feed.
    LineText,
    /// Everything but whitespace and `)`.
    UrlText,
    /// Everything but line feed.
    NoFeed,
}

/// The characters with the Unicode property White_Space.
pub open spec fn is_whitespace(c: char) -> bool {
    ||| ('\u{9}' <= c && c <= '\u{D}')
    ||| c == ' '
    ||| c == '\u{85}'
    ||| c == '\u{A0}'
    ||| c == '\u{1680}'
    ||| ('\u{2000}' <= c && c <= '\u{200A}')
    ||| c == '\u{2028}'
    ||| c == '\u{2029}'
    ||| c == '\u{202F}'
    ||| c == '\u{205F}'
    ||| c == '\u{3000}'
}

/// Whether `c` belongs to the class `k`.
pub open spec fn member(k: CharClass, c: char) -> bool {
    match k {
        CharClass::Blank => c == ' ' || c == '\t' || c == '\r' || c == '\n',
        CharClass::Inline => c == ' ' || c == '\t',
        CharClass::Whitespace => is_whitespace(c),
        CharClass::Numeric => char_is_numeric(c),
        CharClass::Hash => c == '#',
        CharClass::LineText => c != '\r' && c != '\n',
        CharClass::UrlText => !is_whitespace(c) && c != ')',
        CharClass::NoFeed => c != '\n',
    }
}

/// Decides `member(k, c)`.
pub fn in_class(k: CharClass, c: char) -> (r: bool)
    ensures
        r == member(k, c),
{
    match k {
        CharClass::Blank => c == ' ' || c == '\t' || c == '\r' || c == '\n',
        CharClass::Inline => c == ' ' || c == '\t',
        CharClass::Whitespace => white(c),
        CharClass::Numeric => is_numeric(c),
        CharClass::Hash => c == '#',
        CharClass::LineText => c != '\r' && c != '\n',
        CharClass::UrlText => !white(c) && c != ')',
        CharClass::NoFeed => c != '\n',
    }
}

/// Decides `is_whitespace(c)`.
pub fn white(c: char) -> (r: bool)
    ensures
        r == is_whitespace(c),
{
    ('\u{9}' <= c && c <= '\u{D}') || c == ' ' || c == '\u{85}' || c == '\u{A0}' || c
        == '\u{1680}' || ('\u{2000}' <= c && c <= '\u{200A}') || c == '\u{2028}' || c
        == '\u{2029}' || c == '\u{202F}' || c == '\u{205F}' || c == '\u{3000}'
}

/// Where the run of characters of class `k` that starts at `i` ends, looking
/// no further than `hi`: the first position from `i` on that is `hi` or holds
/// a character outside `k`.
pub open spec fn run_end(s: Seq<char>, i: int, hi: int, k: CharClass) -> int
    decreases hi - i,
{
    if 0 <= i < hi <= s.len() && member(k, s[i]) {
        run_end(s, i + 1, hi, k)
    } else {
        i
    }
}

/// `run_end` names the one position that closes the run.
pub proof fn lemma_run_end(s: Seq<char>, i: int, hi: int, k: CharClass)
    requires
        0 <= i <= hi <= s.len(),
    ensures
        i <= run_end(s, i, hi, k) <= hi,
        forall|j: int| i <= j < run_end(s, i, hi, k) ==> member(k, #[trigger] s[j]),
        run_end(s, i, hi, k) < hi ==> !member(k, s[run_end(s, i, hi, k)]),
    decreases hi - i,
{
    if i < hi && member(k, s[i]) {
        lemma_run_end(s, i + 1, hi, k);
    }
}

/// Walks over the run of class `k` from `i`, no further than `hi`.
pub fn skip_run(s: &[char], i: usize, hi: usize, k: CharClass) -> (r: usize)
    requires
        i <= hi <= s@.len(),
    ensures
        r == run_end(s@, i as int, hi as int, k),
        i <= r <= hi,
{
    let mut j: usize = i;
    while j < hi && in_class(k, s[j])
        invariant
            i <= j <= hi <= s@.len(),
            run_end(s@, i as int, hi as int, k) == run_end(s@, j as int, hi as int, k),
        decreases hi - j,
    {
        j = j + 1;
    }
    proof {
        lemma_run_end(s@, i as int, hi as int, k);
    }
    j
}

/// Where the run of class `k` that ends at `hi` begins, looking no further
/// back than `lo`.
pub open spec fn run_start(s: Seq<char>, lo: int, hi: int, k: CharClass) -> int
    decreases hi - lo,
{
    if 0 <= lo < hi <= s.len() && member(k, s[hi - 1]) {
        run_start(s, lo, hi - 1, k)
    } else {
        hi
    }
}

/// `run_start` stays between its bounds.
pub proof fn lemma_run_start(s: Seq<char>, lo: int, hi: int, k: CharClass)
    requires
        0 <= lo <= hi <= s.len(),
    ensures
        lo <= run_start(s, lo, hi, k) <= hi,
        forall|j: int| run_start(s, lo, hi, k) <= j < hi ==> member(k, #[trigger] s[j]),
        lo < run_start(s, lo, hi, k) ==> !member(k, s[run_start(s, lo, hi, k) - 1]),
    decreases hi - lo,
{
    if lo < hi && member(k, s[hi - 1]) {
        lemma_run_start(s, lo, hi - 1, k);
    }
}

/// Walks back over the run of class `k` that ends at `hi`, no further than `lo`.
pub fn skip_run_back(s: &[char], lo: usize, hi: usize, k: CharClass) -> (r: usize)
    requires
        lo <= hi <= s@.len(),
    ensures
        r == run_start(s@, lo as int, hi as int, k),
        lo <= r <= hi,
{
    let mut j: usize = hi;
    while j > lo && in_class(k, s[j - 1])
        invariant
            lo <= j <= hi <= s@.len(),
            run_start(s@, lo as int, hi as int, k) == run_start(s@, lo as int, j as int, k),
        decreases j - lo,
    {
        j = j - 1;
    }
    proof {
        lemma_run_start(s@, lo as int, hi as int, k);
    }
    j
}

/// The characters of a string, in order.
pub fn to_chars(s: &str) -> (v: Vec<char>)
    ensures
        v@ == s@,
{
    let mut v: Vec<char> = Vec::new();
    for c in it: s.chars()
        invariant
            v@ == it.seq().take(it.index@),
    {
        v.push(c);
    }
    v
}

/// The string made of the characters of `s` from `lo` up to `hi`.
pub fn string_of(s: &[char], lo: usize, hi: usize) -> (r: String)
    requires
        lo <= hi <= s@.len(),
    ensures
        r@ == s@.subrange(lo as int, hi as int),
{
    string_from_chars(slice_subrange(s, lo, hi))
}

/// Whether `pat` stands in `s` at position `i`.
pub open spec fn starts_with_at(s: Seq<char>, i: int, pat: Seq<char>) -> bool {
    0 <= i && i + pat.len() <= s.len() && s.subrange(i, i + pat.len()) == pat
}

/// Decides `starts_with_at`.
pub fn has_at(s: &[char], i: usize, pat: &str) -> (r: bool)
    requires
        i <= s@.len(),
    ensures
        r == starts_with_at(s@, i as int, pat@),
        r ==> i + pat@.len() <= s@.len() <= usize::MAX,
{
    let n: usize = pat.unicode_len();
    if n > s.len() - i {
        return false;
    }
    let mut k: usize = 0;
    while k < n
        invariant
            k <= n,
            n == pat@.len(),
            i + n <= s@.len() <= usize::MAX,
            s@.subrange(i as int, i + k) == pat@.subrange(0, k as int),
        decreases n - k,
    {
        if s[i + k] != pat.get_char(k) {
            return false;
        }
        k = k + 1;
    }
    proof {
        assert(pat@.subrange(0, n as int) =~= pat@);
    }
    true
}

/// The first position from `i` on at which `pat` stands in `s`, if there is one.
pub open spec fn find_from(s: Seq<char>, i: int, pat: Seq<char>) -> Option<int>
    decreases s.len() - i,
{
    if 0 <= i && i + pat.len() <= s.len() {
        if starts_with_at(s, i, pat) {
            Some(i)
        } else if i < s.len() {
            find_from(s, i + 1, pat)
        } else {
            None
        }
    } else {
        None
    }
}

/// `find_from` finds the first occurrence, and finds one whenever there is one.
pub proof fn lemma_find_from(s: Seq<char>, i: int, pat: Seq<char>)
    requires
        0 <= i,
    ensures
        match find_from(s, i, pat) {
            Some(j) => i <= j && starts_with_at(s, j, pat) && forall|k: int|
                i <= k < j ==> !starts_with_at(s, k, pat),
            None => forall|k: int| i <= k ==> !starts_with_at(s, k, pat),
        },
    decreases s.len() - i,
{
    if i + pat.len() <= s.len() {
        if !starts_with_at(s, i, pat) && i < s.len() {
            lemma_find_from(s, i + 1, pat);
        }
    }
}

/// Computes `find_from`.
pub fn find(s: &[char], i: usize, pat: &str) -> (r: Option<usize>)
    requires
        i <= s@.len(),
    ensures
        r.is_some() == find_from(s@, i as int, pat@).is_some(),
        r.is_some() ==> find_from(s@, i as int, pat@) == Some(r.unwrap() as int),
        r.is_some() ==> i <= r.unwrap() && r.unwrap() + pat@.len() <= s@.len() <= usize::MAX,
{
    let n: usize = pat.unicode_len();
    let len: usize = s.len();
    if n == 0 {
        proof {
            assert(s@.subrange(i as int, i as int) =~= pat@);
        }
        return Some(i);
    }
    let mut j: usize = i;
    while n <= len - j
        invariant
            i <= j <= len == s@.len(),
            n == pat@.len(),
            n > 0,
            find_from(s@, i as int, pat@) == find_from(s@, j as int, pat@),
        decreases s@.len() - j,
    {
        if has_at(s, j, pat) {
            return Some(j);
        }
        j = j + 1;
    }
    None
}

/// Whether `pat` occurs in `s`.
pub open spec fn contains(s: Seq<char>, pat: Seq<char>) -> bool {
    exists|i: int| starts_with_at(s, i, pat)
}

/// A text holds what a search from its start finds in it.
pub proof fn lemma_contains(s: Seq<char>, pat: Seq<char>)
    ensures
        contains(s, pat) <==> find_from(s, 0, pat).is_some(),
{
    lemma_find_from(s, 0, pat);
    if contains(s, pat) {
        let i = choose|i: int| starts_with_at(s, i, pat);
        assert(0 <= i);
    }
}

/// Decides `contains`.
pub fn holds_text(text: &str, part: &str) -> (r: bool)
    ensures
        r == contains(text@, part@),
{
    let s = to_chars(text);
    proof {
        lemma_contains(s@, part@);
    }
    find(s.as_slice(), 0, part).is_some()
}

/// `s` without the whitespace at its two ends.
pub open spec fn trim(s: Seq<char>) -> Seq<char> {
    let a = run_end(s, 0, s.len() as int, CharClass::Whitespace);
    s.subrange(a, run_start(s, a, s.len() as int, CharClass::Whitespace))
}

/// What `trim` leaves is a part of `s` that neither starts nor ends with
/// whitespace, and what it takes away at either end is whitespace only.
pub proof fn lemma_trim(s: Seq<char>)
    ensures
        ({
            let a = run_end(s, 0, s.len() as int, CharClass::Whitespace);
            let b = run_start(s, a, s.len() as int, CharClass::Whitespace);
            &&& 0 <= a <= b <= s.len()
            &&& trim(s) == s.subrange(a, b)
            &&& forall|j: int| 0 <= j < a ==> is_whitespace(#[trigger] s[j])
            &&& forall|j: int| b <= j < s.len() ==> is_whitespace(#[trigger] s[j])
            &&& a < b ==> !is_whitespace(s[a]) && !is_whitespace(s[b - 1])
            &&& a < b ==> !is_whitespace(trim(s).first()) && !is_whitespace(trim(s).last())
        }),
{
    lemma_run_end(s, 0, s.len() as int, CharClass::Whitespace);
    let a = run_end(s, 0, s.len() as int, CharClass::Whitespace);
    lemma_run_start(s, a, s.len() as int, CharClass::Whitespace);
}

/// A run inside a part of `s` is the run inside `s`, cut at the part's end.
pub proof fn lemma_run_end_part(s: Seq<char>, lo: int, hi: int, i: int, k: CharClass)
    requires
        0 <= lo <= i <= hi <= s.len(),
    ensures
        run_end(s.subrange(lo, hi), i - lo, hi - lo, k) == run_end(s, i, hi, k) - lo,
    decreases hi - i,
{
    if i < hi && member(k, s[i]) {
        lemma_run_end_part(s, lo, hi, i + 1, k);
    }
}

/// The same, for runs read backwards.
pub proof fn lemma_run_start_part(s: Seq<char>, lo: int, hi: int, a: int, j: int, k: CharClass)
    requires
        0 <= lo <= a <= j <= hi <= s.len(),
    ensures
        run_start(s.subrange(lo, hi), a - lo, j - lo, k) == run_start(s, a, j, k) - lo,
    decreases j - a,
{
    if a < j && member(k, s[j - 1]) {
        lemma_run_start_part(s, lo, hi, a, j - 1, k);
    }
}

/// The bounds of what is left of `s[lo..hi]` once it is trimmed.
pub fn trim_bounds(s: &[char], lo: usize, hi: usize) -> (r: (usize, usize))
    requires
        lo <= hi <= s@.len(),
    ensures
        r.0 == run_end(s@, lo as int, hi as int, CharClass::Whitespace),
        r.1 == run_start(s@, r.0 as int, hi as int, CharClass::Whitespace),
        lo <= r.0 <= r.1 <= hi,
        s@.subrange(r.0 as int, r.1 as int) == trim(s@.subrange(lo as int, hi as int)),
{
    let a: usize = skip_run(s, lo, hi, CharClass::Whitespace);
    let b: usize = skip_run_back(s, a, hi, CharClass::Whitespace);
    proof {
        lemma_run_end_part(s@, lo as int, hi as int, lo as int, CharClass::Whitespace);
        lemma_run_start_part(s@, lo as int, hi as int, a as int, hi as int, CharClass::Whitespace);
    }
    (a, b)
}

/// The trimmed text of `s[lo..hi]`, as a string.
pub fn trimmed_string(s: &[char], lo: usize, hi: usize) -> (r: String)
    requires
        lo <= hi <= s@.len(),
    ensures
        r@ == trim(s@.subrange(lo as int, hi as int)),
{
    let (a, b) = trim_bounds(s, lo, hi);
    string_of(s, a, b)
}

/// The line that starts at `i`: where its text ends and where the next line
/// starts. A line ends in a line feed, or in a carriage return and a line
/// feed; text that a lone carriage return or the end of the input cuts off
/// is no line.
pub open spec fn line_at(s: Seq<char>, i: int) -> Option<(int, int)> {
    let e = run_end(s, i, s.len() as int, CharClass::LineText);
    if 0 <= i <= s.len() && e < s.len() {
        if s[e] == '\n' {
            Some((e, e + 1))
        } else if e + 1 < s.len() && s[e + 1] == '\n' {
            Some((e, e + 2))
        } else {
            None
        }
    } else {
        None
    }
}

/// Computes `line_at`.
pub fn read_line(s: &[char], i: usize) -> (r: Option<(usize, usize)>)
    requires
        i <= s@.len(),
    ensures
        r.is_some() == line_at(s@, i as int).is_some(),
        r.is_some() ==> line_at(s@, i as int) == Some((r.unwrap().0 as int, r.unwrap().1 as int)),
        r.is_some() ==> i <= r.unwrap().0 < r.unwrap().1 <= s@.len(),
{
    let e: usize = skip_run(s, i, s.len(), CharClass::LineText);
    if e < s.len() {
        if s[e] == '\n' {
            Some((e, e + 1))
        } else if e + 1 < s.len() && s[e + 1] == '\n' {
            Some((e, e + 2))
        } else {
            None
        }
    } else {
        None
    }
}

/// Where a line ending that stands at `i` ends, if one stands there.
pub open spec fn line_ending_at(s: Seq<char>, i: int) -> Option<int> {
    if 0 <= i < s.len() && s[i] == '\n' {
        Some(i + 1)
    } else if 0 <= i && i + 1 < s.len() && s[i] == '\r' && s[i + 1] == '\n' {
        Some(i + 2)
    } else {
        None
    }
}

/// Computes `line_ending_at`.
pub fn read_line_ending(s: &[char], i: usize) -> (r: Option<usize>)
    requires
        i <= s@.len(),
    ensures
        r.is_some() == line_ending_at(s@, i as int).is_some(),
        r.is_some() ==> line_ending_at(s@, i as int) == Some(r.unwrap() as int),
        r.is_some() ==> i < r.unwrap() <= s@.len(),
{
    if i < s.len() && s[i] == '\n' {
        Some(i + 1)
    } else if i < s.len() && i + 1 < s.len() && s[i] == '\r' && s[i + 1] == '\n' {
        Some(i + 2)
    } else {
        None
    }
}

/// Where the text of the line that starts at `i` ends: at a line ending or at
/// the end of `s`. A lone carriage return ends no line.
pub open spec fn line_text_end(s: Seq<char>, i: int) -> Option<int> {
    let e = run_end(s, i, s.len() as int, CharClass::LineText);
    if 0 <= i <= s.len() && (e == s.len() || line_ending_at(s, e).is_some()) {
        Some(e)
    } else {
        None
    }
}

/// Computes `line_text_end`.
pub fn read_line_text(s: &[char], i: usize) -> (r: Option<usize>)
    requires
        i <= s@.len(),
    ensures
        r.is_some() == line_text_end(s@, i as int).is_some(),
        r matches Some(e) ==> line_text_end(s@, i as int) == Some(e as int) && i <= e <= s@.len(),
{
    let e: usize = skip_run(s, i, s.len(), CharClass::LineText);
    if e == s.len() || read_line_ending(s, e).is_some() {
        Some(e)
    } else {
        None
    }
}

/// What is left of `input` from its character `from` on.
pub fn rest_of(input: &str, from: usize) -> (r: &str)
    requires
        from <= input@.len(),
    ensures
        r@ == input@.subrange(from as int, input@.len() as int),
{
    input.substring_char(from, input.unicode_len())
}

/// Whether two strings hold the same characters.
pub fn same_text(a: &str, b: &str) -> (r: bool)
    ensures
        r == (a@ == b@),
{
    let s = to_chars(a);
    if s.len() != b.unicode_len() {
        return false;
    }
    proof {
        assert(s@.subrange(0, s@.len() as int) =~= s@);
    }
    has_at(s.as_slice(), 0, b)
}

/// The number that a text of decimal digits denotes.
pub open spec fn decimal_value(digits: Seq<char>) -> int
    decreases digits.len(),
{
    if digits.len() == 0 {
        0
    } else {
        decimal_value(digits.drop_last()) * 10 + (digits.last() as int - '0' as int)
    }
}

/// Whether `c` is one of the digits `0` to `9`.
pub open spec fn is_digit(c: char) -> bool {
    '0' <= c && c <= '9'
}

/// `s` without a `+` at its start.
pub open spec fn unsigned_part(s: Seq<char>) -> Seq<char> {
    if s.len() > 0 && s[0] == '+' {
        s.subrange(1, s.len() as int)
    } else {
        s
    }
}

/// The number below 2^32 that a text denotes: an optional `+`, then one or
/// more of the digits `0` to `9`, and nothing else.
pub open spec fn u32_of(s: Seq<char>) -> Option<u32> {
    let digits = unsigned_part(s);
    if digits.len() > 0 && (forall|k: int| 0 <= k < digits.len() ==> is_digit(#[trigger] digits[k]))
        && decimal_value(digits) <= u32::MAX {
        Some(decimal_value(digits) as u32)
    } else {
        None
    }
}

/// The value of a text grows with every digit that is added to it.
pub proof fn lemma_decimal_value_grows(digits: Seq<char>, n: int)
    requires
        0 <= n <= digits.len(),
        forall|k: int| 0 <= k < digits.len() ==> is_digit(#[trigger] digits[k]),
    ensures
        0 <= decimal_value(digits.subrange(0, n)) <= decimal_value(digits),
    decreases digits.len() - n,
{
    lemma_decimal_value_nonneg(digits.subrange(0, n));
    if n < digits.len() {
        let longer = digits.subrange(0, n + 1);
        assert(longer.drop_last() =~= digits.subrange(0, n));
        lemma_decimal_value_grows(digits, n + 1);
    } else {
        assert(digits.subrange(0, n) =~= digits);
    }
}

/// The value of a text of digits is not negative.
pub proof fn lemma_decimal_value_nonneg(digits: Seq<char>)
    requires
        forall|k: int| 0 <= k < digits.len() ==> is_digit(#[trigger] digits[k]),
    ensures
        0 <= decimal_value(digits),
    decreases digits.len(),
{
    if digits.len() > 0 {
        lemma_decimal_value_nonneg(digits.drop_last());
    }
}

/// Computes `u32_of`.
pub fn parse_u32(text: &str) -> (r: Option<u32>)
    ensures
        r == u32_of(text@),
{
    let s = to_chars(text);
    let start: usize = if s.len() > 0 && s[0] == '+' {
        1
    } else {
        0
    };
    if start == s.len() {
        return None;
    }
    let ghost digits = s@.subrange(start as int, s@.len() as int);
    let mut value: u32 = 0;
    let mut k: usize = start;
    while k < s.len()
        invariant
            start <= k <= s@.len(),
            digits == s@.subrange(start as int, s@.len() as int),
            digits == unsigned_part(text@),
            forall|j: int| 0 <= j < k - start ==> is_digit(#[trigger] digits[j]),
            value == decimal_value(digits.subrange(0, k - start)),
        decreases s@.len() - k,
    {
        let c: char = s[k];
        if !('0' <= c && c <= '9') {
            proof {
                assert(!is_digit(digits[k - start]));
            }
            return None;
        }
        let d: u32 = (c as u32) - ('0' as u32);
        proof {
            let longer = digits.subrange(0, k - start + 1);
            assert(longer.drop_last() =~= digits.subrange(0, k - start));
            if value * 10 + d > u32::MAX {
                if forall|j: int| 0 <= j < digits.len() ==> is_digit(#[trigger] digits[j]) {
                    lemma_decimal_value_grows(digits, k - start + 1);
                }
            }
        }
        if value > 429496729 || (value == 429496729 && d > 5) {
            return None;
        }
        value = value * 10 + d;
        k = k + 1;
    }
    proof {
        assert(digits.subrange(0, digits.len() as int) =~= digits);
    }
    Some(value)
}

} // verus!
